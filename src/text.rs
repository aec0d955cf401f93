//! Decimal text of integers, through the formatting crates.
use vstd::prelude::*;
use numtoa::NumToA;

verus! {

/// ASCII decimal digits of `n`, most significant first, no leading zero.
pub open spec fn digits(n: nat) -> Seq<u8>
    decreases n,
{
    if n < 10 {
        seq![(48 + n) as u8]
    } else {
        digits(n / 10).push((48 + n % 10) as u8)
    }
}

/// ASCII decimal text of `n`: a '-' before the digits when negative.
pub open spec fn decimal(n: int) -> Seq<u8> {
    if n < 0 {
        seq![45u8] + digits((-n) as nat)
    } else {
        digits(n as nat)
    }
}

/// Relies on numtoa's `NumToA::numtoa` for `i32` in base 10: it writes the
/// decimal text of the number at the end of the buffer and returns those bytes.
#[verifier::external_body]
pub(crate) fn numtoa_decimal(n: i32) -> (r: Vec<u8>)
    ensures
        r@ == decimal(n as int),
{
    let mut buffer = [0u8; 12];
    n.numtoa(10, &mut buffer).to_vec()
}

/// Relies on heapless's `From<i32> for String<11>`, which writes the number
/// with `Display`: its decimal text, which always fits eleven bytes.
#[verifier::external_body]
pub(crate) fn heapless_decimal(n: i32) -> (r: Vec<u8>)
    ensures
        r@ == decimal(n as int),
{
    let s: heapless::String<11> = n.into();
    s.as_bytes().to_vec()
}

pub proof fn lemma_digits_len(n: nat)
    ensures
        1 <= digits(n).len(),
        n < 10 ==> digits(n).len() == 1,
        n < 100 ==> digits(n).len() <= 2,
        n < 1000 ==> digits(n).len() <= 3,
        n < 10000 ==> digits(n).len() <= 4,
        n < 100000 ==> digits(n).len() <= 5,
        n < 1000000 ==> digits(n).len() <= 6,
        n < 10000000 ==> digits(n).len() <= 7,
        n >= 10 ==> digits(n).len() >= 2,
        n >= 100 ==> digits(n).len() >= 3,
    decreases n,
{
    if n >= 10 {
        lemma_digits_len(n / 10);
    }
}

/// Three ASCII digits of `n`, zero padded, as a heading label shows it.
pub open spec fn label_digit(n: int, j: int) -> u8 {
    if j == 0 {
        (48 + (n / 100) % 10) as u8
    } else if j == 1 {
        (48 + (n / 10) % 10) as u8
    } else {
        (48 + n % 10) as u8
    }
}

/// The digits of `n < 1000` written right-aligned over "000" are its
/// zero-padded label.
pub proof fn lemma_label(n: nat)
    requires
        n < 1000,
    ensures
        digits(n).len() <= 3,
        forall|j: int|
            0 <= j < 3 ==> #[trigger] label_digit(n as int, j) == if j >= 3 - digits(n).len() {
                digits(n)[j - (3 - digits(n).len())]
            } else {
                48u8
            },
{
    lemma_digits_len(n);
    reveal_with_fuel(digits, 3);
    if n >= 10 {
        lemma_digits_len(n / 10);
        if n >= 100 {
            lemma_digits_len(n / 100);
            assert(digits(n / 10) == digits(n / 100).push((48 + (n / 10) % 10) as u8));
            assert((n / 10) / 10 == n / 100);
        }
    }
}

} // verus!

verus! {

pub proof fn lemma_decimal_len(n: int)
    ensures
        1 <= decimal(n).len(),
        0 <= n < 10 ==> decimal(n).len() == 1,
        0 <= n < 100 ==> decimal(n).len() <= 2,
        0 <= n < 1000 ==> decimal(n).len() <= 3,
        -1000 < n < 10000 ==> decimal(n).len() <= 4,
        0 <= n < 100000 ==> decimal(n).len() <= 5,
        -100000 < n < 100000 ==> decimal(n).len() <= 6,
        -1000000 < n < 10000000 ==> decimal(n).len() <= 8,
{
    if n < 0 {
        lemma_digits_len((-n) as nat);
    } else {
        lemma_digits_len(n as nat);
    }
}

/// `s` padded on the left with blanks to `n` bytes; longer text is kept whole.
pub open spec fn pad_left(s: Seq<u8>, n: int) -> Seq<u8> {
    if s.len() >= n {
        s
    } else {
        Seq::new((n - s.len()) as nat, |i: int| 32u8) + s
    }
}

/// `s` padded on the right with blanks to `n` bytes; longer text is kept whole.
pub open spec fn pad_right(s: Seq<u8>, n: int) -> Seq<u8> {
    if s.len() >= n {
        s
    } else {
        s + Seq::new((n - s.len()) as nat, |i: int| 32u8)
    }
}

pub fn padded_left(s: Vec<u8>, n: usize) -> (r: Vec<u8>)
    requires
        n <= 64,
    ensures
        r@ == pad_left(s@, n as int),
{
    if s.len() >= n {
        return s;
    }
    let mut r: Vec<u8> = Vec::new();
    let fill = n - s.len();
    let mut i: usize = 0;
    while i < fill
        invariant
            i <= fill,
            r@ == Seq::new(i as nat, |k: int| 32u8),
        decreases fill - i,
    {
        r.push(32);
        i = i + 1;
        assert(r@ =~= Seq::new(i as nat, |k: int| 32u8));
    }
    let mut j: usize = 0;
    while j < s.len()
        invariant
            j <= s@.len(),
            r@ == Seq::new(fill as nat, |k: int| 32u8) + s@.subrange(0, j as int),
        decreases s@.len() - j,
    {
        r.push(s[j]);
        j = j + 1;
        assert(r@ =~= Seq::new(fill as nat, |k: int| 32u8) + s@.subrange(0, j as int));
    }
    assert(s@.subrange(0, j as int) =~= s@);
    r
}

pub fn padded_right(s: Vec<u8>, n: usize) -> (r: Vec<u8>)
    requires
        n <= 64,
    ensures
        r@ == pad_right(s@, n as int),
{
    let mut r = s;
    if r.len() >= n {
        return r;
    }
    let ghost s0 = r@;
    let fill = n - r.len();
    let mut i: usize = 0;
    while i < fill
        invariant
            i <= fill,
            fill == n - s0.len(),
            r@ == s0 + Seq::new(i as nat, |k: int| 32u8),
        decreases fill - i,
    {
        r.push(32);
        i = i + 1;
        assert(r@ =~= s0 + Seq::new(i as nat, |k: int| 32u8));
    }
    r
}

/// `a` followed by `b`.
pub fn concat(a: Vec<u8>, b: &Vec<u8>) -> (r: Vec<u8>)
    ensures
        r@ == a@ + b@,
{
    let mut r = a;
    let ghost a0 = r@;
    let mut j: usize = 0;
    while j < b.len()
        invariant
            j <= b@.len(),
            r@ == a0 + b@.subrange(0, j as int),
        decreases b@.len() - j,
    {
        r.push(b[j]);
        j = j + 1;
        assert(r@ =~= a0 + b@.subrange(0, j as int));
    }
    assert(b@.subrange(0, j as int) =~= b@);
    r
}

} // verus!
