//! Logical glyphs and the table that gives their byte codes.
use vstd::prelude::*;

verus! {

/// Byte code of a glyph, as the overlay hardware reads it.
pub type SymbolIndex = u8;

/// The glyphs that widgets draw besides plain ASCII.
#[derive(Copy, Clone, PartialEq, Eq, Structural, Debug)]
pub enum Symbol {
    Antenna,
    Battery,
    BoxDrawningLightUp,
    VeclocityVector,
    Alpha,
    Square,
    LineTop,
    LineUpper1,
    LineUpper2,
    LineCenter,
    LineLower1,
    LineLower2,
    LineBottom,
    LineLeft,
    LineLeft1,
    LineVerticalCenter,
    LineRight1,
    LineRight,
    ZeroWithTraillingDot,
}

/// Number of glyphs in `Symbol`.
pub const NUM_SYMBOLS: usize = 19;

/// Position of a glyph in declaration order.
pub open spec fn symbol_index(s: Symbol) -> nat {
    match s {
        Symbol::Antenna => 0,
        Symbol::Battery => 1,
        Symbol::BoxDrawningLightUp => 2,
        Symbol::VeclocityVector => 3,
        Symbol::Alpha => 4,
        Symbol::Square => 5,
        Symbol::LineTop => 6,
        Symbol::LineUpper1 => 7,
        Symbol::LineUpper2 => 8,
        Symbol::LineCenter => 9,
        Symbol::LineLower1 => 10,
        Symbol::LineLower2 => 11,
        Symbol::LineBottom => 12,
        Symbol::LineLeft => 13,
        Symbol::LineLeft1 => 14,
        Symbol::LineVerticalCenter => 15,
        Symbol::LineRight1 => 16,
        Symbol::LineRight => 17,
        Symbol::ZeroWithTraillingDot => 18,
    }
}

impl Symbol {
    pub fn index(&self) -> (i: usize)
        ensures
            i == symbol_index(*self),
            i < NUM_SYMBOLS,
    {
        match self {
            Symbol::Antenna => 0,
            Symbol::Battery => 1,
            Symbol::BoxDrawningLightUp => 2,
            Symbol::VeclocityVector => 3,
            Symbol::Alpha => 4,
            Symbol::Square => 5,
            Symbol::LineTop => 6,
            Symbol::LineUpper1 => 7,
            Symbol::LineUpper2 => 8,
            Symbol::LineCenter => 9,
            Symbol::LineLower1 => 10,
            Symbol::LineLower2 => 11,
            Symbol::LineBottom => 12,
            Symbol::LineLeft => 13,
            Symbol::LineLeft1 => 14,
            Symbol::LineVerticalCenter => 15,
            Symbol::LineRight1 => 16,
            Symbol::LineRight => 17,
            Symbol::ZeroWithTraillingDot => 18,
        }
    }
}

/// A total map from `Symbol` to byte codes.
pub struct SymbolTable {
    codes: Vec<u8>,
}

/// The codes of `default_symbol_table`, in `Symbol` order.
pub open spec fn default_code(s: Symbol) -> u8 {
    match s {
        Symbol::Antenna => 1,
        Symbol::Battery => 2,
        Symbol::BoxDrawningLightUp => 3,
        Symbol::VeclocityVector => 4,
        Symbol::Alpha => 5,
        Symbol::Square => 6,
        Symbol::LineTop => 128,
        Symbol::LineUpper1 => 129,
        Symbol::LineUpper2 => 130,
        Symbol::LineCenter => 131,
        Symbol::LineLower1 => 132,
        Symbol::LineLower2 => 133,
        Symbol::LineBottom => 134,
        Symbol::LineLeft => 135,
        Symbol::LineLeft1 => 136,
        Symbol::LineVerticalCenter => 137,
        Symbol::LineRight1 => 138,
        Symbol::LineRight => 139,
        Symbol::ZeroWithTraillingDot => 144,
    }
}

impl SymbolTable {
    /// The code of each glyph.
    pub closed spec fn code(&self, s: Symbol) -> u8 {
        self.codes@[symbol_index(s) as int]
    }

    pub closed spec fn wf(&self) -> bool {
        self.codes@.len() == NUM_SYMBOLS
    }

    pub fn get(&self, s: Symbol) -> (b: u8)
        requires
            self.wf(),
        ensures
            b == self.code(s),
    {
        self.codes[s.index()]
    }

    /// The same table with `s` mapped to `code`.
    pub fn with(self, s: Symbol, code: u8) -> (t: SymbolTable)
        requires
            self.wf(),
        ensures
            t.wf(),
            t.code(s) == code,
            forall|o: Symbol| o != s ==> #[trigger] t.code(o) == self.code(o),
    {
        let mut codes = self.codes;
        codes.set(s.index(), code);
        let t = SymbolTable { codes };
        assert forall|o: Symbol| o != s implies #[trigger] t.code(o) == self.code(o) by {
            assert(symbol_index(o) != symbol_index(s));
        }
        t
    }
}

pub fn default_symbol_table() -> (t: SymbolTable)
    ensures
        t.wf(),
        forall|s: Symbol| #[trigger] t.code(s) == default_code(s),
{
    let codes: Vec<u8> = vec![1, 2, 3, 4, 5, 6, 128, 129, 130, 131, 132, 133, 134, 135, 136, 137, 138, 139, 144];
    let t = SymbolTable { codes };
    assert forall|s: Symbol| #[trigger] t.code(s) == default_code(s) by {
        match s {
            Symbol::Antenna => {},
            _ => {},
        }
    }
    t
}

/// The dotted-digit glyph for an ASCII digit: the family starts at the glyph
/// for zero; anything else maps to that first glyph.
pub open spec fn number_with_dot(byte: u8, zero: u8) -> u8 {
    if 48 <= byte <= 57 {
        (zero + (byte - 48)) as u8
    } else {
        zero
    }
}

pub fn to_number_with_dot(byte: u8, zero_with_trailling_dot: SymbolIndex) -> (r: u8)
    requires
        zero_with_trailling_dot <= 246,
    ensures
        r == number_with_dot(byte, zero_with_trailling_dot),
{
    if 48 <= byte && byte <= 57 {
        zero_with_trailling_dot + (byte - 48)
    } else {
        zero_with_trailling_dot
    }
}

} // verus!
