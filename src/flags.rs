use vstd::prelude::*;

verus! {

/// Style classification of a face, packed into one byte.
#[derive(Copy, Clone, Debug, PartialEq, Eq)]
pub struct FontFlags(u8);

pub open spec fn bit_set(bits: u8, mask: u8) -> bool {
    bits & mask != 0
}

proof fn lemma_packed_bits(a: u8, b: u8, c: u8, d: u8, e: u8)
    by (bit_vector)
    requires
        a == 0 || a == 1,
        b == 0 || b == 2,
        c == 0 || c == 4,
        d == 0 || d == 8,
        e == 0 || e == 16,
    ensures
        ((a | b | c | d | e) & 1 != 0) == (a == 1),
        ((a | b | c | d | e) & 2 != 0) == (b == 2),
        ((a | b | c | d | e) & 4 != 0) == (c == 4),
        ((a | b | c | d | e) & 8 != 0) == (d == 8),
        ((a | b | c | d | e) & 16 != 0) == (e == 16),
{
}

impl FontFlags {
    pub closed spec fn spec_regular(self) -> bool {
        bit_set(self.0, 0x1)
    }

    pub closed spec fn spec_italic(self) -> bool {
        bit_set(self.0, 0x2)
    }

    pub closed spec fn spec_bold(self) -> bool {
        bit_set(self.0, 0x4)
    }

    pub closed spec fn spec_oblique(self) -> bool {
        bit_set(self.0, 0x8)
    }

    pub closed spec fn spec_variable(self) -> bool {
        bit_set(self.0, 0x10)
    }

    /// Packs the five style booleans; each accessor hands back its own flag.
    pub fn new(regular: bool, italic: bool, bold: bool, oblique: bool, variable: bool) -> (r: Self)
        ensures
            r.spec_regular() == regular,
            r.spec_italic() == italic,
            r.spec_bold() == bold,
            r.spec_oblique() == oblique,
            r.spec_variable() == variable,
    {
        let r: u8 = (if regular { 0x1u8 } else { 0 }) | (if italic { 0x2u8 } else { 0 }) | (if bold {
            0x4u8
        } else {
            0
        }) | (if oblique { 0x8u8 } else { 0 }) | (if variable { 0x10u8 } else { 0 });
        let ghost (a, b, c, d, e) = (
            if regular { 1u8 } else { 0u8 },
            if italic { 2u8 } else { 0u8 },
            if bold { 4u8 } else { 0u8 },
            if oblique { 8u8 } else { 0u8 },
            if variable { 16u8 } else { 0u8 },
        );
        proof {
            lemma_packed_bits(a, b, c, d, e);
        }
        FontFlags(r)
    }

    pub fn regular(&self) -> (r: bool)
        ensures
            r == self.spec_regular(),
    {
        self.0 & 0x1 != 0
    }

    pub fn italic(&self) -> (r: bool)
        ensures
            r == self.spec_italic(),
    {
        self.0 & 0x2 != 0
    }

    pub fn bold(&self) -> (r: bool)
        ensures
            r == self.spec_bold(),
    {
        self.0 & 0x4 != 0
    }

    pub fn oblique(&self) -> (r: bool)
        ensures
            r == self.spec_oblique(),
    {
        self.0 & 0x8 != 0
    }

    pub fn variable(&self) -> (r: bool)
        ensures
            r == self.spec_variable(),
    {
        self.0 & 0x10 != 0
    }
}

} // verus!
