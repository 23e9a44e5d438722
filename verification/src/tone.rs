//! Tone curves: the gamma adjustment of a luminance level, tabulated.
//!
//! A curve holds, for each of the 256 luminance levels, the level that takes its
//! place before a glyph is chosen. The power law of a gamma value,
//! `255 * (level / 255) ^ (1 / gamma)`, is such a curve: it keeps black and
//! white in place and never reverses the order of two levels. The table itself
//! is computed by the caller; this module checks and keeps it.

use vstd::prelude::*;

verus! {

/// Number of luminance levels.
pub const LEVELS: usize = 256;

/// Whether `levels` is the table of a tone curve: one entry for each level,
/// black and white kept in place, and no brighter level mapped below a darker
/// one.
pub open spec fn is_tone_table(levels: Seq<u8>) -> bool {
    &&& levels.len() == 256
    &&& levels[0] == 0
    &&& levels[255] == 255
    &&& forall|i: int, j: int| 0 <= i <= j < 256 ==> levels[i] <= levels[j]
}

/// The table that leaves every level as it is: the curve of gamma 1.
pub open spec fn identity_table() -> Seq<u8> {
    Seq::new(256, |i: int| i as u8)
}

/// A tone curve.
pub struct ToneCurve {
    levels: Vec<u8>,
}

impl View for ToneCurve {
    type V = Seq<u8>;

    closed spec fn view(&self) -> Seq<u8> {
        self.levels@
    }
}

impl ToneCurve {
    #[verifier::type_invariant]
    spec fn well_formed(&self) -> bool {
        is_tone_table(self.levels@)
    }

    /// The curve of gamma 1, which changes no level.
    pub fn identity() -> (curve: ToneCurve)
        ensures
            curve@ == identity_table(),
            is_tone_table(curve@),
    {
        let mut levels: Vec<u8> = Vec::new();
        let mut i: usize = 0;
        while i < LEVELS
            invariant
                i <= 256,
                levels@.len() == i,
                forall|k: int| 0 <= k < i ==> levels@[k] == k as u8,
            decreases 256 - i,
        {
            levels.push(i as u8);
            i = i + 1;
        }
        assert(levels@ =~= identity_table());
        ToneCurve { levels }
    }

    /// Takes a table as a curve if it is one: `None` unless `levels` has 256
    /// entries, starts at 0, ends at 255 and never descends.
    pub fn from_levels(levels: Vec<u8>) -> (curve: Option<ToneCurve>)
        ensures
            curve is Some <==> is_tone_table(levels@),
            curve matches Some(c) ==> c@ == levels@,
    {
        if levels.len() != LEVELS {
            return None;
        }
        if levels[0] != 0 || levels[255] != 255 {
            return None;
        }
        let mut i: usize = 1;
        while i < LEVELS
            invariant
                1 <= i <= 256,
                levels@.len() == 256,
                forall|a: int, b: int| 0 <= a <= b < i ==> levels@[a] <= levels@[b],
            decreases 256 - i,
        {
            if levels[i - 1] > levels[i] {
                return None;
            }
            i = i + 1;
        }
        Some(ToneCurve { levels })
    }

    /// The level that takes the place of `level`.
    pub fn apply(&self, level: u8) -> (adjusted: u8)
        ensures
            adjusted == self@[level as int],
    {
        proof {
            use_type_invariant(self);
        }
        self.levels[level as usize]
    }

    /// The table of the curve, one entry for each level from 0 to 255.
    pub fn levels(&self) -> (levels: Vec<u8>)
        ensures
            levels@ == self@,
            is_tone_table(levels@),
    {
        proof {
            use_type_invariant(self);
        }
        self.levels.clone()
    }

    /// A copy of the curve.
    pub fn duplicate(&self) -> (copy: ToneCurve)
        ensures
            copy@ == self@,
    {
        proof {
            use_type_invariant(self);
        }
        ToneCurve { levels: self.levels.clone() }
    }
}

/// A curve never maps a brighter level below a darker one, so after the
/// adjustment a brighter level still never gets an earlier glyph.
pub proof fn lemma_adjusted_glyph_monotone(table: Seq<u8>, darker: u8, brighter: u8)
    requires
        is_tone_table(table),
        darker <= brighter,
    ensures
        crate::glyph::glyph_index(table[darker as int]) <= crate::glyph::glyph_index(
            table[brighter as int],
        ),
{
}

/// The identity table is a tone table.
pub proof fn lemma_identity_is_tone_table()
    ensures
        is_tone_table(identity_table()),
{
}

} // verus!
