use vstd::prelude::*;

verus! {

/// A cell value: one of the two player markers, or the empty-cell sentinel.
#[derive(PartialEq, Eq, Structural, Clone, Copy, Debug)]
pub enum Marker {
    /// The first player's marker, rendered as `X`.
    First,
    /// The second player's marker, rendered as `O`.
    Second,
    /// An unoccupied cell, rendered as `-`.
    Empty,
}

/// The marker whose turn follows `m`'s: `First` and `Second` trade places.
pub open spec fn opposite(m: Marker) -> Marker {
    if m == Marker::First {
        Marker::Second
    } else {
        Marker::First
    }
}

/// The single-character glyph that depicts `m` in the rendered grid.
pub open spec fn glyph_of(m: Marker) -> Seq<char> {
    if m == Marker::First {
        "X"@
    } else if m == Marker::Second {
        "O"@
    } else {
        "-"@
    }
}

impl Marker {
    /// The glyph for this marker, for rendering.
    pub fn glyph_str(&self) -> (g: &'static str)
        ensures
            g@ == glyph_of(*self),
    {
        match self {
            Marker::First => "X",
            Marker::Second => "O",
            Marker::Empty => "-",
        }
    }
}

/// Swapping turns is an involution: taking the opposite twice of any player
/// marker yields the marker itself.
pub proof fn lemma_opposite_involution(m: Marker)
    requires
        m != Marker::Empty,
    ensures
        opposite(opposite(m)) == m,
{
}

} // verus!
