use vstd::prelude::*;
use vstd::string::*;

use crate::error::Error;

verus! {

/// A zero-based `(column, row)` coordinate pair on the 3x3 grid.
///
/// Positions are produced by validated parsing of coordinate tokens, so both
/// coordinates lie in `[0, 3)` (see [`Position::wf`]).
#[derive(PartialEq, Eq, Structural, Clone, Copy, Debug)]
pub struct Position(pub usize, pub usize);

/// Whether `s` is one of the nine valid coordinate tokens `a1` .. `c3`:
/// a column letter in `{a, b, c}` followed by a row digit in `{1, 2, 3}`.
pub open spec fn valid_token(s: Seq<char>) -> bool {
    &&& s.len() == 2
    &&& 'a' as int <= s[0] as int <= 'c' as int
    &&& '1' as int <= s[1] as int <= '3' as int
}

/// The column index a valid token's letter stands for: `a` is 0, `c` is 2.
pub open spec fn token_column(s: Seq<char>) -> int {
    s[0] as int - 'a' as int
}

/// The row index a valid token's digit stands for: `1` is 0, `3` is 2.
pub open spec fn token_row(s: Seq<char>) -> int {
    s[1] as int - '1' as int
}

impl Position {
    /// Both coordinates lie on the grid.
    pub open spec fn wf(self) -> bool {
        self.0 < 3 && self.1 < 3
    }

    /// Parses a coordinate token. Exactly the nine tokens `a1` .. `c3` are
    /// accepted, each mapping to its `(column, row)` pair; every other string
    /// is rejected with `Error::InvalidPosition`.
    pub fn parse(s: &str) -> (r: Result<Position, Error>)
        ensures
            valid_token(s@) ==> (r matches Ok(p) && p.0 == token_column(s@) && p.1 == token_row(
                s@,
            )),
            !valid_token(s@) ==> r == Err::<Position, Error>(Error::InvalidPosition),
            r matches Ok(p) ==> p.wf(),
    {
        if s.unicode_len() != 2 {
            return Err(Error::InvalidPosition);
        }
        let c0 = s.get_char(0);
        let c1 = s.get_char(1);
        let v0: u32 = c0 as u32;
        let v1: u32 = c1 as u32;
        if 'a' as u32 <= v0 && v0 <= 'c' as u32 && '1' as u32 <= v1 && v1 <= '3' as u32 {
            let column: usize = (v0 - 'a' as u32) as usize;
            let row: usize = (v1 - '1' as u32) as usize;
            Ok(Position(column, row))
        } else {
            Err(Error::InvalidPosition)
        }
    }
}

/// Valid tokens map to unique positions: two valid tokens that agree on the
/// mapped column and row are the same token.
pub proof fn lemma_token_unique(s1: Seq<char>, s2: Seq<char>)
    requires
        valid_token(s1),
        valid_token(s2),
        token_column(s1) == token_column(s2),
        token_row(s1) == token_row(s2),
    ensures
        s1 == s2,
{
    assert(s1[0] as int == s2[0] as int);
    assert(s1[1] as int == s2[1] as int);
    assert(s1[0] == s2[0]);
    assert(s1[1] == s2[1]);
    assert(s1 =~= s2);
}

} // verus!
