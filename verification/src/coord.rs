//! Board coordinates.

use crate::decimal::{
    decimal, is_digit, lemma_decimal_chars, lemma_decimal_injective, push_decimal,
};
use vstd::prelude::*;
use vstd::string::StringExecFns;

verus! {

/// A cell position on the board, with a flag for positions off the grid.
#[derive(Clone, Copy, Debug, PartialEq, Eq, Structural)]
pub struct Coord {
    pub x: i32,
    pub y: i32,
    pub out_of_bound: bool,
}

impl Coord {
    /// The coordinate with exactly the given fields.
    pub fn new(x: i32, y: i32, out_of_bound: bool) -> (c: Self)
        ensures
            c == (Coord { x, y, out_of_bound }),
    {
        Coord { x, y, out_of_bound }
    }

    /// A coordinate on the grid.
    pub fn new_bounded(x: i32, y: i32) -> (c: Self)
        ensures
            c == (Coord { x, y, out_of_bound: false }),
    {
        Self::new(x, y, false)
    }

    /// How the coordinate is written: `(x, y)`, both numbers in decimal.
    pub open spec fn text(self) -> Seq<char> {
        seq!['('] + decimal(self.x as int) + seq![',', ' '] + decimal(self.y as int) + seq![')']
    }

    /// Coordinates that are written alike have the same `x` and the same `y`.
    pub proof fn lemma_text_decides_position(self, other: Coord)
        requires
            self.text() == other.text(),
        ensures
            self.x == other.x,
            self.y == other.y,
    {
        let (xa, ya) = (decimal(self.x as int), decimal(self.y as int));
        let (xb, yb) = (decimal(other.x as int), decimal(other.y as int));
        let (ta, tb) = (self.text(), other.text());
        let (la, lb) = (xa.len() as int, xb.len() as int);
        lemma_decimal_chars(self.x as int);
        lemma_decimal_chars(other.x as int);
        if la < lb {
            assert(tb[1 + la] == xb[la]);
        } else if lb < la {
            assert(ta[1 + lb] == xa[lb]);
        }
        assert(xa =~= ta.subrange(1, 1 + la));
        assert(xb =~= tb.subrange(1, 1 + lb));
        assert(ya =~= ta.subrange(3 + la, ta.len() - 1));
        assert(yb =~= tb.subrange(3 + lb, tb.len() - 1));
        lemma_decimal_injective(self.x as int, other.x as int);
        lemma_decimal_injective(self.y as int, other.y as int);
    }

    /// The coordinate as text. The flag is not part of it.
    pub fn to_string(&self) -> (s: String)
        ensures
            s@ == self.text(),
    {
        proof {
            reveal_strlit("(");
            reveal_strlit(", ");
            reveal_strlit(")");
        }
        let mut s = String::from_str("(");
        push_decimal(&mut s, self.x);
        s.append(", ");
        push_decimal(&mut s, self.y);
        s.append(")");
        s
    }
}

} // verus!
