//! Decimal rendering of coordinates and the cell identifier format:
//! the literal `drag` followed by the decimal row and the decimal column.

use crate::COLS;
use crate::ROWS;
use vstd::prelude::*;

verus! {

/// The character that renders a single decimal digit.
pub open spec fn digit_char_spec(d: int) -> char {
    if d == 0 {
        '0'
    } else if d == 1 {
        '1'
    } else if d == 2 {
        '2'
    } else if d == 3 {
        '3'
    } else if d == 4 {
        '4'
    } else if d == 5 {
        '5'
    } else if d == 6 {
        '6'
    } else if d == 7 {
        '7'
    } else if d == 8 {
        '8'
    } else {
        '9'
    }
}

/// The usual decimal rendering of a natural number, most significant
/// digit first, with no leading zeros (`0` renders as `"0"`).
pub open spec fn dec_spec(n: nat) -> Seq<char>
    decreases n,
{
    if n < 10 {
        seq![digit_char_spec(n as int)]
    } else {
        dec_spec(n / 10) + seq![digit_char_spec((n % 10) as int)]
    }
}

/// The identifier of the draggable element at `(row, col)`:
/// `drag` followed by the decimal row and the decimal column.
pub open spec fn cell_id_spec(row: nat, col: nat) -> Seq<char> {
    seq!['d', 'r', 'a', 'g'] + dec_spec(row) + dec_spec(col)
}

/// One-character string for a single decimal digit.
fn digit_str(d: u32) -> (s: &'static str)
    requires
        d < 10,
    ensures
        s@ == seq![digit_char_spec(d as int)],
{
    if d == 0 {
        proof {
            reveal_strlit("0");
        }
        assert("0"@ =~= seq![digit_char_spec(0)]);
        "0"
    } else if d == 1 {
        proof {
            reveal_strlit("1");
        }
        assert("1"@ =~= seq![digit_char_spec(1)]);
        "1"
    } else if d == 2 {
        proof {
            reveal_strlit("2");
        }
        assert("2"@ =~= seq![digit_char_spec(2)]);
        "2"
    } else if d == 3 {
        proof {
            reveal_strlit("3");
        }
        assert("3"@ =~= seq![digit_char_spec(3)]);
        "3"
    } else if d == 4 {
        proof {
            reveal_strlit("4");
        }
        assert("4"@ =~= seq![digit_char_spec(4)]);
        "4"
    } else if d == 5 {
        proof {
            reveal_strlit("5");
        }
        assert("5"@ =~= seq![digit_char_spec(5)]);
        "5"
    } else if d == 6 {
        proof {
            reveal_strlit("6");
        }
        assert("6"@ =~= seq![digit_char_spec(6)]);
        "6"
    } else if d == 7 {
        proof {
            reveal_strlit("7");
        }
        assert("7"@ =~= seq![digit_char_spec(7)]);
        "7"
    } else if d == 8 {
        proof {
            reveal_strlit("8");
        }
        assert("8"@ =~= seq![digit_char_spec(8)]);
        "8"
    } else {
        proof {
            reveal_strlit("9");
        }
        assert("9"@ =~= seq![digit_char_spec(9)]);
        "9"
    }
}

/// Renders `n` in decimal.
pub fn u32_to_decimal(n: u32) -> (s: String)
    ensures
        s@ == dec_spec(n as nat),
    decreases n,
{
    if n < 10 {
        String::from_str(digit_str(n))
    } else {
        let mut s = u32_to_decimal(n / 10);
        s.append(digit_str(n % 10));
        proof {
            assert(s@ =~= dec_spec(n as nat));
        }
        s
    }
}

/// Builds the identifier of the element at `(row, col)`.
pub fn cell_id(row: u32, col: u32) -> (s: String)
    ensures
        s@ == cell_id_spec(row as nat, col as nat),
{
    let mut s = String::from_str("drag");
    proof {
        reveal_strlit("drag");
        assert("drag"@ =~= seq!['d', 'r', 'a', 'g']);
    }
    let r = u32_to_decimal(row);
    s.append(r.as_str());
    let c = u32_to_decimal(col);
    s.append(c.as_str());
    proof {
        assert(s@ =~= cell_id_spec(row as nat, col as nat));
    }
    s
}

/// Two distinct decimal digits render as two distinct characters.
pub proof fn lemma_digit_chars_distinct(d1: int, d2: int)
    requires
        0 <= d1 < 10,
        0 <= d2 < 10,
        d1 != d2,
    ensures
        digit_char_spec(d1) != digit_char_spec(d2),
{
}

/// Within the grid, two distinct positions always get distinct
/// identifiers: the identifier determines the position.
pub proof fn lemma_cell_ids_distinct(r1: nat, c1: nat, r2: nat, c2: nat)
    requires
        r1 < ROWS,
        c1 < COLS,
        r2 < ROWS,
        c2 < COLS,
        !(r1 == r2 && c1 == c2),
    ensures
        cell_id_spec(r1, c1) != cell_id_spec(r2, c2),
{
    let s1 = cell_id_spec(r1, c1);
    let s2 = cell_id_spec(r2, c2);
    assert(dec_spec(r1) == seq![digit_char_spec(r1 as int)]);
    assert(dec_spec(c1) == seq![digit_char_spec(c1 as int)]);
    assert(dec_spec(r2) == seq![digit_char_spec(r2 as int)]);
    assert(dec_spec(c2) == seq![digit_char_spec(c2 as int)]);
    assert(s1[4] == digit_char_spec(r1 as int));
    assert(s1[5] == digit_char_spec(c1 as int));
    assert(s2[4] == digit_char_spec(r2 as int));
    assert(s2[5] == digit_char_spec(c2 as int));
    if r1 != r2 {
        lemma_digit_chars_distinct(r1 as int, r2 as int);
        assert(s1[4] != s2[4]);
    } else {
        lemma_digit_chars_distinct(c1 as int, c2 as int);
        assert(s1[5] != s2[5]);
    }
}

} // verus!
