//! Building the status lines the game shows.

use vstd::prelude::*;

verus! {

/// The decimal digits of a natural number.
pub open spec fn decimal(n: nat) -> Seq<char>
    decreases n,
{
    if n < 10 {
        seq![(48 + n) as char]
    } else {
        decimal(n / 10) + seq![(48 + n % 10) as char]
    }
}

/// The board label of a cell: its column letter (`A` for column 0) followed
/// by its row number counted from 1.
pub open spec fn coord_label(x: u8, y: u8) -> Seq<char> {
    seq![(65 + x) as char] + decimal((y + 1) as nat)
}

/// The column letter of column `x`.
fn column_letter(x: u8) -> (r: &'static str)
    requires
        x < 10,
    ensures
        r@ == seq![(65 + x) as char],
{
    match x {
        0 => {
            proof {
                reveal_strlit("A");
            }
            "A"
        },
        1 => {
            proof {
                reveal_strlit("B");
            }
            "B"
        },
        2 => {
            proof {
                reveal_strlit("C");
            }
            "C"
        },
        3 => {
            proof {
                reveal_strlit("D");
            }
            "D"
        },
        4 => {
            proof {
                reveal_strlit("E");
            }
            "E"
        },
        5 => {
            proof {
                reveal_strlit("F");
            }
            "F"
        },
        6 => {
            proof {
                reveal_strlit("G");
            }
            "G"
        },
        7 => {
            proof {
                reveal_strlit("H");
            }
            "H"
        },
        8 => {
            proof {
                reveal_strlit("I");
            }
            "I"
        },
        _ => {
            proof {
                reveal_strlit("J");
            }
            "J"
        },
    }
}

/// The row number (counted from 1) of row `y`.
fn row_number(y: u8) -> (r: &'static str)
    requires
        y < 10,
    ensures
        r@ == decimal((y + 1) as nat),
{
    reveal_with_fuel(decimal, 3);
    match y {
        0 => {
            proof {
                reveal_strlit("1");
            }
            "1"
        },
        1 => {
            proof {
                reveal_strlit("2");
            }
            "2"
        },
        2 => {
            proof {
                reveal_strlit("3");
            }
            "3"
        },
        3 => {
            proof {
                reveal_strlit("4");
            }
            "4"
        },
        4 => {
            proof {
                reveal_strlit("5");
            }
            "5"
        },
        5 => {
            proof {
                reveal_strlit("6");
            }
            "6"
        },
        6 => {
            proof {
                reveal_strlit("7");
            }
            "7"
        },
        7 => {
            proof {
                reveal_strlit("8");
            }
            "8"
        },
        8 => {
            proof {
                reveal_strlit("9");
            }
            "9"
        },
        _ => {
            proof {
                reveal_strlit("10");
                assert(decimal(10) =~= seq!['1', '0']);
            }
            "10"
        },
    }
}

/// Append the board label of a cell to a string.
pub fn push_coord_label(s: &mut String, x: u8, y: u8)
    requires
        x < 10,
        y < 10,
    ensures
        final(s)@ == old(s)@ + coord_label(x, y),
{
    s.append(column_letter(x));
    s.append(row_number(y));
    assert(s@ =~= old(s)@ + coord_label(x, y));
}

} // verus!
