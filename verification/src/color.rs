//! ANSI color escape sequences for the prompt.
//!
//! Every escape is wrapped in `\[` ... `\]` so the shell can tell the
//! non-printing parts of the prompt from the printing ones when it
//! measures the prompt's width.

use vstd::prelude::*;
use vstd::string::StringExecFns;

verus! {

pub const BLACK: u16 = 0;

pub const RED: u16 = 1;

pub const GREEN: u16 = 2;

pub const YELLOW: u16 = 3;

pub const BLUE: u16 = 4;

pub const MAGENTA: u16 = 5;

pub const CYAN: u16 = 6;

pub const WHITE: u16 = 7;

/// The character standing for decimal digit `d`.
pub open spec fn digit_char(d: nat) -> char {
    if d == 0 {
        '0'
    } else if d == 1 {
        '1'
    } else if d == 2 {
        '2'
    } else if d == 3 {
        '3'
    } else if d == 4 {
        '4'
    } else if d == 5 {
        '5'
    } else if d == 6 {
        '6'
    } else if d == 7 {
        '7'
    } else if d == 8 {
        '8'
    } else {
        '9'
    }
}

/// The decimal digits of `n`, most significant first.
pub open spec fn dec_spec(n: nat) -> Seq<char>
    decreases n,
{
    if n < 10 {
        seq![digit_char(n)]
    } else {
        dec_spec(n / 10).push(digit_char(n % 10))
    }
}

/// A shell-quoted escape command: `\[`, the escape byte, `[`, the body,
/// and the closing `\]`.
pub open spec fn col_cmd_spec(body: Seq<char>) -> Seq<char> {
    seq!['\\', '[', '\u{1b}', '['] + body + seq!['\\', ']']
}

/// The escape sequence that turns color `c` on.
pub open spec fn col_spec(c: u16) -> Seq<char> {
    col_cmd_spec(dec_spec(c as nat + 30) + seq!['m'])
}

/// The escape sequence that turns color `c` on, bold variant.
pub open spec fn bcol_spec(c: u16) -> Seq<char> {
    col_cmd_spec(seq!['1', ';'] + dec_spec(c as nat + 30) + seq!['m'])
}

/// The escape sequence that resets all attributes.
pub open spec fn reset_spec() -> Seq<char> {
    col_cmd_spec(seq!['0', 'm'])
}

fn digit_str(d: u32) -> (r: &'static str)
    requires
        d < 10,
    ensures
        r@ == seq![digit_char(d as nat)],
{
    match d {
        0 => {
            proof {
                reveal_strlit("0");
                assert("0"@ =~= seq![digit_char(0)]);
            }
            "0"
        },
        1 => {
            proof {
                reveal_strlit("1");
                assert("1"@ =~= seq![digit_char(1)]);
            }
            "1"
        },
        2 => {
            proof {
                reveal_strlit("2");
                assert("2"@ =~= seq![digit_char(2)]);
            }
            "2"
        },
        3 => {
            proof {
                reveal_strlit("3");
                assert("3"@ =~= seq![digit_char(3)]);
            }
            "3"
        },
        4 => {
            proof {
                reveal_strlit("4");
                assert("4"@ =~= seq![digit_char(4)]);
            }
            "4"
        },
        5 => {
            proof {
                reveal_strlit("5");
                assert("5"@ =~= seq![digit_char(5)]);
            }
            "5"
        },
        6 => {
            proof {
                reveal_strlit("6");
                assert("6"@ =~= seq![digit_char(6)]);
            }
            "6"
        },
        7 => {
            proof {
                reveal_strlit("7");
                assert("7"@ =~= seq![digit_char(7)]);
            }
            "7"
        },
        8 => {
            proof {
                reveal_strlit("8");
                assert("8"@ =~= seq![digit_char(8)]);
            }
            "8"
        },
        _ => {
            proof {
                reveal_strlit("9");
                assert("9"@ =~= seq![digit_char(9)]);
            }
            "9"
        },
    }
}

/// Renders `n` in decimal.
pub fn dec_string(n: u32) -> (r: String)
    ensures
        r@ == dec_spec(n as nat),
    decreases n,
{
    if n < 10 {
        digit_str(n).to_owned()
    } else {
        let mut s = dec_string(n / 10);
        s.append(digit_str(n % 10));
        proof {
            assert(s@ =~= dec_spec(n as nat));
        }
        s
    }
}

/// Wraps an escape-command body in the shell-quoted escape frame.
pub fn col_cmd(c: &str) -> (r: String)
    ensures
        r@ == col_cmd_spec(c@),
{
    let mut s = "\\[\u{1b}[".to_owned();
    s.append(c);
    s.append("\\]");
    proof {
        reveal_strlit("\\[\u{1b}[");
        reveal_strlit("\\]");
        assert(s@ =~= col_cmd_spec(c@));
    }
    s
}

/// The escape sequence that turns color `c` on.
pub fn col(c: u16) -> (r: String)
    ensures
        r@ == col_spec(c),
{
    let mut body = dec_string(c as u32 + 30);
    body.append("m");
    proof {
        reveal_strlit("m");
        assert(body@ =~= dec_spec(c as nat + 30) + seq!['m']);
    }
    col_cmd(body.as_str())
}

/// The escape sequence that turns color `c` on, bold variant.
pub fn bcol(c: u16) -> (r: String)
    ensures
        r@ == bcol_spec(c),
{
    let mut body = "1;".to_owned();
    body.append(dec_string(c as u32 + 30).as_str());
    body.append("m");
    proof {
        reveal_strlit("1;");
        reveal_strlit("m");
        assert(body@ =~= seq!['1', ';'] + dec_spec(c as nat + 30) + seq!['m']);
    }
    col_cmd(body.as_str())
}

/// The escape sequence that resets all attributes.
pub fn reset() -> (r: String)
    ensures
        r@ == reset_spec(),
{
    proof {
        reveal_strlit("0m");
        assert("0m"@ =~= seq!['0', 'm']);
    }
    col_cmd("0m")
}

} // verus!
