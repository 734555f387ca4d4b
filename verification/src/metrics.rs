//! The metrics snapshot renderer.
//!
//! Each tick publishes a flat object with two numeric fields — the memory
//! working set and the used volume space, both in megabytes — overwritten
//! wholesale. The exact text is pinned here down to the character, so the
//! sink's content is a proved function of the two numbers.

use vstd::prelude::*;

verus! {

/// The decimal digit character for `d`.
pub open spec fn digit_char(d: int) -> char
    recommends
        0 <= d <= 9,
{
    if d == 0 {
        '0'
    } else if d == 1 {
        '1'
    } else if d == 2 {
        '2'
    } else if d == 3 {
        '3'
    } else if d == 4 {
        '4'
    } else if d == 5 {
        '5'
    } else if d == 6 {
        '6'
    } else if d == 7 {
        '7'
    } else if d == 8 {
        '8'
    } else {
        '9'
    }
}

/// The decimal digits of `n`, most significant first, without padding.
pub open spec fn dec_seq(n: int) -> Seq<char>
    recommends
        n >= 0,
    decreases n,
{
    if n < 10 {
        seq![digit_char(n)]
    } else {
        dec_seq(n / 10).push(digit_char(n % 10))
    }
}

fn digit_str(d: u64) -> (s: &'static str)
    requires
        d <= 9,
    ensures
        s@ == seq![digit_char(d as int)],
{
    match d {
        0 => {
            proof {
                reveal_strlit("0");
                assert("0"@ =~= seq![digit_char(0)]);
            }
            "0"
        },
        1 => {
            proof {
                reveal_strlit("1");
                assert("1"@ =~= seq![digit_char(1)]);
            }
            "1"
        },
        2 => {
            proof {
                reveal_strlit("2");
                assert("2"@ =~= seq![digit_char(2)]);
            }
            "2"
        },
        3 => {
            proof {
                reveal_strlit("3");
                assert("3"@ =~= seq![digit_char(3)]);
            }
            "3"
        },
        4 => {
            proof {
                reveal_strlit("4");
                assert("4"@ =~= seq![digit_char(4)]);
            }
            "4"
        },
        5 => {
            proof {
                reveal_strlit("5");
                assert("5"@ =~= seq![digit_char(5)]);
            }
            "5"
        },
        6 => {
            proof {
                reveal_strlit("6");
                assert("6"@ =~= seq![digit_char(6)]);
            }
            "6"
        },
        7 => {
            proof {
                reveal_strlit("7");
                assert("7"@ =~= seq![digit_char(7)]);
            }
            "7"
        },
        8 => {
            proof {
                reveal_strlit("8");
                assert("8"@ =~= seq![digit_char(8)]);
            }
            "8"
        },
        _ => {
            proof {
                reveal_strlit("9");
                assert("9"@ =~= seq![digit_char(9)]);
            }
            "9"
        },
    }
}

/// Renders `n` in decimal.
pub fn u64_to_dec(n: u64) -> (s: String)
    ensures
        s@ == dec_seq(n as int),
    decreases n,
{
    if n < 10 {
        String::from_str(digit_str(n))
    } else {
        let mut s = u64_to_dec(n / 10);
        let last = digit_str(n % 10);
        s.append(last);
        proof {
            assert(s@ =~= dec_seq((n / 10) as int).push(digit_char((n % 10) as int)));
        }
        s
    }
}

/// The exact metrics file content for a snapshot: a flat JSON object whose
/// `memory` field is the working set and whose `tmpfs` field is the used
/// volume space, both in megabytes.
pub open spec fn metrics_line(memory_mb: int, tmpfs_used_mb: int) -> Seq<char> {
    "{\"memory\":"@ + dec_seq(memory_mb) + ",\"tmpfs\":"@ + dec_seq(tmpfs_used_mb) + "}"@
}

/// Renders the metrics snapshot; the result is exactly `metrics_line`.
pub fn metrics_json(memory_mb: u64, tmpfs_used_mb: u64) -> (s: String)
    ensures
        s@ == metrics_line(memory_mb as int, tmpfs_used_mb as int),
{
    let mut s = String::from_str("{\"memory\":");
    let mem = u64_to_dec(memory_mb);
    s.append(mem.as_str());
    s.append(",\"tmpfs\":");
    let tmp = u64_to_dec(tmpfs_used_mb);
    s.append(tmp.as_str());
    s.append("}");
    proof {
        assert(s@ =~= metrics_line(memory_mb as int, tmpfs_used_mb as int));
    }
    s
}

} // verus!
