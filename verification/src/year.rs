use vstd::prelude::*;
use vstd::string::StringExecFns;

verus! {

/// The decimal digit character for `d`.
pub open spec fn digit_to_char(d: int) -> char {
    if d == 0 {
        '0'
    } else if d == 1 {
        '1'
    } else if d == 2 {
        '2'
    } else if d == 3 {
        '3'
    } else if d == 4 {
        '4'
    } else if d == 5 {
        '5'
    } else if d == 6 {
        '6'
    } else if d == 7 {
        '7'
    } else if d == 8 {
        '8'
    } else {
        '9'
    }
}

/// The four zero-padded decimal digits of a year between 0 and 9999.
pub open spec fn year4_spec(y: int) -> Seq<char> {
    seq![
        digit_to_char(y / 1000),
        digit_to_char((y / 100) % 10),
        digit_to_char((y / 10) % 10),
        digit_to_char(y % 10),
    ]
}

/// A well-formed year string: exactly four decimal digits.
pub open spec fn year_wf(s: Seq<char>) -> bool {
    s.len() == 4 && forall|i: int| 0 <= i < s.len() ==> '0' <= #[trigger] s[i] <= '9'
}

/// Every digit character lies between '0' and '9'.
proof fn lemma_digit_to_char_range(d: int)
    ensures
        '0' <= digit_to_char(d) <= '9',
{
}

/// The single-character string for the decimal digit `d`.
fn digit_str(d: u32) -> (r: &'static str)
    requires
        d < 10,
    ensures
        r@ == seq![digit_to_char(d as int)],
{
    if d == 0 {
        proof {
            reveal_strlit("0");
            assert("0"@ =~= seq![digit_to_char(0)]);
        }
        "0"
    } else if d == 1 {
        proof {
            reveal_strlit("1");
            assert("1"@ =~= seq![digit_to_char(1)]);
        }
        "1"
    } else if d == 2 {
        proof {
            reveal_strlit("2");
            assert("2"@ =~= seq![digit_to_char(2)]);
        }
        "2"
    } else if d == 3 {
        proof {
            reveal_strlit("3");
            assert("3"@ =~= seq![digit_to_char(3)]);
        }
        "3"
    } else if d == 4 {
        proof {
            reveal_strlit("4");
            assert("4"@ =~= seq![digit_to_char(4)]);
        }
        "4"
    } else if d == 5 {
        proof {
            reveal_strlit("5");
            assert("5"@ =~= seq![digit_to_char(5)]);
        }
        "5"
    } else if d == 6 {
        proof {
            reveal_strlit("6");
            assert("6"@ =~= seq![digit_to_char(6)]);
        }
        "6"
    } else if d == 7 {
        proof {
            reveal_strlit("7");
            assert("7"@ =~= seq![digit_to_char(7)]);
        }
        "7"
    } else if d == 8 {
        proof {
            reveal_strlit("8");
            assert("8"@ =~= seq![digit_to_char(8)]);
        }
        "8"
    } else {
        proof {
            reveal_strlit("9");
            assert("9"@ =~= seq![digit_to_char(9)]);
        }
        "9"
    }
}

/// Formats a year between 0 and 9999 as its four zero-padded decimal digits.
pub fn four_digit_year(y: u32) -> (r: String)
    requires
        y <= 9999,
    ensures
        r@ == year4_spec(y as int),
        year_wf(r@),
{
    let mut s = String::from_str(digit_str(y / 1000));
    s.append(digit_str((y / 100) % 10));
    s.append(digit_str((y / 10) % 10));
    s.append(digit_str(y % 10));
    proof {
        assert(s@ =~= year4_spec(y as int));
        assert forall|i: int| 0 <= i < s@.len() implies '0' <= #[trigger] s@[i] <= '9' by {
            lemma_digit_to_char_range((y as int) / 1000);
            lemma_digit_to_char_range(((y as int) / 100) % 10);
            lemma_digit_to_char_range(((y as int) / 10) % 10);
            lemma_digit_to_char_range((y as int) % 10);
        }
    }
    s
}

/// Relies on `chrono::Utc::now` and `chrono::Datelike::year`: the calendar
/// year of the current wall-clock time.  Nothing is promised of the value,
/// since it depends on the clock.  `Utc::now` itself panics on a system
/// clock set before the Unix epoch; that lies outside what this library can
/// exclude, as the call takes no inputs.
#[verifier::external_body]
fn utc_year() -> i32 {
    chrono::Datelike::year(&chrono::Utc::now())
}

/// The current calendar year as a four-digit string.  A clock reading
/// outside the representable range 0 to 9999 is clamped to the nearest
/// bound, so the result is always well formed.
pub fn current_year_string() -> (r: String)
    ensures
        year_wf(r@),
{
    let y = utc_year();
    let clamped: u32 = if y < 0 {
        0
    } else if y > 9999 {
        9999
    } else {
        y as u32
    };
    four_digit_year(clamped)
}

} // verus!
