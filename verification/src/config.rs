//! The one configuration setting: the listener port, parsed from a textual
//! setting, with a fixed default when the setting is absent or unparsable.

use vstd::prelude::*;
use vstd::string::StrSliceExecFns;

verus! {

/// The port used when no setting is present or the setting does not parse.
pub const DEFAULT_PORT: u16 = 3000;

/// The character is a decimal digit.
pub open spec fn is_digit(c: char) -> bool {
    48 <= c as int && c as int <= 57
}

/// The numeric value of a decimal digit.
pub open spec fn digit_val(c: char) -> nat {
    (c as int - 48) as nat
}

/// Every character of the sequence is a decimal digit.
pub open spec fn all_digits(s: Seq<char>) -> bool {
    forall|i: int| 0 <= i < s.len() ==> is_digit(#[trigger] s[i])
}

/// The numeric value of a digit string, most significant digit first.
pub open spec fn dec_val(s: Seq<char>) -> nat
    decreases s.len(),
{
    if s.len() == 0 {
        0
    } else {
        dec_val(s.drop_last()) * 10 + digit_val(s.last())
    }
}

/// The digit part of a port setting: the whole text, or what follows a
/// single leading plus sign, which an unsigned parse accepts.
pub open spec fn digit_part(s: Seq<char>) -> Seq<char> {
    if s.len() > 0 && s[0] == '+' {
        s.subrange(1, s.len() as int)
    } else {
        s
    }
}

/// The setting parses as a port exactly when its digit part is a nonempty
/// run of decimal digits whose value fits a 16-bit port number.
pub open spec fn parses_as_port(s: Seq<char>) -> bool {
    digit_part(s).len() > 0 && all_digits(digit_part(s)) && dec_val(digit_part(s)) <= 65535
}

/// The port the service listens on: the parsed setting, or the default
/// when the setting is absent or does not parse as a port.
pub open spec fn port_of(setting: Option<Seq<char>>) -> u16 {
    match setting {
        Option::None => DEFAULT_PORT,
        Option::Some(s) => if parses_as_port(s) {
            dec_val(digit_part(s)) as u16
        } else {
            DEFAULT_PORT
        },
    }
}

/// Chooses the listener port for a setting as the environment handed it
/// over: absent, or present with some text.
pub fn port_from_setting(setting: Option<&str>) -> (p: u16)
    ensures
        (match setting {
            Option::Some(s) => p == port_of(Option::Some(s@)),
            Option::None => p == port_of(Option::<Seq<char>>::None),
        }),
{
    match setting {
        Option::None => DEFAULT_PORT,
        Option::Some(s) => parse_port(s),
    }
}

fn parse_port(s: &str) -> (p: u16)
    ensures
        p == port_of(Option::Some(s@)),
{
    let n: usize = s.unicode_len();
    let mut i: usize = 0;
    if n > 0 && s.get_char(0) == '+' {
        i = 1;
    }
    let ghost start: int = i as int;
    if i == n {
        proof {
            assert(digit_part(s@).len() == 0);
        }
        return DEFAULT_PORT;
    }
    let mut acc: u64 = 0;
    while i < n
        invariant
            n == s@.len(),
            start <= i as int <= n,
            start == (if s@.len() > 0 && s@[0] == '+' {
                1int
            } else {
                0int
            }),
            start < n,
            all_digits(s@.subrange(start, i as int)),
            dec_val(s@.subrange(start, i as int)) <= 65535 ==> acc == dec_val(
                s@.subrange(start, i as int),
            ),
            dec_val(s@.subrange(start, i as int)) > 65535 ==> acc > 65535,
            acc <= 655359,
        decreases n - i,
    {
        let c = s.get_char(i);
        let u: u32 = c as u32;
        if u < 48 || u > 57 {
            proof {
                assert(!all_digits(digit_part(s@))) by {
                    assert(digit_part(s@)[i as int - start] == s@[i as int]);
                    assert(!is_digit(s@[i as int]));
                }
            }
            return DEFAULT_PORT;
        }
        let d: u64 = (u - 48) as u64;
        proof {
            assert(s@.subrange(start, i as int + 1).drop_last() =~= s@.subrange(start, i as int));
            assert(s@.subrange(start, i as int + 1).last() == s@[i as int]);
            assert(digit_val(s@[i as int]) == d as nat);
            assert(all_digits(s@.subrange(start, i as int + 1))) by {
                assert(forall|j: int|
                    0 <= j < i as int - start ==> #[trigger] s@.subrange(start, i as int + 1)[j]
                        == s@.subrange(start, i as int)[j]);
            }
        }
        if acc <= 65535 {
            acc = acc * 10 + d;
        }
        i += 1;
    }
    proof {
        assert(s@.subrange(start, n as int) =~= digit_part(s@));
    }
    if acc > 65535 {
        return DEFAULT_PORT;
    }
    acc as u16
}

} // verus!
