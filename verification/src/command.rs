//! Construction and invocation of the external command.
//!
//! A disable request may carry a duration in minutes; it is passed to the
//! external tool as a single token `<minutes>m` appended after the
//! subcommand, and omitted entirely when no duration was given. Formatting
//! the duration in decimal is verified; only the process invocation itself
//! is trusted.

use vstd::arithmetic::div_mod::lemma_div_denominator;
use vstd::arithmetic::div_mod::lemma_fundamental_div_mod;
use vstd::arithmetic::div_mod::lemma_small_mod;
use vstd::prelude::*;
use vstd::string::StringExecFns;

use crate::state::ExecOutcome;

verus! {

/// The character for one decimal digit.
pub open spec fn decimal_digit(d: int) -> char {
    if d == 0 {
        '0'
    } else if d == 1 {
        '1'
    } else if d == 2 {
        '2'
    } else if d == 3 {
        '3'
    } else if d == 4 {
        '4'
    } else if d == 5 {
        '5'
    } else if d == 6 {
        '6'
    } else if d == 7 {
        '7'
    } else if d == 8 {
        '8'
    } else {
        '9'
    }
}

/// The decimal representation of a non-negative integer, most significant
/// digit first, with no leading zeros (a single `'0'` for zero).
pub open spec fn spec_decimal(n: int) -> Seq<char>
    decreases n,
{
    if n < 10 {
        seq![decimal_digit(n)]
    } else {
        spec_decimal(n / 10).push(decimal_digit(n % 10))
    }
}

/// The numeric value of one digit character.
pub open spec fn digit_value(c: char) -> int {
    if c == '0' {
        0
    } else if c == '1' {
        1
    } else if c == '2' {
        2
    } else if c == '3' {
        3
    } else if c == '4' {
        4
    } else if c == '5' {
        5
    } else if c == '6' {
        6
    } else if c == '7' {
        7
    } else if c == '8' {
        8
    } else {
        9
    }
}

/// The numeric value of a digit string, most significant digit first.
pub open spec fn decimal_value(s: Seq<char>) -> int
    decreases s.len(),
{
    if s.len() == 0 {
        0
    } else {
        decimal_value(s.drop_last()) * 10 + digit_value(s.last())
    }
}

/// Law: the decimal representation of a non-negative integer reads back as
/// that integer, so distinct durations always produce distinct tokens.
pub proof fn lemma_decimal_round_trip(n: int)
    requires
        0 <= n,
    ensures
        decimal_value(spec_decimal(n)) == n,
    decreases n,
{
    if n < 10 {
        let s = spec_decimal(n);
        assert(s == seq![decimal_digit(n)]);
        assert(s.drop_last() =~= Seq::<char>::empty());
        assert(decimal_value(Seq::<char>::empty()) == 0);
        assert(s.last() == decimal_digit(n));
        assert(digit_value(decimal_digit(n)) == n);
        assert(decimal_value(s) == decimal_value(s.drop_last()) * 10 + digit_value(s.last()));
    } else {
        lemma_decimal_round_trip(n / 10);
        let s = spec_decimal(n);
        assert(s == spec_decimal(n / 10).push(decimal_digit(n % 10)));
        assert(s.drop_last() =~= spec_decimal(n / 10));
        assert(s.last() == decimal_digit(n % 10));
        assert(digit_value(decimal_digit(n % 10)) == n % 10);
        assert(decimal_value(s) == decimal_value(s.drop_last()) * 10 + digit_value(s.last()));
        lemma_fundamental_div_mod(n, 10);
    }
}

/// The string for one decimal digit.
fn decimal_digit_str(d: u8) -> (r: &'static str)
    requires
        d < 10,
    ensures
        r@ == seq![decimal_digit(d as int)],
{
    match d {
        0 => {
            proof {
                reveal_strlit("0");
                assert("0"@ =~= seq![decimal_digit(d as int)]);
            }
            "0"
        },
        1 => {
            proof {
                reveal_strlit("1");
                assert("1"@ =~= seq![decimal_digit(d as int)]);
            }
            "1"
        },
        2 => {
            proof {
                reveal_strlit("2");
                assert("2"@ =~= seq![decimal_digit(d as int)]);
            }
            "2"
        },
        3 => {
            proof {
                reveal_strlit("3");
                assert("3"@ =~= seq![decimal_digit(d as int)]);
            }
            "3"
        },
        4 => {
            proof {
                reveal_strlit("4");
                assert("4"@ =~= seq![decimal_digit(d as int)]);
            }
            "4"
        },
        5 => {
            proof {
                reveal_strlit("5");
                assert("5"@ =~= seq![decimal_digit(d as int)]);
            }
            "5"
        },
        6 => {
            proof {
                reveal_strlit("6");
                assert("6"@ =~= seq![decimal_digit(d as int)]);
            }
            "6"
        },
        7 => {
            proof {
                reveal_strlit("7");
                assert("7"@ =~= seq![decimal_digit(d as int)]);
            }
            "7"
        },
        8 => {
            proof {
                reveal_strlit("8");
                assert("8"@ =~= seq![decimal_digit(d as int)]);
            }
            "8"
        },
        _ => {
            proof {
                reveal_strlit("9");
                assert("9"@ =~= seq![decimal_digit(d as int)]);
            }
            "9"
        },
    }
}

/// Formats a duration in minutes as the single argument token the external
/// tool expects: the minutes in decimal, immediately followed by `'m'`.
pub fn duration_token(n: u8) -> (r: String)
    ensures
        r@ == spec_decimal(n as int).push('m'),
{
    let mut s = String::new();
    if n >= 100 {
        s.append(decimal_digit_str(n / 100));
    }
    if n >= 10 {
        s.append(decimal_digit_str((n / 10) % 10));
    }
    s.append(decimal_digit_str(n % 10));
    s.append("m");
    proof {
        reveal_strlit("m");
        assert("m"@ =~= seq!['m']);
        let ni = n as int;
        if n < 10 {
            assert(spec_decimal(ni) == seq![decimal_digit(ni)]);
            assert(s@ =~= spec_decimal(ni).push('m'));
        } else if n < 100 {
            lemma_small_mod((ni / 10) as nat, 10);
            assert(ni / 10 % 10 == ni / 10);
            assert(spec_decimal(ni) == spec_decimal(ni / 10).push(decimal_digit(ni % 10)));
            assert(spec_decimal(ni / 10) == seq![decimal_digit(ni / 10)]);
            assert(s@ =~= spec_decimal(ni).push('m'));
        } else {
            lemma_div_denominator(ni, 10, 10);
            assert(ni / 10 / 10 == ni / 100);
            assert(spec_decimal(ni) == spec_decimal(ni / 10).push(decimal_digit(ni % 10)));
            assert(spec_decimal(ni / 10) == spec_decimal(ni / 10 / 10).push(
                decimal_digit(ni / 10 % 10),
            ));
            assert(spec_decimal(ni / 10 / 10) == seq![decimal_digit(ni / 100)]);
            assert(s@ =~= spec_decimal(ni).push('m'));
        }
    }
    s
}

/// The argument list of a disable invocation: the subcommand, then the
/// duration token when a duration was requested, and no further token when
/// the disable is indefinite.
pub open spec fn spec_disable_args(duration: Option<u8>) -> Seq<Seq<char>> {
    match duration {
        None => seq!["disable"@],
        Some(d) => seq!["disable"@, spec_decimal(d as int).push('m')],
    }
}

/// Builds the argument list for a disable invocation.
pub fn disable_args(duration: Option<u8>) -> (r: Vec<String>)
    ensures
        r@.len() == spec_disable_args(duration).len(),
        forall|i: int| 0 <= i < r@.len() ==> #[trigger] r@[i]@ == spec_disable_args(duration)[i],
{
    let mut args: Vec<String> = Vec::new();
    args.push(String::from_str("disable"));
    match duration {
        None => {},
        Some(d) => {
            args.push(duration_token(d));
        },
    }
    args
}

/// Builds the argument list for an enable invocation: the subcommand alone.
pub fn enable_args() -> (r: Vec<String>)
    ensures
        r@.len() == 1,
        r@[0]@ == "enable"@,
{
    let mut args: Vec<String> = Vec::new();
    args.push(String::from_str("enable"));
    args
}

/// Builds the argument list for a status query: the subcommand alone.
pub fn status_args() -> (r: Vec<String>)
    ensures
        r@.len() == 1,
        r@[0]@ == "status"@,
{
    let mut args: Vec<String> = Vec::new();
    args.push(String::from_str("status"));
    args
}

/// Relies on xshell::Error: the error produced when a command cannot be run
/// to completion. Carried opaquely; callers only discard it.
#[verifier::external_type_specification]
#[verifier::external_body]
pub struct ExXshellError(xshell::Error);

/// Relies on xshell::Shell::new and xshell::Cmd::read: runs the program
/// with the given arguments, waits for it to finish, and returns its
/// captured standard output with a trailing newline or carriage return
/// trimmed. Returns an error when the working directory cannot be read, the
/// program cannot be spawned, it exits with a non-zero status, or its
/// output is not UTF-8. The result depends on the host, so nothing is
/// promised of it.
#[verifier::external_body]
fn run_command(program: &str, args: &Vec<String>) -> (r: Result<String, xshell::Error>) {
    let sh = xshell::Shell::new()?;
    sh.cmd(program).args(args).read()
}

/// Invokes the external program once and captures what it produced. The
/// result depends on the host, so nothing is promised of it; every caller
/// handles both outcomes.
pub fn execute(program: &str, args: &Vec<String>) -> ExecOutcome {
    match run_command(program, args) {
        Ok(text) => ExecOutcome::Captured(text),
        Err(_) => ExecOutcome::Failed,
    }
}

} // verus!
