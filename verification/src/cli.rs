//! The decisions of the command-line front end: which values its flags carry,
//! how a seed is read, and how a prompt read from standard input is ended.
use vstd::prelude::*;
use crate::error::{config_error, outcome, ErrorView, RuntimeError};
use crate::text::{has_prefix, has_suffix, str_equal, str_strip_prefix};

verus! {

/// The index of the first argument, at `i` or later, that is `flag` and has a
/// value after it.
pub open spec fn flag_index_from(args: Seq<String>, flag: Seq<char>, i: int) -> Option<int>
    decreases args.len() - i,
{
    if i < 0 || i + 1 >= args.len() {
        None
    } else if args[i]@ == flag {
        Some(i)
    } else {
        flag_index_from(args, flag, i + 1)
    }
}

/// The value after the first occurrence of `flag` that has a value after it
/// (what `args.windows(2).find(|pair| pair[0] == flag)` finds).
pub open spec fn flag_value(args: Seq<String>, flag: Seq<char>) -> Option<Seq<char>> {
    match flag_index_from(args, flag, 0) {
        Some(i) => Some(args[i + 1]@),
        None => None,
    }
}

/// The value after the first occurrence of `flag`.
pub fn value_after(args: &[String], flag: &str) -> (r: Option<String>)
    ensures
        match r {
            Some(v) => flag_value(args@, flag@) == Some(v@),
            None => flag_value(args@, flag@) is None,
        },
{
    let mut i: usize = 0;
    while args.len() - i >= 2
        invariant
            i <= args@.len(),
            flag_index_from(args@, flag@, 0) == flag_index_from(args@, flag@, i as int),
        decreases args.len() - i,
    {
        if str_equal(args[i].as_str(), flag) {
            return Some(args[i + 1].clone());
        }
        i = i + 1;
    }
    None
}

pub open spec fn is_ascii_digit(c: char) -> bool {
    0x30 <= (c as u32) <= 0x39
}

/// The number a sequence of decimal digits denotes.
pub open spec fn digits_value(s: Seq<char>) -> nat
    decreases s.len(),
{
    if s.len() == 0 {
        0
    } else {
        digits_value(s.drop_last()) * 10 + ((s.last() as u32) - 0x30) as nat
    }
}

pub open spec fn all_digits(s: Seq<char>) -> bool {
    forall|i: int| 0 <= i < s.len() ==> is_ascii_digit(#[trigger] s[i])
}

/// `text.parse::<u64>()`: an optional `+`, then one or more decimal digits
/// denoting a number that fits in 64 bits.
pub open spec fn parsed_u64(text: Seq<char>) -> Option<u64> {
    let digits = if has_prefix(text, "+"@) {
        text.skip("+"@.len() as int)
    } else {
        text
    };
    if digits.len() > 0 && all_digits(digits) && digits_value(digits) <= u64::MAX {
        Some(digits_value(digits) as u64)
    } else {
        None
    }
}

proof fn lemma_digits_value_grows(s: Seq<char>, i: int)
    requires
        0 <= i <= s.len(),
    ensures
        digits_value(s.take(i)) <= digits_value(s),
    decreases s.len() - i,
{
    if i < s.len() {
        lemma_digits_value_grows(s, i + 1);
        assert(s.take(i + 1).drop_last() =~= s.take(i));
    } else {
        assert(s.take(i) =~= s);
    }
}

/// Reads a decimal number as `str::parse::<u64>` does.
pub fn parse_u64(text: &str) -> (r: Option<u64>)
    ensures
        r == parsed_u64(text@),
{
    let digits = match str_strip_prefix(text, "+") {
        Some(rest) => rest,
        None => text,
    };
    let ghost spec_digits = if has_prefix(text@, "+"@) {
        text@.skip("+"@.len() as int)
    } else {
        text@
    };
    assert(digits@ == spec_digits);
    let n = digits.unicode_len();
    if n == 0 {
        return None;
    }
    let mut value: u64 = 0;
    let mut i: usize = 0;
    while i < n
        invariant
            n == digits@.len(),
            digits@ == spec_digits,
            parsed_u64(text@) == (if spec_digits.len() > 0 && all_digits(spec_digits)
                && digits_value(spec_digits) <= u64::MAX {
                Some(digits_value(spec_digits) as u64)
            } else {
                None
            }),
            i <= n,
            value == digits_value(digits@.take(i as int)),
            all_digits(digits@.take(i as int)),
        decreases n - i,
    {
        let c = digits.get_char(i);
        let code = c as u32;
        assert(digits@.take(i + 1).drop_last() =~= digits@.take(i as int));
        if code < 0x30 || code > 0x39 {
            assert(!is_ascii_digit(digits@[i as int]));
            return None;
        }
        let d = (code - 0x30) as u64;
        if value > (u64::MAX - d) / 10 {
            proof {
                assert(digits_value(digits@.take(i + 1)) == value * 10 + d);
                assert(value * 10 + d > u64::MAX) by (nonlinear_arith)
                    requires
                        value > (u64::MAX - d) / 10,
                        d <= 9,
                ;
                lemma_digits_value_grows(digits@, i + 1);
            }
            return None;
        }
        assert(value * 10 + d <= u64::MAX) by (nonlinear_arith)
            requires
                value <= (u64::MAX - d) / 10,
                d <= 9,
        ;
        value = value * 10 + d;
        assert(all_digits(digits@.take(i + 1)));
        i = i + 1;
    }
    assert(digits@.take(n as int) =~= digits@);
    Some(value)
}

/// The seed the command line gives: none without the flag, the number when
/// the flag's value parses, and otherwise the refusal.
pub open spec fn seed_outcome(args: Seq<String>) -> Result<Option<u64>, ErrorView> {
    match flag_value(args, "--seed"@) {
        None => Ok(None),
        Some(v) => match parsed_u64(v) {
            Some(n) => Ok(Some(n)),
            None => Err(ErrorView::Config("--seed must be an unsigned integer"@)),
        },
    }
}

/// Reads the `--seed` flag.
pub fn parse_seed(args: &[String]) -> (r: Result<Option<u64>, RuntimeError>)
    ensures
        outcome(r) == seed_outcome(args@),
{
    match value_after(args, "--seed") {
        Some(value) => match parse_u64(value.as_str()) {
            Some(n) => Ok(Some(n)),
            None => Err(config_error("--seed must be an unsigned integer")),
        },
        None => Ok(None),
    }
}

/// A prompt read from standard input without its final line ending: one
/// trailing `\n` is removed, and then one `\r` before it.
pub open spec fn without_line_ending(text: Seq<char>) -> Seq<char> {
    if has_suffix(text, "\n"@) {
        let t = text.drop_last();
        if has_suffix(t, "\r"@) {
            t.drop_last()
        } else {
            t
        }
    } else {
        text
    }
}

fn ends_with_char(text: &str, c: char) -> (r: bool)
    ensures
        r == (text@.len() > 0 && text@.last() == c),
{
    let n = text.unicode_len();
    n > 0 && text.get_char(n - 1) == c
}

/// Removes the line ending a prompt read from standard input ends with.
pub fn trim_prompt_line_ending(text: String) -> (r: String)
    ensures
        r@ == without_line_ending(text@),
{
    proof {
        reveal_strlit("\n");
        reveal_strlit("\r");
    }
    let n = text.as_str().unicode_len();
    if !ends_with_char(text.as_str(), '\n') {
        proof {
            if has_suffix(text@, "\n"@) {
                assert(text@.subrange(text@.len() - 1, text@.len() as int)[0] == text@.last());
            }
        }
        return text;
    }
    assert(text@.subrange(text@.len() - 1, text@.len() as int) =~= "\n"@);
    let t = text.as_str().substring_char(0, n - 1);
    assert(t@ =~= text@.drop_last());
    let m = n - 1;
    if ends_with_char(t, '\r') {
        assert(t@.subrange(t@.len() - 1, t@.len() as int) =~= "\r"@);
        let u = t.substring_char(0, m - 1);
        assert(u@ =~= t@.drop_last());
        u.to_owned()
    } else {
        proof {
            if has_suffix(t@, "\r"@) {
                assert(t@.subrange(t@.len() - 1, t@.len() as int)[0] == t@.last());
            }
        }
        t.to_owned()
    }
}

/// What the command line asks for.
#[derive(Clone, Debug, PartialEq, Eq)]
pub struct CommandLine {
    pub config_path: String,
    pub prompt: String,
    pub experiment_id: String,
    pub seed: Option<u64>,
}

/// The usage line shown when no configuration is given.
pub const USAGE: &'static str = "usage: qsol-harness-headless --config <json> --prompt <text|-> [--experiment-id <id>] [--seed <u64>]";

/// The experiment id used when the command line names none.
pub const DEFAULT_EXPERIMENT_ID: &'static str = "qsol-headless";

/// What the command line asks for, in views: `--config` (required, else the
/// usage line), `--prompt` (required), `--experiment-id` (defaulting to
/// `qsol-headless`) and `--seed`, checked in that order.
pub open spec fn command_line_outcome(args: Seq<String>) -> Result<
    (Seq<char>, Seq<char>, Seq<char>, Option<u64>),
    ErrorView,
> {
    match flag_value(args, "--config"@) {
        None => Err(ErrorView::Config(USAGE@)),
        Some(config_path) => match flag_value(args, "--prompt"@) {
            None => Err(ErrorView::Config("--prompt is required"@)),
            Some(prompt) => {
                let experiment_id = match flag_value(args, "--experiment-id"@) {
                    Some(e) => e,
                    None => DEFAULT_EXPERIMENT_ID@,
                };
                match seed_outcome(args) {
                    Err(e) => Err(e),
                    Ok(seed) => Ok((config_path, prompt, experiment_id, seed)),
                }
            },
        },
    }
}

/// Reads the command line.
pub fn parse_command_line(args: &[String]) -> (r: Result<CommandLine, RuntimeError>)
    ensures
        match r {
            Ok(c) => command_line_outcome(args@) == Ok::<
                (Seq<char>, Seq<char>, Seq<char>, Option<u64>),
                ErrorView,
            >((c.config_path@, c.prompt@, c.experiment_id@, c.seed)),
            Err(e) => command_line_outcome(args@) == Err::<
                (Seq<char>, Seq<char>, Seq<char>, Option<u64>),
                ErrorView,
            >(e@),
        },
{
    let config_path = match value_after(args, "--config") {
        Some(v) => v,
        None => return Err(config_error(USAGE)),
    };
    let prompt = match value_after(args, "--prompt") {
        Some(v) => v,
        None => return Err(config_error("--prompt is required")),
    };
    let experiment_id = match value_after(args, "--experiment-id") {
        Some(v) => v,
        None => DEFAULT_EXPERIMENT_ID.to_owned(),
    };
    let seed = parse_seed(args)?;
    Ok(CommandLine { config_path, prompt, experiment_id, seed })
}

} // verus!
