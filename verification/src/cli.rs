//! The command line's say on logging.

use vstd::prelude::*;
use vstd::string::*;

use crate::text::text;

verus! {

/// The log level that the arguments after `args[i - 1]` ask for, or
/// `fallback`: `--log` asks for `info`, `--log-level=<level>` and
/// `--log-level <level>` for that level; the first that appears wins.
pub open spec fn level_from(args: Seq<Seq<char>>, i: int, fallback: Option<Seq<char>>) -> Option<Seq<char>>
    decreases args.len() - i,
{
    if i < 0 || i >= args.len() {
        fallback
    } else if args[i] == "--log"@ {
        Some("info"@)
    } else if "--log-level="@.is_prefix_of(args[i]) {
        Some(args[i].skip(12))
    } else if args[i] == "--log-level"@ {
        if i + 1 < args.len() {
            Some(args[i + 1])
        } else {
            fallback
        }
    } else {
        level_from(args, i + 1, fallback)
    }
}

/// The texts of the arguments.
pub open spec fn arg_texts(args: Seq<String>) -> Seq<Seq<char>> {
    args.map_values(|a: String| a@)
}

/// The text of an optional string.
pub open spec fn opt_text(o: Option<String>) -> Option<Seq<char>> {
    match o {
        Some(s) => Some(s@),
        None => None,
    }
}

/// Whether `prefix` begins `s`.
fn begins_with(s: &str, prefix: &str) -> (r: bool)
    ensures
        r == prefix@.is_prefix_of(s@),
{
    let n = s.unicode_len();
    let m = prefix.unicode_len();
    if m > n {
        return false;
    }
    let mut j: usize = 0;
    while j < m
        invariant
            n == s@.len(),
            m == prefix@.len(),
            m <= n,
            j <= m,
            forall|t: int| 0 <= t < j ==> s@[t] == prefix@[t],
        decreases m - j,
    {
        if s.get_char(j) != prefix.get_char(j) {
            return false;
        }
        j = j + 1;
    }
    true
}

/// Whether `s` is exactly `t`.
fn same_str(s: &str, t: &str) -> (r: bool)
    ensures
        r == (s@ == t@),
{
    if s.unicode_len() != t.unicode_len() {
        return false;
    }
    let r = begins_with(s, t);
    proof {
        if r {
            assert(s@ =~= t@);
        }
    }
    r
}

/// The log level asked for on the command line `args` (the program's name
/// first): `--log` asks for `info`, `--log-level=<level>` or
/// `--log-level <level>` for that level, the first such argument winning;
/// without one, the level `env_level` from the environment, if set.
pub fn desired_log_level(args: &[String], env_level: Option<String>) -> (r: Option<String>)
    ensures
        r matches Some(l) ==> level_from(arg_texts(args@), 1, opt_text(env_level)) == Some(l@),
        r is None ==> level_from(arg_texts(args@), 1, opt_text(env_level)) is None,
{
    let ghost texts = arg_texts(args@);
    let ghost fb = opt_text(env_level);
    let mut i: usize = 1;
    while i < args.len()
        invariant
            1 <= i,
            texts == arg_texts(args@),
            fb == opt_text(env_level),
            level_from(texts, 1, fb) == level_from(texts, i as int, fb),
        decreases args@.len() - i,
    {
        let arg = args[i].as_str();
        assert(texts[i as int] == arg@);
        if same_str(arg, "--log") {
            return Some(text("info"));
        }
        if begins_with(arg, "--log-level=") {
            proof {
                reveal_strlit("--log-level=");
            }
            let rest = arg.substring_char(12, arg.unicode_len());
            proof {
                assert(rest@ =~= arg@.skip(12));
            }
            return Some(text(rest));
        }
        if same_str(arg, "--log-level") {
            if i + 1 < args.len() {
                assert(texts[i + 1] == args@[i + 1]@);
                return Some(args[i + 1].clone());
            }
            return env_level;
        }
        i = i + 1;
    }
    env_level
}

} // verus!
