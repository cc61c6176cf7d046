//! The command line: which command runs, and the options of `enjo status`.

use vstd::prelude::*;
use vstd::string::*;
use crate::text::same_text;
use crate::status::DEFAULT_MAX_LEN;

verus! {

/// The character is an ASCII decimal digit.
pub open spec fn is_digit(c: char) -> bool {
    '0' <= c <= '9'
}

/// The value of a string of decimal digits.
pub open spec fn digits_value(s: Seq<char>) -> nat
    decreases s.len(),
{
    if s.len() == 0 {
        0
    } else {
        digits_value(s.drop_last()) * 10 + (s.last() as nat - 48) as nat
    }
}

/// The digits of a `usize` text: the text without an optional leading `+`.
pub open spec fn usize_body(s: Seq<char>) -> Seq<char> {
    if s.len() > 0 && s[0] == '+' {
        s.drop_first()
    } else {
        s
    }
}

/// What `usize::from_str` makes of a text: an optional leading `+`, then
/// one or more ASCII digits whose value fits in `usize`; anything else is
/// rejected.
pub open spec fn usize_parsed(s: Seq<char>) -> Option<usize> {
    let body = usize_body(s);
    if body.len() == 0 || !(forall|i: int| 0 <= i < body.len() ==> is_digit(#[trigger] body[i])) {
        None
    } else if digits_value(body) > usize::MAX {
        None
    } else {
        Some(digits_value(body) as usize)
    }
}

proof fn lemma_digits_value_grows(s: Seq<char>, i: int)
    requires
        0 <= i <= s.len(),
        forall|k: int| 0 <= k < s.len() ==> is_digit(#[trigger] s[k]),
    ensures
        digits_value(s.take(i)) <= digits_value(s),
    decreases s.len() - i,
{
    if i < s.len() {
        lemma_digits_value_grows(s, i + 1);
        assert(s.take(i + 1).drop_last() =~= s.take(i));
    } else {
        assert(s.take(i) =~= s);
    }
}

/// Parse a non-negative integer as `usize::from_str` does.
pub fn parse_usize(s: &str) -> (r: Option<usize>)
    ensures
        r == usize_parsed(s@),
{
    let n = s.unicode_len();
    let start: usize = if n > 0 && s.get_char(0) == '+' {
        1
    } else {
        0
    };
    let ghost body = usize_body(s@);
    proof {
        assert(body =~= s@.subrange(start as int, n as int));
    }
    if start == n {
        return None;
    }
    let mut value: usize = 0;
    let mut i: usize = start;
    while i < n
        invariant
            n == s@.len(),
            start <= i <= n,
            start < n,
            body == s@.subrange(start as int, n as int),
            body == usize_body(s@),
            body.len() == n - start,
            start == (if s@.len() > 0 && s@[0] == '+' { 1int } else { 0int }),
            forall|k: int| start <= k < i ==> is_digit(#[trigger] s@[k]),
            value == digits_value(body.take(i - start)),
        decreases n - i,
    {
        let c = s.get_char(i);
        if !('0' <= c && c <= '9') {
            proof {
                assert(body[i - start] == c);
                assert(!is_digit(body[i - start]));
            }
            return None;
        }
        let d = (c as u32 - 48) as usize;
        proof {
            assert(body.take(i - start + 1).drop_last() =~= body.take(i - start));
            assert(body.take(i - start + 1).last() == c);
        }
        match value.checked_mul(10) {
            Some(v10) => match v10.checked_add(d) {
                Some(v) => {
                    value = v;
                },
                None => {
                    proof {
                        assert(body.take(i - start + 1) =~= s@.subrange(start as int, i + 1));
                    }
                    return overflow_or_bad(s, start, i + 1);
                },
            },
            None => {
                proof {
                    assert(body.take(i - start + 1) =~= s@.subrange(start as int, i + 1));
                    assert(digits_value(body.take(i - start)) * 10 > usize::MAX);
                }
                return overflow_or_bad(s, start, i + 1);
            },
        }
        i = i + 1;
    }
    proof {
        assert(body.take(n - start) =~= body);
    }
    Some(value)
}

/// The parse of `s` once its digits up to `upto` are known to be a value
/// beyond `usize::MAX`: a later non-digit makes it fail as bad text, and
/// otherwise it fails as too large; either way there is no value.
fn overflow_or_bad(s: &str, start: usize, upto: usize) -> (r: Option<usize>)
    requires
        start < upto <= s@.len(),
        forall|k: int| start <= k < upto ==> is_digit(#[trigger] s@[k]),
        digits_value(s@.subrange(start as int, upto as int)) > usize::MAX,
        start == (if s@.len() > 0 && s@[0] == '+' { 1int } else { 0int }),
    ensures
        r == usize_parsed(s@),
{
    let n = s.unicode_len();
    let ghost body = s@.subrange(start as int, n as int);
    proof {
        assert(body =~= usize_body(s@));
        assert(body.take(upto - start) =~= s@.subrange(start as int, upto as int));
    }
    let mut i: usize = upto;
    while i < n
        invariant
            n == s@.len(),
            upto <= i <= n,
            start < upto,
            body == s@.subrange(start as int, n as int),
            body == usize_body(s@),
            body.len() == n - start,
            forall|k: int| start <= k < i ==> is_digit(#[trigger] s@[k]),
        decreases n - i,
    {
        let c = s.get_char(i);
        if !('0' <= c && c <= '9') {
            proof {
                assert(body[i - start] == c);
                assert(!is_digit(body[i - start]));
            }
            return None;
        }
        i = i + 1;
    }
    proof {
        assert forall|k: int| 0 <= k < body.len() implies is_digit(#[trigger] body[k]) by {
            assert(body[k] == s@[k + start]);
        }
        lemma_digits_value_grows(body, upto - start);
    }
    None
}

/// What the command line asks for.
pub enum Command {
    /// No argument: the interactive TUI.
    Tui,
    /// `status` and its options.
    Status(Vec<String>),
    /// `-h` or `--help`.
    Help,
    /// `-V` or `--version`.
    Version,
    /// Any other first argument.
    Unknown(String),
}

/// Decide the command from the arguments after the program name.
pub fn parse_command(args: Vec<String>) -> (r: Command)
    ensures
        args@.len() == 0 ==> r is Tui,
        args@.len() > 0 && args@[0]@ == "status"@ ==> (r matches Command::Status(rest) && rest@ == args@.skip(1)),
        args@.len() > 0 && args@[0]@ != "status"@ && (args@[0]@ == "-h"@ || args@[0]@ == "--help"@) ==> r is Help,
        args@.len() > 0 && args@[0]@ != "status"@ && args@[0]@ != "-h"@ && args@[0]@ != "--help"@ && (args@[0]@
            == "-V"@ || args@[0]@ == "--version"@) ==> r is Version,
        args@.len() > 0 && args@[0]@ != "status"@ && args@[0]@ != "-h"@ && args@[0]@ != "--help"@
            && args@[0]@ != "-V"@ && args@[0]@ != "--version"@ ==> (r matches Command::Unknown(a) && a@
            == args@[0]@),
{
    if args.len() == 0 {
        return Command::Tui;
    }
    let first = args[0].clone();
    if same_text(first.as_str(), "status") {
        let mut rest: Vec<String> = Vec::new();
        let mut i: usize = 1;
        while i < args.len()
            invariant
                1 <= i <= args@.len(),
                rest@ == args@.subrange(1, i as int),
            decreases args@.len() - i,
        {
            rest.push(args[i].clone());
            proof {
                assert(rest@ =~= args@.subrange(1, i as int + 1));
            }
            i = i + 1;
        }
        proof {
            assert(args@.subrange(1, args@.len() as int) =~= args@.skip(1));
        }
        Command::Status(rest)
    } else if same_text(first.as_str(), "-h") || same_text(first.as_str(), "--help") {
        Command::Help
    } else if same_text(first.as_str(), "-V") || same_text(first.as_str(), "--version") {
        Command::Version
    } else {
        Command::Unknown(first)
    }
}

/// The options of `enjo status`.
#[derive(Debug, Clone, Copy, PartialEq, Eq)]
pub struct StatusOptions {
    /// Escape `#` as `##` for tmux.
    pub tmux: bool,
    /// Truncate the title to this many characters.
    pub max_len: usize,
}

/// Why the options of `enjo status` were refused.
#[derive(Debug)]
pub enum StatusArgsError {
    /// `--max-len` came last, without a value.
    MissingMaxLen,
    /// The value after `--max-len` is not a non-negative integer.
    BadMaxLen(String),
    /// An argument that is no option of `enjo status`.
    UnknownFlag(String),
}

impl StatusArgsError {
    /// The message reported for the error.
    pub fn message(&self) -> (r: String)
        ensures
            r@ == match self {
                StatusArgsError::MissingMaxLen => "--max-len requires a value, e.g. --max-len 40"@,
                StatusArgsError::BadMaxLen(v) => "--max-len must be a non-negative integer, got '"@ + v@ + "'"@,
                StatusArgsError::UnknownFlag(f) => "unknown flag for 'enjo status': "@ + f@,
            },
    {
        match self {
            StatusArgsError::MissingMaxLen => String::from_str("--max-len requires a value, e.g. --max-len 40"),
            StatusArgsError::BadMaxLen(v) => {
                let mut s = String::from_str("--max-len must be a non-negative integer, got '");
                s.append(v.as_str());
                s.append("'");
                s
            },
            StatusArgsError::UnknownFlag(f) => {
                let mut s = String::from_str("unknown flag for 'enjo status': ");
                s.append(f.as_str());
                s
            },
        }
    }
}

/// Where and why reading the options of `enjo status` stopped.
pub enum ArgFault {
    /// `--max-len` at this index has no value after it.
    MissingValue(int),
    /// The value at this index, after `--max-len`, is no `usize`.
    BadValue(int),
    /// The argument at this index is no option.
    Unknown(int),
}

/// The outcome of reading the options from index `i` on, given the options
/// read so far: `--tmux` sets the escape, `--max-len N` sets the width (the
/// last one wins), anything else is refused, and the first refusal stops.
pub open spec fn status_options_from(args: Seq<Seq<char>>, i: int, tmux: bool, max_len: usize) -> Result<(bool, usize), ArgFault>
    decreases args.len() - i,
{
    if i < 0 || i >= args.len() {
        Ok((tmux, max_len))
    } else if args[i] == "--tmux"@ {
        status_options_from(args, i + 1, true, max_len)
    } else if args[i] == "--max-len"@ {
        if i + 1 >= args.len() {
            Err(ArgFault::MissingValue(i))
        } else {
            match usize_parsed(args[i + 1]) {
                Some(n) => status_options_from(args, i + 2, tmux, n),
                None => Err(ArgFault::BadValue(i + 1)),
            }
        }
    } else {
        Err(ArgFault::Unknown(i))
    }
}

/// The texts of the arguments.
pub open spec fn arg_texts(args: Seq<String>) -> Seq<Seq<char>> {
    args.map_values(|a: String| a@)
}

/// Read the options of `enjo status`: no escaping and a width of
/// [`DEFAULT_MAX_LEN`] unless the options say otherwise.
pub fn parse_status_args(args: &Vec<String>) -> (r: Result<StatusOptions, StatusArgsError>)
    ensures
        match (r, status_options_from(arg_texts(args@), 0, false, DEFAULT_MAX_LEN)) {
            (Ok(o), Ok((t, m))) => o.tmux == t && o.max_len == m,
            (Err(StatusArgsError::MissingMaxLen), Err(ArgFault::MissingValue(_))) => true,
            (Err(StatusArgsError::BadMaxLen(v)), Err(ArgFault::BadValue(k))) => 0 <= k < args@.len() && v@
                == args@[k]@,
            (Err(StatusArgsError::UnknownFlag(f)), Err(ArgFault::Unknown(k))) => 0 <= k < args@.len() && f@
                == args@[k]@,
            _ => false,
        },
{
    let ghost texts = arg_texts(args@);
    let mut tmux = false;
    let mut max_len = DEFAULT_MAX_LEN;
    let mut i: usize = 0;
    while i < args.len()
        invariant
            i <= args@.len(),
            texts == arg_texts(args@),
            status_options_from(texts, 0, false, DEFAULT_MAX_LEN) == status_options_from(texts, i as int, tmux, max_len),
        decreases args@.len() - i,
    {
        let a = args[i].as_str();
        if same_text(a, "--tmux") {
            tmux = true;
            i = i + 1;
        } else if same_text(a, "--max-len") {
            if i + 1 >= args.len() {
                return Err(StatusArgsError::MissingMaxLen);
            }
            let value = args[i + 1].as_str();
            match parse_usize(value) {
                Some(n) => {
                    max_len = n;
                },
                None => {
                    return Err(StatusArgsError::BadMaxLen(args[i + 1].clone()));
                },
            }
            i = i + 2;
        } else {
            return Err(StatusArgsError::UnknownFlag(args[i].clone()));
        }
    }
    Ok(StatusOptions { tmux, max_len })
}

} // verus!
