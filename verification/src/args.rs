//! Command-line configuration: the served root, the request prefix to strip
//! and the port to listen on.

use vstd::prelude::*;
use crate::text::{chars_of, same_text};

verus! {

/// The root served when no argument names one.
pub const DEFAULT_ROOT: &'static str = "./";

/// The request prefix stripped when `--prefix` is not given.
pub const DEFAULT_PREFIX: &'static str = "/";

/// The port used when `--port` is not given; `0` lets the system pick one.
pub const DEFAULT_PORT: u16 = 0;

/// The flag that introduces the request prefix.
pub const PREFIX_FLAG: &'static str = "--prefix";

/// The flag that introduces the port.
pub const PORT_FLAG: &'static str = "--port";

/// The configuration a command line describes.
#[derive(Debug, PartialEq, Eq)]
pub struct Args {
    pub root: String,
    pub prefix: String,
    pub port: u16,
}

/// The mathematical content of an [`Args`].
pub struct ArgsView {
    pub root: Seq<char>,
    pub prefix: Seq<char>,
    pub port: u16,
}

impl View for Args {
    type V = ArgsView;

    open spec fn view(&self) -> ArgsView {
        ArgsView { root: self.root@, prefix: self.prefix@, port: self.port }
    }
}

/// Why a command line was rejected.
#[derive(Debug, PartialEq, Eq)]
pub enum ArgsError {
    /// `--prefix` was the last argument.
    MissingPrefixValue,
    /// `--port` was the last argument.
    MissingPortValue,
    /// The value after `--port` is not a port number; holds that value.
    InvalidPort(String),
    /// An argument that is neither a known flag nor a flag's value; holds it.
    UnknownArgument(String),
}

/// The mathematical content of an [`ArgsError`].
pub enum ArgsErrorView {
    MissingPrefixValue,
    MissingPortValue,
    InvalidPort(Seq<char>),
    UnknownArgument(Seq<char>),
}

impl View for ArgsError {
    type V = ArgsErrorView;

    open spec fn view(&self) -> ArgsErrorView {
        match self {
            ArgsError::MissingPrefixValue => ArgsErrorView::MissingPrefixValue,
            ArgsError::MissingPortValue => ArgsErrorView::MissingPortValue,
            ArgsError::InvalidPort(value) => ArgsErrorView::InvalidPort(value@),
            ArgsError::UnknownArgument(arg) => ArgsErrorView::UnknownArgument(arg@),
        }
    }
}

impl ArgsErrorView {
    /// The diagnostic shown to the operator.
    pub open spec fn message(self) -> Seq<char> {
        match self {
            ArgsErrorView::MissingPrefixValue => "--prefix requires value"@,
            ArgsErrorView::MissingPortValue => "--port requires value"@,
            ArgsErrorView::InvalidPort(value) => "invalid port"@,
            ArgsErrorView::UnknownArgument(arg) => "Unknown argument "@ + arg,
        }
    }
}

impl ArgsError {
    /// Returns the diagnostic shown to the operator.
    pub fn message(&self) -> (text: String)
        ensures
            text@ == self@.message(),
    {
        match self {
            ArgsError::MissingPrefixValue => String::from_str("--prefix requires value"),
            ArgsError::MissingPortValue => String::from_str("--port requires value"),
            ArgsError::InvalidPort(_) => String::from_str("invalid port"),
            ArgsError::UnknownArgument(arg) => {
                let mut text = String::from_str("Unknown argument ");
                text.append(arg.as_str());
                text
            },
        }
    }
}

/// `c` is one of the ten decimal digits.
pub open spec fn is_digit(c: char) -> bool {
    '0' <= c <= '9'
}

/// Every character of `s` is a decimal digit.
pub open spec fn all_digits(s: Seq<char>) -> bool {
    forall|i: int| 0 <= i < s.len() ==> is_digit(#[trigger] s[i])
}

/// The number that the digits of `s` write in base ten.
pub open spec fn decimal_value(s: Seq<char>) -> nat
    decreases s.len(),
{
    if s.len() == 0 {
        0
    } else {
        (decimal_value(s.drop_last()) * 10 + (s.last() as int - '0' as int)) as nat
    }
}

/// The digits of a port argument: the text without one leading `+`.
pub open spec fn port_digits(s: Seq<char>) -> Seq<char> {
    if s.len() > 0 && s[0] == '+' {
        s.skip(1)
    } else {
        s
    }
}

/// The port that `s` writes: an optional `+`, then one or more decimal
/// digits whose value fits sixteen bits. Leading zeros are allowed.
pub open spec fn parse_port_spec(s: Seq<char>) -> Option<u16> {
    let digits = port_digits(s);
    if digits.len() > 0 && all_digits(digits) && decimal_value(digits) <= u16::MAX {
        Some(decimal_value(digits) as u16)
    } else {
        None
    }
}

/// Appending digits never lowers the value written so far.
proof fn lemma_decimal_value_grows(s: Seq<char>, k: int)
    requires
        all_digits(s),
        0 <= k <= s.len(),
    ensures
        decimal_value(s.take(k)) <= decimal_value(s),
    decreases s.len() - k,
{
    if k == s.len() {
        assert(s.take(k) =~= s);
    } else {
        lemma_decimal_value_grows(s, k + 1);
        let longer = s.take(k + 1);
        assert(longer.drop_last() =~= s.take(k));
        assert(is_digit(s[k]));
        assert(longer.last() == s[k]);
    }
}

/// Reads a port number from `s`.
pub fn parse_port(s: &str) -> (port: Option<u16>)
    ensures
        port == parse_port_spec(s@),
{
    let chars = chars_of(s);
    let n = chars.len();
    let start: usize = if n > 0 && chars[0] == '+' { 1 } else { 0 };
    let ghost digits = port_digits(s@);
    assert(digits =~= chars@.skip(start as int));
    if start == n {
        return None;
    }
    let mut value: u32 = 0;
    let mut i: usize = start;
    while i < n
        invariant
            start <= i <= n,
            n == chars.len(),
            digits == port_digits(s@),
            digits == chars@.skip(start as int),
            all_digits(digits.take(i - start)),
            value == decimal_value(digits.take(i - start)),
            value <= u16::MAX,
        decreases n - i,
    {
        let c = chars[i];
        if c < '0' || c > '9' {
            assert(!is_digit(digits[i - start]));
            return None;
        }
        let digit: u32 = c as u32 - '0' as u32;
        let ghost longer = digits.take(i - start + 1);
        assert(longer.drop_last() =~= digits.take(i - start));
        assert(longer.last() == c);
        assert forall|j: int| 0 <= j < longer.len() implies is_digit(#[trigger] longer[j]) by {
            if j < i - start {
                assert(longer[j] == digits.take(i - start)[j]);
            }
        }
        value = value * 10 + digit;
        if value > 65535 {
            proof {
                if all_digits(digits) {
                    lemma_decimal_value_grows(digits, i - start + 1);
                }
            }
            return None;
        }
        i += 1;
    }
    assert(digits.take(n - start) =~= digits);
    Some(value as u16)
}

/// The configuration before any flag is read: the first argument names the
/// root, and prefix and port are at their defaults.
pub open spec fn initial_args(args: Seq<Seq<char>>) -> ArgsView {
    ArgsView {
        root: if args.len() > 0 { args[0] } else { DEFAULT_ROOT@ },
        prefix: DEFAULT_PREFIX@,
        port: DEFAULT_PORT,
    }
}

/// Reads the flags of `args` from index `from` on, starting from the
/// configuration `so_far`. A flag takes the argument after it as its value;
/// a later flag overrides an earlier one; the first argument that cannot be
/// read decides the error.
pub open spec fn parse_flags(args: Seq<Seq<char>>, from: int, so_far: ArgsView) -> Result<
    ArgsView,
    ArgsErrorView,
>
    decreases args.len() - from,
{
    if from < 0 || from >= args.len() {
        Ok(so_far)
    } else if args[from] == PREFIX_FLAG@ {
        if from + 1 >= args.len() {
            Err(ArgsErrorView::MissingPrefixValue)
        } else {
            parse_flags(args, from + 2, ArgsView { prefix: args[from + 1], ..so_far })
        }
    } else if args[from] == PORT_FLAG@ {
        if from + 1 >= args.len() {
            Err(ArgsErrorView::MissingPortValue)
        } else {
            match parse_port_spec(args[from + 1]) {
                Some(port) => parse_flags(args, from + 2, ArgsView { port, ..so_far }),
                None => Err(ArgsErrorView::InvalidPort(args[from + 1])),
            }
        }
    } else {
        Err(ArgsErrorView::UnknownArgument(args[from]))
    }
}

/// What a command line means. The first argument, whatever it holds, names
/// the root; the arguments after it are flags with their values.
pub open spec fn parse_args_spec(args: Seq<Seq<char>>) -> Result<ArgsView, ArgsErrorView> {
    parse_flags(args, 1, initial_args(args))
}

/// The mathematical content of a parse result.
pub open spec fn outcome_view(outcome: Result<Args, ArgsError>) -> Result<ArgsView, ArgsErrorView> {
    match outcome {
        Ok(args) => Ok(args@),
        Err(error) => Err(error@),
    }
}

/// Without arguments the defaults hold; a single argument names the root
/// and leaves the rest at their defaults.
pub proof fn law_defaults_hold(root: Seq<char>)
    ensures
        parse_args_spec(Seq::empty()) == Ok::<ArgsView, ArgsErrorView>(
            ArgsView { root: DEFAULT_ROOT@, prefix: DEFAULT_PREFIX@, port: DEFAULT_PORT },
        ),
        parse_args_spec(seq![root]) == Ok::<ArgsView, ArgsErrorView>(
            ArgsView { root, prefix: DEFAULT_PREFIX@, port: DEFAULT_PORT },
        ),
{
}

/// A command line is accepted only where every argument behind the root is
/// a known flag or the value of one; the root is always the first argument.
pub proof fn law_accepted_line_keeps_root(args: Seq<Seq<char>>)
    requires
        args.len() > 0,
    ensures
        parse_args_spec(args) matches Ok(parsed) ==> parsed.root == args[0],
{
    lemma_flags_keep_root(args, 1, initial_args(args));
}

/// Reading flags never changes the root.
proof fn lemma_flags_keep_root(args: Seq<Seq<char>>, from: int, so_far: ArgsView)
    ensures
        parse_flags(args, from, so_far) matches Ok(parsed) ==> parsed.root == so_far.root,
    decreases args.len() - from,
{
    if 0 <= from && from + 1 < args.len() {
        if args[from] == PREFIX_FLAG@ {
            lemma_flags_keep_root(args, from + 2, ArgsView { prefix: args[from + 1], ..so_far });
        } else if args[from] == PORT_FLAG@ {
            if let Some(port) = parse_port_spec(args[from + 1]) {
                lemma_flags_keep_root(args, from + 2, ArgsView { port, ..so_far });
            }
        }
    }
}

/// Reads the configuration from the arguments that follow the program's name.
pub fn parse_args(args: &Vec<String>) -> (outcome: Result<Args, ArgsError>)
    ensures
        outcome_view(outcome) == parse_args_spec(args.deep_view()),
{
    let ghost words = args.deep_view();
    let n = args.len();
    let root = if n > 0 {
        args[0].clone()
    } else {
        String::from_str(DEFAULT_ROOT)
    };
    let mut ret = Args { root, prefix: String::from_str(DEFAULT_PREFIX), port: DEFAULT_PORT };
    assert(ret@ == initial_args(words));
    let mut i: usize = 1;
    while i < n
        invariant
            1 <= i,
            n == args.len(),
            words == args.deep_view(),
            parse_args_spec(words) == parse_flags(words, i as int, ret@),
        decreases n - i,
    {
        assert(words[i as int] == args[i as int]@);
        let arg = args[i].as_str();
        if same_text(arg, PREFIX_FLAG) {
            if i + 1 >= n {
                return Err(ArgsError::MissingPrefixValue);
            }
            assert(words[i + 1] == args[i + 1]@);
            ret.prefix = args[i + 1].clone();
        } else if same_text(arg, PORT_FLAG) {
            if i + 1 >= n {
                return Err(ArgsError::MissingPortValue);
            }
            assert(words[i + 1] == args[i + 1]@);
            match parse_port(args[i + 1].as_str()) {
                Some(port) => {
                    ret.port = port;
                },
                None => {
                    return Err(ArgsError::InvalidPort(args[i + 1].clone()));
                },
            }
        } else {
            return Err(ArgsError::UnknownArgument(args[i].clone()));
        }
        i += 2;
    }
    Ok(ret)
}

} // verus!
