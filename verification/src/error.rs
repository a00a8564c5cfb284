//! What can go wrong while the command line is read.
use crate::lexer::{format_flag, Token, TokenView};
use crate::text::{decimal_text, push_decimal, texts, FractionFault, NumberFault};
use vstd::prelude::*;

verus! {

/// Why the value of an option could not be converted.
#[derive(Debug, Clone, Copy, PartialEq, Eq, Structural)]
pub enum Reason {
    /// It is not an unsigned decimal number in range.
    Number(NumberFault),
    /// It is not a floating-point number.
    Fraction(FractionFault),
    /// It is none of `auto`, `always` and `never`.
    Color,
}

/// A failure to read the command line. Every failure ends the whole parse.
#[derive(Debug, PartialEq, Eq)]
pub enum CliError {
    /// The argument at this position, counted from 1, is not valid Unicode.
    Encoding { index: usize },
    /// The command line ends before the subcommand literal.
    MissingSubcommand,
    /// The second argument is not the subcommand literal.
    UnexpectedSubcommand { found: String },
    /// The text is no subcommand keyword.
    UnrecognizedSubcommand { found: String },
    /// An option that may be given once was given again.
    DuplicateArgument { flag: String },
    /// An option that takes a value is the last argument.
    MissingValue { flag: String },
    /// An option that takes no value was written with `=value`.
    UnexpectedValue { flag: String, value: String },
    /// The value of an option could not be converted.
    InvalidValue { value: String, reason: Reason },
    /// `flag` was used without any of the options in `requires`.
    RequiresFlag { flag: String, requires: Vec<String> },
    /// Two options that exclude each other were both given.
    Conflict { first: String, second: String },
    /// Something follows a subcommand that takes no arguments.
    UnexpectedTrailingArgument { token: Token },
    /// The version was asked for after a subcommand.
    UnexpectedArgument,
}

/// What a [`CliError`] stands for.
pub enum ErrorView {
    Encoding { index: nat },
    MissingSubcommand,
    UnexpectedSubcommand { found: Seq<char> },
    UnrecognizedSubcommand { found: Seq<char> },
    DuplicateArgument { flag: Seq<char> },
    MissingValue { flag: Seq<char> },
    UnexpectedValue { flag: Seq<char>, value: Seq<char> },
    InvalidValue { value: Seq<char>, reason: Reason },
    RequiresFlag { flag: Seq<char>, requires: Seq<Seq<char>> },
    Conflict { first: Seq<char>, second: Seq<char> },
    UnexpectedTrailingArgument { token: TokenView },
    UnexpectedArgument,
}

impl View for CliError {
    type V = ErrorView;

    open spec fn view(&self) -> ErrorView {
        match self {
            CliError::Encoding { index } => ErrorView::Encoding { index: *index as nat },
            CliError::MissingSubcommand => ErrorView::MissingSubcommand,
            CliError::UnexpectedSubcommand { found } => ErrorView::UnexpectedSubcommand {
                found: found@,
            },
            CliError::UnrecognizedSubcommand { found } => ErrorView::UnrecognizedSubcommand {
                found: found@,
            },
            CliError::DuplicateArgument { flag } => ErrorView::DuplicateArgument { flag: flag@ },
            CliError::MissingValue { flag } => ErrorView::MissingValue { flag: flag@ },
            CliError::UnexpectedValue { flag, value } => ErrorView::UnexpectedValue {
                flag: flag@,
                value: value@,
            },
            CliError::InvalidValue { value, reason } => ErrorView::InvalidValue {
                value: value@,
                reason: *reason,
            },
            CliError::RequiresFlag { flag, requires: needed } => ErrorView::RequiresFlag {
                flag: flag@,
                requires: texts(needed@),
            },
            CliError::Conflict { first, second } => ErrorView::Conflict {
                first: first@,
                second: second@,
            },
            CliError::UnexpectedTrailingArgument { token } => ErrorView::UnexpectedTrailingArgument {
                token: token@,
            },
            CliError::UnexpectedArgument => ErrorView::UnexpectedArgument,
        }
    }
}

/// The texts of a list of string slices.
pub open spec fn slice_texts(v: Seq<&str>) -> Seq<Seq<char>> {
    Seq::new(v.len(), |i: int| v[i]@)
}

/// The error for an option that was given again although it may be given
/// only once.
pub fn multi_arg(flag: &Token) -> (r: Result<(), CliError>)
    requires
        !(flag is Value),
    ensures
        r is Err,
        r->Err_0@ == (ErrorView::DuplicateArgument { flag: flag@.spelling() }),
{
    Err(CliError::DuplicateArgument { flag: format_flag(flag) })
}

/// The error for `flag` used without any of the options in `needed`.
pub fn requires_flag(flag: &str, needed: &[&str]) -> (r: Result<(), CliError>)
    requires
        needed@.len() >= 1,
    ensures
        r is Err,
        r->Err_0@ == (ErrorView::RequiresFlag { flag: flag@, requires: slice_texts(needed@) }),
{
    let mut list: Vec<String> = Vec::new();
    let mut i: usize = 0;
    while i < needed.len()
        invariant
            i <= needed@.len(),
            list@.len() == i,
            forall|j: int| 0 <= j < i ==> list@[j]@ == needed@[j]@,
        decreases needed@.len() - i,
    {
        list.push(String::from_str(needed[i]));
        i = i + 1;
    }
    proof {
        assert(texts(list@) =~= slice_texts(needed@));
    }
    Err(CliError::RequiresFlag { flag: String::from_str(flag), requires: list })
}

/// The error for two options that may not be used together.
pub fn conflicts(a: &str, b: &str) -> (r: Result<(), CliError>)
    ensures
        r is Err,
        r->Err_0@ == (ErrorView::Conflict { first: a@, second: b@ }),
{
    Err(CliError::Conflict { first: String::from_str(a), second: String::from_str(b) })
}

/// What `{:?}` writes for a text: the text between double quotes, with the
/// characters escaped that cannot stand there as they are.
pub uninterp spec fn quoted(text: Seq<char>) -> Seq<char>;

/// `format!("{:?}", text)`: the text as Rust's debug formatting writes it.
#[verifier::external_body]
pub(crate) fn quote(text: &str) -> (r: String)
    ensures
        r@ == quoted(text@),
{
    format!("{:?}", text)
}

/// The texts of a list, each followed by a comma and a space.
pub open spec fn listed(list: Seq<Seq<char>>) -> Seq<char>
    decreases list.len(),
{
    if list.len() == 0 {
        Seq::empty()
    } else {
        listed(list.drop_last()) + list.last() + ", "@
    }
}

/// The options of which one is needed, in words: one alone; two as
/// `either a or b`; three or more as `a, b, or c`.
pub open spec fn alternatives(list: Seq<Seq<char>>) -> Seq<char> {
    if list.len() == 0 {
        Seq::empty()
    } else if list.len() == 1 {
        list[0]
    } else if list.len() == 2 {
        "either "@ + list[0] + " or "@ + list[1]
    } else {
        listed(list.drop_last()) + "or "@ + list.last()
    }
}

/// Why a value could not be converted, in words.
pub open spec fn reason_text(reason: Reason, value: Seq<char>) -> Seq<char> {
    match reason {
        Reason::Number(NumberFault::Empty) => "cannot parse integer from empty string"@,
        Reason::Number(NumberFault::InvalidDigit) => "invalid digit found in string"@,
        Reason::Number(NumberFault::TooLarge) => "number too large to fit in target type"@,
        Reason::Fraction(FractionFault::Empty) => "cannot parse float from empty string"@,
        Reason::Fraction(FractionFault::Invalid) => "invalid float literal"@,
        Reason::Color => "must be auto, always, or never, but found `"@ + value + "`"@,
    }
}

impl ErrorView {
    /// The text that the message shows between quotes as debug formatting
    /// writes it, for the errors that show one.
    pub open spec fn shown_value(self) -> Option<Seq<char>> {
        match self {
            ErrorView::UnexpectedValue { value, .. } => Some(value),
            ErrorView::InvalidValue { value, .. } => Some(value),
            ErrorView::UnexpectedTrailingArgument { token: TokenView::Value(value) } => Some(value),
            _ => None,
        }
    }

    /// The message of the error, where `shown` is the quoted form of the
    /// value that it shows.
    pub open spec fn message_with(self, shown: Seq<char>) -> Seq<char> {
        match self {
            ErrorView::Encoding { index } => "argument "@ + decimal_text(index)
                + " is not valid Unicode"@,
            ErrorView::MissingSubcommand => "expected subcommand 'llvm-cov'"@,
            ErrorView::UnexpectedSubcommand { found } =>
                "expected subcommand 'llvm-cov', found argument '"@ + found + "'"@,
            ErrorView::UnrecognizedSubcommand { found } => "unrecognized subcommand "@ + found,
            ErrorView::DuplicateArgument { flag } => "The argument '"@ + flag
                + "' was provided more than once, but cannot be used multiple times"@,
            ErrorView::MissingValue { flag } => "missing argument for option '"@ + flag + "'"@,
            ErrorView::UnexpectedValue { flag, value } => "unexpected argument for option '"@ + flag
                + "': "@ + shown,
            ErrorView::InvalidValue { value, reason } => "cannot parse argument "@ + shown + ": "@
                + reason_text(reason, value),
            ErrorView::RequiresFlag { flag, requires: needed } => flag
                + " can only be used together with "@ + alternatives(needed),
            ErrorView::Conflict { first, second } => first + " may not be used together with "@
                + second,
            ErrorView::UnexpectedTrailingArgument { token } => match token {
                TokenView::Value(_) => "unexpected argument "@ + shown,
                _ => "invalid option '"@ + token.spelling() + "'"@,
            },
            ErrorView::UnexpectedArgument =>
                "Found argument '--version' which wasn't expected, or isn't valid in this context"@,
        }
    }

    /// The message of the error.
    pub open spec fn message(self) -> Seq<char> {
        match self.shown_value() {
            Some(value) => self.message_with(quoted(value)),
            None => self.message_with(Seq::empty()),
        }
    }
}

/// Appends to `out` the options of which one is needed, in words.
pub fn push_alternatives(out: &mut String, list: &Vec<String>)
    ensures
        final(out)@ == old(out)@ + alternatives(texts(list@)),
{
    let ghost names = texts(list@);
    let n: usize = list.len();
    if n == 0 {
        assert(out@ =~= old(out)@ + alternatives(names));
    } else if n == 1 {
        out.append(list[0].as_str());
    } else if n == 2 {
        out.append("either ");
        out.append(list[0].as_str());
        out.append(" or ");
        out.append(list[1].as_str());
        assert(out@ =~= old(out)@ + alternatives(names));
    } else {
        let mut i: usize = 0;
        while i < n - 1
            invariant
                n == list@.len(),
                n >= 3,
                i <= n - 1,
                names == texts(list@),
                out@ == old(out)@ + listed(names.take(i as int)),
            decreases n - 1 - i,
        {
            out.append(list[i].as_str());
            out.append(", ");
            proof {
                let next = names.take(i + 1);
                assert(next.drop_last() =~= names.take(i as int));
                assert(next.last() == list@[i as int]@);
                assert(out@ =~= old(out)@ + listed(next));
            }
            i = i + 1;
        }
        out.append("or ");
        out.append(list[n - 1].as_str());
        proof {
            assert(names.take(n - 1) =~= names.drop_last());
            assert(out@ =~= old(out)@ + alternatives(names));
        }
    }
}

impl CliError {
    /// The message of the error, where `shown` is the quoted form of the
    /// value that it shows.
    pub fn message_with(&self, shown: &str) -> (r: String)
        ensures
            r@ == self@.message_with(shown@),
    {
        let mut out = String::new();
        match self {
            CliError::Encoding { index } => {
                out.append("argument ");
                push_decimal(&mut out, *index as u64);
                out.append(" is not valid Unicode");
            },
            CliError::MissingSubcommand => {
                out.append("expected subcommand 'llvm-cov'");
            },
            CliError::UnexpectedSubcommand { found } => {
                out.append("expected subcommand 'llvm-cov', found argument '");
                out.append(found.as_str());
                out.append("'");
            },
            CliError::UnrecognizedSubcommand { found } => {
                out.append("unrecognized subcommand ");
                out.append(found.as_str());
            },
            CliError::DuplicateArgument { flag } => {
                out.append("The argument '");
                out.append(flag.as_str());
                out.append("' was provided more than once, but cannot be used multiple times");
            },
            CliError::MissingValue { flag } => {
                out.append("missing argument for option '");
                out.append(flag.as_str());
                out.append("'");
            },
            CliError::UnexpectedValue { flag, value } => {
                out.append("unexpected argument for option '");
                out.append(flag.as_str());
                out.append("': ");
                out.append(shown);
            },
            CliError::InvalidValue { value, reason } => {
                out.append("cannot parse argument ");
                out.append(shown);
                out.append(": ");
                match reason {
                    Reason::Number(NumberFault::Empty) => {
                        out.append("cannot parse integer from empty string");
                    },
                    Reason::Number(NumberFault::InvalidDigit) => {
                        out.append("invalid digit found in string");
                    },
                    Reason::Number(NumberFault::TooLarge) => {
                        out.append("number too large to fit in target type");
                    },
                    Reason::Fraction(FractionFault::Empty) => {
                        out.append("cannot parse float from empty string");
                    },
                    Reason::Fraction(FractionFault::Invalid) => {
                        out.append("invalid float literal");
                    },
                    Reason::Color => {
                        let ghost before = out@;
                        out.append("must be auto, always, or never, but found `");
                        out.append(value.as_str());
                        out.append("`");
                        assert(out@ =~= before + reason_text(*reason, value@));
                    },
                }
            },
            CliError::RequiresFlag { flag, requires: needed } => {
                out.append(flag.as_str());
                out.append(" can only be used together with ");
                push_alternatives(&mut out, needed);
            },
            CliError::Conflict { first, second } => {
                out.append(first.as_str());
                out.append(" may not be used together with ");
                out.append(second.as_str());
            },
            CliError::UnexpectedTrailingArgument { token } => {
                match token {
                    Token::Value(_) => {
                        out.append("unexpected argument ");
                        out.append(shown);
                    },
                    _ => {
                        out.append("invalid option '");
                        out.append(format_flag(token).as_str());
                        out.append("'");
                    },
                }
            },
            CliError::UnexpectedArgument => {
                out.append(
                    "Found argument '--version' which wasn't expected, or isn't valid in this context",
                );
            },
        }
        proof {
            assert(out@ =~= self@.message_with(shown@));
        }
        out
    }

    /// The message of the error, as it is shown to the user.
    pub fn message(&self) -> (r: String)
        ensures
            r@ == self@.message(),
    {
        match self {
            CliError::UnexpectedValue { value, .. } => {
                self.message_with(quote(value.as_str()).as_str())
            },
            CliError::InvalidValue { value, .. } => {
                self.message_with(quote(value.as_str()).as_str())
            },
            CliError::UnexpectedTrailingArgument { token: Token::Value(value) } => {
                self.message_with(quote(value.as_str()).as_str())
            },
            _ => self.message_with(""),
        }
    }
}

} // verus!
