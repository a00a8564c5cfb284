//! The token classifier. `lexopt::Parser` cuts the arguments into long options,
//! short options and bare values; this module gives the parser a mathematical
//! state, says what each of its methods does to that state, and wraps the
//! methods so that verified code can call them.
use crate::text::{text_of, texts};
use vstd::prelude::*;

verus! {

/// One classified piece of the command line.
#[derive(Debug, PartialEq, Eq)]
pub enum Token {
    /// A long option, without its two dashes: `--name` or `--name=value`.
    Long(String),
    /// A short option, without its dash: one character of `-abc`.
    Short(char),
    /// A bare value.
    Value(String),
}

/// What a [`Token`] stands for.
pub enum TokenView {
    Long(Seq<char>),
    Short(char),
    Value(Seq<char>),
}

impl View for Token {
    type V = TokenView;

    open spec fn view(&self) -> TokenView {
        match self {
            Token::Long(name) => TokenView::Long(name@),
            Token::Short(c) => TokenView::Short(*c),
            Token::Value(text) => TokenView::Value(text@),
        }
    }
}

impl TokenView {
    /// How an option is written on the command line: `--name` or `-c`. A bare
    /// value is written as it is.
    pub open spec fn spelling(self) -> Seq<char> {
        match self {
            TokenView::Long(name) => seq!['-', '-'] + name,
            TokenView::Short(c) => seq!['-', c],
            TokenView::Value(text) => text,
        }
    }
}

/// A value that an option carried although it takes none, as in
/// `--release=yes` or `-r=yes`.
#[derive(Debug)]
pub struct Stray {
    /// The option as it was written, dashes included.
    pub option: String,
    /// The value behind the `=`.
    pub value: String,
}

/// What the last option left behind in the parser.
pub enum Pending {
    /// Nothing: the next token starts a new argument.
    Nothing,
    /// A long option was written as `option=value`, and the value has not
    /// been asked for. `option` includes the dashes.
    Value { option: Seq<char>, value: Seq<char> },
    /// A cluster of short options is being read: `last` is the option handed
    /// out last, `left` is what follows it in the same argument.
    Shorts { last: char, left: Seq<char> },
}

/// The state of a `lexopt::Parser` that was made from text.
pub struct LexState {
    /// The arguments that have not been read yet.
    pub rest: Seq<Seq<char>>,
    /// What the argument read last still holds.
    pub pending: Pending,
    /// Whether a bare `--` has been read: from then on every argument is a
    /// value.
    pub finished: bool,
    /// Whether every argument the parser was made from is valid Unicode. The
    /// other fields describe the parser only if it is.
    pub unicode: bool,
}

/// The sum of the lengths of the arguments, each counted with two more.
pub open spec fn total_weight(args: Seq<Seq<char>>) -> nat
    decreases args.len(),
{
    if args.len() == 0 {
        0
    } else {
        args[0].len() + 2 + total_weight(args.skip(1))
    }
}

impl LexState {
    /// A parser that has read nothing of `args`.
    pub open spec fn start(args: Seq<Seq<char>>) -> LexState {
        LexState { rest: args, pending: Pending::Nothing, finished: false, unicode: true }
    }

    /// The same parser with nothing pending.
    pub open spec fn settled(self) -> LexState {
        LexState { pending: Pending::Nothing, ..self }
    }

    /// The same parser after it has taken its next whole argument.
    pub open spec fn advanced(self) -> LexState
        recommends
            self.rest.len() > 0,
    {
        LexState { rest: self.rest.skip(1), pending: Pending::Nothing, ..self }
    }

    /// A bound on the number of tokens that the parser can still hand out.
    pub open spec fn weight(self) -> nat {
        total_weight(self.rest) + match self.pending {
            Pending::Nothing => 0nat,
            Pending::Value { .. } => 1nat,
            Pending::Shorts { left, .. } => left.len() + 1,
        }
    }
}

/// What one call of `next` hands out.
pub enum Lexed {
    /// The command line is exhausted.
    End,
    /// The next token.
    Token(TokenView),
    /// The last option had a value attached that nobody took.
    Stray { option: Seq<char>, value: Seq<char> },
}

/// What a result of [`next_token`] stands for.
pub open spec fn lexed_of(r: Result<Option<Token>, Stray>) -> Lexed {
    match r {
        Ok(None) => Lexed::End,
        Ok(Some(token)) => Lexed::Token(token@),
        Err(stray) => Lexed::Stray { option: stray.option@, value: stray.value@ },
    }
}

/// `next` when nothing is pending: the parser takes the next whole argument.
/// After a bare `--` everything is a value. An argument that begins with `--`
/// is a long option, cut at its first `=`; another one that begins with `-`
/// and is longer than that starts a cluster of short options; anything else,
/// a lone `-` included, is a value.
pub open spec fn lex_argument(st: LexState) -> (Lexed, LexState) {
    if st.rest.len() == 0 {
        (Lexed::End, st)
    } else {
        let arg = st.rest[0];
        let after = st.advanced();
        if st.finished {
            (Lexed::Token(TokenView::Value(arg)), after)
        } else if arg == seq!['-', '-'] {
            let done = LexState { finished: true, ..after };
            if done.rest.len() == 0 {
                (Lexed::End, done)
            } else {
                (Lexed::Token(TokenView::Value(done.rest[0])), done.advanced())
            }
        } else if arg.len() >= 2 && arg[0] == '-' && arg[1] == '-' {
            match arg.index_of_first('=') {
                Some(at) => (
                    Lexed::Token(TokenView::Long(arg.subrange(2, at))),
                    LexState {
                        pending: Pending::Value {
                            option: arg.subrange(0, at),
                            value: arg.skip(at + 1),
                        },
                        ..after
                    },
                ),
                None => (Lexed::Token(TokenView::Long(arg.skip(2))), after),
            }
        } else if arg.len() >= 2 && arg[0] == '-' {
            (
                Lexed::Token(TokenView::Short(arg[1])),
                LexState { pending: Pending::Shorts { last: arg[1], left: arg.skip(2) }, ..after },
            )
        } else {
            (Lexed::Token(TokenView::Value(arg)), after)
        }
    }
}

/// What `next` hands out, and the parser after the call. A value that is
/// still pending behind `=` is an error; inside a cluster the next character
/// is the next short option.
pub open spec fn lex_next(st: LexState) -> (Lexed, LexState) {
    match st.pending {
        Pending::Nothing => lex_argument(st),
        Pending::Value { option, value } => (Lexed::Stray { option, value }, st.settled()),
        Pending::Shorts { last, left } => if left.len() == 0 {
            lex_argument(st.settled())
        } else if left[0] == '=' {
            (Lexed::Stray { option: seq!['-', last], value: left.skip(1) }, st.settled())
        } else {
            (
                Lexed::Token(TokenView::Short(left[0])),
                LexState { pending: Pending::Shorts { last: left[0], left: left.skip(1) }, ..st },
            )
        },
    }
}

/// What `optional_value` hands out, and the parser after the call: the value
/// that is attached to the last option, as in `--name=value`, `-cvalue` or
/// `-c=value`, if there is one.
pub open spec fn lex_attached(st: LexState) -> (Option<Seq<char>>, LexState) {
    match st.pending {
        Pending::Nothing => (None, st),
        Pending::Value { option, value } => (Some(value), st.settled()),
        Pending::Shorts { last, left } => if left.len() == 0 {
            (None, st.settled())
        } else if left[0] == '=' {
            (Some(left.skip(1)), st.settled())
        } else {
            (Some(left), st.settled())
        },
    }
}

/// What `value` hands out, and the parser after the call: the attached value
/// if there is one, else the next whole argument, whatever it looks like.
pub open spec fn lex_value(st: LexState) -> (Option<Seq<char>>, LexState) {
    if lex_attached(st).0 is Some {
        lex_attached(st)
    } else if st.rest.len() > 0 {
        (Some(st.rest[0]), st.advanced())
    } else {
        (None, st.settled())
    }
}

/// `lexopt::Parser`: nothing of it is visible but through [`lexer_state`].
#[verifier::external_type_specification]
#[verifier::external_body]
pub struct ExParser(lexopt::Parser);

/// The state of a parser: the arguments it has not read, and what the last
/// option left behind.
pub uninterp spec fn lexer_state(p: lexopt::Parser) -> LexState;

/// `lexopt::Parser::from_args`: a parser over `args`, none of which is the
/// program's name, that has read nothing yet.
#[verifier::external_body]
pub(crate) fn lexer_new(args: Vec<String>) -> (p: lexopt::Parser)
    ensures
        lexer_state(p) == LexState::start(texts(args@)),
{
    lexopt::Parser::from_args(args)
}

/// `lexopt::Parser::next`: the next option or value, as [`lex_next`] states
/// it. The only error that `next` returns is the one for a value that is
/// still attached to the last option.
#[verifier::external_body]
pub(crate) fn next_token(p: &mut lexopt::Parser) -> (r: Result<Option<Token>, Stray>)
    requires
        lexer_state(*old(p)).unicode,
    ensures
        lexed_of(r) == lex_next(lexer_state(*old(p))).0,
        lexer_state(*final(p)) == lex_next(lexer_state(*old(p))).1,
{
    match p.next() {
        Ok(None) => Ok(None),
        Ok(Some(lexopt::Arg::Short(c))) => Ok(Some(Token::Short(c))),
        Ok(Some(lexopt::Arg::Long(name))) => Ok(Some(Token::Long(name.to_owned()))),
        Ok(Some(lexopt::Arg::Value(v))) => Ok(Some(Token::Value(v.to_string_lossy().into_owned()))),
        Err(lexopt::Error::UnexpectedValue { option, value }) => {
            Err(Stray { option, value: value.to_string_lossy().into_owned() })
        },
        Err(other) => Err(Stray { option: String::new(), value: other.to_string() }),
    }
}

/// `lexopt::Parser::value`: the value of the last option, as [`lex_value`]
/// states it. It is missing only where nothing is attached and the command
/// line is exhausted.
#[verifier::external_body]
pub(crate) fn option_value(p: &mut lexopt::Parser) -> (r: Option<String>)
    requires
        lexer_state(*old(p)).unicode,
    ensures
        text_of(r) == lex_value(lexer_state(*old(p))).0,
        lexer_state(*final(p)) == lex_value(lexer_state(*old(p))).1,
{
    match p.value() {
        Ok(v) => Some(v.to_string_lossy().into_owned()),
        Err(_) => None,
    }
}

/// `lexopt::Parser::optional_value`: the value attached to the last option,
/// as [`lex_attached`] states it.
#[verifier::external_body]
pub(crate) fn attached_value(p: &mut lexopt::Parser) -> (r: Option<String>)
    requires
        lexer_state(*old(p)).unicode,
    ensures
        text_of(r) == lex_attached(lexer_state(*old(p))).0,
        lexer_state(*final(p)) == lex_attached(lexer_state(*old(p))).1,
{
    match p.optional_value() {
        Some(v) => Some(v.to_string_lossy().into_owned()),
        None => None,
    }
}

/// Writes an option as it stands on the command line: `--name` or `-c`.
pub fn format_flag(flag: &Token) -> (r: String)
    requires
        !(flag is Value),
    ensures
        r@ == flag@.spelling(),
{
    let mut out = String::new();
    out.push('-');
    match flag {
        Token::Long(name) => {
            out.push('-');
            out.append(name.as_str());
            proof {
                assert(out@ =~= flag@.spelling());
            }
        },
        Token::Short(c) => {
            out.push(*c);
            proof {
                assert(out@ =~= flag@.spelling());
            }
        },
        Token::Value(_) => {},
    }
    out
}

} // verus!
