//! The parse itself: one pass over the classified tokens, each resolved
//! against the options of the tool, and the mathematical model of that pass.
use crate::args::Outcome;
use crate::draft::{broken_rule, converted, Draft, DraftView, Selection};
use crate::error::{multi_arg, CliError, ErrorView};
use crate::flags::{known_flag, Flag};
use crate::lexer::{
    attached_value, format_flag, lex_attached, lex_next, lex_value, lexer_new, lexer_state,
    next_token, option_value, total_weight, LexState, Lexed, Token, TokenView,
};
use crate::options::{keyword, Subcommand};
use crate::text::texts;
use vstd::prelude::*;

verus! {

/// What a command line may ask for in place of a run.
pub enum Request {
    /// Help: with `--help` the long text, with `-h` the short one.
    Help { long: bool },
    /// The version.
    Version,
}

/// How a parse ends when nothing is wrong.
pub enum Ending {
    /// The command line was read to its end: what was gathered, and the
    /// arguments behind the bare `--`.
    Run { settings: DraftView, rest: Seq<Seq<char>> },
    /// Help or the version was asked for, and the parse went no further.
    Asked(Request),
}

/// Where one token leads.
pub enum Step {
    /// The parse goes on, with the parser in this state and this much
    /// gathered.
    Go(LexState, DraftView),
    /// The parse ends here, and nothing is wrong.
    Stop(Request),
    /// The parse fails.
    Fail(ErrorView),
}

/// The argument that hands an option on, with the value that was attached to
/// it. A long option keeps its `=`; a short option has its value right behind
/// it.
pub open spec fn passed_on(token: TokenView, attached: Option<Seq<char>>) -> Seq<char> {
    match attached {
        None => token.spelling(),
        Some(value) => match token {
            TokenView::Long(_) => token.spelling() + seq!['='] + value,
            _ => token.spelling() + value,
        },
    }
}

/// Where a bare value leads, with the parser in state `st` behind it. The
/// first bare value of a command line may name the subcommand; if it does
/// not, the default applies, and this value and all later ones are handed on.
/// `demangle` takes nothing: whatever token follows it is an error.
pub open spec fn bare_step(text: Seq<char>, st: LexState, d: DraftView) -> Step {
    match d.selection {
        Selection::Open => match keyword(text) {
            Some(Subcommand::Demangle) => match lex_next(st).0 {
                Lexed::End => Step::Go(
                    lex_next(st).1,
                    d.with_selection(Selection::Chosen(Subcommand::Demangle)),
                ),
                Lexed::Token(next) => Step::Fail(
                    ErrorView::UnexpectedTrailingArgument { token: next },
                ),
                Lexed::Stray { option, value } => Step::Fail(
                    ErrorView::UnexpectedValue { flag: option, value },
                ),
            },
            Some(s) => Step::Go(st, d.with_selection(Selection::Chosen(s))),
            None => Step::Go(st, d.with_selection(Selection::Defaulted).with_forwarded(text)),
        },
        _ => Step::Go(st, d.with_forwarded(text)),
    }
}

/// Where a token leads that is no option of the tool. An option is handed on
/// together with the value attached to it, if any; `-q` is known to take
/// none, so what follows it in a cluster is read as further options.
pub open spec fn forward_step(token: TokenView, st: LexState, d: DraftView) -> Step {
    match token {
        TokenView::Value(text) => bare_step(text, st, d),
        TokenView::Short(c) => if c == 'q' {
            Step::Go(st, d.with_forwarded(token.spelling()))
        } else {
            Step::Go(lex_attached(st).1, d.with_forwarded(passed_on(token, lex_attached(st).0)))
        },
        TokenView::Long(_) => Step::Go(
            lex_attached(st).1,
            d.with_forwarded(passed_on(token, lex_attached(st).0)),
        ),
    }
}

/// Where a token leads, with the parser in state `st` behind it and `d`
/// gathered before it.
///
/// A switch or an option with one value that was given before is a
/// duplicate. An option with a value takes it from the parser, and is an
/// error without one. Help and version end the parse while no subcommand has
/// been chosen; after that, help is handed on and the version is an error.
pub open spec fn step(token: TokenView, st: LexState, d: DraftView) -> Step {
    match known_flag(token) {
        Some(Flag::Switch(s)) => if d.switches.contains(s) {
            Step::Fail(ErrorView::DuplicateArgument { flag: token.spelling() })
        } else {
            Step::Go(st, d.with_switch(s))
        },
        Some(Flag::Single(o)) => if d.singles.contains_key(o) {
            Step::Fail(ErrorView::DuplicateArgument { flag: token.spelling() })
        } else {
            match lex_value(st).0 {
                None => Step::Fail(ErrorView::MissingValue { flag: token.spelling() }),
                Some(text) => match converted(o, text) {
                    Err(e) => Step::Fail(e),
                    Ok(value) => Step::Go(lex_value(st).1, d.with_single(o, value)),
                },
            }
        },
        Some(Flag::Multi(m)) => match lex_value(st).0 {
            None => Step::Fail(ErrorView::MissingValue { flag: token.spelling() }),
            Some(text) => Step::Go(lex_value(st).1, d.with_multi(m, text)),
        },
        Some(Flag::Verbose) => Step::Go(st, d.louder()),
        Some(Flag::Help) => if d.selection is Chosen {
            forward_step(token, st, d)
        } else {
            Step::Stop(Request::Help { long: token is Long })
        },
        Some(Flag::Version) => if d.selection is Chosen {
            Step::Fail(ErrorView::UnexpectedArgument)
        } else {
            Step::Stop(Request::Version)
        },
        None => forward_step(token, st, d),
    }
}

/// The first argument, with what follows it.
pub proof fn lemma_weight_unfold(args: Seq<Seq<char>>)
    requires
        args.len() > 0,
    ensures
        total_weight(args) == args[0].len() + 2 + total_weight(args.skip(1)),
{
}

/// Asking for a value never gives the parser more to read.
pub proof fn lemma_value_shrinks(st: LexState)
    ensures
        lex_attached(st).1.weight() <= st.weight(),
        lex_value(st).1.weight() <= st.weight(),
        lex_attached(st).1.unicode == st.unicode,
        lex_value(st).1.unicode == st.unicode,
{
    if st.rest.len() > 0 {
        lemma_weight_unfold(st.rest);
    }
}

/// Every token leaves the parser with less to read.
pub proof fn lemma_next_shrinks(st: LexState)
    ensures
        lex_next(st).0 is Token ==> lex_next(st).1.weight() < st.weight(),
        lex_next(st).1.weight() <= st.weight(),
        lex_next(st).1.unicode == st.unicode,
{
    if st.rest.len() > 0 {
        lemma_weight_unfold(st.rest);
        let arg = st.rest[0];
        if st.rest.skip(1).len() > 0 {
            lemma_weight_unfold(st.rest.skip(1));
        }
        if arg.len() >= 2 && arg[0] == '-' && arg[1] == '-' {
            arg.index_of_first_ensures('=');
        }
    }
}

/// No step gives the parser more to read.
pub proof fn lemma_step_shrinks(token: TokenView, st: LexState, d: DraftView)
    ensures
        step(token, st, d) matches Step::Go(next, _) ==> next.weight() <= st.weight()
            && next.unicode == st.unicode,
{
    lemma_value_shrinks(st);
    lemma_next_shrinks(st);
}

/// How the parse ends that starts with the parser in state `st`, with `d`
/// gathered so far and `rest` as the arguments behind the bare `--`: token by
/// token, until the command line is exhausted, a token ends the parse, or
/// one fails. At the end the rule between options is checked.
pub open spec fn run(st: LexState, d: DraftView, rest: Seq<Seq<char>>) -> Result<Ending, ErrorView>
    decreases st.weight(),
{
    match lex_next(st).0 {
        Lexed::Stray { option, value } => Err(ErrorView::UnexpectedValue { flag: option, value }),
        Lexed::End => match broken_rule(d) {
            Some(e) => Err(e),
            None => Ok(Ending::Run { settings: d, rest }),
        },
        Lexed::Token(token) => match step(token, lex_next(st).1, d) {
            Step::Fail(e) => Err(e),
            Step::Stop(request) => Ok(Ending::Asked(request)),
            Step::Go(next, gathered) => {
                proof {
                    lemma_next_shrinks(st);
                    lemma_step_shrinks(token, lex_next(st).1, d);
                }
                run(next, gathered, rest)
            },
        },
    }
}

/// One token of a parse, and then the rest of it.
pub proof fn lemma_run_unfold(st: LexState, d: DraftView, rest: Seq<Seq<char>>)
    ensures
        run(st, d, rest) == match lex_next(st).0 {
            Lexed::Stray { option, value } => Err(
                ErrorView::UnexpectedValue { flag: option, value },
            ),
            Lexed::End => match broken_rule(d) {
                Some(e) => Err(e),
                None => Ok(Ending::Run { settings: d, rest }),
            },
            Lexed::Token(token) => match step(token, lex_next(st).1, d) {
                Step::Fail(e) => Err(e),
                Step::Stop(request) => Ok(Ending::Asked(request)),
                Step::Go(next, gathered) => run(next, gathered, rest),
            },
        },
{
}

/// Whether a result is the one that the model names: the same error, the
/// same ending, and on a full run the configuration that reflects what was
/// gathered.
pub open spec fn agrees(r: Result<Outcome, CliError>, model: Result<Ending, ErrorView>) -> bool {
    match model {
        Ok(Ending::Run { settings, rest }) => r matches Ok(Outcome::Run(args)) && args.reflects(
            settings,
            rest,
        ),
        Ok(Ending::Asked(Request::Help { long })) => r matches Ok(Outcome::Help { long: l }) && l
            == long,
        Ok(Ending::Asked(Request::Version)) => r matches Ok(Outcome::Version),
        Err(e) => r matches Err(x) && x@ == e,
    }
}

/// Whether a result is the one that a step names: to go on with the draft
/// and the parser as the step says, to stop with its ending, or to fail with
/// its error.
pub open spec fn follows(
    r: Result<Option<Outcome>, CliError>,
    draft: DraftView,
    state: LexState,
    model: Step,
) -> bool {
    match model {
        Step::Go(next, gathered) => r matches Ok(None) && state == next && draft == gathered,
        Step::Stop(Request::Help { long }) => r matches Ok(Some(Outcome::Help { long: l })) && l
            == long,
        Step::Stop(Request::Version) => r matches Ok(Some(Outcome::Version)),
        Step::Fail(e) => r matches Err(x) && x@ == e,
    }
}

/// Hands on a token that is no option of the tool.
fn forward_token(draft: &mut Draft, token: Token, p: &mut lexopt::Parser) -> (r: Result<
    Option<Outcome>,
    CliError,
>)
    requires
        lexer_state(*old(p)).unicode,
    ensures
        follows(
            r,
            final(draft)@,
            lexer_state(*final(p)),
            forward_step(token@, lexer_state(*old(p)), old(draft)@),
        ),
{
    match token {
        Token::Value(text) => {
            match draft.selection {
                Selection::Open => {
                    match Subcommand::from_str(text.as_str()) {
                        Ok(Subcommand::Demangle) => {
                            draft.select(Selection::Chosen(Subcommand::Demangle));
                            match next_token(p) {
                                Ok(None) => Ok(None),
                                Ok(Some(next)) => Err(
                                    CliError::UnexpectedTrailingArgument { token: next },
                                ),
                                Err(stray) => Err(
                                    CliError::UnexpectedValue {
                                        flag: stray.option,
                                        value: stray.value,
                                    },
                                ),
                            }
                        },
                        Ok(s) => {
                            draft.select(Selection::Chosen(s));
                            Ok(None)
                        },
                        Err(_) => {
                            draft.select(Selection::Defaulted);
                            draft.forward(text);
                            Ok(None)
                        },
                    }
                },
                _ => {
                    draft.forward(text);
                    Ok(None)
                },
            }
        },
        Token::Short(c) => {
            let mut arg = format_flag(&token);
            if c != 'q' {
                match attached_value(p) {
                    Some(value) => {
                        arg.append(value.as_str());
                    },
                    None => {},
                }
                proof {
                    assert(arg@ =~= passed_on(token@, lex_attached(lexer_state(*old(p))).0));
                }
            }
            draft.forward(arg);
            Ok(None)
        },
        Token::Long(_) => {
            let mut arg = format_flag(&token);
            match attached_value(p) {
                Some(value) => {
                    arg.push('=');
                    arg.append(value.as_str());
                },
                None => {},
            }
            proof {
                assert(arg@ =~= passed_on(token@, lex_attached(lexer_state(*old(p))).0));
            }
            draft.forward(arg);
            Ok(None)
        },
    }
}

/// Resolves one token against the options of the tool and stores what it
/// says in the draft.
fn accept(draft: &mut Draft, token: Token, p: &mut lexopt::Parser) -> (r: Result<
    Option<Outcome>,
    CliError,
>)
    requires
        lexer_state(*old(p)).unicode,
    ensures
        follows(
            r,
            final(draft)@,
            lexer_state(*final(p)),
            step(token@, lexer_state(*old(p)), old(draft)@),
        ),
{
    match Flag::of_token(&token) {
        Some(Flag::Switch(s)) => {
            if draft.is_on(s) {
                multi_arg(&token)?;
            }
            draft.turn_on(s);
            Ok(None)
        },
        Some(Flag::Single(o)) => {
            if draft.is_set(o) {
                multi_arg(&token)?;
            }
            match option_value(p) {
                None => Err(CliError::MissingValue { flag: format_flag(&token) }),
                Some(text) => {
                    draft.set(o, text)?;
                    Ok(None)
                },
            }
        },
        Some(Flag::Multi(m)) => {
            match option_value(p) {
                None => Err(CliError::MissingValue { flag: format_flag(&token) }),
                Some(text) => {
                    draft.append(m, text);
                    Ok(None)
                },
            }
        },
        Some(Flag::Verbose) => {
            draft.raise_verbosity();
            Ok(None)
        },
        Some(Flag::Help) => {
            match draft.selection {
                Selection::Chosen(_) => forward_token(draft, token, p),
                _ => {
                    let long = match token {
                        Token::Long(_) => true,
                        _ => false,
                    };
                    Ok(Some(Outcome::Help { long }))
                },
            }
        },
        Some(Flag::Version) => {
            match draft.selection {
                Selection::Chosen(_) => Err(CliError::UnexpectedArgument),
                _ => Ok(Some(Outcome::Version)),
            }
        },
        None => forward_token(draft, token, p),
    }
}

/// Reads the classified part of a command line: `tokens` are the arguments
/// between the subcommand literal and the first bare `--`, `rest` the ones
/// behind it.
pub fn classify(tokens: Vec<String>, rest: Vec<String>) -> (r: Result<Outcome, CliError>)
    ensures
        agrees(r, run(LexState::start(texts(tokens@)), DraftView::empty(), texts(rest@))),
{
    let ghost goal = run(LexState::start(texts(tokens@)), DraftView::empty(), texts(rest@));
    let mut p = lexer_new(tokens);
    let mut draft = Draft::new();
    loop
        invariant
            lexer_state(p).unicode,
            goal == run(
                LexState::start(texts(tokens@)),
                DraftView::empty(),
                texts(rest@),
            ),
            run(lexer_state(p), draft@, texts(rest@)) == goal,
        decreases lexer_state(p).weight(),
    {
        let ghost before = lexer_state(p);
        proof {
            lemma_next_shrinks(before);
            lemma_run_unfold(before, draft@, texts(rest@));
        }
        match next_token(&mut p) {
            Err(stray) => {
                return Err(CliError::UnexpectedValue { flag: stray.option, value: stray.value });
            },
            Ok(None) => {
                match draft.finish(rest) {
                    Ok(args) => {
                        return Ok(Outcome::Run(args));
                    },
                    Err(e) => {
                        return Err(e);
                    },
                }
            },
            Ok(Some(token)) => {
                proof {
                    lemma_step_shrinks(token@, lexer_state(p), draft@);
                }
                match accept(&mut draft, token, &mut p) {
                    Err(e) => {
                        return Err(e);
                    },
                    Ok(Some(outcome)) => {
                        return Ok(outcome);
                    },
                    Ok(None) => {},
                }
            },
        }
    }
}

} // verus!
