//! What holds of every parse, proved from the model.
use crate::draft::{broken_rule, capped, converted, handed_on, DraftView, Selection};
use crate::envelope::{
    after_separator, all_text, before_separator, decoded, first_invalid, parsed, parsed_text,
    separator, subcommand_literal,
};
use crate::error::ErrorView;
use crate::flags::{known_flag, Flag, Multi, Single, Switch};
use crate::lexer::{lex_next, lex_value, LexState, Lexed, TokenView};
use crate::names::{
    lemma_cut_behind_head, lemma_cut_nothing, lemma_keywords_are_bare, lemma_reads_bare,
    lemma_reads_nothing, lemma_reads_option, lemma_reads_something, lemma_takes_value,
};
use crate::options::{keyword, Subcommand};
use crate::parse::{
    forward_step, lemma_next_shrinks, lemma_run_unfold, lemma_step_shrinks, run, step, Ending,
    Request, Step,
};
use vstd::prelude::*;
use vstd::utf8::*;

verus! {

/// A raw argument that is not valid Unicode fails the parse with an encoding
/// error. The error names the first such argument, counted from 1: no
/// argument before that position is invalid, and the one at it is.
pub proof fn law_invalid_argument_rejected(raw: Seq<Seq<u8>>, i: int)
    requires
        0 <= i < raw.len(),
        !valid_utf8(raw[i]),
    ensures
        parsed(raw) matches Err(ErrorView::Encoding { index }) && 1 <= index <= i + 1
            && first_invalid(raw, index - 1),
{
    lemma_first_invalid_exists(raw, i);
    let k = choose|k: int| first_invalid(raw, k);
    if i < k {
        assert(valid_utf8(raw[i]));
    }
}

/// Where an argument is invalid, one is the first that is.
proof fn lemma_first_invalid_exists(raw: Seq<Seq<u8>>, i: int)
    requires
        0 <= i < raw.len(),
        !valid_utf8(raw[i]),
    ensures
        exists|k: int| first_invalid(raw, k),
    decreases i,
{
    if forall|j: int| 0 <= j < i ==> valid_utf8(#[trigger] raw[j]) {
        assert(first_invalid(raw, i));
    } else {
        let j = choose|j: int| 0 <= j < i && !valid_utf8(#[trigger] raw[j]);
        lemma_first_invalid_exists(raw, j);
    }
}

/// A raw argument that is not valid Unicode, with none before it that is
/// invalid too, fails the parse with its own position, counted from 1.
pub proof fn law_invalid_argument_named(raw: Seq<Seq<u8>>, i: int)
    requires
        first_invalid(raw, i),
    ensures
        parsed(raw) == Err::<Ending, ErrorView>(ErrorView::Encoding { index: (i + 1) as nat }),
{
    law_invalid_argument_rejected(raw, i);
    let k = choose|k: int| first_invalid(raw, k);
    if k < i {
        assert(valid_utf8(raw[k]));
    }
}

/// A command line of fewer than two arguments fails for want of the
/// subcommand literal.
pub proof fn law_short_command_line(raw: Seq<Seq<u8>>)
    requires
        all_text(raw),
        raw.len() < 2,
    ensures
        parsed(raw) == Err::<Ending, ErrorView>(ErrorView::MissingSubcommand),
{
}

/// A command line whose second argument is not the subcommand literal fails,
/// and the error holds what was found in its place.
pub proof fn law_wrong_subcommand_literal(raw: Seq<Seq<u8>>)
    requires
        all_text(raw),
        raw.len() >= 2,
        decode_utf8(raw[1]) != subcommand_literal(),
    ensures
        parsed(raw) == Err::<Ending, ErrorView>(
            ErrorView::UnexpectedSubcommand { found: decode_utf8(raw[1]) },
        ),
{
}

/// A switch that is on cannot be given again: whichever way it is spelled,
/// the parse fails with a duplicate error that names the spelling.
pub proof fn law_switch_given_twice(
    st: LexState,
    d: DraftView,
    rest: Seq<Seq<char>>,
    token: TokenView,
    s: Switch,
)
    requires
        lex_next(st).0 == Lexed::Token(token),
        known_flag(token) == Some(Flag::Switch(s)),
        d.switches.contains(s),
    ensures
        run(st, d, rest) == Err::<Ending, ErrorView>(
            ErrorView::DuplicateArgument { flag: token.spelling() },
        ),
{
    lemma_run_unfold(st, d, rest);
}

/// A switch that is not on yet is turned on, and the parse goes on behind it.
pub proof fn law_switch_given_once(
    st: LexState,
    d: DraftView,
    rest: Seq<Seq<char>>,
    token: TokenView,
    s: Switch,
)
    requires
        lex_next(st).0 == Lexed::Token(token),
        known_flag(token) == Some(Flag::Switch(s)),
        !d.switches.contains(s),
    ensures
        run(st, d, rest) == run(lex_next(st).1, d.with_switch(s), rest),
        d.with_switch(s).switches.contains(s),
{
    lemma_run_unfold(st, d, rest);
}

/// An option with one value that has its value cannot be given again:
/// whichever way it is spelled, the parse fails with a duplicate error that
/// names the spelling, before any value is read.
pub proof fn law_single_given_twice(
    st: LexState,
    d: DraftView,
    rest: Seq<Seq<char>>,
    token: TokenView,
    o: Single,
)
    requires
        lex_next(st).0 == Lexed::Token(token),
        known_flag(token) == Some(Flag::Single(o)),
        d.singles.contains_key(o),
    ensures
        run(st, d, rest) == Err::<Ending, ErrorView>(
            ErrorView::DuplicateArgument { flag: token.spelling() },
        ),
{
    lemma_run_unfold(st, d, rest);
}

/// An option that may be repeated takes its value every time, and appends
/// it behind the values it has.
pub proof fn law_multi_appends(
    st: LexState,
    d: DraftView,
    rest: Seq<Seq<char>>,
    token: TokenView,
    m: Multi,
    value: Seq<char>,
)
    requires
        lex_next(st).0 == Lexed::Token(token),
        known_flag(token) == Some(Flag::Multi(m)),
        lex_value(lex_next(st).1).0 == Some(value),
    ensures
        run(st, d, rest) == run(lex_value(lex_next(st).1).1, d.with_multi(m, value), rest),
        d.with_multi(m, value).multis[m] == d.multis[m].push(value),
{
    lemma_run_unfold(st, d, rest);
}

/// Every request for verbose output counts, however often it is made.
pub proof fn law_verbose_counts(
    st: LexState,
    d: DraftView,
    rest: Seq<Seq<char>>,
    token: TokenView,
)
    requires
        lex_next(st).0 == Lexed::Token(token),
        known_flag(token) == Some(Flag::Verbose),
    ensures
        run(st, d, rest) == run(lex_next(st).1, d.louder(), rest),
        d.verbose < usize::MAX ==> d.louder().verbose == d.verbose + 1,
{
    lemma_run_unfold(st, d, rest);
}

/// While no subcommand has been chosen, help and the version end the parse
/// at once, whatever follows; `--help` asks for the long text, `-h` for the
/// short one.
pub proof fn law_request_before_subcommand(
    st: LexState,
    d: DraftView,
    rest: Seq<Seq<char>>,
    token: TokenView,
)
    requires
        lex_next(st).0 == Lexed::Token(token),
        !(d.selection is Chosen),
    ensures
        known_flag(token) == Some(Flag::Help) ==> run(st, d, rest) == Ok::<Ending, ErrorView>(
            Ending::Asked(Request::Help { long: token is Long }),
        ),
        known_flag(token) == Some(Flag::Version) ==> run(st, d, rest) == Ok::<Ending, ErrorView>(
            Ending::Asked(Request::Version),
        ),
{
    lemma_run_unfold(st, d, rest);
}

/// Behind a subcommand, help is handed on like an option that the tool does
/// not know, and the version is an error.
pub proof fn law_request_behind_subcommand(
    st: LexState,
    d: DraftView,
    rest: Seq<Seq<char>>,
    token: TokenView,
)
    requires
        lex_next(st).0 == Lexed::Token(token),
        d.selection is Chosen,
    ensures
        known_flag(token) == Some(Flag::Help) ==> step(token, lex_next(st).1, d) == forward_step(
            token,
            lex_next(st).1,
            d,
        ),
        known_flag(token) == Some(Flag::Version) ==> run(st, d, rest) == Err::<Ending, ErrorView>(
            ErrorView::UnexpectedArgument,
        ),
{
    lemma_run_unfold(st, d, rest);
}

/// Whether `later` holds all that `earlier` holds: the same switches and
/// values and maybe more, and lists that begin with the earlier lists.
pub open spec fn keeps(earlier: DraftView, later: DraftView) -> bool {
    &&& earlier.switches.subset_of(later.switches)
    &&& earlier.singles.submap_of(later.singles)
    &&& forall|m: Multi| #[trigger] earlier.multis[m].is_prefix_of(later.multis[m])
    &&& earlier.cargo_args.is_prefix_of(later.cargo_args)
    &&& earlier.verbose <= later.verbose
    &&& !(earlier.selection is Open) ==> later.selection == earlier.selection
}

/// No step loses what was gathered before it.
pub proof fn law_step_keeps(token: TokenView, st: LexState, d: DraftView)
    requires
        d.well_formed(),
    ensures
        step(token, st, d) matches Step::Go(_, gathered) ==> keeps(d, gathered)
            && gathered.well_formed(),
{
    match step(token, st, d) {
        Step::Go(_, gathered) => {
            assert(gathered.multis.dom() =~= Set::<Multi>::full());
            assert forall|m: Multi| #[trigger] d.multis[m].is_prefix_of(gathered.multis[m]) by {}
        },
        _ => {},
    }
}

/// What has been gathered is never lost: a parse that runs to the end of
/// the command line ends with every switch, value and list entry that it had
/// at any point on the way, the lists in the order of appearance. A second
/// bare value never changes the subcommand, and the arguments behind the
/// bare `--` come out as they went in.
pub proof fn law_gathered_is_kept(st: LexState, d: DraftView, rest: Seq<Seq<char>>)
    requires
        d.well_formed(),
    ensures
        run(st, d, rest) matches Ok(Ending::Run { settings, rest: trailing }) ==> keeps(
            d,
            settings,
        ) && settings.well_formed() && trailing == rest,
    decreases st.weight(),
{
    lemma_run_unfold(st, d, rest);
    match lex_next(st).0 {
        Lexed::Token(token) => {
            match step(token, lex_next(st).1, d) {
                Step::Go(next, gathered) => {
                    lemma_next_shrinks(st);
                    lemma_step_shrinks(token, lex_next(st).1, d);
                    law_step_keeps(token, lex_next(st).1, d);
                    law_gathered_is_kept(next, gathered, rest);
                    match run(st, d, rest) {
                        Ok(Ending::Run { settings, rest: trailing }) => {
                            lemma_keeps_chain(d, gathered, settings);
                        },
                        _ => {},
                    }
                },
                _ => {},
            }
        },
        _ => {},
    }
}

/// Keeping goes through: what the second holds of the first, the third holds
/// too.
proof fn lemma_keeps_chain(a: DraftView, b: DraftView, c: DraftView)
    requires
        a.well_formed(),
        b.well_formed(),
        c.well_formed(),
        keeps(a, b),
        keeps(b, c),
    ensures
        keeps(a, c),
{
    assert forall|m: Multi| #[trigger] a.multis[m].is_prefix_of(c.multis[m]) by {
        assert(a.multis[m].is_prefix_of(b.multis[m]));
        assert(b.multis[m].is_prefix_of(c.multis[m]));
    }
    assert(a.cargo_args.is_prefix_of(c.cargo_args));
    assert(a.switches.subset_of(c.switches)) by {
        assert forall|s: Switch| a.switches.contains(s) implies c.switches.contains(s) by {
            assert(b.switches.contains(s));
        }
    }
    assert(a.singles.submap_of(c.singles)) by {
        assert forall|o: Single| #[trigger]
            a.singles.dom().contains(o) implies c.singles.dom().contains(o) && a.singles[o]
            == c.singles[o] by {
            assert(b.singles.dom().contains(o));
        }
    }
}

/// The arguments behind the bare `--` play no part in the parse: with other
/// arguments there, it fails with the same error or ends in the same way,
/// with the same options gathered.
pub proof fn law_trailing_is_not_read(
    st: LexState,
    d: DraftView,
    rest: Seq<Seq<char>>,
    other: Seq<Seq<char>>,
)
    ensures
        run(st, d, other) == match run(st, d, rest) {
            Ok(Ending::Run { settings, .. }) => Ok(Ending::Run { settings, rest: other }),
            ending => ending,
        },
    decreases st.weight(),
{
    lemma_run_unfold(st, d, rest);
    lemma_run_unfold(st, d, other);
    match lex_next(st).0 {
        Lexed::Token(token) => {
            match step(token, lex_next(st).1, d) {
                Step::Go(next, gathered) => {
                    lemma_next_shrinks(st);
                    lemma_step_shrinks(token, lex_next(st).1, d);
                    law_trailing_is_not_read(next, gathered, rest, other);
                },
                _ => {},
            }
        },
        _ => {},
    }
}

/// The first bare value, if it is the keyword of a subcommand that takes
/// arguments, selects that subcommand and is not handed on.
pub proof fn law_first_keyword_selects(
    st: LexState,
    d: DraftView,
    rest: Seq<Seq<char>>,
    text: Seq<char>,
    s: Subcommand,
)
    requires
        lex_next(st).0 == Lexed::Token(TokenView::Value(text)),
        d.selection is Open,
        keyword(text) == Some(s),
        s != Subcommand::Demangle,
    ensures
        run(st, d, rest) == run(
            lex_next(st).1,
            d.with_selection(Selection::Chosen(s)),
            rest,
        ),
{
    lemma_run_unfold(st, d, rest);
}

/// A bare value behind the first one is handed on as it is, keyword or not,
/// and leaves the subcommand alone.
pub proof fn law_later_value_is_forwarded(
    st: LexState,
    d: DraftView,
    rest: Seq<Seq<char>>,
    text: Seq<char>,
)
    requires
        lex_next(st).0 == Lexed::Token(TokenView::Value(text)),
        !(d.selection is Open),
    ensures
        run(st, d, rest) == run(lex_next(st).1, d.with_forwarded(text), rest),
        d.with_forwarded(text).selection == d.selection,
        d.with_forwarded(text).cargo_args == d.cargo_args.push(text),
{
    lemma_run_unfold(st, d, rest);
}

/// `demangle` as the first bare value takes nothing behind it: any further
/// token fails the parse, and with none the parse ends as it does without
/// the keyword, with `demangle` chosen.
pub proof fn law_demangle_takes_nothing(
    st: LexState,
    d: DraftView,
    rest: Seq<Seq<char>>,
    text: Seq<char>,
)
    requires
        lex_next(st).0 == Lexed::Token(TokenView::Value(text)),
        d.selection is Open,
        keyword(text) == Some(Subcommand::Demangle),
    ensures
        lex_next(lex_next(st).1).0 matches Lexed::Token(next) ==> run(st, d, rest) == Err::<
            Ending,
            ErrorView,
        >(ErrorView::UnexpectedTrailingArgument { token: next }),
        lex_next(lex_next(st).1).0 is End ==> run(st, d, rest) == match broken_rule(d) {
            Some(e) => Err(e),
            None => Ok(
                Ending::Run {
                    settings: d.with_selection(Selection::Chosen(Subcommand::Demangle)),
                    rest,
                },
            ),
        },
{
    lemma_run_unfold(st, d, rest);
    let st1 = lex_next(st).1;
    if lex_next(st1).0 is End {
        let chosen = d.with_selection(Selection::Chosen(Subcommand::Demangle));
        lemma_run_unfold(lex_next(st1).1, chosen, rest);
        assert(lex_next(lex_next(st1).1).0 is End);
    }
}

/// At the end of the command line the one rule between options decides:
/// `--exclude` without `--workspace` fails and names `--workspace`; anything
/// else succeeds with what was gathered.
pub proof fn law_exclude_needs_workspace(st: LexState, d: DraftView, rest: Seq<Seq<char>>)
    requires
        lex_next(st).0 is End,
    ensures
        d.multis[Multi::Exclude].len() > 0 && !d.switches.contains(Switch::Workspace) ==> run(
            st,
            d,
            rest,
        ) == Err::<Ending, ErrorView>(
            ErrorView::RequiresFlag { flag: "--exclude"@, requires: seq!["--workspace"@] },
        ),
        d.multis[Multi::Exclude].len() == 0 || d.switches.contains(Switch::Workspace) ==> run(
            st,
            d,
            rest,
        ) == Ok::<Ending, ErrorView>(Ending::Run { settings: d, rest }),
{
    lemma_run_unfold(st, d, rest);
}

/// Whatever stands behind the first bare `--` is not parsed: the parse is
/// the one of the arguments before it, and what stands behind it comes out
/// unchanged, whatever it looks like.
pub proof fn law_behind_separator_untouched(
    program: Seq<char>,
    front: Seq<Seq<char>>,
    back: Seq<Seq<char>>,
)
    requires
        !front.contains(separator()),
    ensures
        parsed_text(seq![program, subcommand_literal()] + front + seq![separator()] + back) == run(
            LexState::start(front),
            DraftView::empty(),
            back,
        ),
        run(LexState::start(front), DraftView::empty(), back) matches Ok(
            Ending::Run { rest, .. },
        ) ==> rest == back,
{
    let args = seq![program, subcommand_literal()] + front + seq![separator()] + back;
    let tail = args.skip(2);
    assert(tail =~= front + seq![separator()] + back);
    tail.index_of_first_ensures(separator());
    assert(tail[front.len() as int] == separator());
    assert(tail.contains(separator()));
    let at = tail.index_of_first(separator())->0;
    assert(at == front.len()) by {
        if at < front.len() {
            assert(front[at] == separator());
            assert(front.contains(separator()));
        }
    }
    assert(before_separator(tail) =~= front);
    assert(after_separator(tail) =~= back);
    assert(DraftView::empty().multis.dom() =~= Set::<Multi>::full());
    law_gathered_is_kept(LexState::start(front), DraftView::empty(), back);
}

/// A command line: the name of the program, the subcommand literal, and what
/// follows them.
pub open spec fn command_line(program: Seq<char>, given: Seq<Seq<char>>) -> Seq<Seq<char>> {
    seq![program, subcommand_literal()] + given
}

/// The parse of a command line whose first arguments are not the bare `--`
/// starts with these arguments, and its trailing arguments are those of what
/// follows them.
pub proof fn lemma_line_starts(program: Seq<char>, head: Seq<Seq<char>>, more: Seq<Seq<char>>)
    requires
        forall|i: int| 0 <= i < head.len() ==> head[i] != separator(),
    ensures
        parsed_text(command_line(program, head + more)) == run(
            LexState::start(head + before_separator(more)),
            DraftView::empty(),
            after_separator(more),
        ),
{
    let args = command_line(program, head + more);
    assert(args.skip(2) =~= head + more);
    lemma_cut_head(head, more);
}

/// Arguments that are not the bare `--` stand before it.
pub proof fn lemma_cut_head(head: Seq<Seq<char>>, more: Seq<Seq<char>>)
    requires
        forall|i: int| 0 <= i < head.len() ==> head[i] != separator(),
    ensures
        before_separator(head + more) == head + before_separator(more),
        after_separator(head + more) == after_separator(more),
    decreases head.len(),
{
    if head.len() == 0 {
        assert(head + more =~= more);
        assert(head + before_separator(more) =~= before_separator(more));
    } else {
        let all = head + more;
        assert(all[0] == head[0]);
        lemma_cut_behind_head(all);
        assert(all.skip(1) =~= head.skip(1) + more);
        lemma_cut_head(head.skip(1), more);
        assert(seq![head[0]] + (head.skip(1) + before_separator(more)) =~= head
            + before_separator(more));
    }
}

/// A switch given twice in a row, in whichever of its spellings, fails the
/// parse with a duplicate error that names the second spelling, whatever
/// follows.
pub proof fn law_switch_twice_in_a_row(
    program: Seq<char>,
    first: TokenView,
    second: TokenView,
    s: Switch,
    more: Seq<Seq<char>>,
)
    requires
        known_flag(first) == Some(Flag::Switch(s)),
        known_flag(second) == Some(Flag::Switch(s)),
    ensures
        parsed_text(command_line(program, seq![first.spelling(), second.spelling()] + more))
            == Err::<Ending, ErrorView>(
            ErrorView::DuplicateArgument { flag: second.spelling() },
        ),
{
    let head = seq![first.spelling(), second.spelling()];
    let rest = after_separator(more);
    let st0 = LexState::start(head + before_separator(more));
    lemma_reads_option(st0, first);
    let st1 = lex_next(st0).1;
    lemma_reads_option(st1, second);
    lemma_line_starts(program, head, more);
    lemma_run_unfold(st0, DraftView::empty(), rest);
    lemma_run_unfold(st1, DraftView::empty().with_switch(s), rest);
}

/// An option with one value given twice, in whichever of its spellings,
/// fails the parse with a duplicate error that names the second spelling,
/// whatever follows.
pub proof fn law_single_twice_in_a_row(
    program: Seq<char>,
    first: TokenView,
    value: Seq<char>,
    second: TokenView,
    o: Single,
    more: Seq<Seq<char>>,
)
    requires
        known_flag(first) == Some(Flag::Single(o)),
        known_flag(second) == Some(Flag::Single(o)),
        value != separator(),
        converted(o, value) is Ok,
    ensures
        parsed_text(
            command_line(program, seq![first.spelling(), value, second.spelling()] + more),
        ) == Err::<Ending, ErrorView>(ErrorView::DuplicateArgument { flag: second.spelling() }),
{
    let head = seq![first.spelling(), value, second.spelling()];
    let rest = after_separator(more);
    let st0 = LexState::start(head + before_separator(more));
    lemma_reads_option(st0, first);
    let st1 = lex_next(st0).1;
    lemma_takes_value(st1);
    let st2 = st1.advanced();
    lemma_reads_option(st2, second);
    lemma_line_starts(program, head, more);
    lemma_run_unfold(st0, DraftView::empty(), rest);
    let gathered = DraftView::empty().with_single(o, converted(o, value)->Ok_0);
    lemma_run_unfold(st2, gathered, rest);
}

/// An option that may be repeated, given twice, keeps both values in the
/// order in which they were given.
pub proof fn law_multi_twice_in_a_row(
    program: Seq<char>,
    first: TokenView,
    a: Seq<char>,
    second: TokenView,
    b: Seq<char>,
    m: Multi,
)
    requires
        known_flag(first) == Some(Flag::Multi(m)),
        known_flag(second) == Some(Flag::Multi(m)),
        a != separator(),
        b != separator(),
    ensures
        ({
            let gathered = DraftView::empty().with_multi(m, a).with_multi(m, b);
            &&& gathered.multis[m] == seq![a, b]
            &&& parsed_text(
                command_line(program, seq![first.spelling(), a, second.spelling(), b]),
            ) == match broken_rule(gathered) {
                Some(e) => Err(e),
                None => Ok(Ending::Run { settings: gathered, rest: Seq::empty() }),
            }
        }),
{
    let head = seq![first.spelling(), a, second.spelling(), b];
    let none = Seq::<Seq<char>>::empty();
    lemma_cut_nothing(none);
    assert(head + none =~= head);
    let st0 = LexState::start(head);
    lemma_reads_option(st0, first);
    let st1 = lex_next(st0).1;
    lemma_takes_value(st1);
    let st2 = st1.advanced();
    lemma_reads_option(st2, second);
    let st3 = lex_next(st2).1;
    lemma_takes_value(st3);
    let st4 = st3.advanced();
    lemma_reads_nothing(st4);
    lemma_line_starts(program, head, none);
    let d1 = DraftView::empty().with_multi(m, a);
    let d2 = d1.with_multi(m, b);
    lemma_run_unfold(st0, DraftView::empty(), none);
    lemma_run_unfold(st2, d1, none);
    lemma_run_unfold(st4, d2, none);
    assert(d2.multis[m] =~= seq![a, b]);
}

/// `--exclude` without `--workspace` fails the parse with an error that
/// names `--workspace`.
pub proof fn law_exclude_alone(program: Seq<char>, exclude: TokenView, package: Seq<char>)
    requires
        known_flag(exclude) == Some(Flag::Multi(Multi::Exclude)),
        package != separator(),
    ensures
        parsed_text(command_line(program, seq![exclude.spelling(), package])) == Err::<
            Ending,
            ErrorView,
        >(ErrorView::RequiresFlag { flag: "--exclude"@, requires: seq!["--workspace"@] }),
{
    let head = seq![exclude.spelling(), package];
    let none = Seq::<Seq<char>>::empty();
    lemma_cut_nothing(none);
    assert(head + none =~= head);
    let st0 = LexState::start(head);
    lemma_reads_option(st0, exclude);
    let st1 = lex_next(st0).1;
    lemma_takes_value(st1);
    let st2 = st1.advanced();
    lemma_reads_nothing(st2);
    lemma_line_starts(program, head, none);
    let d1 = DraftView::empty().with_multi(Multi::Exclude, package);
    lemma_run_unfold(st0, DraftView::empty(), none);
    lemma_run_unfold(st2, d1, none);
    assert(d1.multis[Multi::Exclude] =~= seq![package]);
}

/// `--exclude` together with `--workspace` succeeds, in either order.
pub proof fn law_exclude_with_workspace(
    program: Seq<char>,
    exclude: TokenView,
    package: Seq<char>,
    workspace: TokenView,
)
    requires
        known_flag(exclude) == Some(Flag::Multi(Multi::Exclude)),
        known_flag(workspace) == Some(Flag::Switch(Switch::Workspace)),
        package != separator(),
    ensures
        parsed_text(
            command_line(program, seq![exclude.spelling(), package, workspace.spelling()]),
        ) == Ok::<Ending, ErrorView>(
            Ending::Run {
                settings: DraftView::empty().with_multi(Multi::Exclude, package).with_switch(
                    Switch::Workspace,
                ),
                rest: Seq::empty(),
            },
        ),
        parsed_text(
            command_line(program, seq![workspace.spelling(), exclude.spelling(), package]),
        ) == Ok::<Ending, ErrorView>(
            Ending::Run {
                settings: DraftView::empty().with_switch(Switch::Workspace).with_multi(
                    Multi::Exclude,
                    package,
                ),
                rest: Seq::empty(),
            },
        ),
{
    let none = Seq::<Seq<char>>::empty();
    lemma_cut_nothing(none);
    {
        let head = seq![exclude.spelling(), package, workspace.spelling()];
        assert(head + none =~= head);
        let st0 = LexState::start(head);
        lemma_reads_option(st0, exclude);
        let st1 = lex_next(st0).1;
        lemma_takes_value(st1);
        let st2 = st1.advanced();
        lemma_reads_option(st2, workspace);
        let st3 = lex_next(st2).1;
        lemma_reads_nothing(st3);
        lemma_line_starts(program, head, none);
        let d1 = DraftView::empty().with_multi(Multi::Exclude, package);
        let d2 = d1.with_switch(Switch::Workspace);
        lemma_run_unfold(st0, DraftView::empty(), none);
        lemma_run_unfold(st2, d1, none);
        lemma_run_unfold(st3, d2, none);
    }
    {
        let head = seq![workspace.spelling(), exclude.spelling(), package];
        assert(head + none =~= head);
        let st0 = LexState::start(head);
        lemma_reads_option(st0, workspace);
        let st1 = lex_next(st0).1;
        lemma_reads_option(st1, exclude);
        let st2 = lex_next(st1).1;
        lemma_takes_value(st2);
        let st3 = st2.advanced();
        lemma_reads_nothing(st3);
        lemma_line_starts(program, head, none);
        let d1 = DraftView::empty().with_switch(Switch::Workspace);
        let d2 = d1.with_multi(Multi::Exclude, package);
        lemma_run_unfold(st0, DraftView::empty(), none);
        lemma_run_unfold(st1, d1, none);
        lemma_run_unfold(st3, d2, none);
    }
}

/// A keyword as the first argument selects its subcommand, and a keyword
/// behind it is handed on as it is.
pub proof fn law_keyword_then_keyword(
    program: Seq<char>,
    first: Seq<char>,
    second: Seq<char>,
    s: Subcommand,
)
    requires
        keyword(first) == Some(s),
        s != Subcommand::Demangle,
        keyword(second) is Some,
    ensures
        parsed_text(command_line(program, seq![first, second])) == Ok::<Ending, ErrorView>(
            Ending::Run {
                settings: DraftView::empty().with_selection(Selection::Chosen(s)).with_forwarded(
                    second,
                ),
                rest: Seq::empty(),
            },
        ),
{
    let head = seq![first, second];
    let none = Seq::<Seq<char>>::empty();
    lemma_cut_nothing(none);
    assert(head + none =~= head);
    lemma_keywords_are_bare(first);
    lemma_keywords_are_bare(second);
    let st0 = LexState::start(head);
    lemma_reads_bare(st0);
    let st1 = st0.advanced();
    lemma_reads_bare(st1);
    let st2 = st1.advanced();
    lemma_reads_nothing(st2);
    lemma_line_starts(program, head, none);
    let d1 = DraftView::empty().with_selection(Selection::Chosen(s));
    let d2 = d1.with_forwarded(second);
    lemma_run_unfold(st0, DraftView::empty(), none);
    lemma_run_unfold(st1, d1, none);
    lemma_run_unfold(st2, d2, none);
    assert(broken_rule(d2) is None);
}

/// `demangle` with nothing behind it succeeds.
pub proof fn law_demangle_alone(program: Seq<char>, word: Seq<char>)
    requires
        keyword(word) == Some(Subcommand::Demangle),
    ensures
        parsed_text(command_line(program, seq![word])) == Ok::<Ending, ErrorView>(
            Ending::Run {
                settings: DraftView::empty().with_selection(
                    Selection::Chosen(Subcommand::Demangle),
                ),
                rest: Seq::empty(),
            },
        ),
{
    let head = seq![word];
    let none = Seq::<Seq<char>>::empty();
    lemma_cut_nothing(none);
    assert(head + none =~= head);
    lemma_keywords_are_bare(word);
    let st0 = LexState::start(head);
    lemma_reads_bare(st0);
    let st1 = st0.advanced();
    lemma_reads_nothing(st1);
    lemma_line_starts(program, head, none);
    law_demangle_takes_nothing(st0, DraftView::empty(), none, word);
}

/// `demangle` with any argument behind it but the bare `--` fails the parse:
/// the argument is unexpected.
pub proof fn law_demangle_followed(
    program: Seq<char>,
    word: Seq<char>,
    next: Seq<char>,
    more: Seq<Seq<char>>,
)
    requires
        keyword(word) == Some(Subcommand::Demangle),
        next != separator(),
    ensures
        parsed_text(command_line(program, seq![word, next] + more)) matches Err(
            ErrorView::UnexpectedTrailingArgument { .. },
        ),
{
    let head = seq![word, next];
    let rest = after_separator(more);
    lemma_keywords_are_bare(word);
    let st0 = LexState::start(head + before_separator(more));
    lemma_reads_bare(st0);
    let st1 = st0.advanced();
    lemma_reads_something(st1);
    lemma_line_starts(program, head, more);
    law_demangle_takes_nothing(st0, DraftView::empty(), rest, word);
}

/// The arguments behind the first bare `--` come out byte for byte: each
/// holds exactly the bytes that were given.
pub proof fn law_trailing_bytes_survive(raw: Seq<Seq<u8>>, at: int)
    requires
        all_text(raw),
        2 <= at < raw.len(),
        decode_utf8(raw[at]) == separator(),
        forall|j: int| 2 <= j < at ==> decode_utf8(#[trigger] raw[j]) != separator(),
    ensures
        parsed(raw) matches Ok(Ending::Run { rest, .. }) ==> rest.len() == raw.len() - at - 1
            && forall|i: int|
            0 <= i < rest.len() ==> encode_utf8(#[trigger] rest[i]) == raw[at + 1 + i],
{
    let args = decoded(raw);
    let tail = args.skip(2);
    tail.index_of_first_ensures(separator());
    assert(tail[at - 2] == separator());
    assert(tail.contains(separator()));
    let cut = tail.index_of_first(separator())->0;
    assert(cut == at - 2) by {
        if cut < at - 2 {
            assert(decode_utf8(raw[cut + 2]) == separator());
        }
    }
    let back = after_separator(tail);
    assert(DraftView::empty().multis.dom() =~= Set::<Multi>::full());
    law_gathered_is_kept(LexState::start(before_separator(tail)), DraftView::empty(), back);
    assert forall|i: int| 0 <= i < back.len() implies encode_utf8(#[trigger] back[i]) == raw[at
        + 1 + i] by {
        assert(back[i] == decode_utf8(raw[at + 1 + i]));
        decode_utf8_encode_utf8(raw[at + 1 + i]);
    }
}

/// Verbose output asked for three times, in whichever spelling, counts as
/// three, and the two requests behind the first are handed on as `-vv`.
pub proof fn law_verbose_three_times(
    program: Seq<char>,
    first: TokenView,
    second: TokenView,
    third: TokenView,
)
    requires
        known_flag(first) == Some(Flag::Verbose),
        known_flag(second) == Some(Flag::Verbose),
        known_flag(third) == Some(Flag::Verbose),
    ensures
        ({
            let gathered = DraftView::empty().louder().louder().louder();
            &&& parsed_text(
                command_line(
                    program,
                    seq![first.spelling(), second.spelling(), third.spelling()],
                ),
            ) == Ok::<Ending, ErrorView>(Ending::Run { settings: gathered, rest: Seq::empty() })
            &&& gathered.verbose == 3
            &&& capped(gathered.verbose) == 3
            &&& handed_on(gathered) == seq!["-vv"@]
        }),
{
    let head = seq![first.spelling(), second.spelling(), third.spelling()];
    let none = Seq::<Seq<char>>::empty();
    lemma_cut_nothing(none);
    assert(head + none =~= head);
    let st0 = LexState::start(head);
    lemma_reads_option(st0, first);
    let st1 = lex_next(st0).1;
    lemma_reads_option(st1, second);
    let st2 = lex_next(st1).1;
    lemma_reads_option(st2, third);
    let st3 = lex_next(st2).1;
    lemma_reads_nothing(st3);
    lemma_line_starts(program, head, none);
    let d1 = DraftView::empty().louder();
    let d2 = d1.louder();
    let d3 = d2.louder();
    lemma_run_unfold(st0, DraftView::empty(), none);
    lemma_run_unfold(st1, d1, none);
    lemma_run_unfold(st2, d2, none);
    lemma_run_unfold(st3, d3, none);
    reveal_strlit("-vv");
    assert(seq!['-'] + crate::text::repeated('v', 2) =~= "-vv"@);
    assert(handed_on(d3) =~= seq!["-vv"@]);
}

} // verus!
