//! The outside of a command line: decoding the raw arguments, the program
//! name and the subcommand literal in front, and the bare `--` that ends the
//! part that is parsed.
use crate::args::{Args, Outcome};
use crate::draft::DraftView;
use crate::error::{CliError, ErrorView};
use crate::lexer::LexState;
use crate::parse::{agrees, classify, run, Ending};
use crate::text::{texts, utf8_text};
use vstd::prelude::*;
use vstd::utf8::*;

verus! {

/// The literal that must follow the program name.
pub open spec fn subcommand_literal() -> Seq<char> {
    "llvm-cov"@
}

/// The argument that ends the part of the command line that is parsed.
pub open spec fn separator() -> Seq<char> {
    "--"@
}

/// The two parts of a command line behind its envelope.
#[derive(Debug)]
pub struct ParsedInvocation {
    /// The arguments before the first bare `--`.
    pub classified_tokens: Vec<String>,
    /// The arguments behind it. They are never looked into.
    pub raw_trailing: Vec<String>,
}

/// The bytes of each raw argument.
pub open spec fn byte_rows(raw: Seq<Vec<u8>>) -> Seq<Seq<u8>> {
    Seq::new(raw.len(), |i: int| raw[i]@)
}

/// Whether every raw argument is valid Unicode.
pub open spec fn all_text(raw: Seq<Seq<u8>>) -> bool {
    forall|i: int| 0 <= i < raw.len() ==> valid_utf8(#[trigger] raw[i])
}

/// Whether `i` is the place of the first raw argument that is not valid
/// Unicode.
pub open spec fn first_invalid(raw: Seq<Seq<u8>>, i: int) -> bool {
    &&& 0 <= i < raw.len()
    &&& !valid_utf8(raw[i])
    &&& forall|j: int| 0 <= j < i ==> valid_utf8(#[trigger] raw[j])
}

/// The text of each raw argument.
pub open spec fn decoded(raw: Seq<Seq<u8>>) -> Seq<Seq<char>> {
    Seq::new(raw.len(), |i: int| decode_utf8(raw[i]))
}

/// The arguments before the first bare `--`.
pub open spec fn before_separator(args: Seq<Seq<char>>) -> Seq<Seq<char>> {
    match args.index_of_first(separator()) {
        Some(at) => args.take(at),
        None => args,
    }
}

/// The arguments behind the first bare `--`.
pub open spec fn after_separator(args: Seq<Seq<char>>) -> Seq<Seq<char>> {
    match args.index_of_first(separator()) {
        Some(at) => args.skip(at + 1),
        None => Seq::empty(),
    }
}

/// What stands in the way of a command line of text: it ends before the
/// subcommand literal, or its second argument is something else.
pub open spec fn envelope_fault(args: Seq<Seq<char>>) -> Option<ErrorView> {
    if args.len() < 2 {
        Some(ErrorView::MissingSubcommand)
    } else if args[1] != subcommand_literal() {
        Some(ErrorView::UnexpectedSubcommand { found: args[1] })
    } else {
        None
    }
}

/// How the parse of a command line of text ends. The first argument is the
/// name of the program.
pub open spec fn parsed_text(args: Seq<Seq<char>>) -> Result<Ending, ErrorView> {
    match envelope_fault(args) {
        Some(e) => Err(e),
        None => run(
            LexState::start(before_separator(args.skip(2))),
            DraftView::empty(),
            after_separator(args.skip(2)),
        ),
    }
}

/// How the parse of a raw command line ends: with the place of the first
/// argument that is not valid Unicode, counted from 1, or as the parse of the
/// decoded arguments ends.
pub open spec fn parsed(raw: Seq<Seq<u8>>) -> Result<Ending, ErrorView> {
    if all_text(raw) {
        parsed_text(decoded(raw))
    } else {
        Err(ErrorView::Encoding { index: ((choose|i: int| first_invalid(raw, i)) + 1) as nat })
    }
}

/// Decodes the raw arguments, or names the first one that is not valid
/// Unicode.
pub fn decode_args(raw: &Vec<Vec<u8>>) -> (r: Result<Vec<String>, CliError>)
    ensures
        all_text(byte_rows(raw@)) ==> r is Ok && texts(r->Ok_0@) == decoded(byte_rows(raw@)),
        !all_text(byte_rows(raw@)) ==> r is Err && exists|i: int|
            first_invalid(byte_rows(raw@), i) && r->Err_0@ == (ErrorView::Encoding {
                index: (i + 1) as nat,
            }),
{
    let ghost rows = byte_rows(raw@);
    let mut out: Vec<String> = Vec::new();
    let mut i: usize = 0;
    while i < raw.len()
        invariant
            i <= raw@.len(),
            rows == byte_rows(raw@),
            out@.len() == i,
            forall|j: int| 0 <= j < i ==> valid_utf8(#[trigger] rows[j]),
            forall|j: int| 0 <= j < i ==> (#[trigger] out@[j])@ == decode_utf8(rows[j]),
        decreases raw@.len() - i,
    {
        match utf8_text(raw[i].as_slice()) {
            Some(text) => {
                out.push(String::from_str(text));
            },
            None => {
                proof {
                    assert(first_invalid(rows, i as int));
                    assert(!valid_utf8(rows[i as int]));
                }
                return Err(CliError::Encoding { index: i + 1 });
            },
        }
        i = i + 1;
    }
    proof {
        assert(texts(out@) =~= decoded(rows));
    }
    Ok(out)
}

/// Takes the envelope off a command line of text: drops the program name,
/// checks the subcommand literal, and cuts the remainder at the first bare
/// `--`, which is dropped too.
pub fn strip_envelope(args: Vec<String>) -> (r: Result<ParsedInvocation, CliError>)
    ensures
        envelope_fault(texts(args@)) matches Some(e) ==> r is Err && r->Err_0@ == e,
        envelope_fault(texts(args@)) is None ==> r is Ok && texts(r->Ok_0.classified_tokens@)
            == before_separator(texts(args@).skip(2)) && texts(r->Ok_0.raw_trailing@)
            == after_separator(texts(args@).skip(2)),
{
    if args.len() < 2 {
        return Err(CliError::MissingSubcommand);
    }
    if !args[1].as_str().eq("llvm-cov") {
        return Err(CliError::UnexpectedSubcommand { found: args[1].clone() });
    }
    let ghost tail = texts(args@).skip(2);
    let mut classified_tokens: Vec<String> = Vec::new();
    let mut raw_trailing: Vec<String> = Vec::new();
    let mut i: usize = 2;
    let mut cut: bool = false;
    while i < args.len()
        invariant
            2 <= i <= args@.len(),
            tail == texts(args@).skip(2),
            !cut ==> texts(classified_tokens@) == tail.take(i - 2) && raw_trailing@.len() == 0
                && forall|j: int| 0 <= j < i - 2 ==> tail[j] != separator(),
            cut ==> exists|at: int|
                0 <= at < i - 2 && tail[at] == separator() && (forall|j: int|
                    0 <= j < at ==> tail[j] != separator()) && texts(classified_tokens@)
                    == tail.take(at) && texts(raw_trailing@) == tail.subrange(at + 1, i - 2),
        decreases args@.len() - i,
    {
        let ghost front = texts(classified_tokens@);
        let ghost trailing = texts(raw_trailing@);
        assert(tail[i - 2] == args@[i as int]@);
        if cut {
            let ghost at = choose|at: int|
                0 <= at < i - 2 && tail[at] == separator() && (forall|j: int|
                    0 <= j < at ==> tail[j] != separator()) && front == tail.take(at) && trailing
                    == tail.subrange(at + 1, i - 2);
            raw_trailing.push(args[i].clone());
            proof {
                assert(texts(raw_trailing@) =~= tail.subrange(at + 1, i - 1));
            }
        } else if args[i].as_str().eq("--") {
            cut = true;
            proof {
                assert(texts(raw_trailing@) =~= tail.subrange(i - 1, i - 1));
                assert(tail.take(i - 2) == front);
            }
        } else {
            classified_tokens.push(args[i].clone());
            proof {
                assert(texts(classified_tokens@) =~= tail.take(i - 1));
            }
        }
        i = i + 1;
    }
    proof {
        tail.index_of_first_ensures(separator());
        if cut {
            let at = choose|at: int|
                0 <= at < tail.len() && tail[at] == separator() && (forall|j: int|
                    0 <= j < at ==> tail[j] != separator()) && texts(classified_tokens@)
                    == tail.take(at) && texts(raw_trailing@) == tail.subrange(
                    at + 1,
                    tail.len() as int,
                );
            assert(tail.contains(separator()));
            let found = tail.index_of_first(separator())->0;
            assert(found == at) by {
                if found < at {
                    assert(tail[found] != separator());
                } else if at < found {
                    assert(tail[at] != separator());
                }
            }
            assert(tail.skip(at + 1) =~= tail.subrange(at + 1, tail.len() as int));
        } else {
            assert(!tail.contains(separator()));
            assert(tail.take(tail.len() as int) =~= tail);
            assert(texts(raw_trailing@) =~= Seq::<Seq<char>>::empty());
        }
    }
    Ok(ParsedInvocation { classified_tokens, raw_trailing })
}

impl Args {
    /// Parses a command line of text. The first argument is the name of the
    /// program, the second the subcommand literal.
    pub fn parse_text(args: Vec<String>) -> (r: Result<Outcome, CliError>)
        ensures
            agrees(r, parsed_text(texts(args@))),
    {
        match strip_envelope(args) {
            Err(e) => Err(e),
            Ok(parts) => classify(parts.classified_tokens, parts.raw_trailing),
        }
    }

    /// Parses a raw command line, each argument given by its bytes. The first
    /// argument is the name of the program, the second the subcommand
    /// literal.
    pub fn parse(raw: Vec<Vec<u8>>) -> (r: Result<Outcome, CliError>)
        ensures
            agrees(r, parsed(byte_rows(raw@))),
    {
        match decode_args(&raw) {
            Err(e) => {
                proof {
                    let rows = byte_rows(raw@);
                    let i = choose|i: int|
                        first_invalid(rows, i) && e@ == (ErrorView::Encoding {
                            index: (i + 1) as nat,
                        });
                    let k = choose|k: int| first_invalid(rows, k);
                    assert(k == i) by {
                        if k < i {
                            assert(valid_utf8(rows[k]));
                        } else if i < k {
                            assert(valid_utf8(rows[i]));
                        }
                    }
                }
                Err(e)
            },
            Ok(args) => Args::parse_text(args),
        }
    }
}

} // verus!
