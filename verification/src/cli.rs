//! What a command-line front end decides before it touches a file or a
//! stream: where input comes from and where output goes. Reading and writing
//! are left to the caller.

use vstd::prelude::*;
use vstd::string::StringSliceAdditionalSpecFns;
use crate::text::same_text;

verus! {

/// Where a message is given: as a token on the command line, or in a file.
#[derive(Clone, Debug, PartialEq, Eq)]
pub struct MsgInput {
    /// The token itself, or `-` for standard input.
    pub msg: Option<String>,
    /// The path of a file that holds the token.
    pub file: Option<String>,
}

/// Where a value is to be read from.
#[derive(Clone, Debug, PartialEq, Eq)]
pub enum Source {
    /// Standard input, to its end.
    Stdin,
    /// The value is this text.
    Given(String),
    /// The file at this path.
    File(String),
}

/// What a [`Source`] stands for.
pub enum SourceView {
    /// Standard input, to its end.
    Stdin,
    /// The value is this text.
    Given(Seq<char>),
    /// The file at this path.
    File(Seq<char>),
}

impl View for Source {
    type V = SourceView;

    open spec fn view(&self) -> SourceView {
        match self {
            Source::Stdin => SourceView::Stdin,
            Source::Given(text) => SourceView::Given(text@),
            Source::File(path) => SourceView::File(path@),
        }
    }
}

/// Where output is to be written.
#[derive(Clone, Debug, PartialEq, Eq)]
pub enum Sink {
    /// Standard output.
    Stdout,
    /// The file at this path, which is made or replaced.
    File(String),
}

/// Bytes with the place where they are to be written.
#[derive(Clone, Debug, PartialEq, Eq)]
pub struct WriteOut {
    /// Where the bytes go.
    pub sink: Sink,
    /// What is written.
    pub bytes: Vec<u8>,
}

/// The place that an optional path names: the file, or standard output
/// where there is no path.
pub open spec fn sink_for(path: Option<&str>, sink: Sink) -> bool {
    match path {
        Some(p) => sink matches Sink::File(file) && file@ == p@,
        None => sink is Stdout,
    }
}

/// The source of a value given on the command line: `-` stands for standard
/// input, anything else for itself.
pub open spec fn source_of(given: Seq<char>) -> SourceView {
    if given == seq!['-'] {
        SourceView::Stdin
    } else {
        SourceView::Given(given)
    }
}

/// Decides where a value given on the command line is read from: `-` stands
/// for standard input, anything else is the value itself.
pub fn value_or_stdin(payload: &str) -> (source: Source)
    ensures
        source@ == source_of(payload@),
{
    proof {
        reveal_strlit("-");
        assert("-"@ =~= seq!['-']);
    }
    if same_text(payload, "-") {
        Source::Stdin
    } else {
        Source::Given(payload.to_owned())
    }
}

impl MsgInput {
    /// The source that the input names, if it names exactly one: a token on
    /// the command line (or `-`), or a file.
    pub open spec fn named_source(self) -> Option<SourceView> {
        match (self.msg, self.file) {
            (Some(msg), None) => Some(source_of(msg@)),
            (None, Some(file)) => Some(SourceView::File(file@)),
            _ => None,
        }
    }

    /// Decides where the message is read from. `None` where neither or both
    /// of token and file are given: there is nothing to verify then.
    pub fn source(&self) -> (source: Option<Source>)
        ensures
            match source {
                Some(s) => self.named_source() == Some(s@),
                None => self.named_source() is None,
            },
    {
        match (&self.msg, &self.file) {
            (Some(msg), None) => Some(value_or_stdin(msg.as_str())),
            (None, Some(file)) => Some(Source::File(file.clone())),
            _ => None,
        }
    }
}

/// Decides where bytes are written: to the file at `path`, or to standard
/// output where there is no path.
pub fn write_out_bytes(bytes: &[u8], path: Option<&str>) -> (plan: WriteOut)
    ensures
        plan.bytes@ == bytes@,
        sink_for(path, plan.sink),
{
    let sink = match path {
        Some(p) => Sink::File(p.to_owned()),
        None => Sink::Stdout,
    };
    let mut copy: Vec<u8> = Vec::new();
    copy.extend_from_slice(bytes);
    assert(copy@ =~= bytes@);
    WriteOut { sink, bytes: copy }
}

/// Decides where text is written, and as which bytes: its UTF-8 encoding
/// goes to the file at `path`, or to standard output where there is no path.
pub fn write_out_string(s: &str, path: Option<&str>) -> (plan: WriteOut)
    ensures
        plan.bytes@ == s.spec_bytes(),
        sink_for(path, plan.sink),
{
    write_out_bytes(s.as_bytes(), path)
}

} // verus!
