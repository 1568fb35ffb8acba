//! The build tool's structured output: one record per line, of which only
//! finished compiler artifacts that carry an executable are kept.

use vstd::prelude::*;
use cargo_metadata::Message;
use crate::nesting::{deep_line, find_deep_line, nesting_bounded};
use crate::text::opt_text;

verus! {

/// A finished compiler artifact: the target it was built for and, where the
/// target is a program, the file that was produced.
#[derive(Clone, Debug, PartialEq, Eq)]
pub struct ArtifactRecord {
    pub target_name: String,
    pub executable: Option<String>,
}

/// An `ArtifactRecord` with its strings taken as character sequences.
pub struct ArtifactRecordView {
    pub target_name: Seq<char>,
    pub executable: Option<Seq<char>>,
}

impl View for ArtifactRecord {
    type V = ArtifactRecordView;

    open spec fn view(&self) -> ArtifactRecordView {
        ArtifactRecordView {
            target_name: self.target_name@,
            executable: opt_text(self.executable),
        }
    }
}

/// One line of build output, reduced to what the launcher reads of it.
#[derive(Clone, Debug, PartialEq, Eq)]
pub enum BuildMessage {
    /// A compiler artifact was produced.
    Artifact(ArtifactRecord),
    /// Any other well-formed record: build script output, a compiler
    /// diagnostic, the build-finished summary.
    Other,
    /// A line that is no record of the schema.
    Text(String),
    /// The line could not be read as text at all.
    Unreadable,
}

/// A `BuildMessage` with its strings taken as character sequences.
pub enum BuildMessageView {
    Artifact(ArtifactRecordView),
    Other,
    Text(Seq<char>),
    Unreadable,
}

impl View for BuildMessage {
    type V = BuildMessageView;

    open spec fn view(&self) -> BuildMessageView {
        match self {
            BuildMessage::Artifact(a) => BuildMessageView::Artifact(a@),
            BuildMessage::Other => BuildMessageView::Other,
            BuildMessage::Text(line) => BuildMessageView::Text(line@),
            BuildMessage::Unreadable => BuildMessageView::Unreadable,
        }
    }
}

/// Why build output was rejected. Parsing is strict: the first line that is
/// not a record of the schema aborts the whole operation.
#[derive(Clone, Debug, PartialEq, Eq)]
pub enum ParseError {
    /// The line at `index` nests deeper than the reader is trusted with;
    /// nothing of the output was read.
    TooDeep { index: usize },
    /// The line at `index` (counted from zero) is not a record of the schema.
    Malformed { index: usize, line: String },
    /// The line at `index` could not be read.
    Unreadable { index: usize },
}

/// A `ParseError` with its line taken as a character sequence.
pub enum ParseErrorView {
    TooDeep { index: nat },
    Malformed { index: nat, line: Seq<char> },
    Unreadable { index: nat },
}

impl View for ParseError {
    type V = ParseErrorView;

    open spec fn view(&self) -> ParseErrorView {
        match self {
            ParseError::TooDeep { index } => ParseErrorView::TooDeep { index: *index as nat },
            ParseError::Malformed { index, line } => ParseErrorView::Malformed {
                index: *index as nat,
                line: line@,
            },
            ParseError::Unreadable { index } => ParseErrorView::Unreadable { index: *index as nat },
        }
    }
}

/// The views of a list of messages, in order.
pub open spec fn message_views(v: Seq<BuildMessage>) -> Seq<BuildMessageView> {
    Seq::new(v.len(), |i: int| v[i]@)
}

/// The views of a list of artifact records, in order.
pub open spec fn record_views(v: Seq<ArtifactRecord>) -> Seq<ArtifactRecordView> {
    Seq::new(v.len(), |i: int| v[i]@)
}

/// The messages that the message-stream reader of `cargo_metadata` yields
/// for a stream holding exactly the text `output`.
pub uninterp spec fn decoded_messages(output: Seq<char>) -> Seq<BuildMessageView>;

/// Runs `cargo_metadata::Message::parse_stream` over `output` and reduces each
/// item it yields to a `BuildMessage`.
///
/// Trusted: the result is what that reader yields for this text, named
/// `decoded_messages`. Nothing is claimed about what the reader makes of any
/// particular text. A compiler-artifact record keeps its target's name and
/// its executable path, a text line keeps its text, every other record
/// becomes `Other`, and a read error becomes `Unreadable`.
///
/// The reader recurses once per nested array or object and runs without a
/// depth limit, so only text whose nesting is bounded on every line is
/// admitted.
#[verifier::external_body]
fn decode_messages(output: &str) -> (messages: Vec<BuildMessage>)
    requires
        nesting_bounded(output@),
    ensures
        message_views(messages@) == decoded_messages(output@),
{
    let mut messages = Vec::new();
    for item in Message::parse_stream(output.as_bytes()) {
        messages.push(match item {
            Ok(Message::CompilerArtifact(a)) => BuildMessage::Artifact(ArtifactRecord {
                target_name: a.target.name,
                executable: a.executable.map(|p| p.into_string()),
            }),
            Ok(Message::TextLine(line)) => BuildMessage::Text(line),
            Ok(_) => BuildMessage::Other,
            Err(_) => BuildMessage::Unreadable,
        });
    }
    messages
}

/// Whether a message aborts parsing.
pub open spec fn is_malformed(m: BuildMessageView) -> bool {
    m is Text || m is Unreadable
}

/// Whether a message is an artifact that carries an executable.
pub open spec fn is_executable_artifact(m: BuildMessageView) -> bool {
    m matches BuildMessageView::Artifact(a) && a.executable is Some
}

/// The artifact records with an executable among `ms`, in the order
/// encountered.
pub open spec fn retained(ms: Seq<BuildMessageView>) -> Seq<ArtifactRecordView>
    decreases ms.len(),
{
    if ms.len() == 0 {
        Seq::empty()
    } else {
        let rest = retained(ms.drop_last());
        match ms.last() {
            BuildMessageView::Artifact(a) => if a.executable is Some {
                rest.push(a)
            } else {
                rest
            },
            _ => rest,
        }
    }
}

/// The error that a malformed message at `index` gives.
pub open spec fn error_at(index: nat, m: BuildMessageView) -> ParseErrorView {
    match m {
        BuildMessageView::Text(line) => ParseErrorView::Malformed { index, line },
        _ => ParseErrorView::Unreadable { index },
    }
}

/// What strict parsing makes of a sequence of messages: the retained records
/// if no message is malformed, else the error of the first malformed one.
pub open spec fn collected(
    ms: Seq<BuildMessageView>,
    result: Result<Seq<ArtifactRecordView>, ParseErrorView>,
) -> bool {
    match result {
        Ok(records) => {
            &&& forall|i: int| 0 <= i < ms.len() ==> !is_malformed(#[trigger] ms[i])
            &&& records == retained(ms)
        },
        Err(e) => exists|k: int|
            {
                &&& 0 <= k < ms.len()
                &&& is_malformed(#[trigger] ms[k])
                &&& forall|j: int| 0 <= j < k ==> !is_malformed(#[trigger] ms[j])
                &&& e == error_at(k as nat, ms[k])
            },
    }
}

/// The view of a parse result.
pub open spec fn result_view(r: Result<Vec<ArtifactRecord>, ParseError>) -> Result<
    Seq<ArtifactRecordView>,
    ParseErrorView,
> {
    match r {
        Ok(v) => Ok(record_views(v@)),
        Err(e) => Err(e@),
    }
}

/// Every retained record carries an executable, and is one of the messages.
pub proof fn lemma_retained_have_executables(ms: Seq<BuildMessageView>)
    ensures
        forall|i: int|
            0 <= i < retained(ms).len() ==> {
                &&& (#[trigger] retained(ms)[i]).executable is Some
                &&& ms.contains(BuildMessageView::Artifact(retained(ms)[i]))
            },
    decreases ms.len(),
{
    if ms.len() > 0 {
        let init = ms.drop_last();
        lemma_retained_have_executables(init);
        assert forall|i: int| 0 <= i < retained(ms).len() implies {
            &&& (#[trigger] retained(ms)[i]).executable is Some
            &&& ms.contains(BuildMessageView::Artifact(retained(ms)[i]))
        } by {
            if i < retained(init).len() {
                let w = BuildMessageView::Artifact(retained(init)[i]);
                assert(init.contains(w));
                let k = choose|k: int| 0 <= k < init.len() && init[k] == w;
                assert(ms[k] == w);
            } else {
                assert(ms[ms.len() - 1] == ms.last());
            }
        }
    }
}

/// Keeps, in order, the artifact records that carry an executable, and
/// rejects the whole list at its first malformed message.
pub fn collect_artifacts(messages: &Vec<BuildMessage>) -> (result: Result<
    Vec<ArtifactRecord>,
    ParseError,
>)
    ensures
        collected(message_views(messages@), result_view(result)),
{
    let ghost ms = message_views(messages@);
    let mut records: Vec<ArtifactRecord> = Vec::new();
    let mut i: usize = 0;
    assert(ms.subrange(0, 0) =~= Seq::empty());
    assert(record_views(records@) =~= Seq::empty());
    while i < messages.len()
        invariant
            i <= messages.len(),
            ms == message_views(messages@),
            forall|j: int| 0 <= j < i ==> !is_malformed(#[trigger] ms[j]),
            record_views(records@) == retained(ms.subrange(0, i as int)),
        decreases messages.len() - i,
    {
        let ghost seen = ms.subrange(0, i as int);
        let ghost next = ms.subrange(0, i + 1);
        assert(next.drop_last() =~= seen);
        assert(next.last() == ms[i as int]);
        assert(ms[i as int] == messages@[i as int]@);
        match &messages[i] {
            BuildMessage::Artifact(a) => {
                match &a.executable {
                    Some(path) => {
                        let kept = ArtifactRecord {
                            target_name: a.target_name.clone(),
                            executable: Some(path.clone()),
                        };
                        assert(kept@ == a@);
                        let ghost before = records@;
                        records.push(kept);
                        assert(record_views(records@) =~= record_views(before).push(a@));
                    },
                    None => {},
                }
            },
            BuildMessage::Other => {},
            BuildMessage::Text(line) => {
                let e = ParseError::Malformed { index: i, line: line.clone() };
                assert(e@ == error_at(i as nat, ms[i as int]));
                return Err(e);
            },
            BuildMessage::Unreadable => {
                let e = ParseError::Unreadable { index: i };
                assert(e@ == error_at(i as nat, ms[i as int]));
                return Err(e);
            },
        }
        i += 1;
    }
    assert(ms.subrange(0, i as int) =~= ms);
    Ok(records)
}

/// What parsing makes of build output: the error of the first line that
/// nests too deeply if there is one, else what strict parsing makes of the
/// messages that the reader yields.
pub open spec fn parsed(
    output: Seq<char>,
    result: Result<Seq<ArtifactRecordView>, ParseErrorView>,
) -> bool {
    match deep_line(output) {
        Some(index) => result == Err::<Seq<ArtifactRecordView>, ParseErrorView>(
            ParseErrorView::TooDeep { index },
        ),
        None => collected(decoded_messages(output), result),
    }
}

/// Parses the build tool's captured output and returns the artifact records
/// that carry an executable, in the order encountered.
///
/// The text is read line by line, each line on its own, by the message reader
/// of `cargo_metadata`. A line that is no record of the schema is a fatal
/// error; records other than compiler artifacts are discarded. Output with a
/// line that nests deeper than `MAX_NESTING` is rejected before any of it is
/// read.
pub fn parse_build_output(output: &str) -> (result: Result<Vec<ArtifactRecord>, ParseError>)
    ensures
        parsed(output@, result_view(result)),
{
    match find_deep_line(output) {
        Some(index) => Err(ParseError::TooDeep { index }),
        None => {
            let messages = decode_messages(output);
            collect_artifacts(&messages)
        },
    }
}

/// The artifact records gathered so far from build output that is handed
/// over piece by piece, as it arrives.
#[derive(Clone, Debug, PartialEq, Eq)]
pub struct ArtifactCollector {
    pub records: Vec<ArtifactRecord>,
}

impl ArtifactCollector {
    /// A collector that has seen no output yet.
    pub fn new() -> (collector: ArtifactCollector)
        ensures
            collector.records@.len() == 0,
    {
        ArtifactCollector { records: Vec::new() }
    }

    /// Parses one piece of build output, made of whole lines, and keeps its
    /// artifact records behind those gathered before.
    ///
    /// A rejected piece leaves the collector as it was; the index in the
    /// error counts the lines of that piece.
    pub fn accept(&mut self, piece: &str) -> (result: Result<(), ParseError>)
        ensures
            match result {
                Ok(_) => {
                    &&& parsed(
                        piece@,
                        Ok::<Seq<ArtifactRecordView>, ParseErrorView>(
                            retained(decoded_messages(piece@)),
                        ),
                    )
                    &&& record_views(final(self).records@) == record_views(old(self).records@)
                        + retained(decoded_messages(piece@))
                },
                Err(e) => {
                    &&& parsed(piece@, Err::<Seq<ArtifactRecordView>, ParseErrorView>(e@))
                    &&& final(self).records == old(self).records
                },
            },
    {
        match parse_build_output(piece) {
            Ok(mut found) => {
                let ghost before = self.records@;
                let ghost added = found@;
                self.records.append(&mut found);
                assert(record_views(before + added) =~= record_views(before) + record_views(
                    added,
                ));
                Ok(())
            },
            Err(e) => Err(e),
        }
    }
}

} // verus!
