//! What the upstream registries hand back, and what is made of it: the
//! long description taken from a README, and the three registry clients.

pub mod github;
pub mod links;
pub mod openvsx;
pub mod vscodemarketplace;

use crate::error::{is_success, ResolveError};
use pulldown_cmark::{Event, Options, Parser, Tag};
use vstd::prelude::*;

verus! {

/// One header of a request.
#[derive(Debug, Clone, PartialEq, Eq)]
pub struct Header {
    pub name: String,
    pub value: String,
}

/// A request to an upstream registry: a plain `GET` of the address, with the
/// headers given.
#[derive(Debug, Clone, PartialEq, Eq)]
pub struct Request {
    pub url: String,
    pub headers: Vec<Header>,
}

/// The name and value of each header of a list.
pub open spec fn header_pairs(headers: Seq<Header>) -> Seq<(Seq<char>, Seq<char>)> {
    headers.map_values(|h: Header| (h.name@, h.value@))
}

/// What came back for a request: an answer with its status and, where the
/// body could be decoded, its content; or nothing at all.
#[derive(Debug, Clone, PartialEq, Eq)]
pub enum Reply<T> {
    Answered { status: u16, body: Option<T> },
    Unreachable,
}

/// What a reply is worth: its content, or the error that says why there is
/// none.
pub open spec fn accepted<T>(reply: Reply<T>) -> Result<T, ResolveError> {
    match reply {
        Reply::Unreachable => Err(ResolveError::Unreachable),
        Reply::Answered { status, body } => if !is_success(status) {
            Err(ResolveError::UpstreamStatus(status))
        } else {
            match body {
                Some(content) => Ok(content),
                None => Err(ResolveError::UnparsableResponse),
            }
        },
    }
}

/// Takes the content out of a reply. No answer, a status other than success
/// and a body that could not be decoded are errors, looked for in this order.
pub fn accept<T>(reply: Reply<T>) -> (r: Result<T, ResolveError>)
    ensures
        r == accepted(reply),
{
    match reply {
        Reply::Unreachable => Err(ResolveError::Unreachable),
        Reply::Answered { status, body } => {
            if !(200 <= status && status < 300) {
                Err(ResolveError::UpstreamStatus(status))
            } else {
                match body {
                    Some(content) => Ok(content),
                    None => Err(ResolveError::UnparsableResponse),
                }
            }
        },
    }
}

/// What became of running the hashing tool.
#[derive(Debug, Clone, PartialEq, Eq)]
pub enum ToolRun {
    /// The tool could not be started.
    Missing,
    /// The tool ran: whether it reported success, and its standard output
    /// where that is text.
    Exited { success: bool, stdout: Option<String> },
}

/// What became of hashing an artifact: how far the attempt came, with which
/// status the download was answered, and what became of the hashing tool.
#[derive(Debug, Clone, PartialEq, Eq)]
pub enum HashRun {
    /// The temporary storage could not be had or written.
    StorageFailed,
    /// The download got no answer, or its body could not be read.
    DownloadFailed,
    /// The download was answered and what came was handed to the tool.
    Downloaded { status: u16, tool: ToolRun },
}

/// The digest that an attempt at hashing gives: what the tool printed, if
/// the download succeeded and the tool ran and reported success; else the
/// error of the first stage that failed.
pub open spec fn hashed(run: HashRun) -> Result<String, ResolveError> {
    match run {
        HashRun::StorageFailed => Err(ResolveError::TemporaryStorage),
        HashRun::DownloadFailed => Err(ResolveError::DownloadFailed),
        HashRun::Downloaded { status, tool } => if !is_success(status) {
            Err(ResolveError::UpstreamStatus(status))
        } else {
            match tool {
                ToolRun::Missing => Err(ResolveError::HashToolFailed),
                ToolRun::Exited { success, stdout } => match stdout {
                    Some(digest) => if success {
                        Ok(digest)
                    } else {
                        Err(ResolveError::HashToolFailed)
                    },
                    None => Err(ResolveError::HashToolFailed),
                },
            }
        },
    }
}

/// The digest of an artifact, given what became of hashing it.
pub fn get_hash(run: HashRun) -> (r: Result<String, ResolveError>)
    ensures
        r == hashed(run),
{
    match run {
        HashRun::StorageFailed => Err(ResolveError::TemporaryStorage),
        HashRun::DownloadFailed => Err(ResolveError::DownloadFailed),
        HashRun::Downloaded { status, tool } => {
            if !(200 <= status && status < 300) {
                Err(ResolveError::UpstreamStatus(status))
            } else {
                match tool {
                    ToolRun::Missing => Err(ResolveError::HashToolFailed),
                    ToolRun::Exited { success, stdout } => match stdout {
                        Some(digest) => if success {
                            Ok(digest)
                        } else {
                            Err(ResolveError::HashToolFailed)
                        },
                        None => Err(ResolveError::HashToolFailed),
                    },
                }
            }
        },
    }
}

/// The command line of the hashing tool for a file: the tool, the flags
/// that ask for the SHA-256 of the file itself in base 32, and the path.
pub open spec fn hash_command_line(path: Seq<char>) -> Seq<Seq<char>> {
    seq!["nix-hash"@, "--flat"@, "--base32"@, "--type"@, "sha256"@, path]
}

/// The command line that hashes the file at `path`.
pub fn hash_command(path: &str) -> (r: Vec<String>)
    ensures
        crate::text::texts(r@) == hash_command_line(path@),
{
    let mut line: Vec<String> = Vec::new();
    line.push("nix-hash".to_owned());
    line.push("--flat".to_owned());
    line.push("--base32".to_owned());
    line.push("--type".to_owned());
    line.push("sha256".to_owned());
    line.push(path.to_owned());
    proof {
        assert(crate::text::texts(line@) =~= hash_command_line(path@));
    }
    line
}

/// The name under which a downloaded artifact is stored: the last segment
/// of the path of its address, or `tmp.vsix` where that is absent or empty.
pub open spec fn artifact_name(last_segment: Option<Seq<char>>) -> Seq<char> {
    match crate::text::present(last_segment) {
        Some(name) => name,
        None => "tmp.vsix"@,
    }
}

/// The name under which to store a downloaded artifact.
pub fn artifact_file_name(last_segment: Option<&str>) -> (r: String)
    ensures
        r@ == artifact_name(
            match last_segment {
                Some(name) => Some(name@),
                None => None,
            },
        ),
{
    match last_segment {
        Some(name) => if name.is_empty() {
            "tmp.vsix".to_owned()
        } else {
            name.to_owned()
        },
        None => "tmp.vsix".to_owned(),
    }
}

/// One event of a markdown document, as far as the long description
/// depends on it.
#[derive(Debug, Clone, PartialEq, Eq)]
pub enum MarkdownEvent {
    /// A heading of any level begins.
    HeadingStart,
    /// A paragraph begins.
    ParagraphStart,
    /// A paragraph ends.
    ParagraphEnd,
    /// A run of text.
    Text(String),
    /// A line break inside a paragraph that does not end it.
    SoftBreak,
    /// Any other event.
    Other,
}

/// A markdown event, as a mathematical value.
pub enum EventModel {
    HeadingStart,
    ParagraphStart,
    ParagraphEnd,
    Text(Seq<char>),
    SoftBreak,
    Other,
}

impl View for MarkdownEvent {
    type V = EventModel;

    open spec fn view(&self) -> EventModel {
        match self {
            MarkdownEvent::HeadingStart => EventModel::HeadingStart,
            MarkdownEvent::ParagraphStart => EventModel::ParagraphStart,
            MarkdownEvent::ParagraphEnd => EventModel::ParagraphEnd,
            MarkdownEvent::Text(t) => EventModel::Text(t@),
            MarkdownEvent::SoftBreak => EventModel::SoftBreak,
            MarkdownEvent::Other => EventModel::Other,
        }
    }
}

/// The events behind a list of markdown events.
pub open spec fn event_models(events: Seq<MarkdownEvent>) -> Seq<EventModel> {
    events.map_values(|e: MarkdownEvent| e@)
}

/// How far the search for the long description has come.
#[derive(Debug, Clone, Copy, PartialEq, Eq, Structural)]
pub enum Progress {
    LookingForMainHeader,
    FoundMainHeader,
    ReadingText,
    Done,
}

/// The state of the extraction: its progress and the text gathered so far.
pub struct Extraction {
    pub progress: Progress,
    pub text: Seq<char>,
}

/// The state before any event was seen.
pub open spec fn start() -> Extraction {
    Extraction { progress: Progress::LookingForMainHeader, text: Seq::empty() }
}

/// The state after one more event. The first heading is the main header; the
/// first paragraph after it is read, text and soft breaks alike, until it
/// ends or another heading begins; after that nothing changes any more.
pub open spec fn step(st: Extraction, e: EventModel) -> Extraction {
    match (st.progress, e) {
        (Progress::LookingForMainHeader, EventModel::HeadingStart) => Extraction {
            progress: Progress::FoundMainHeader,
            ..st
        },
        (Progress::FoundMainHeader, EventModel::ParagraphStart) => Extraction {
            progress: Progress::ReadingText,
            ..st
        },
        (Progress::ReadingText, EventModel::HeadingStart) => Extraction {
            progress: Progress::Done,
            ..st
        },
        (Progress::ReadingText, EventModel::ParagraphEnd) => Extraction {
            progress: Progress::Done,
            ..st
        },
        (Progress::ReadingText, EventModel::Text(t)) => Extraction { text: st.text + t, ..st },
        (Progress::ReadingText, EventModel::SoftBreak) => Extraction {
            text: st.text.push('\n'),
            ..st
        },
        _ => st,
    }
}

/// The state after a sequence of events, taken in order from `st`.
pub open spec fn run(st: Extraction, events: Seq<EventModel>) -> Extraction
    decreases events.len(),
{
    if events.len() == 0 {
        st
    } else {
        step(run(st, events.drop_last()), events.last())
    }
}

/// The long description that a sequence of markdown events holds.
pub open spec fn extracted(events: Seq<EventModel>) -> Seq<char> {
    run(start(), events).text
}

/// The events that the markdown parser reads from a text.
pub uninterp spec fn parsed_markdown(text: Seq<char>) -> Seq<EventModel>;

/// Runs `pulldown_cmark::Parser::new_ext` with no option enabled over the
/// text and gathers every event it yields, in order: the start of a heading
/// of any level, the start and the end of a paragraph, a text with its
/// content and a soft break each as such, every other event as `Other`. The
/// parse is a function of the text alone, so its result has a name.
#[verifier::external_body]
fn markdown_events(markdown: &str) -> (r: Vec<MarkdownEvent>)
    ensures
        event_models(r@) == parsed_markdown(markdown@),
{
    Parser::new_ext(markdown, Options::empty())
        .map(|event| match event {
            Event::Start(Tag::Heading(_)) => MarkdownEvent::HeadingStart,
            Event::Start(Tag::Paragraph) => MarkdownEvent::ParagraphStart,
            Event::End(Tag::Paragraph) => MarkdownEvent::ParagraphEnd,
            Event::Text(text) => MarkdownEvent::Text(text.into_string()),
            Event::SoftBreak => MarkdownEvent::SoftBreak,
            _ => MarkdownEvent::Other,
        })
        .collect()
}

/// The long description held by a sequence of markdown events: the text of
/// the first paragraph after the first heading.
pub fn extract_long_description(events: &Vec<MarkdownEvent>) -> (r: String)
    ensures
        r@ == extracted(event_models(events@)),
{
    let mut progress = Progress::LookingForMainHeader;
    let mut text = String::new();
    let ghost models = event_models(events@);
    let mut i: usize = 0;
    proof {
        assert(models.take(0) =~= Seq::<EventModel>::empty());
    }
    while i < events.len() && progress != Progress::Done
        invariant
            i <= events.len(),
            models == event_models(events@),
            run(start(), models.take(i as int)) == (Extraction { progress, text: text@ }),
        decreases events.len() - i,
    {
        proof {
            let next = models.take(i + 1);
            assert(next.drop_last() =~= models.take(i as int));
            assert(next.last() == events@[i as int]@);
        }
        match &events[i] {
            MarkdownEvent::HeadingStart => {
                if progress == Progress::LookingForMainHeader {
                    progress = Progress::FoundMainHeader;
                } else if progress == Progress::ReadingText {
                    progress = Progress::Done;
                }
            },
            MarkdownEvent::ParagraphStart => {
                if progress == Progress::FoundMainHeader {
                    progress = Progress::ReadingText;
                }
            },
            MarkdownEvent::ParagraphEnd => {
                if progress == Progress::ReadingText {
                    progress = Progress::Done;
                }
            },
            MarkdownEvent::Text(t) => {
                if progress == Progress::ReadingText {
                    text.append(t.as_str());
                }
            },
            MarkdownEvent::SoftBreak => {
                if progress == Progress::ReadingText {
                    text.push('\n');
                }
            },
            MarkdownEvent::Other => {},
        }
        i += 1;
    }
    proof {
        lemma_done_is_final(models.take(i as int), models);
    }
    text
}

/// The long description of a markdown document: the text of the first
/// paragraph after its first heading, with the line breaks inside that
/// paragraph kept. A document without such a paragraph has the empty one.
pub fn long_description(markdown: &str) -> (r: String)
    ensures
        r@ == extracted(parsed_markdown(markdown@)),
{
    let events = markdown_events(markdown);
    extract_long_description(&events)
}

/// What the long description is, given the reply to a request for a README:
/// the description that the document holds, or the error of the reply.
pub open spec fn described(reply: Reply<String>) -> Result<Seq<char>, ResolveError> {
    match accepted(reply) {
        Ok(markdown) => Ok(extracted(parsed_markdown(markdown@))),
        Err(e) => Err(e),
    }
}

/// The long description held by the reply to a request for a README.
pub fn get_long_description(reply: Reply<String>) -> (r: Result<String, ResolveError>)
    ensures
        match r {
            Ok(text) => described(reply) == Ok::<Seq<char>, ResolveError>(text@),
            Err(e) => described(reply) == Err::<Seq<char>, ResolveError>(e),
        },
{
    match accept(reply) {
        Ok(markdown) => Ok(long_description(markdown.as_str())),
        Err(e) => Err(e),
    }
}

/// Events without a heading hold no long description.
pub proof fn lemma_no_heading_no_text(events: Seq<EventModel>)
    requires
        forall|i: int| 0 <= i < events.len() ==> events[i] != EventModel::HeadingStart,
    ensures
        run(start(), events) == start(),
        extracted(events) == Seq::<char>::empty(),
    decreases events.len(),
{
    if events.len() > 0 {
        lemma_no_heading_no_text(events.drop_last());
    }
}

/// Once the extraction is done, further events change nothing: the result for
/// a sequence of events is that for any initial part of it that reaches the
/// end of the paragraph.
pub proof fn lemma_done_is_final(head: Seq<EventModel>, events: Seq<EventModel>)
    requires
        head.len() <= events.len(),
        head == events.take(head.len() as int),
        run(start(), head).progress == Progress::Done || head.len() == events.len(),
    ensures
        run(start(), events) == run(start(), head),
    decreases events.len(),
{
    if head.len() == events.len() {
        assert(head =~= events);
    } else {
        assert(events.drop_last().take(head.len() as int) =~= head);
        lemma_done_is_final(head, events.drop_last());
    }
}

} // verus!
