//! The protocol stream: line reader, decoder and parser put together, as a
//! state machine that the owner of the transport drives.
//!
//! The owner asks the transport for its next chunk and hands it to
//! [`IrcStream::poll_next`]. It then consumes the bytes that the step used and
//! does what the event says: ask for the next chunk, hand an item to the
//! consumer, or end. Where the transport fails instead of offering a chunk, the
//! owner calls [`IrcStream::read_failed`] and hands on the item that it
//! returns. The writer's half is [`Writer`], which turns text into the bytes
//! that the owner writes in one piece.

use vstd::prelude::*;
use vstd::string::StringExecFns;
use crate::codec::{decoded, encoded, Charset};
use crate::framing::{
    after_consume, all_nonempty, joined, lemma_chunking_invariance, lines_read, split_lines,
};
use crate::message::{parse_line, Message, MessageView, ParseError};
use crate::reader::{fresh, read_step, LineReader, OutcomeView, ReadOutcome, ReaderView};
use crate::scan::lemma_position_facts;

verus! {

/// The error of the transport, which is carried and never looked into.
#[verifier::external_type_specification]
#[verifier::external_body]
pub struct ExIoError(std::io::Error);

/// Calls `to_string` on a `std::io::Error`, which renders it as its `Display`
/// impl does. The text may depend on the operating system, so nothing is said
/// of it.
#[verifier::external_body]
fn io_error_text(error: &std::io::Error) -> (text: String) {
    error.to_string()
}

/// What a stream yields in place of a message.
#[derive(Debug)]
pub enum StreamError {
    /// A line was no message. The stream goes on.
    ParseError(ParseError),
    /// The transport failed. The stream has ended.
    AsyncIoError(std::io::Error),
}

impl From<ParseError> for StreamError {
    fn from(err: ParseError) -> (error: Self) {
        StreamError::ParseError(err)
    }
}

impl vstd::std_specs::convert::FromSpecImpl<ParseError> for StreamError {
    open spec fn obeys_from_spec() -> bool {
        true
    }

    open spec fn from_spec(err: ParseError) -> Self {
        StreamError::ParseError(err)
    }
}

impl From<std::io::Error> for StreamError {
    fn from(err: std::io::Error) -> (error: Self) {
        StreamError::AsyncIoError(err)
    }
}

impl vstd::std_specs::convert::FromSpecImpl<std::io::Error> for StreamError {
    open spec fn obeys_from_spec() -> bool {
        true
    }

    open spec fn from_spec(err: std::io::Error) -> Self {
        StreamError::AsyncIoError(err)
    }
}

impl StreamError {
    /// The words that say which kind of error it is, and that its diagnostic
    /// begins with.
    pub open spec fn heading(&self) -> Seq<char> {
        match *self {
            StreamError::ParseError(_) => "ParseError: "@,
            StreamError::AsyncIoError(_) => "AsyncIoError: "@,
        }
    }

    /// The diagnostic: the heading, then the error's own words.
    pub fn message(&self) -> (text: String)
        ensures
            self.heading().is_prefix_of(text@),
            self matches StreamError::ParseError(e) ==> text@ == self.heading()
                + e.spec_message(),
    {
        match self {
            StreamError::ParseError(e) => {
                let mut text = "ParseError: ".to_owned();
                let detail = e.message();
                text.append(detail.as_str());
                assert(text@.subrange(0, self.heading().len() as int) =~= self.heading());
                text
            },
            StreamError::AsyncIoError(e) => {
                let mut text = "AsyncIoError: ".to_owned();
                let detail = io_error_text(e);
                text.append(detail.as_str());
                assert(text@.subrange(0, self.heading().len() as int) =~= self.heading());
                text
            },
        }
    }
}

/// The byte that ends a line.
pub const DELIMITER: u8 = 10;

/// Turns outgoing text into the bytes to write.
#[derive(Debug)]
pub struct Writer {
    pub encoding: Charset,
}

impl Writer {
    /// The bytes that stand for `msg` on the wire: its encoding and nothing
    /// more. No terminator is added. Characters that the encoding cannot
    /// represent are left out.
    pub fn raw(&self, msg: &str) -> (bytes: Vec<u8>)
        ensures
            bytes@ == encoded(self.encoding@, msg@),
    {
        self.encoding.encode(msg)
    }
}

impl Clone for Writer {
    fn clone(&self) -> (copy: Self)
        ensures
            copy.encoding@ == self.encoding@,
    {
        Writer { encoding: self.encoding.clone() }
    }
}

/// What the owner of the transport does after a step.
#[derive(Debug)]
pub enum StreamEvent {
    /// No line is complete yet: ask the transport for its next chunk.
    NeedMore,
    /// A line was read: hand its message, or the reason why it is none, to the
    /// consumer.
    Item(Result<Message, StreamError>),
    /// The stream has ended.
    End,
}

/// A step of the stream.
#[derive(Debug)]
pub struct Progress {
    /// The number of bytes of the chunk that the transport has to consume.
    pub used: usize,
    pub event: StreamEvent,
}

/// An event as a mathematical value.
pub enum EventView {
    NeedMore,
    Item(Result<MessageView, StreamError>),
    End,
}

/// A step as a mathematical value.
pub struct ProgressView {
    pub used: nat,
    pub event: EventView,
}

impl View for StreamEvent {
    type V = EventView;

    open spec fn view(&self) -> EventView {
        match *self {
            StreamEvent::NeedMore => EventView::NeedMore,
            StreamEvent::Item(Ok(message)) => EventView::Item(Ok(message@)),
            StreamEvent::Item(Err(error)) => EventView::Item(Err(error)),
            StreamEvent::End => EventView::End,
        }
    }
}

impl View for Progress {
    type V = ProgressView;

    open spec fn view(&self) -> ProgressView {
        ProgressView { used: self.used as nat, event: self.event@ }
    }
}

/// The state of a stream as a mathematical value.
pub struct StreamView {
    /// The label of the encoding.
    pub encoding: Seq<char>,
    pub reader: ReaderView,
    /// Whether the stream has ended.
    pub finished: bool,
}

/// The state of a stream that has read nothing.
pub open spec fn start(encoding: Seq<char>) -> StreamView {
    StreamView { encoding, reader: fresh(), finished: false }
}

/// The item that a line gives: its bytes are decoded, and the text is parsed.
pub open spec fn item_of(encoding: Seq<char>, line: Seq<u8>) -> Result<MessageView, StreamError> {
    match parse_line(decoded(encoding, line)) {
        Ok(message) => Ok(message),
        Err(error) => Err(StreamError::ParseError(error)),
    }
}

/// One step of the stream: from the state and the chunk that the transport
/// offers to the next state and the step to report.
///
/// A stream that has ended stays so and uses nothing. Otherwise the reader
/// takes its step. A complete line is decoded and parsed, the buffer is
/// emptied, and the stream goes on whether the line was a message or not. An
/// empty chunk, which is the end of the input, ends the stream; what the
/// buffer still holds is an unterminated tail and is no line.
pub open spec fn stream_step(state: StreamView, available: Seq<u8>) -> (StreamView, ProgressView) {
    if state.finished {
        (state, ProgressView { used: 0, event: EventView::End })
    } else {
        let (reader, step) = read_step(state.reader, DELIMITER, available);
        match step.outcome {
            OutcomeView::Incomplete => (
                StreamView { reader, ..state },
                ProgressView { used: step.used, event: EventView::NeedMore },
            ),
            OutcomeView::Complete(_) => (
                StreamView { reader: fresh(), ..state },
                ProgressView {
                    used: step.used,
                    event: EventView::Item(item_of(state.encoding, reader.buffer)),
                },
            ),
            OutcomeView::EndOfInput => (
                StreamView { reader, finished: true, ..state },
                ProgressView { used: 0, event: EventView::End },
            ),
        }
    }
}

/// Reads messages from the chunks of a transport.
#[derive(Debug)]
pub struct IrcStream {
    pub encoding: Charset,
    reader: LineReader,
    finished: bool,
}

impl View for IrcStream {
    type V = StreamView;

    closed spec fn view(&self) -> StreamView {
        StreamView { encoding: self.encoding@, reader: self.reader@, finished: self.finished }
    }
}

impl IrcStream {
    /// The reader's counts agree with its buffer.
    pub closed spec fn wf(&self) -> bool {
        self.reader.wf()
    }

    /// A stream that has read nothing and decodes its lines with `encoding`.
    pub fn new(encoding: Charset) -> (stream: Self)
        ensures
            stream.wf(),
            stream@ == start(encoding@),
    {
        IrcStream { encoding, reader: LineReader::new(), finished: false }
    }

    /// A writer with the stream's encoding.
    pub fn writer(&self) -> (writer: Writer)
        ensures
            writer.encoding@ == self@.encoding,
    {
        Writer { encoding: self.encoding.clone() }
    }

    /// Whether the stream has ended: it will yield nothing more, and the
    /// transport need not be asked again.
    pub fn is_finished(&self) -> (finished: bool)
        ensures
            finished == self@.finished,
    {
        self.finished
    }

    /// Takes the next step on the chunk that the transport offers. An empty
    /// chunk says that the transport has ended.
    pub fn poll_next(&mut self, available: &[u8]) -> (progress: Progress)
        requires
            old(self).wf(),
        ensures
            final(self).wf(),
            (final(self)@, progress@) == stream_step(old(self)@, available@),
            progress.used <= available@.len(),
            progress.event matches StreamEvent::Item(Ok(message)) ==> message.code.stands_for(
                message@.command,
            ),
    {
        if self.finished {
            return Progress { used: 0, event: StreamEvent::End };
        }
        let step = self.reader.read_until_internal(DELIMITER, available);
        match step.outcome {
            ReadOutcome::Incomplete => Progress { used: step.used, event: StreamEvent::NeedMore },
            ReadOutcome::Complete(_) => {
                let line = self.encoding.decode(self.reader.buffer().as_slice());
                self.reader.clear();
                let item = match Message::parse(line.as_str()) {
                    Ok(message) => Ok(message),
                    Err(error) => Err(StreamError::from(error)),
                };
                Progress { used: step.used, event: StreamEvent::Item(item) }
            },
            ReadOutcome::EndOfInput => {
                self.finished = true;
                Progress { used: 0, event: StreamEvent::End }
            },
        }
    }

    /// Takes the failure of the transport: the stream ends, and the error is
    /// its last item.
    pub fn read_failed(&mut self, error: std::io::Error) -> (item: Result<Message, StreamError>)
        requires
            old(self).wf(),
        ensures
            final(self).wf(),
            final(self)@ == (StreamView { finished: true, ..old(self)@ }),
            item == Err::<Message, StreamError>(StreamError::AsyncIoError(error)),
    {
        self.finished = true;
        Err(StreamError::from(error))
    }
}

/// The items that a stream in state `state` yields when the transport offers
/// `chunks` and then ends.
pub open spec fn items_read(state: StreamView, chunks: Seq<Seq<u8>>) -> Seq<
    Result<MessageView, StreamError>,
>
    decreases chunks.len(), (if chunks.len() > 0 { chunks[0].len() } else { 0 }),
{
    if chunks.len() == 0 {
        Seq::empty()
    } else {
        let (next, progress) = stream_step(state, chunks[0]);
        match progress.event {
            EventView::End => Seq::empty(),
            EventView::NeedMore => items_read(next, chunks.drop_first()),
            EventView::Item(item) => if 0 < progress.used {
                seq![item] + items_read(next, after_consume(chunks, progress.used))
            } else {
                Seq::empty()
            },
        }
    }
}

/// A stream that has not ended yields one item for each line that its reader
/// yields, in order: the line decoded and parsed.
pub proof fn lemma_items_read(state: StreamView, chunks: Seq<Seq<u8>>)
    requires
        !state.finished,
    ensures
        items_read(state, chunks) == lines_read(state.reader, chunks, DELIMITER).map_values(
            |line: Seq<u8>| item_of(state.encoding, line),
        ),
    decreases chunks.len(), (if chunks.len() > 0 { chunks[0].len() } else { 0 }),
{
    let item = |line: Seq<u8>| item_of(state.encoding, line);
    let lines = lines_read(state.reader, chunks, DELIMITER);
    if chunks.len() == 0 {
        assert(items_read(state, chunks) =~= lines.map_values(item));
    } else {
        let (next, progress) = stream_step(state, chunks[0]);
        let (reader, step) = read_step(state.reader, DELIMITER, chunks[0]);
        lemma_position_facts(chunks[0], DELIMITER);
        match step.outcome {
            OutcomeView::EndOfInput => {
                assert(items_read(state, chunks) =~= lines.map_values(item));
            },
            OutcomeView::Incomplete => {
                lemma_items_read(next, chunks.drop_first());
            },
            OutcomeView::Complete(_) => {
                let following = after_consume(chunks, step.used);
                lemma_items_read(next, following);
                let others = lines_read(fresh(), following, DELIMITER);
                assert(lines == seq![reader.buffer] + others);
                assert(lines.map_values(item) =~= seq![item(reader.buffer)] + others.map_values(
                    item,
                ));
            },
        }
    }
}

/// However the transport cuts its bytes into non-empty chunks, a stream that
/// has read nothing yields one item for each delimiter-terminated line of the
/// bytes, in the order of the bytes, and nothing for what follows the last
/// delimiter.
pub proof fn lemma_stream_chunking_invariance(encoding: Seq<char>, chunks: Seq<Seq<u8>>)
    requires
        all_nonempty(chunks),
    ensures
        items_read(start(encoding), chunks) == split_lines(joined(chunks), DELIMITER).map_values(
            |line: Seq<u8>| item_of(encoding, line),
        ),
        items_read(start(encoding), chunks) == items_read(start(encoding), seq![joined(chunks)]),
{
    let whole = seq![joined(chunks)];
    lemma_items_read(start(encoding), chunks);
    lemma_items_read(start(encoding), whole);
    lemma_chunking_invariance(chunks, DELIMITER);
}

/// A line that is no message does not end the stream: after every item, an
/// error as well as a message, the stream has an empty buffer and goes on.
pub proof fn lemma_stream_goes_on_after_item(state: StreamView, available: Seq<u8>)
    requires
        stream_step(state, available).1.event is Item,
    ensures
        !state.finished,
        stream_step(state, available).0 == start(state.encoding),
        stream_step(state, available).1.used > 0,
        parse_line(decoded(state.encoding, read_step(state.reader, DELIMITER, available).0.buffer))
            matches Err(error) ==> stream_step(state, available).1.event == EventView::Item(
            Err(StreamError::ParseError(error)),
        ),
{
    lemma_position_facts(available, DELIMITER);
}

} // verus!
