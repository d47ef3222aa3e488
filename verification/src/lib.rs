//! Client-side transport for a line-oriented chat protocol: framing of a
//! fragmented byte stream into lines, parsing of lines into messages, and
//! encoding of outgoing text.

pub mod code;
pub mod codec;
pub mod framing;
pub mod gen;
pub mod message;
pub mod reader;
pub mod scan;
pub mod stream;
pub mod text;

pub use code::Code;
pub use codec::Charset;
pub use message::{Message, ParseError, Prefix, PrefixUser};
pub use reader::{LineReader, ReadOutcome, ReadStep};
pub use stream::{IrcStream, Progress, StreamError, StreamEvent, Writer};
