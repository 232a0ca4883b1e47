//! One connection: how a command is framed for the wire, and how the start of
//! a reply is read as success or as an error reported by the server.
//!
//! An exchange alternates writes and reads with decisions. The decisions are
//! the methods of [`RedisConnection`]; each returns the [`Action`] that the
//! driver performs next, and takes the outcome of the action before it.

use crate::redis_error::{RedisError, RedisErrorView};
use vstd::prelude::*;
use vstd::string::*;
use vstd::utf8::encode_utf8;

verus! {

/// The number of bytes read, at most, after the sigil of an error reply.
pub const ERROR_BUFFER_SIZE: usize = 255;

/// The first byte of a reply that reports an error: an ASCII hyphen.
pub const ERROR_SIGIL: u8 = 45;

/// The text that `String::from_utf8_lossy` makes of a byte sequence: the
/// decoded characters, with U+FFFD in place of what is not valid UTF-8.
pub uninterp spec fn lossy_text(bytes: Seq<u8>) -> Seq<char>;

/// Whether `char::is_whitespace` holds of a character, that is whether it has
/// the Unicode property White_Space.
pub uninterp spec fn white_space(c: char) -> bool;

/// Calls `String::from_utf8_lossy` and takes ownership of the text.
/// Trusted: the text is a function of the bytes alone, named [`lossy_text`].
#[verifier::external_body]
fn decode_lossy(bytes: &[u8]) -> (text: String)
    ensures
        text@ == lossy_text(bytes@),
{
    String::from_utf8_lossy(bytes).into_owned()
}

/// Calls `char::is_whitespace`.
/// Trusted: the answer is a function of the character alone, named
/// [`white_space`].
#[verifier::external_body]
fn is_white_space(c: char) -> (r: bool)
    ensures
        r == white_space(c),
{
    c.is_whitespace()
}

/// A command as one line: its text, then carriage return and line feed.
pub open spec fn command_line(command: Seq<char>) -> Seq<char> {
    command + seq!['\r', '\n']
}

/// The bytes that go on the wire for a command: its line in UTF-8, verbatim.
pub open spec fn wire_bytes(command: Seq<char>) -> Seq<u8> {
    encode_utf8(command_line(command))
}

/// The fixed buffer after one read into it: the first bytes of the chunk, as
/// many as fit, and zero bytes up to the buffer's size.
pub open spec fn error_buffer(chunk: Seq<u8>) -> Seq<u8> {
    Seq::new(
        ERROR_BUFFER_SIZE as nat,
        |i: int|
            if i < chunk.len() {
                chunk[i]
            } else {
                0u8
            },
    )
}

/// A text without the NUL characters at its end.
pub open spec fn trim_nul(s: Seq<char>) -> Seq<char>
    decreases s.len(),
{
    if s.len() > 0 && s.last() == '\0' {
        trim_nul(s.drop_last())
    } else {
        s
    }
}

/// A text without the line terminators (carriage return, line feed) at its
/// end, however many of them there are.
pub open spec fn trim_crlf(s: Seq<char>) -> Seq<char>
    decreases s.len(),
{
    if s.len() >= 2 && s[s.len() - 2] == '\r' && s[s.len() - 1] == '\n' {
        trim_crlf(s.take(s.len() - 2))
    } else {
        s
    }
}

/// A text without the white space at its end.
pub open spec fn trim_white(s: Seq<char>) -> Seq<char>
    decreases s.len(),
{
    if s.len() > 0 && white_space(s.last()) {
        trim_white(s.drop_last())
    } else {
        s
    }
}

/// The message of an error reply, given the bytes that one read returned
/// after the sigil: the buffer decoded leniently, then without trailing NULs,
/// line terminators and white space, in that order.
pub open spec fn error_text(chunk: Seq<u8>) -> Seq<char> {
    trim_white(trim_crlf(trim_nul(lossy_text(error_buffer(chunk)))))
}

/// What the driver of an exchange does next.
#[derive(Debug, Clone, PartialEq, Eq)]
pub enum Action {
    /// Write all of these bytes to the stream, then report with
    /// [`RedisConnection::written`].
    Write(Vec<u8>),
    /// Read exactly one byte, then report with
    /// [`RedisConnection::first_byte`].
    ReadFirstByte,
    /// Read once, at most this many bytes, then report with
    /// [`RedisConnection::error_chunk`].
    ReadError(usize),
    /// The exchange is over and the command succeeded. Whatever else the
    /// server sent is still unread on the stream.
    Succeed,
    /// The exchange is over and the command failed.
    Fail(RedisError),
}

/// A handle to one open transport stream. The stream itself lives with the
/// driver, which finds it again by the token.
#[derive(Debug, Clone, Copy, PartialEq, Eq, Structural)]
pub struct RedisConnection {
    /// The driver's token for the stream.
    pub stream: u64,
}

/// The length of a text once the NUL characters at its end are gone.
fn trim_nul_end(text: &str) -> (n: usize)
    ensures
        n <= text@.len(),
        trim_nul(text@) == text@.take(n as int),
{
    let mut n: usize = text.unicode_len();
    assert(text@.take(n as int) =~= text@);
    loop
        invariant
            n <= text@.len(),
            trim_nul(text@) == trim_nul(text@.take(n as int)),
        ensures
            trim_nul(text@.take(n as int)) == text@.take(n as int),
        decreases n,
    {
        if n == 0 {
            break ;
        }
        if text.get_char(n - 1) != '\0' {
            break ;
        }
        assert(text@.take(n as int).drop_last() =~= text@.take(n - 1));
        n -= 1;
    }
    n
}

/// The length of a text once the line terminators at its end are gone.
fn trim_crlf_end(text: &str) -> (n: usize)
    ensures
        n <= text@.len(),
        trim_crlf(text@) == text@.take(n as int),
{
    let mut n: usize = text.unicode_len();
    assert(text@.take(n as int) =~= text@);
    loop
        invariant
            n <= text@.len(),
            trim_crlf(text@) == trim_crlf(text@.take(n as int)),
        ensures
            trim_crlf(text@.take(n as int)) == text@.take(n as int),
        decreases n,
    {
        if n < 2 {
            break ;
        }
        if text.get_char(n - 1) != '\n' {
            break ;
        }
        if text.get_char(n - 2) != '\r' {
            break ;
        }
        assert(text@.take(n as int).take(n - 2) =~= text@.take(n - 2));
        n -= 2;
    }
    n
}

/// The length of a text once the white space at its end is gone.
fn trim_white_end(text: &str) -> (n: usize)
    ensures
        n <= text@.len(),
        trim_white(text@) == text@.take(n as int),
{
    let mut n: usize = text.unicode_len();
    assert(text@.take(n as int) =~= text@);
    loop
        invariant
            n <= text@.len(),
            trim_white(text@) == trim_white(text@.take(n as int)),
        ensures
            trim_white(text@.take(n as int)) == text@.take(n as int),
        decreases n,
    {
        if n == 0 {
            break ;
        }
        if !is_white_space(text.get_char(n - 1)) {
            break ;
        }
        assert(text@.take(n as int).drop_last() =~= text@.take(n - 1));
        n -= 1;
    }
    n
}

/// Lays the chunk into a zeroed buffer of the fixed size; what does not fit
/// is left out.
fn fill_error_buffer(chunk: &[u8]) -> (buffer: Vec<u8>)
    ensures
        buffer@ == error_buffer(chunk@),
{
    let mut buffer: Vec<u8> = Vec::new();
    let mut i: usize = 0;
    while i < ERROR_BUFFER_SIZE
        invariant
            i <= ERROR_BUFFER_SIZE,
            buffer@.len() == i,
            forall|j: int| 0 <= j < i ==> buffer@[j] == error_buffer(chunk@)[j],
        decreases ERROR_BUFFER_SIZE - i,
    {
        let byte: u8 = if i < chunk.len() {
            chunk[i]
        } else {
            0
        };
        buffer.push(byte);
        i += 1;
    }
    assert(buffer@ =~= error_buffer(chunk@));
    buffer
}

/// Decodes the message of an error reply from the bytes that followed the
/// sigil. Bytes past the buffer's size are ignored.
pub fn decode_error_message(chunk: &[u8]) -> (message: String)
    ensures
        message@ == error_text(chunk@),
{
    let buffer = fill_error_buffer(chunk);
    let text = decode_lossy(buffer.as_slice());
    let whole = text.as_str();
    let without_nul = whole.substring_char(0, trim_nul_end(whole));
    let without_crlf = without_nul.substring_char(0, trim_crlf_end(without_nul));
    let trimmed = without_crlf.substring_char(0, trim_white_end(without_crlf));
    trimmed.to_owned()
}

/// Encodes a command for the wire: its text and the line terminator.
pub fn encode_command(command: &str) -> (bytes: Vec<u8>)
    ensures
        bytes@ == wire_bytes(command@),
{
    let mut line = String::from_str(command);
    line.append("\r\n");
    proof {
        reveal_strlit("\r\n");
        assert(line@ =~= command_line(command@));
    }
    line.as_str().as_bytes_vec()
}

impl RedisConnection {
    /// Makes the handle of a connection from the outcome of opening its
    /// stream: the stream's token, or nothing where the transport could not
    /// be established.
    pub fn new(stream: Option<u64>) -> (r: Result<RedisConnection, RedisError>)
        ensures
            match stream {
                Some(token) => r == Ok::<RedisConnection, RedisError>(
                    (RedisConnection { stream: token }),
                ),
                None => r matches Err(e) && e@ == RedisErrorView::ConnectionError(
                    "Failed to connect to Redis instance"@,
                ),
            },
    {
        match stream {
            Some(token) => Ok(RedisConnection { stream: token }),
            None => Err(
                RedisError::ConnectionError(String::from_str("Failed to connect to Redis instance")),
            ),
        }
    }

    /// Begins the exchange of one command: the driver is to write the
    /// command's line, all of it.
    pub fn send_command(&self, command: &str) -> (action: Action)
        ensures
            action matches Action::Write(bytes) && bytes@ == wire_bytes(command@),
    {
        Action::Write(encode_command(command))
    }

    /// Goes on after the write. A failed write ends the exchange with a
    /// command error that carries the transport's message; after a full write
    /// the first byte of the reply is wanted.
    pub fn written(&self, outcome: Result<(), String>) -> (action: Action)
        ensures
            match outcome {
                Ok(_) => action == Action::ReadFirstByte,
                Err(why) => action matches Action::Fail(e) && e@ == RedisErrorView::CommandError(
                    why@,
                ),
            },
    {
        match outcome {
            Ok(_) => Action::ReadFirstByte,
            Err(why) => Action::Fail(RedisError::CommandError(why)),
        }
    }

    /// Goes on after the read of the reply's first byte. The sigil announces
    /// an error, whose message is then read into the fixed buffer; any other
    /// byte is success, and nothing more is read. A failed or short read ends
    /// the exchange with a command error that carries the transport's
    /// message.
    pub fn first_byte(&self, outcome: Result<u8, String>) -> (action: Action)
        ensures
            match outcome {
                Ok(byte) => if byte == ERROR_SIGIL {
                    action == Action::ReadError(ERROR_BUFFER_SIZE)
                } else {
                    action == Action::Succeed
                },
                Err(why) => action matches Action::Fail(e) && e@ == RedisErrorView::CommandError(
                    why@,
                ),
            },
    {
        match outcome {
            Ok(byte) => if byte == ERROR_SIGIL {
                Action::ReadError(ERROR_BUFFER_SIZE)
            } else {
                Action::Succeed
            },
            Err(why) => Action::Fail(RedisError::CommandError(why)),
        }
    }

    /// Ends an exchange whose reply began with the sigil: the command fails
    /// with the server's message, decoded from the chunk that was read, or
    /// with the transport's message where that read failed.
    pub fn error_chunk(&self, outcome: Result<Vec<u8>, String>) -> (action: Action)
        ensures
            action matches Action::Fail(e) && e@ == RedisErrorView::CommandError(
                match outcome {
                    Ok(chunk) => error_text(chunk@),
                    Err(why) => why@,
                },
            ),
    {
        match outcome {
            Ok(chunk) => Action::Fail(
                RedisError::CommandError(decode_error_message(chunk.as_slice())),
            ),
            Err(why) => Action::Fail(RedisError::CommandError(why)),
        }
    }
}

/// Truncation: only the first bytes of a chunk, as many as the buffer holds,
/// bear on the message. Two chunks that agree on them decode alike, and a
/// chunk decodes as its own prefix of that size.
pub proof fn lemma_error_text_truncates(a: Seq<u8>, b: Seq<u8>)
    requires
        a.len() >= ERROR_BUFFER_SIZE,
        b.len() >= ERROR_BUFFER_SIZE,
        a.take(ERROR_BUFFER_SIZE as int) == b.take(ERROR_BUFFER_SIZE as int),
    ensures
        error_buffer(a) == a.take(ERROR_BUFFER_SIZE as int),
        error_text(a) == error_text(b),
        error_text(a) == error_text(a.take(ERROR_BUFFER_SIZE as int)),
{
    let n = ERROR_BUFFER_SIZE as int;
    assert(error_buffer(a) =~= a.take(n));
    assert(error_buffer(b) =~= b.take(n));
    assert(error_buffer(a.take(n)) =~= a.take(n));
}

/// Short chunks: a chunk that fits the buffer fills its start, and the rest
/// of the buffer is zero.
pub proof fn lemma_error_buffer_pads(chunk: Seq<u8>)
    requires
        chunk.len() <= ERROR_BUFFER_SIZE,
    ensures
        error_buffer(chunk).len() == ERROR_BUFFER_SIZE,
        error_buffer(chunk).take(chunk.len() as int) == chunk,
        forall|i: int| chunk.len() <= i < ERROR_BUFFER_SIZE ==> error_buffer(chunk)[i] == 0u8,
{
    assert(error_buffer(chunk).take(chunk.len() as int) =~= chunk);
}

} // verus!
