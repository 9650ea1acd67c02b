//! The TCP binding of the realtime connection: one socket, length-prefixed frames.

use bytes::BytesMut;
use vstd::prelude::*;

use crate::framing::{
    banked, correlation_after, front_of, law_a_record_peels_off, next_correlation, record_of,
    take_frame, Front,
};
use crate::gateway::GatewayError;
use crate::wire::Opcode;

verus! {

/// The longest run of bytes one read hands over.
pub const READ_CHUNK: usize = 4096;

/// A TCP connection failure. The answer to any of them is the same: report, fall back to
/// WebSocket, retry on the backoff ladder.
pub enum TcpError {
    /// The host could not be resolved.
    UnresolvedHost,
    /// The listener cannot be reached.
    Transport,
    /// The listener did not answer in time.
    Timeout,
    /// The connection closed.
    Closed,
    /// The server sent a frame this client could not read.
    Malformed,
    /// The handshake did not complete.
    NoWelcome,
    /// The server refused the session.
    Refused(GatewayError),
}

impl TcpError {
    /// The sentence this failure is reported with; a refusal speaks for itself.
    pub open spec fn says(self) -> Seq<char> {
        match self {
            TcpError::UnresolvedHost => "the host could not be resolved"@,
            TcpError::Transport => "cannot reach the TCP listener"@,
            TcpError::Timeout => "the TCP listener did not answer in time"@,
            TcpError::Closed => "the TCP connection closed"@,
            TcpError::Malformed => "the server sent a frame this client could not read"@,
            TcpError::NoWelcome => "the TCP handshake did not complete"@,
            TcpError::Refused(refusal) => refusal.says(),
        }
    }

    /// The sentence this failure is reported with.
    pub fn message(&self) -> (text: String)
        ensures
            text@ == self.says(),
    {
        match self {
            TcpError::UnresolvedHost => "the host could not be resolved".to_owned(),
            TcpError::Transport => "cannot reach the TCP listener".to_owned(),
            TcpError::Timeout => "the TCP listener did not answer in time".to_owned(),
            TcpError::Closed => "the TCP connection closed".to_owned(),
            TcpError::Malformed => "the server sent a frame this client could not read".to_owned(),
            TcpError::NoWelcome => "the TCP handshake did not complete".to_owned(),
            TcpError::Refused(refusal) => refusal.message(),
        }
    }
}

/// How one read of the socket ended.
pub enum TcpRead {
    /// These bytes arrived; none means the peer closed.
    Bytes(Vec<u8>),
    /// Nothing arrived in time.
    TimedOut,
    /// The socket failed.
    Failed,
}

/// The reader's half of a TCP connection: what is banked, and the correlations handed out.
pub struct TcpGateway {
    buf: BytesMut,
    next_correlation: u32,
    max_frame_bytes: usize,
}

impl TcpGateway {
    pub closed spec fn wf(&self) -> bool {
        self.next_correlation > 0
    }

    /// The bytes that arrived and were not handed out.
    pub closed spec fn banked(&self) -> Seq<u8> {
        banked(self.buf)
    }

    /// The correlation the next request gets.
    pub closed spec fn correlation(&self) -> u32 {
        self.next_correlation
    }

    /// The ceiling on the length of a frame.
    pub closed spec fn ceiling(&self) -> usize {
        self.max_frame_bytes
    }

    /// A connection that has read nothing, under a ceiling on the length of a frame.
    pub fn new(max_frame_bytes: usize) -> (gateway: Self)
        ensures
            gateway.wf(),
            gateway.banked() == Seq::<u8>::empty(),
            gateway.correlation() == 1,
            gateway.ceiling() == max_frame_bytes,
    {
        TcpGateway { buf: BytesMut::new(), next_correlation: 1, max_frame_bytes }
    }

    /// A fresh correlation id, for a request whose reply must be matched to it.
    ///
    /// Ids wrap: they only have to be unique among the requests in flight.
    pub fn correlate(&mut self) -> (id: u32)
        requires
            old(self).wf(),
        ensures
            final(self).wf(),
            id == old(self).correlation(),
            id > 0,
            final(self).correlation() == correlation_after(old(self).correlation()),
            final(self).banked() == old(self).banked(),
            final(self).ceiling() == old(self).ceiling(),
    {
        next_correlation(&mut self.next_correlation)
    }

    /// Moves the reader one step: `read` is how the read it asked for ended, or `None` for the
    /// first step of a call.
    ///
    /// `Ok(Some(..))` is one whole frame, `Ok(None)` asks for another read. What arrived is banked
    /// before anything else happens, so a call that is dropped while it waits loses nothing.
    pub fn next_frame(&mut self, read: Option<TcpRead>) -> (r: Result<Option<Vec<u8>>, TcpError>)
        requires
            old(self).wf(),
            read matches Some(TcpRead::Bytes(bytes)) ==> old(self).banked().len() + bytes@.len()
                <= isize::MAX,
        ensures
            final(self).wf(),
            final(self).correlation() == old(self).correlation(),
            final(self).ceiling() == old(self).ceiling(),
            match read {
                Some(TcpRead::TimedOut) => {
                    &&& r == Err::<Option<Vec<u8>>, TcpError>(TcpError::Timeout)
                    &&& final(self).banked() == old(self).banked()
                },
                Some(TcpRead::Failed) => {
                    &&& r == Err::<Option<Vec<u8>>, TcpError>(TcpError::Transport)
                    &&& final(self).banked() == old(self).banked()
                },
                Some(TcpRead::Bytes(bytes)) => if bytes@.len() == 0 {
                    &&& r == Err::<Option<Vec<u8>>, TcpError>(TcpError::Closed)
                    &&& final(self).banked() == old(self).banked()
                } else {
                    peeled(old(self).banked() + bytes@, old(self).ceiling(), r, final(self).banked())
                },
                None => peeled(old(self).banked(), old(self).ceiling(), r, final(self).banked()),
            },
    {
        match read {
            Some(TcpRead::TimedOut) => {
                return Err(TcpError::Timeout);
            },
            Some(TcpRead::Failed) => {
                return Err(TcpError::Transport);
            },
            Some(TcpRead::Bytes(bytes)) => {
                if bytes.len() == 0 {
                    return Err(TcpError::Closed);
                }
                self.buf.extend_from_slice(bytes.as_slice());
            },
            None => {},
        }
        match take_frame(&mut self.buf, self.max_frame_bytes) {
            Ok(frame) => Ok(frame),
            Err(_) => Err(TcpError::Malformed),
        }
    }
}

/// What a reader makes of the bytes it holds, and what it holds then.
pub open spec fn peeled(
    bytes: Seq<u8>,
    ceiling: usize,
    r: Result<Option<Vec<u8>>, TcpError>,
    after: Seq<u8>,
) -> bool {
    match front_of(bytes, ceiling) {
        Front::Partial => r == Ok::<Option<Vec<u8>>, TcpError>(None) && after == bytes,
        Front::Oversized => r == Err::<Option<Vec<u8>>, TcpError>(TcpError::Malformed) && after
            == bytes,
        Front::Record(frame, rest) => (r matches Ok(Some(body)) && body@ == frame) && after == rest,
    }
}

/// Judges the reply to a HELLO.
///
/// The welcome and the refusal both come back under the HELLO opcode, and the error flag tells
/// them apart: `refusal` is what a flagged frame says. `welcome` is the decoded welcome, where the
/// frame decodes as one.
pub fn judge_welcome<W>(
    refusal: Option<GatewayError>,
    opcode: Option<Opcode>,
    welcome: Option<W>,
) -> (r: Result<W, TcpError>)
    ensures
        r == (match refusal {
            Some(error) => Err::<W, TcpError>(TcpError::Refused(error)),
            None => if opcode != Some(Opcode::Hello) {
                Err(TcpError::NoWelcome)
            } else {
                match welcome {
                    Some(w) => Ok(w),
                    None => Err(TcpError::Malformed),
                }
            },
        }),
{
    if let Some(error) = refusal {
        return Err(TcpError::Refused(error));
    }
    match opcode {
        Some(Opcode::Hello) => {},
        _ => {
            return Err(TcpError::NoWelcome);
        },
    }
    match welcome {
        Some(w) => Ok(w),
        None => Err(TcpError::Malformed),
    }
}

/// A whole record at the front is handed out as its frame, and what follows it stays. Where none
/// is handed out nothing is lost, and a length above the ceiling is refused.
pub proof fn law_a_framed_record_is_handed_out(
    frame: Seq<u8>,
    rest: Seq<u8>,
    ceiling: usize,
    r: Result<Option<Vec<u8>>, TcpError>,
    after: Seq<u8>,
)
    requires
        frame.len() <= u32::MAX,
        peeled(record_of(frame) + rest, ceiling, r, after),
    ensures
        frame.len() <= ceiling ==> r is Ok && r->Ok_0 is Some && r->Ok_0->0@ == frame && after == rest,
        frame.len() > ceiling ==> r is Err && r->Err_0 is Malformed && after == record_of(frame) + rest,
{
    if frame.len() <= ceiling {
        law_a_record_peels_off(frame, rest, ceiling);
    } else {
        law_a_record_peels_off(frame, rest, u32::MAX as usize);
    }
}

/// Where less than four bytes arrived nothing is handed out, nothing is refused and nothing is lost.
pub proof fn law_a_short_buffer_waits(
    bytes: Seq<u8>,
    ceiling: usize,
    r: Result<Option<Vec<u8>>, TcpError>,
    after: Seq<u8>,
)
    requires
        bytes.len() < 4,
        peeled(bytes, ceiling, r, after),
    ensures
        r is Ok,
        r->Ok_0 is None,
        after == bytes,
{
}

/// A refusal is reported in the server's own words, and a failure of the transport by what failed.
pub proof fn law_a_failure_is_named(refusal: GatewayError)
    ensures
        TcpError::Refused(refusal).says() == refusal.says(),
        TcpError::Timeout.says() == "the TCP listener did not answer in time"@,
        TcpError::Transport.says() == "cannot reach the TCP listener"@,
        TcpError::Closed.says() == "the TCP connection closed"@,
        TcpError::UnresolvedHost.says() == "the host could not be resolved"@,
        TcpError::Malformed.says() == "the server sent a frame this client could not read"@,
        TcpError::NoWelcome.says() == "the TCP handshake did not complete"@,
{
}

} // verus!
