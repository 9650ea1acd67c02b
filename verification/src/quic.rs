//! The QUIC binding of the realtime connection: one stream of length-prefixed frames, and the
//! connection's datagrams, one bare frame each.

use bytes::BytesMut;
use vstd::prelude::*;

use crate::framing::{
    banked, correlation_after, front_of, law_a_record_peels_off, next_correlation, record_of,
    take_frame, Front,
};
use crate::gateway::GatewayError;
use crate::wire::{DeliveryClass, Opcode};

verus! {

/// A QUIC connection failure. The answer to any of them is the same: report, fall back to
/// WebSocket, retry on the backoff ladder.
pub enum QuicError {
    /// The host is not a literal address.
    UnresolvedHost,
    /// The listener cannot be reached.
    Transport,
    /// The listener did not answer in time.
    Timeout,
    /// The connection closed.
    Closed,
    /// The server sent a frame this client could not read.
    Malformed,
    /// The handshake did not complete.
    NoWelcome,
    /// The server refused the session.
    Refused(GatewayError),
}

impl QuicError {
    /// The sentence this failure is reported with; a refusal speaks for itself.
    pub open spec fn says(self) -> Seq<char> {
        match self {
            QuicError::UnresolvedHost => "the host is not a literal IP address"@,
            QuicError::Transport => "cannot reach the QUIC listener"@,
            QuicError::Timeout => "the QUIC listener did not answer in time"@,
            QuicError::Closed => "the QUIC connection closed"@,
            QuicError::Malformed => "the server sent a frame this client could not read"@,
            QuicError::NoWelcome => "the QUIC handshake did not complete"@,
            QuicError::Refused(refusal) => refusal.says(),
        }
    }

    /// The sentence this failure is reported with.
    pub fn message(&self) -> (text: String)
        ensures
            text@ == self.says(),
    {
        match self {
            QuicError::UnresolvedHost => "the host is not a literal IP address".to_owned(),
            QuicError::Transport => "cannot reach the QUIC listener".to_owned(),
            QuicError::Timeout => "the QUIC listener did not answer in time".to_owned(),
            QuicError::Closed => "the QUIC connection closed".to_owned(),
            QuicError::Malformed => "the server sent a frame this client could not read".to_owned(),
            QuicError::NoWelcome => "the QUIC handshake did not complete".to_owned(),
            QuicError::Refused(refusal) => refusal.message(),
        }
    }
}

/// How one read ended: of the stream alone, or of the stream raced against the datagrams.
pub enum QuicRead {
    /// These bytes arrived on the stream.
    Bytes(Vec<u8>),
    /// The stream ended.
    End,
    /// Nothing arrived in time.
    TimedOut,
    /// The stream failed.
    Failed,
    /// One datagram arrived: one whole bare frame.
    Datagram(Vec<u8>),
    /// The datagram reader reported the connection gone.
    DatagramsGone,
}

/// What a QUIC reader asks for next.
pub enum QuicStep {
    /// One whole frame.
    Frame(Vec<u8>),
    /// A read of the stream, raced against the datagrams.
    Race,
    /// A read of the stream alone.
    ReadStream,
}

/// The reader's half of a QUIC connection.
pub struct QuicGateway {
    buf: BytesMut,
    next_correlation: u32,
    max_frame_bytes: usize,
    /// Set once the datagram reader reported the connection gone: it would fail at once and
    /// forever, so it is not polled again, and the stream reports the end.
    datagrams_dead: bool,
}

impl QuicGateway {
    pub closed spec fn wf(&self) -> bool {
        self.next_correlation > 0
    }

    /// The stream's bytes that arrived and were not handed out.
    pub closed spec fn banked(&self) -> Seq<u8> {
        banked(self.buf)
    }

    /// The correlation the next request gets.
    pub closed spec fn correlation(&self) -> u32 {
        self.next_correlation
    }

    /// The ceiling on the length of a frame.
    pub closed spec fn ceiling(&self) -> usize {
        self.max_frame_bytes
    }

    /// Whether the datagram reader is still polled.
    pub closed spec fn races(&self) -> bool {
        !self.datagrams_dead
    }

    /// A connection that has read nothing, under a ceiling on the length of a frame.
    pub fn new(max_frame_bytes: usize) -> (gateway: Self)
        ensures
            gateway.wf(),
            gateway.banked() == Seq::<u8>::empty(),
            gateway.correlation() == 1,
            gateway.ceiling() == max_frame_bytes,
            gateway.races(),
    {
        QuicGateway {
            buf: BytesMut::new(),
            next_correlation: 1,
            max_frame_bytes,
            datagrams_dead: false,
        }
    }

    /// A fresh correlation id, for a request whose reply must be matched to it.
    ///
    /// Ids wrap: they only have to be unique among the requests in flight.
    pub fn correlate(&mut self) -> (id: u32)
        requires
            old(self).wf(),
        ensures
            final(self).wf(),
            id == old(self).correlation(),
            id > 0,
            final(self).correlation() == correlation_after(old(self).correlation()),
            final(self).banked() == old(self).banked(),
            final(self).ceiling() == old(self).ceiling(),
            final(self).races() == old(self).races(),
    {
        next_correlation(&mut self.next_correlation)
    }

    /// Moves the reader one step: `read` is how the read it asked for ended, or `None` for the
    /// first step of a call.
    ///
    /// Stream bytes are banked; a datagram is handed out as it came and never touches them, so it
    /// can neither corrupt nor delay the stream's framing.
    pub fn next_frame(&mut self, read: Option<QuicRead>) -> (r: Result<QuicStep, QuicError>)
        requires
            old(self).wf(),
            read matches Some(QuicRead::Bytes(bytes)) ==> old(self).banked().len() + bytes@.len()
                <= isize::MAX,
        ensures
            final(self).wf(),
            final(self).correlation() == old(self).correlation(),
            final(self).ceiling() == old(self).ceiling(),
            final(self).races() == (old(self).races() && read != Some(QuicRead::DatagramsGone)),
            match read {
                Some(QuicRead::TimedOut) => {
                    &&& r == Err::<QuicStep, QuicError>(QuicError::Timeout)
                    &&& final(self).banked() == old(self).banked()
                },
                Some(QuicRead::Failed) => {
                    &&& r == Err::<QuicStep, QuicError>(QuicError::Transport)
                    &&& final(self).banked() == old(self).banked()
                },
                Some(QuicRead::End) => {
                    &&& r == Err::<QuicStep, QuicError>(QuicError::Closed)
                    &&& final(self).banked() == old(self).banked()
                },
                Some(QuicRead::Datagram(frame)) => {
                    &&& r == Ok::<QuicStep, QuicError>(QuicStep::Frame(frame))
                    &&& final(self).banked() == old(self).banked()
                },
                Some(QuicRead::Bytes(bytes)) => peeled(
                    old(self).banked() + bytes@,
                    old(self).ceiling(),
                    final(self).races(),
                    r,
                    final(self).banked(),
                ),
                _ => peeled(
                    old(self).banked(),
                    old(self).ceiling(),
                    final(self).races(),
                    r,
                    final(self).banked(),
                ),
            },
    {
        match read {
            Some(QuicRead::TimedOut) => {
                return Err(QuicError::Timeout);
            },
            Some(QuicRead::Failed) => {
                return Err(QuicError::Transport);
            },
            Some(QuicRead::End) => {
                return Err(QuicError::Closed);
            },
            Some(QuicRead::Datagram(frame)) => {
                return Ok(QuicStep::Frame(frame));
            },
            Some(QuicRead::DatagramsGone) => {
                self.datagrams_dead = true;
            },
            Some(QuicRead::Bytes(bytes)) => {
                self.buf.extend_from_slice(bytes.as_slice());
            },
            None => {},
        }
        match take_frame(&mut self.buf, self.max_frame_bytes) {
            Ok(Some(frame)) => Ok(QuicStep::Frame(frame)),
            Ok(None) => {
                if self.datagrams_dead {
                    Ok(QuicStep::ReadStream)
                } else {
                    Ok(QuicStep::Race)
                }
            },
            Err(_) => Err(QuicError::Malformed),
        }
    }

    /// The same step off the stream alone: the handshake lives here, because it must be ordered
    /// before any datagram means anything.
    pub fn next_stream_frame(&mut self, read: Option<QuicRead>) -> (r: Result<QuicStep, QuicError>)
        requires
            old(self).wf(),
            read matches Some(QuicRead::Bytes(bytes)) ==> old(self).banked().len() + bytes@.len()
                <= isize::MAX,
            !(read matches Some(QuicRead::Datagram(_))),
            !(read matches Some(QuicRead::DatagramsGone)),
        ensures
            final(self).wf(),
            final(self).correlation() == old(self).correlation(),
            final(self).ceiling() == old(self).ceiling(),
            final(self).races() == old(self).races(),
            match read {
                Some(QuicRead::TimedOut) => {
                    &&& r == Err::<QuicStep, QuicError>(QuicError::Timeout)
                    &&& final(self).banked() == old(self).banked()
                },
                Some(QuicRead::Failed) => {
                    &&& r == Err::<QuicStep, QuicError>(QuicError::Transport)
                    &&& final(self).banked() == old(self).banked()
                },
                Some(QuicRead::End) => {
                    &&& r == Err::<QuicStep, QuicError>(QuicError::Closed)
                    &&& final(self).banked() == old(self).banked()
                },
                Some(QuicRead::Bytes(bytes)) => peeled(
                    old(self).banked() + bytes@,
                    old(self).ceiling(),
                    false,
                    r,
                    final(self).banked(),
                ),
                _ => peeled(
                    old(self).banked(),
                    old(self).ceiling(),
                    false,
                    r,
                    final(self).banked(),
                ),
            },
    {
        match self.next_frame(read) {
            Ok(QuicStep::Race) => Ok(QuicStep::ReadStream),
            step => step,
        }
    }
}

/// What a reader makes of the stream bytes it holds, and what it holds then.
pub open spec fn peeled(
    bytes: Seq<u8>,
    ceiling: usize,
    races: bool,
    r: Result<QuicStep, QuicError>,
    after: Seq<u8>,
) -> bool {
    match front_of(bytes, ceiling) {
        Front::Partial => {
            &&& r == Ok::<QuicStep, QuicError>(if races {
                QuicStep::Race
            } else {
                QuicStep::ReadStream
            })
            &&& after == bytes
        },
        Front::Oversized => r == Err::<QuicStep, QuicError>(QuicError::Malformed) && after == bytes,
        Front::Record(frame, rest) => (r matches Ok(QuicStep::Frame(body)) && body@ == frame)
            && after == rest,
    }
}

/// Whether a delivery class tolerates a datagram's unreliable, unordered ride.
pub fn class_may_ride_datagram(class: DeliveryClass) -> (r: bool)
    ensures
        r == (class != DeliveryClass::Critical),
{
    match class {
        DeliveryClass::Critical => false,
        _ => true,
    }
}

/// Whether one frame may ride a datagram.
///
/// The peer supports datagrams, the path leaves room for the whole frame, and the class tolerates
/// the ride. `max_datagram_size` is `None` where the peer does not support them.
pub fn datagram_eligible(
    max_datagram_size: Option<usize>,
    encoded_len: usize,
    class: DeliveryClass,
) -> (r: bool)
    ensures
        r == (max_datagram_size matches Some(max) && encoded_len <= max && class
            != DeliveryClass::Critical),
{
    match max_datagram_size {
        Some(max) => encoded_len <= max && class_may_ride_datagram(class),
        None => false,
    }
}

/// Judges the reply to a HELLO, as the TCP binding does.
pub fn judge_welcome<W>(
    refusal: Option<GatewayError>,
    opcode: Option<Opcode>,
    welcome: Option<W>,
) -> (r: Result<W, QuicError>)
    ensures
        r == (match refusal {
            Some(error) => Err::<W, QuicError>(QuicError::Refused(error)),
            None => if opcode != Some(Opcode::Hello) {
                Err(QuicError::NoWelcome)
            } else {
                match welcome {
                    Some(w) => Ok(w),
                    None => Err(QuicError::Malformed),
                }
            },
        }),
{
    if let Some(error) = refusal {
        return Err(QuicError::Refused(error));
    }
    match opcode {
        Some(Opcode::Hello) => {},
        _ => {
            return Err(QuicError::NoWelcome);
        },
    }
    match welcome {
        Some(w) => Ok(w),
        None => Err(QuicError::Malformed),
    }
}

/// A whole record at the front is handed out as its frame, and what follows it stays. Where none
/// is handed out nothing is lost, and a length above the ceiling is refused.
pub proof fn law_a_framed_record_is_handed_out(
    frame: Seq<u8>,
    rest: Seq<u8>,
    ceiling: usize,
    races: bool,
    r: Result<QuicStep, QuicError>,
    after: Seq<u8>,
)
    requires
        frame.len() <= u32::MAX,
        peeled(record_of(frame) + rest, ceiling, races, r, after),
    ensures
        frame.len() <= ceiling ==> r is Ok && r->Ok_0 is Frame && r->Ok_0->Frame_0@ == frame && after
            == rest,
        frame.len() > ceiling ==> r is Err && r->Err_0 is Malformed && after == record_of(frame) + rest,
{
    if frame.len() <= ceiling {
        law_a_record_peels_off(frame, rest, ceiling);
    } else {
        law_a_record_peels_off(frame, rest, u32::MAX as usize);
    }
}

/// Where less than four bytes arrived the stream is read on, against the datagrams while those are
/// still polled, and nothing is lost.
pub proof fn law_a_short_buffer_reads_on(
    bytes: Seq<u8>,
    ceiling: usize,
    races: bool,
    r: Result<QuicStep, QuicError>,
    after: Seq<u8>,
)
    requires
        bytes.len() < 4,
        peeled(bytes, ceiling, races, r, after),
    ensures
        r is Ok,
        races ==> r->Ok_0 is Race,
        !races ==> r->Ok_0 is ReadStream,
        after == bytes,
{
}

/// A refusal is reported in the server's own words, and a failure of the transport by what failed.
pub proof fn law_a_failure_is_named(refusal: GatewayError)
    ensures
        QuicError::Refused(refusal).says() == refusal.says(),
        QuicError::Timeout.says() == "the QUIC listener did not answer in time"@,
        QuicError::Transport.says() == "cannot reach the QUIC listener"@,
        QuicError::Closed.says() == "the QUIC connection closed"@,
        QuicError::UnresolvedHost.says() == "the host is not a literal IP address"@,
        QuicError::Malformed.says() == "the server sent a frame this client could not read"@,
        QuicError::NoWelcome.says() == "the QUIC handshake did not complete"@,
{
}

} // verus!
