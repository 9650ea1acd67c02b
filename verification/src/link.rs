//! The realtime link: dialling it, resuming it, losing it, and trying again.

use vstd::prelude::*;

use crate::economy::{request_wallet, wallet_reads};
use crate::effects::{
    graph_request, list_request, request_conversations, request_relationships, toast, toasted,
    Action, Connection, Event, Failure, FallbackReason, Notice, Request, ToastKind,
};
use crate::framing::{correlation_after, next_correlation};
use crate::gateway::{GatewayError, RefusalCode};
use crate::ids::list_of;
use crate::sequence::{GatewaySession, ResumeRequest};
use crate::server_probe::Transport;
use crate::signed::Signed;
use crate::sync::{Sync, SyncView};
use crate::timing::{heartbeat_interval, heartbeat_nanos, Duration, Retry, RETRY_LIMIT};
use crate::wire::{Id, Presence, Timestamp, TopicKind};

verus! {

/// What a client can say that it implements.
#[derive(Debug, Clone, Copy, PartialEq, Eq, Structural)]
pub enum Feature {
    E2eV1,
    Presence,
    Typing,
    Compression,
    Batching,
    RichPresence,
    Calls,
    GroupCall,
    Rooms,
    Economy,
    TcpTransport,
    Quic,
}

/// What this client says of itself when it connects.
pub struct Hello {
    pub features: Vec<Feature>,
    pub locale: String,
    pub access_token: String,
    pub device_id: Id,
    /// The session this process still holds, if it holds one.
    pub resume: Option<ResumeRequest>,
}

/// The features announced over a transport: what this client implements, and the transport's own
/// bit where it is not the WebSocket.
pub open spec fn announced(over: Transport) -> Seq<Feature> {
    let own = seq![
        Feature::E2eV1,
        Feature::Presence,
        Feature::Typing,
        Feature::Compression,
        Feature::Batching,
        Feature::RichPresence,
        Feature::Calls,
        Feature::GroupCall,
        Feature::Rooms,
        Feature::Economy,
    ];
    match over {
        Transport::Tcp => own.push(Feature::TcpTransport),
        Transport::Quic => own.push(Feature::Quic),
        Transport::WebSocket => own,
    }
}

/// The session a connect asks to resume.
pub open spec fn resume_of(session: Option<GatewaySession>) -> Option<ResumeRequest> {
    match session {
        Some(held) => Some(
            ResumeRequest { session_id: held.id, last_frame_seq: held.sequenced },
        ),
        None => None,
    }
}

/// What this client says of itself when it connects over a transport.
pub fn hello(signed: &Signed, link: &Link, over: Transport) -> (hello: Hello)
    ensures
        hello.features@ == announced(over),
        hello.locale@ == "en"@,
        hello.access_token@ == signed.access_token@,
        hello.device_id == signed.account.device_id,
        hello.resume == resume_of(link.session),
{
    let mut features: Vec<Feature> = vec![
        Feature::E2eV1,
        Feature::Presence,
        Feature::Typing,
        Feature::Compression,
        Feature::Batching,
        Feature::RichPresence,
        Feature::Calls,
        Feature::GroupCall,
        Feature::Rooms,
        Feature::Economy,
    ];
    match over {
        Transport::Tcp => features.push(Feature::TcpTransport),
        Transport::Quic => features.push(Feature::Quic),
        Transport::WebSocket => {},
    }
    let resume: Option<ResumeRequest> = match &link.session {
        Some(held) => Some(held.resume_request()),
        None => None,
    };
    Hello {
        features,
        locale: "en".to_owned(),
        access_token: signed.access_token.clone(),
        device_id: signed.account.device_id,
        resume,
    }
}

/// What a connect dials.
#[derive(Debug, Clone, Copy, PartialEq, Eq, Structural)]
pub enum Dial {
    /// The listener of the transport that was picked.
    Native,
    /// The WebSocket, and why, where another transport was picked.
    WebSocket(Option<FallbackReason>),
}

/// What a native listener answered.
#[derive(Debug, Clone, Copy, PartialEq, Eq, Structural)]
pub enum NativeAnswer {
    /// It welcomed the session, with the transport's own bit negotiated or not.
    Welcomed { negotiated: bool },
    /// It was not reached.
    Unreachable,
}

/// What a connect dials first.
pub fn first_dial(picked: Transport) -> (dial: Dial)
    ensures
        dial == (if picked == Transport::WebSocket {
            Dial::WebSocket(None)
        } else {
            Dial::Native
        }),
{
    match picked {
        Transport::WebSocket => Dial::WebSocket(None),
        _ => Dial::Native,
    }
}

/// Why a native answer sends the session to the WebSocket, if it does.
pub open spec fn fallback_after(picked: Transport, answer: NativeAnswer) -> Option<FallbackReason> {
    match picked {
        Transport::Tcp => match answer {
            NativeAnswer::Welcomed { negotiated: true } => None,
            NativeAnswer::Welcomed { negotiated: false } => Some(FallbackReason::TcpNotNegotiated),
            NativeAnswer::Unreachable => Some(FallbackReason::TcpUnreachable),
        },
        Transport::Quic => match answer {
            NativeAnswer::Welcomed { negotiated: true } => None,
            NativeAnswer::Welcomed { negotiated: false } => Some(FallbackReason::QuicNotNegotiated),
            NativeAnswer::Unreachable => Some(FallbackReason::QuicUnreachable),
        },
        Transport::WebSocket => None,
    }
}

/// What is dialled after a native listener answered; `None` where the session goes on over it. A
/// welcome without the bit is closed first: that is the contract, and no fault.
pub fn next_dial(picked: Transport, answer: NativeAnswer) -> (dial: Option<Dial>)
    ensures
        dial == (match fallback_after(picked, answer) {
            Some(reason) => Some(Dial::WebSocket(Some(reason))),
            None => None,
        }),
{
    match picked {
        Transport::Tcp => match answer {
            NativeAnswer::Welcomed { negotiated } => {
                if negotiated {
                    None
                } else {
                    Some(Dial::WebSocket(Some(FallbackReason::TcpNotNegotiated)))
                }
            },
            NativeAnswer::Unreachable => Some(
                Dial::WebSocket(Some(FallbackReason::TcpUnreachable)),
            ),
        },
        Transport::Quic => match answer {
            NativeAnswer::Welcomed { negotiated } => {
                if negotiated {
                    None
                } else {
                    Some(Dial::WebSocket(Some(FallbackReason::QuicNotNegotiated)))
                }
            },
            NativeAnswer::Unreachable => Some(
                Dial::WebSocket(Some(FallbackReason::QuicUnreachable)),
            ),
        },
        Transport::WebSocket => None,
    }
}

/// No session goes on over a transport the server did not agree to.
pub proof fn law_no_session_is_stranded(picked: Transport, answer: NativeAnswer)
    requires
        picked != Transport::WebSocket,
        fallback_after(picked, answer) is None,
    ensures
        answer == (NativeAnswer::Welcomed { negotiated: true }),
{
}

/// Where the WebSocket is dialled.
#[derive(Debug, Clone, Copy, PartialEq, Eq, Structural)]
pub enum SocketAddress {
    /// The endpoint's own gateway port, as it was typed.
    Gateway,
    /// The origin: the gateway port names a native listener.
    Origin,
}

/// Where the WebSocket of an endpoint is dialled.
pub fn connect_websocket(picked: Transport) -> (address: SocketAddress)
    ensures
        address == (if picked == Transport::WebSocket {
            SocketAddress::Gateway
        } else {
            SocketAddress::Origin
        }),
{
    match picked {
        Transport::WebSocket => SocketAddress::Gateway,
        _ => SocketAddress::Origin,
    }
}

/// What a WELCOME states, as far as it is decided about.
#[derive(Debug, Clone, Copy, PartialEq, Eq, Structural)]
pub struct Welcome {
    pub session_id: Id,
    pub rich_presence: bool,
    pub heartbeat_ms: u32,
    pub resumed: Option<bool>,
}

/// The state of the link.
pub struct Link {
    /// The session this process can resume, with what it has counted of it.
    pub session: Option<GatewaySession>,
    /// Whether a connection stands.
    pub online: bool,
    /// The next attempt, where one is scheduled.
    pub retry: Option<Retry>,
    /// The time between two heartbeats, while there are any.
    pub heartbeat: Option<Duration>,
}

/// Whether a link keeps the attempt that is scheduled, or has the first one scheduled.
pub open spec fn armed(before: Link, random: [u8; 2], after: Link) -> bool {
    &&& after == (Link { retry: after.retry, ..before })
    &&& before.retry is Some ==> after.retry == before.retry
    &&& before.retry is None ==> (after.retry matches Some(plan) && plan.attempts == 0
        && plan.backoff_ms == 500 && plan.wait_ms == 500 + (random[0] + 256 * random[1]) % 500)
}

/// Whether a failed connect leaves this of a link, and asks for this.
pub open spec fn connect_fails(
    before: Link,
    error: GatewayError,
    random: [u8; 2],
    after: Link,
    out: Seq<Action>,
) -> bool {
    if before.session is Some && error.refuses_with(RefusalCode::ResumeRequired) {
        &&& out =~= seq![Action::Connect]
        &&& after == (Link { session: None, ..before })
    } else {
        &&& failed_with(out, error.says())
        &&& armed(before, random, after)
    }
}

/// The connection's state once it stands.
pub open spec fn standing(fallback: Option<FallbackReason>) -> Connection {
    match fallback {
        Some(reason) => Connection::Fallback(reason),
        None => Connection::Online,
    }
}

/// Whether a WELCOME takes a session up again.
pub open spec fn takes_up(link: Link, welcome: Welcome) -> bool {
    link.session is Some && welcome.resumed == Some(true)
}

/// What a fresh session opens with: the keys, the topics, the presence, and the first reads of
/// every screen.
pub open spec fn opens(
    me: Id,
    rooms: Set<Id>,
    few: Option<u64>,
    topics: Vec<Id>,
    own: Vec<Id>,
    out: Seq<Action>,
) -> bool {
    &&& topics@.to_set() == rooms
    &&& topics@.no_duplicates()
    &&& own@ == seq![me]
    &&& out == seq![Action::Request(Request::KeyPublish)] + (match few {
        Some(left) => seq![toast(Notice::FewOneTimeKeys { left }, ToastKind::Info)],
        None => Seq::empty(),
    }) + (if topics@.len() == 0 {
        Seq::empty()
    } else {
        seq![Action::Request(Request::Subscribe { kind: TopicKind::Room, ids: topics })]
    }) + seq![
        Action::Request(Request::Subscribe { kind: TopicKind::User, ids: own }),
        Action::Request(Request::PresenceSet { state: Presence::Online }),
        list_request(),
        graph_request(),
        Action::Request(Request::RoomList { limit: 50, query: None }),
        Action::Request(Request::Suggestions { limit: 8 }),
        Action::Request(Request::NotificationList { limit: 50 }),
    ] + wallet_reads(me)
}

/// How many one-time keys are left, where that is worth saying.
pub open spec fn few_left(remaining: u64, low_water: u64) -> Option<u64> {
    if remaining < low_water {
        Some(remaining)
    } else {
        None
    }
}

impl Link {
    /// Whether a scheduled attempt is one that the backoff can have made.
    pub open spec fn wf(&self) -> bool {
        self.retry matches Some(plan) ==> plan.wf()
    }

    pub fn new() -> (link: Self)
        ensures
            link.wf(),
            link.session is None,
            !link.online,
            link.retry is None,
            link.heartbeat is None,
    {
        Link { session: None, online: false, retry: None, heartbeat: None }
    }

    /// Schedules an attempt, if none is.
    fn arm(&mut self, random: [u8; 2])
        requires
            old(self).wf(),
        ensures
            final(self).wf(),
            armed(*old(self), random, *final(self)),
    {
        if self.retry.is_none() {
            self.retry = Some(Retry::first(random));
        }
    }

    /// A connect begins.
    pub fn connecting() -> (action: Action)
        ensures
            action == Action::Emit(Event::Connection(Connection::Connecting)),
    {
        Action::Emit(Event::Connection(Connection::Connecting))
    }

    /// The server welcomed the session.
    ///
    /// A session that was resumed keeps its count, its topics and its walks, and re-reads nothing:
    /// a read would only race the replay. A fresh one starts its count at zero, forgets the walks
    /// and the subscriptions of the one before it, and opens with everything a screen first reads.
    pub fn connected(
        &mut self,
        signed: &mut Signed,
        sync: &mut Sync,
        welcome: Welcome,
        fallback: Option<FallbackReason>,
        remaining: u64,
        low_water: u64,
    ) -> (out: Vec<Action>)
        ensures
            final(self).wf(),
            final(self).online,
            final(self).retry is None,
            final(self).heartbeat matches Some(d) && d.nanos == heartbeat_nanos(
                welcome.heartbeat_ms,
            ),
            out@.len() >= 2,
            out@[0] == Action::Emit(Event::RichPresence(welcome.rich_presence)),
            out@[1] == Action::Emit(Event::Connection(standing(fallback))),
            takes_up(*old(self), welcome) ==> {
                &&& out@.len() == 2
                &&& final(self).session == old(self).session
                &&& *final(signed) == *old(signed)
                &&& *final(sync) == *old(sync)
            },
            !takes_up(*old(self), welcome) ==> {
                &&& final(self).session == Some(
                    GatewaySession { id: welcome.session_id, sequenced: 0 },
                )
                &&& final(sync)@ == (SyncView {
                    sequences: old(sync)@.sequences,
                    ..SyncView::empty()
                })
                &&& final(signed).watched@ == Set::<Id>::empty()
                &&& final(signed).conversations_watched@ == Set::<Id>::empty()
                &&& *final(signed) == (Signed {
                    watched: final(signed).watched,
                    conversations_watched: final(signed).conversations_watched,
                    ..*old(signed)
                })
                &&& exists|topics: Vec<Id>, own: Vec<Id>| #[trigger]
                    opens(
                        old(signed).account.account_id,
                        old(signed).rooms_watched@,
                        few_left(remaining, low_water),
                        topics,
                        own,
                        out@.subrange(2, out@.len() as int),
                    )
            },
    {
        self.online = true;
        self.retry = None;
        self.heartbeat = Some(heartbeat_interval(welcome.heartbeat_ms));
        let stands: Connection = match fallback {
            Some(reason) => Connection::Fallback(reason),
            None => Connection::Online,
        };
        let mut out: Vec<Action> = vec![
            Action::Emit(Event::RichPresence(welcome.rich_presence)),
            Action::Emit(Event::Connection(stands)),
        ];
        let resumed: bool = match welcome.resumed {
            Some(taken) => taken,
            None => false,
        };
        if self.session.is_some() && resumed {
            return out;
        }
        self.session = Some(GatewaySession { id: welcome.session_id, sequenced: 0 });
        sync.forget_session();
        let ghost head = out@;
        out.push(Action::Request(Request::KeyPublish));
        if remaining < low_water {
            out.push(toasted(Notice::FewOneTimeKeys { left: remaining }, ToastKind::Info));
        }
        let me: Id = signed.account.account_id;
        let rooms: Vec<Id> = list_of(&signed.rooms_watched);
        signed.watched.clear();
        signed.conversations_watched.clear();
        let ghost topics = rooms;
        if rooms.len() > 0 {
            out.push(Action::Request(Request::Subscribe { kind: TopicKind::Room, ids: rooms }));
        }
        let own: Vec<Id> = vec![me];
        let ghost alone = own;
        out.push(Action::Request(Request::Subscribe { kind: TopicKind::User, ids: own }));
        out.push(Action::Request(Request::PresenceSet { state: Presence::Online }));
        out.push(request_conversations());
        out.push(request_relationships());
        out.push(Action::Request(Request::RoomList { limit: 50, query: None }));
        out.push(Action::Request(Request::Suggestions { limit: 8 }));
        out.push(Action::Request(Request::NotificationList { limit: 50 }));
        let mut reads: Vec<Action> = request_wallet(me);
        out.append(&mut reads);
        proof {
            let tail = out@.subrange(2, out@.len() as int);
            let wanted = seq![Action::Request(Request::KeyPublish)] + (match few_left(
                remaining,
                low_water,
            ) {
                Some(left) => seq![toast(Notice::FewOneTimeKeys { left }, ToastKind::Info)],
                None => Seq::empty(),
            }) + (if topics@.len() == 0 {
                Seq::empty()
            } else {
                seq![Action::Request(Request::Subscribe { kind: TopicKind::Room, ids: topics })]
            }) + seq![
                Action::Request(Request::Subscribe { kind: TopicKind::User, ids: alone }),
                Action::Request(Request::PresenceSet { state: Presence::Online }),
                list_request(),
                graph_request(),
                Action::Request(Request::RoomList { limit: 50, query: None }),
                Action::Request(Request::Suggestions { limit: 8 }),
                Action::Request(Request::NotificationList { limit: 50 }),
            ] + wallet_reads(me);
            assert(tail =~= wanted);
            assert(alone@ =~= seq![me]);
            assert(topics@.to_set() == old(signed).rooms_watched@);
            assert(opens(
                me,
                old(signed).rooms_watched@,
                few_left(remaining, low_water),
                topics,
                alone,
                tail,
            ));
        }
        out
    }

    /// A connect failed. A refused resume is the server saying that it keeps those frames no more:
    /// the session is dropped and the connect made once again, asking for nothing. Any other
    /// failure is told, and an attempt is scheduled, if none is.
    pub fn connect_failed(&mut self, error: &GatewayError, random: [u8; 2]) -> (out: Vec<Action>)
        requires
            old(self).wf(),
        ensures
            final(self).wf(),
            connect_fails(*old(self), *error, random, *final(self), out@),
    {
        if self.session.is_some() && error.is_resume_required() {
            self.session = None;
            return vec![Action::Connect];
        }
        self.arm(random);
        vec![
            Action::Emit(
                Event::Connection(Connection::Failed(Failure::Said { text: error.message() })),
            ),
        ]
    }

    /// A scheduled attempt is due: the plan is taken, so that a failure to schedule the next one
    /// cannot fire again at once. `None` where there is nothing to try.
    pub fn reconnect(&mut self, signed_in: bool) -> (plan: Option<Retry>)
        requires
            old(self).wf(),
        ensures
            final(self).wf(),
            *final(self) == (Link { retry: None, ..*old(self) }),
            plan == (if signed_in {
                old(self).retry
            } else {
                None
            }),
            plan matches Some(taken) ==> taken.wf(),
    {
        let plan: Option<Retry> = self.retry.take();
        if signed_in {
            plan
        } else {
            None
        }
    }

    /// A scheduled attempt was made. One that failed schedules the next, until they are spent.
    pub fn reconnected(&mut self, plan: Retry, random: [u8; 2]) -> (out: Vec<Action>)
        requires
            old(self).wf(),
            plan.wf(),
        ensures
            final(self).wf(),
            old(self).online ==> out@.len() == 0 && *final(self) == *old(self),
            !old(self).online && plan.attempts + 1 < RETRY_LIMIT ==> {
                &&& out@.len() == 0
                &&& final(self).retry matches Some(next) && next.attempts == plan.attempts + 1
                    && next.wait_ms == next.backoff_ms + (random[0] + 256 * random[1]) % 500
                &&& *final(self) == (Link { retry: final(self).retry, ..*old(self) })
            },
            !old(self).online && plan.attempts + 1 >= RETRY_LIMIT ==> {
                &&& out@ == seq![
                    Action::Emit(
                        Event::Connection(Connection::Failed(Failure::CouldNotReconnect)),
                    ),
                ]
                &&& *final(self) == (Link { retry: None, ..*old(self) })
            },
    {
        if self.online {
            return Vec::new();
        }
        match plan.after_failure(random) {
            Some(next) => {
                self.retry = Some(next);
                Vec::new()
            },
            None => {
                self.retry = None;
                vec![
                    Action::Emit(Event::Connection(Connection::Failed(Failure::CouldNotReconnect))),
                ]
            },
        }
    }

    /// The connection was lost: reports it and schedules an attempt, if none is.
    ///
    /// A second failure while an attempt is waited for does not start the backoff over.
    pub fn on_disconnect(
        &mut self,
        signed_in: bool,
        error: &GatewayError,
        random: [u8; 2],
    ) -> (out: Vec<Action>)
        requires
            old(self).wf(),
        ensures
            final(self).wf(),
            final(self).session == old(self).session,
            !final(self).online,
            final(self).heartbeat is None,
            out@.len() == 2,
            out@[0] == Action::CallsOffline,
            !signed_in ==> final(self).retry is None && out@[1] == Action::Emit(
                Event::Connection(Connection::Offline),
            ),
            signed_in ==> failed_with(seq![out@[1]], error.says()),
            signed_in ==> armed(
                (Link { online: false, heartbeat: None, ..*old(self) }),
                random,
                *final(self),
            ),
    {
        self.online = false;
        self.heartbeat = None;
        if !signed_in {
            self.retry = None;
            return vec![
                Action::CallsOffline,
                Action::Emit(Event::Connection(Connection::Offline)),
            ];
        }
        self.arm(random);
        vec![
            Action::CallsOffline,
            Action::Emit(
                Event::Connection(Connection::Failed(Failure::Said { text: error.message() })),
            ),
        ]
    }

    /// A request is to go out: the correlation it goes under, or what the person is told while no
    /// connection stands. One that cannot be written is a lost connection
    /// ([`Link::on_disconnect`]).
    pub fn request(&self, correlations: &mut u32) -> (r: Result<u32, Action>)
        requires
            *old(correlations) > 0,
        ensures
            *final(correlations) > 0,
            self.online ==> r == Ok::<u32, Action>(*old(correlations)) && *final(correlations)
                == correlation_after(*old(correlations)),
            !self.online ==> r == Err::<u32, Action>(toast(Notice::NotConnected, ToastKind::Error))
                && *final(correlations) == *old(correlations),
    {
        if !self.online {
            return Err(toasted(Notice::NotConnected, ToastKind::Error));
        }
        Ok(next_correlation(correlations))
    }

    /// A heartbeat is due. Nothing waits on its answer; one that cannot be sent is a lost
    /// connection like any other.
    pub fn send_heartbeat(&self, now: Timestamp) -> (out: Vec<Action>)
        ensures
            out@ == (if self.online {
                seq![Action::Heartbeat { client_time: now }]
            } else {
                Seq::empty()
            }),
    {
        if self.online {
            vec![Action::Heartbeat { client_time: now }]
        } else {
            Vec::new()
        }
    }
}

/// Whether some actions say that the connection failed, in these words.
pub open spec fn failed_with(out: Seq<Action>, words: Seq<char>) -> bool {
    &&& out.len() == 1
    &&& out[0] matches Action::Emit(
        Event::Connection(Connection::Failed(Failure::Said { text })),
    ) && text@ == words
}

/// A reconnect asks for exactly the session that was held, from exactly what was counted of it; a
/// process that holds none asks for nothing.
pub proof fn law_a_resume_asks_for_what_was_counted(session: Option<GatewaySession>)
    ensures
        resume_of(session) is Some <==> session is Some,
        session matches Some(held) ==> resume_of(session) == Some(
            (ResumeRequest { session_id: held.id, last_frame_seq: held.sequenced }),
        ),
{
}

/// A refused resume is made good by one more connect that asks for nothing: there is no session
/// left to ask for, and whatever that connect fails with, it is not made over again.
pub proof fn law_a_refused_resume_is_not_asked_again(
    before: Link,
    error: GatewayError,
    random: [u8; 2],
    between: Link,
    out: Seq<Action>,
    second: GatewayError,
    after: Link,
    told: Seq<Action>,
)
    requires
        connect_fails(before, error, random, between, out),
        out.contains(Action::Connect),
        connect_fails(between, second, random, after, told),
    ensures
        before.session is Some,
        resume_of(between.session) is None,
        !told.contains(Action::Connect),
{
}

/// What a client says it implements: everything it does, over every transport, and the transport's
/// own bit over just that transport.
pub proof fn law_what_is_announced(over: Transport)
    ensures
        announced(over).contains(Feature::E2eV1),
        announced(over).contains(Feature::Presence),
        announced(over).contains(Feature::Typing),
        announced(over).contains(Feature::Compression),
        announced(over).contains(Feature::Batching),
        announced(over).contains(Feature::RichPresence),
        announced(over).contains(Feature::Calls),
        announced(over).contains(Feature::GroupCall),
        announced(over).contains(Feature::Rooms),
        announced(over).contains(Feature::Economy),
        announced(over).contains(Feature::TcpTransport) <==> over == Transport::Tcp,
        announced(over).contains(Feature::Quic) <==> over == Transport::Quic,
{
    let said = announced(over);
    assert(said[0] == Feature::E2eV1);
    assert(said[1] == Feature::Presence);
    assert(said[2] == Feature::Typing);
    assert(said[3] == Feature::Compression);
    assert(said[4] == Feature::Batching);
    assert(said[5] == Feature::RichPresence);
    assert(said[6] == Feature::Calls);
    assert(said[7] == Feature::GroupCall);
    assert(said[8] == Feature::Rooms);
    assert(said[9] == Feature::Economy);
    if over != Transport::WebSocket {
        assert(said[10] == (if over == Transport::Tcp {
            Feature::TcpTransport
        } else {
            Feature::Quic
        }));
    }
}

/// A native transport falls back with its own reason: not reached, or not agreed to.
pub proof fn law_a_fallback_says_why(answer: NativeAnswer)
    ensures
        fallback_after(Transport::Tcp, NativeAnswer::Unreachable) == Some(
            FallbackReason::TcpUnreachable,
        ),
        fallback_after(Transport::Quic, NativeAnswer::Unreachable) == Some(
            FallbackReason::QuicUnreachable,
        ),
        fallback_after(Transport::Tcp, NativeAnswer::Welcomed { negotiated: false }) == Some(
            FallbackReason::TcpNotNegotiated,
        ),
        fallback_after(Transport::Quic, NativeAnswer::Welcomed { negotiated: false }) == Some(
            FallbackReason::QuicNotNegotiated,
        ),
        fallback_after(Transport::Tcp, NativeAnswer::Welcomed { negotiated: true }) is None,
        fallback_after(Transport::Quic, NativeAnswer::Welcomed { negotiated: true }) is None,
        fallback_after(Transport::WebSocket, answer) is None,
{
}

/// The first attempt after a loss is made after half a second and up to half a second more, and one
/// that is scheduled is not put off by another loss.
pub proof fn law_an_attempt_is_scheduled_once(before: Link, random: [u8; 2], after: Link)
    requires
        armed(before, random, after),
    ensures
        after.retry is Some,
        before.retry is Some ==> after.retry == before.retry,
        before.retry is None ==> after.retry.unwrap().attempts == 0 && 500
            <= after.retry.unwrap().wait_ms < 1000,
        after.session == before.session,
        after.online == before.online,
        after.heartbeat == before.heartbeat,
{
}

/// A connect that failed is told in the failure's own words and tried again later; only a refused
/// resume is tried again at once, without the session that was refused.
pub proof fn law_a_failed_connect_is_told_or_made_again(
    before: Link,
    error: GatewayError,
    random: [u8; 2],
    after: Link,
    out: Seq<Action>,
)
    requires
        connect_fails(before, error, random, after, out),
    ensures
        ({
            let refused = before.session is Some && error is Refused && error->code
                == RefusalCode::ResumeRequired;
            &&& refused ==> out == seq![Action::Connect] && after.session is None && after.retry
                == before.retry
            &&& !refused ==> {
                &&& after.session == before.session
                &&& after.retry is Some
                &&& out.len() == 1
                &&& out[0] matches Action::Emit(
                    Event::Connection(Connection::Failed(Failure::Said { text })),
                ) && text@ == (match error {
                    GatewayError::Transport(said) => said@,
                    GatewayError::Closed(said) => said@,
                    GatewayError::Refused { message, .. } => message@,
                })
            }
        }),
{
}

/// A connection stands as online, or as a fallback with its reason.
pub proof fn law_a_fallback_is_shown(fallback: Option<FallbackReason>)
    ensures
        fallback is None <==> standing(fallback) == Connection::Online,
        fallback is Some ==> standing(fallback) == Connection::Fallback(fallback.unwrap()),
{
}

/// A session is taken up again only where there was one and the server says that it was.
pub proof fn law_a_session_is_taken_up_by_both(link: Link, welcome: Welcome)
    ensures
        takes_up(link, welcome) <==> link.session is Some && welcome.resumed is Some
            && welcome.resumed.unwrap(),
{
}

/// One-time keys are spoken of exactly while fewer are left than they should be.
pub proof fn law_few_keys_are_spoken_of(remaining: u64, low_water: u64)
    ensures
        few_left(remaining, low_water) is Some <==> remaining < low_water,
        few_left(remaining, low_water) is Some ==> few_left(remaining, low_water).unwrap()
            == remaining,
{
}

/// What a fresh session opens with: the keys are published, every room that was watched and this
/// account's own topic are subscribed to, it is online, and the first reads of every screen are made.
pub proof fn law_a_fresh_session_reads_everything(
    me: Id,
    rooms: Set<Id>,
    few: Option<u64>,
    topics: Vec<Id>,
    own: Vec<Id>,
    out: Seq<Action>,
)
    requires
        opens(me, rooms, few, topics, own, out),
    ensures
        out[0] == Action::Request(Request::KeyPublish),
        own@.len() == 1,
        own@[0] == me,
        forall|room: Id| #[trigger] topics@.contains(room) <==> rooms.contains(room),
        topics@.len() > 0 ==> out.contains(
            Action::Request(Request::Subscribe { kind: TopicKind::Room, ids: topics }),
        ),
        few is Some ==> (out[1] matches Action::Emit(Event::Toast { notice, .. }) && notice == (
        Notice::FewOneTimeKeys { left: few.unwrap() })),
        out.contains(Action::Request(Request::Subscribe { kind: TopicKind::User, ids: own })),
        out.contains(Action::Request(Request::PresenceSet { state: Presence::Online })),
        out.contains(Action::Request(Request::ConversationList { limit: 100 })),
        out.contains(Action::Request(Request::RelationshipList { limit: 200 })),
        out.contains(Action::Request(Request::RoomList { limit: 50, query: None })),
        out.contains(Action::Request(Request::NotificationList { limit: 50 })),
        out.contains(Action::Request(Request::Suggestions { limit: 8 })),
        out.len() >= 6 && out.skip(out.len() - 6) == wallet_reads(me),
{
    let a = 1 + (if few is Some { 1int } else { 0 });
    let b = a + (if topics@.len() == 0 { 0int } else { 1 });
    if topics@.len() > 0 {
        assert(out[a] == Action::Request(
            Request::Subscribe { kind: TopicKind::Room, ids: topics },
        ));
    }
    assert(out[b] == Action::Request(Request::Subscribe { kind: TopicKind::User, ids: own }));
    assert(out[b + 1] == Action::Request(Request::PresenceSet { state: Presence::Online }));
    assert(out[b + 2] == Action::Request(Request::ConversationList { limit: 100 }));
    assert(out[b + 3] == Action::Request(Request::RelationshipList { limit: 200 }));
    assert(out[b + 4] == Action::Request(Request::RoomList { limit: 50, query: None }));
    assert(out[b + 5] == Action::Request(Request::Suggestions { limit: 8 }));
    assert(out[b + 6] == Action::Request(Request::NotificationList { limit: 50 }));
    assert(out.skip(out.len() - 6) =~= wallet_reads(me));
    assert forall|room: Id| #[trigger] topics@.contains(room) <==> rooms.contains(room) by {
        assert(topics@.to_set().contains(room) <==> topics@.contains(room));
    }
}

} // verus!
