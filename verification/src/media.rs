//! Attachments: what a file is sent as, how it is uploaded, and how one is fetched again.

use std::collections::{HashMap, HashSet};

use vstd::prelude::*;

use crate::codec::{decode_dimensions, sha256, upload_digest};
use crate::content::{
    copy_bytes, deadline, deadline_of, Body, Content, Delivery, MediaKeying, Message,
};
use crate::effects::{
    toast, toasted, Action, Event, MediaFailure, MediaKind, Notice, Outgoing, Request, SendKind,
    ToastKind,
};
use crate::effects::{untouched, ProfilePatch};
use crate::media_cache::{holds, CachedMedia, MediaCache};
use crate::sealing::{files, MediaKeys};
use crate::signed::{sealed, Signed};
use crate::text::{begins, chars_of, starts_with};
use crate::voice::clears_draft;
use crate::wire::{Id, Timestamp};

verus! {

broadcast use vstd::std_specs::hash::group_hash_axioms;

/// The ceilings an attachment is held to.
#[derive(Debug, Clone, Copy, PartialEq, Eq, Structural)]
pub struct MediaLimits {
    pub image_max_bytes: u64,
    pub document_max_bytes: u64,
}

/// What a file turned out to be.
#[derive(Debug, Clone, Copy, PartialEq, Eq, Structural)]
pub enum FileKind {
    Empty,
    Image { width: u32, height: u32 },
    ImageTooLarge,
    Document,
    DocumentTooLarge,
}

/// What a file of some length is, given the dimensions its bytes decode to, if they do.
pub open spec fn file_kind(
    len: int,
    size: Option<(u32, u32)>,
    limits: MediaLimits,
) -> FileKind {
    if len == 0 {
        FileKind::Empty
    } else {
        match size {
            Some((width, height)) => if len > limits.image_max_bytes {
                FileKind::ImageTooLarge
            } else {
                FileKind::Image { width, height }
            },
            None => if len > limits.document_max_bytes {
                FileKind::DocumentTooLarge
            } else {
                FileKind::Document
            },
        }
    }
}

/// Judges a file by its length and by what its bytes decode to.
pub fn judge(len: usize, size: Option<(u32, u32)>, limits: &MediaLimits) -> (kind: FileKind)
    ensures
        kind == file_kind(len as int, size, *limits),
{
    if len == 0 {
        return FileKind::Empty;
    }
    match size {
        Some((width, height)) => {
            if len as u64 > limits.image_max_bytes {
                FileKind::ImageTooLarge
            } else {
                FileKind::Image { width, height }
            }
        },
        None => {
            if len as u64 > limits.document_max_bytes {
                FileKind::DocumentTooLarge
            } else {
                FileKind::Document
            }
        },
    }
}

/// What an attachment will claim, and the slots that open it.
pub struct OutgoingMedia {
    pub kind: MediaKind,
    pub mime_type: String,
    pub size_bytes: u64,
    pub key: Vec<u8>,
    pub nonce: Vec<u8>,
    pub width: Option<u32>,
    pub height: Option<u32>,
    pub duration_ms: Option<u64>,
    pub waveform: Option<Vec<u8>>,
    pub caption: Option<String>,
    pub expires_in_ms: Option<u32>,
}

/// What a file that may be sent is sent as. The slots are filled when the upload begins.
pub open spec fn plan_says(
    plan: OutgoingMedia,
    kind: FileKind,
    len: int,
    image_type: String,
    document_type: String,
    expires_in_ms: Option<u32>,
) -> bool {
    &&& plan.size_bytes == len
    &&& plan.key@.len() == 0
    &&& plan.nonce@.len() == 0
    &&& plan.duration_ms is None
    &&& plan.waveform is None
    &&& plan.caption is None
    &&& plan.expires_in_ms == expires_in_ms
    &&& match kind {
        FileKind::Image { width, height } => {
            &&& plan.kind == MediaKind::Image
            &&& plan.mime_type == image_type
            &&& plan.width == Some(width)
            &&& plan.height == Some(height)
        },
        _ => {
            &&& plan.kind == MediaKind::Document
            &&& plan.mime_type == document_type
            &&& plan.width is None
            &&& plan.height is None
        },
    }
}

/// Whether a file is attached as it should be, where its bytes decode to an image of some size, or
/// to none.
pub open spec fn attached(
    read: Result<&Vec<u8>, String>,
    size: Option<(u32, u32)>,
    image_type: String,
    document_type: String,
    expires_in_ms: Option<u32>,
    limits: MediaLimits,
    r: Result<OutgoingMedia, Action>,
) -> bool {
    match read {
        Err(reason) => r == Err::<OutgoingMedia, Action>(
            toast(Notice::FileUnreadable { reason }, ToastKind::Error),
        ),
        Ok(bytes) => {
            let kind = file_kind(bytes@.len() as int, size, limits);
            match kind {
                FileKind::Empty => r == Err::<OutgoingMedia, Action>(
                    toast(Notice::FileEmpty, ToastKind::Error),
                ),
                FileKind::ImageTooLarge => r == Err::<OutgoingMedia, Action>(
                    toast(Notice::ImageTooLarge, ToastKind::Error),
                ),
                FileKind::DocumentTooLarge => r == Err::<OutgoingMedia, Action>(
                    toast(Notice::FileTooLarge, ToastKind::Error),
                ),
                _ => r matches Ok(plan) && plan_says(
                    plan,
                    kind,
                    bytes@.len() as int,
                    image_type,
                    document_type,
                    expires_in_ms,
                ),
            }
        },
    }
}

/// Attaches a file, judged the way the server will judge it, from its bytes: an image that decodes
/// is an image, anything else a document.
///
/// `read` is what reading it gave; `image_type` and `document_type` are the types the file would
/// claim as the one and as the other. Which bytes decode is the image decoder's to say; what is
/// done for each answer, [`plan_attachment`] states.
pub fn send_attachment(
    read: Result<&Vec<u8>, String>,
    image_type: String,
    document_type: String,
    expires_in_ms: Option<u32>,
    limits: &MediaLimits,
) -> (r: Result<OutgoingMedia, Action>)
    ensures
        exists|size: Option<(u32, u32)>| #[trigger]
            attached(read, size, image_type, document_type, expires_in_ms, *limits, r),
{
    let size: Option<(u32, u32)> = match &read {
        Ok(bytes) => {
            if bytes.len() == 0 {
                None
            } else {
                decode_dimensions(bytes.as_slice())
            }
        },
        Err(_) => None,
    };
    plan_attachment(read, size, image_type, document_type, expires_in_ms, limits)
}

/// Attaches a file whose bytes decode to an image of some size, or to none: the plan of its upload,
/// or what the person is told instead.
pub fn plan_attachment(
    read: Result<&Vec<u8>, String>,
    size: Option<(u32, u32)>,
    image_type: String,
    document_type: String,
    expires_in_ms: Option<u32>,
    limits: &MediaLimits,
) -> (r: Result<OutgoingMedia, Action>)
    ensures
        attached(read, size, image_type, document_type, expires_in_ms, *limits, r),
{
    let bytes: &Vec<u8> = match read {
        Ok(bytes) => bytes,
        Err(reason) => {
            return Err(toasted(Notice::FileUnreadable { reason }, ToastKind::Error));
        },
    };
    let (kind, mime_type, width, height): (MediaKind, String, Option<u32>, Option<u32>) =
        match judge(bytes.len(), size, limits) {
        FileKind::Empty => {
            return Err(toasted(Notice::FileEmpty, ToastKind::Error));
        },
        FileKind::ImageTooLarge => {
            return Err(toasted(Notice::ImageTooLarge, ToastKind::Error));
        },
        FileKind::DocumentTooLarge => {
            return Err(toasted(Notice::FileTooLarge, ToastKind::Error));
        },
        FileKind::Image { width, height } => (
            MediaKind::Image,
            image_type,
            Some(width),
            Some(height),
        ),
        FileKind::Document => (MediaKind::Document, document_type, None, None),
    };
    Ok(
        OutgoingMedia {
            kind,
            mime_type,
            size_bytes: bytes.len() as u64,
            key: Vec::new(),
            nonce: Vec::new(),
            width,
            height,
            duration_ms: None,
            waveform: None,
            caption: None,
            expires_in_ms,
        },
    )
}

/// The domain an attachment is sealed under.
#[derive(Debug, Clone, Copy, PartialEq, Eq, Structural)]
pub enum SealDomain {
    Media,
    Voice,
}

/// The domain an attachment of some kind is sealed under.
pub fn domain_of(voice: bool) -> (domain: SealDomain)
    ensures
        domain == (if voice {
            SealDomain::Voice
        } else {
            SealDomain::Media
        }),
{
    if voice {
        SealDomain::Voice
    } else {
        SealDomain::Media
    }
}

/// How an attachment crosses the wire to a conversation: sealed under a domain, or as it is.
pub open spec fn crossing(
    signed: Signed,
    conversation_id: Id,
    kind: MediaKind,
) -> Option<SealDomain> {
    if sealed(signed.e2e@, conversation_id, kind == MediaKind::Document) {
        Some(
            if kind == MediaKind::VoiceNote {
                SealDomain::Voice
            } else {
                SealDomain::Media
            },
        )
    } else {
        None
    }
}

/// Decides how an attachment crosses the wire. Signed out, nothing can be sent, and a voice note
/// goes back to its preview.
pub fn attachment_seal(
    signed: &Option<Signed>,
    conversation_id: Id,
    kind: MediaKind,
    voice_note: Option<Id>,
) -> (r: Result<Option<SealDomain>, Vec<Action>>)
    ensures
        match signed {
            None => r matches Err(out) && out@ == restoring(voice_note),
            Some(held) => r == Ok::<Option<SealDomain>, Vec<Action>>(
                crossing(*held, conversation_id, kind),
            ),
        },
{
    match signed {
        None => Err(restore(voice_note)),
        Some(held) => {
            let document: bool = match kind {
                MediaKind::Document => true,
                _ => false,
            };
            let voice: bool = match kind {
                MediaKind::VoiceNote => true,
                _ => false,
            };
            if held.seals(conversation_id, document) {
                Ok(Some(domain_of(voice)))
            } else {
                Ok(None)
            }
        },
    }
}

/// An attachment could not be sealed: that is told, and a voice note goes back to its preview.
pub fn attachment_not_sealed(reason: String, voice_note: Option<Id>) -> (out: Vec<Action>)
    ensures
        out@ == seq![toast(Notice::Said { text: reason }, ToastKind::Error)] + restoring(
            voice_note,
        ),
{
    let mut out: Vec<Action> = vec![toasted(Notice::Said { text: reason }, ToastKind::Error)];
    let mut restored: Vec<Action> = restore(voice_note);
    out.append(&mut restored);
    out
}

/// A document is sealed wherever it goes, and nothing goes into an encrypted conversation as it is.
pub proof fn law_what_must_be_sealed_is(signed: Signed, conversation_id: Id, kind: MediaKind)
    requires
        kind == MediaKind::Document || (signed.e2e@.contains_key(conversation_id)
            && signed.e2e@[conversation_id]),
    ensures
        crossing(signed, conversation_id, kind) is Some,
{
}

/// The bytes of an upload and the slots that open them: sealed, or the plaintext under slots that
/// open nothing.
pub struct WireBytes {
    pub sealed: bool,
    pub key: Vec<u8>,
    pub nonce: Vec<u8>,
    pub bytes: Vec<u8>,
}

/// One attachment upload between its BEGIN and the ticket's arrival.
pub struct AttachmentBegin {
    pub conversation_id: Id,
    /// The optimistic row's id.
    pub message_id: Id,
    pub plan: OutgoingMedia,
    /// The bytes that go to the ticket's address.
    pub wire_bytes: Vec<u8>,
    /// The conversation of the draft, when the attachment is a voice note. It is cleared only when
    /// the object is committed.
    pub voice_note: Option<Id>,
}

/// One attachment upload between its COMMIT and the acknowledgement.
pub struct AttachmentCommit {
    pub conversation_id: Id,
    pub message_id: Id,
    /// The object's id: the ticket's.
    pub media_id: Id,
    pub plan: OutgoingMedia,
    pub voice_note: Option<Id>,
}

/// An avatar upload waiting for its ticket.
pub struct AvatarPending {
    pub bytes: Vec<u8>,
}

/// What a fetched attachment is fetched for.
pub enum MediaIntent {
    Show,
    Play,
    SaveTo(String),
}

/// One fetch waiting for its signed address.
pub struct MediaWant {
    pub media_id: Id,
    pub intent: MediaIntent,
}

/// The type an upload claims to the server: a sealed one claims nothing about what it holds.
pub open spec fn claimed_type(plan: OutgoingMedia, sealed: bool) -> Seq<char> {
    if sealed {
        "application/octet-stream"@
    } else {
        plan.mime_type@
    }
}

/// Begins one attachment upload: the BEGIN to send, and what to remember under its correlation.
///
/// What the upload claims and what the message will claim are different facts. A sealed upload
/// claims no type and the sealed length; the message claims the real type and the plaintext size,
/// because its readers hold the key.
pub fn begin_attachment(
    conversation_id: Id,
    message_id: Id,
    plan: OutgoingMedia,
    wire: WireBytes,
    voice_note: Option<Id>,
) -> (r: (Request, AttachmentBegin))
    ensures
        r.0 matches Request::MediaBegin {
            kind,
            content_type,
            size,
            conversation_id: c,
            width,
            height,
            duration_ms,
        } && kind == plan.kind && content_type@ == claimed_type(plan, wire.sealed) && size == (
        if wire.sealed {
            wire.bytes@.len() as int
        } else {
            plan.size_bytes as int
        }) && c == Some(conversation_id) && width == plan.width && height == plan.height
            && duration_ms == plan.duration_ms,
        r.1 == (AttachmentBegin {
            conversation_id,
            message_id,
            plan: OutgoingMedia { key: wire.key, nonce: wire.nonce, ..plan },
            wire_bytes: wire.bytes,
            voice_note,
        }),
{
    let content_type: String = if wire.sealed {
        "application/octet-stream".to_owned()
    } else {
        plan.mime_type.clone()
    };
    let size: u64 = if wire.sealed {
        wire.bytes.len() as u64
    } else {
        plan.size_bytes
    };
    let request = Request::MediaBegin {
        kind: plan.kind,
        content_type,
        size,
        conversation_id: Some(conversation_id),
        width: plan.width,
        height: plan.height,
        duration_ms: plan.duration_ms,
    };
    let begun = AttachmentBegin {
        conversation_id,
        message_id,
        plan: OutgoingMedia {
            kind: plan.kind,
            mime_type: plan.mime_type,
            size_bytes: plan.size_bytes,
            key: wire.key,
            nonce: wire.nonce,
            width: plan.width,
            height: plan.height,
            duration_ms: plan.duration_ms,
            waveform: plan.waveform,
            caption: plan.caption,
            expires_in_ms: plan.expires_in_ms,
        },
        wire_bytes: wire.bytes,
        voice_note,
    };
    (request, begun)
}

/// The content a plan's message carries, once the object has an id. Only a voice note states how
/// long it plays.
pub open spec fn content_of(plan: OutgoingMedia, media_id: Id) -> Content {
    match plan.kind {
        MediaKind::VoiceNote => Content::VoiceNoteRef {
            media_id,
            mime_type: plan.mime_type,
            key: plan.key,
            nonce: plan.nonce,
            duration_ms: match plan.duration_ms {
                Some(ms) => ms,
                None => 0,
            },
            waveform: plan.waveform,
            expires_in_ms: plan.expires_in_ms,
        },
        _ => Content::MediaRef {
            media_id,
            mime_type: plan.mime_type,
            size_bytes: plan.size_bytes,
            key: plan.key,
            nonce: plan.nonce,
            width: plan.width,
            height: plan.height,
            caption: plan.caption,
            expires_in_ms: plan.expires_in_ms,
        },
    }
}

fn content_from(plan: OutgoingMedia, media_id: Id) -> (content: Content)
    ensures
        content == content_of(plan, media_id),
{
    match plan.kind {
        MediaKind::VoiceNote => Content::VoiceNoteRef {
            media_id,
            mime_type: plan.mime_type,
            key: plan.key,
            nonce: plan.nonce,
            duration_ms: match plan.duration_ms {
                Some(ms) => ms,
                None => 0,
            },
            waveform: plan.waveform,
            expires_in_ms: plan.expires_in_ms,
        },
        _ => Content::MediaRef {
            media_id,
            mime_type: plan.mime_type,
            size_bytes: plan.size_bytes,
            key: plan.key,
            nonce: plan.nonce,
            width: plan.width,
            height: plan.height,
            caption: plan.caption,
            expires_in_ms: plan.expires_in_ms,
        },
    }
}

/// Whether a body shows what some attachment's content says.
pub open spec fn body_shows(body: Body, content: Content) -> bool {
    match content {
        Content::VoiceNoteRef { media_id, duration_ms, waveform, .. } => body matches Body::VoiceNote {
            media_id: id,
            duration_ms: ms,
            waveform: bars,
        } && id == media_id && ms == duration_ms && (bars is Some <==> waveform is Some) && (
        bars matches Some(held) ==> held@ == waveform.unwrap()@),
        Content::MediaRef { media_id, mime_type, size_bytes, width, height, caption, .. } =>
            body matches Body::Media {
            media_id: id,
            mime_type: mime,
            size_bytes: size,
            width: w,
            height: h,
            caption: said,
        } && id == media_id && mime@ == mime_type@ && size == size_bytes && w == width && h == height
            && crate::people::same_opt(said, caption),
        _ => false,
    }
}

fn body_for(content: &Content) -> (body: Body)
    requires
        content is MediaRef || content is VoiceNoteRef,
    ensures
        body_shows(body, *content),
{
    match content {
        Content::VoiceNoteRef { media_id, duration_ms, waveform, .. } => Body::VoiceNote {
            media_id: *media_id,
            duration_ms: *duration_ms,
            waveform: match waveform {
                Some(bars) => Some(copy_bytes(bars)),
                None => None,
            },
        },
        Content::MediaRef { media_id, mime_type, size_bytes, width, height, caption, .. } =>
            Body::Media {
            media_id: *media_id,
            mime_type: mime_type.clone(),
            size_bytes: *size_bytes,
            width: *width,
            height: *height,
            caption: match caption {
                Some(text) => Some(text.clone()),
                None => None,
            },
        },
        _ => Body::Tombstone,
    }
}

/// The uploads and fetches in flight, by the correlations their replies will carry.
pub struct Uploads {
    pub attachment_begins: HashMap<u32, AttachmentBegin>,
    pub attachment_commits: HashMap<u32, AttachmentCommit>,
    pub avatar_pending: Option<AvatarPending>,
    pub avatar_commit_pending: Option<Id>,
}

/// Whose ticket a BEGIN's reply is.
pub enum TicketFor {
    /// An attachment's: its bytes go to the ticket's address.
    Attachment(AttachmentBegin),
    /// The avatar's.
    Avatar(AvatarPending),
    /// Nobody's that is still waiting.
    Nobody,
}

/// What an upload's failure asks for besides the abort: the note goes back to its preview.
pub open spec fn restoring(voice_note: Option<Id>) -> Seq<Action> {
    match voice_note {
        Some(conversation_id) => seq![Action::RestoreDraft { conversation_id }],
        None => Seq::empty(),
    }
}

/// Hands a failed voice note back to its preview; any other attachment has none.
pub fn restore(voice_note: Option<Id>) -> (out: Vec<Action>)
    ensures
        out@ == restoring(voice_note),
{
    match voice_note {
        Some(conversation_id) => vec![Action::RestoreDraft { conversation_id }],
        None => Vec::new(),
    }
}

/// Abandons an upload's ticket.
pub open spec fn abort(upload_id: Id) -> Action {
    Action::Request(Request::MediaAbort { upload_id })
}

impl Uploads {
    pub fn new() -> (uploads: Self)
        ensures
            uploads.is_empty(),
    {
        Uploads {
            attachment_begins: HashMap::new(),
            attachment_commits: HashMap::new(),
            avatar_pending: None,
            avatar_commit_pending: None,
        }
    }

    /// Whether nothing is in flight.
    pub open spec fn is_empty(&self) -> bool {
        &&& self.attachment_begins@ == Map::<u32, AttachmentBegin>::empty()
        &&& self.attachment_commits@ == Map::<u32, AttachmentCommit>::empty()
        &&& self.avatar_pending is None
        &&& self.avatar_commit_pending is None
    }

    /// The BEGIN of an attachment went out.
    pub fn asked_begin(&mut self, correlation: u32, begun: AttachmentBegin)
        ensures
            final(self).attachment_begins@ == old(self).attachment_begins@.insert(
                correlation,
                begun,
            ),
            *final(self) == (Uploads {
                attachment_begins: final(self).attachment_begins,
                ..*old(self)
            }),
    {
        self.attachment_begins.insert(correlation, begun);
    }

    /// The COMMIT of an attachment went out.
    pub fn asked_commit(&mut self, correlation: u32, commit: AttachmentCommit)
        ensures
            final(self).attachment_commits@ == old(self).attachment_commits@.insert(
                correlation,
                commit,
            ),
            *final(self) == (Uploads {
                attachment_commits: final(self).attachment_commits,
                ..*old(self)
            }),
    {
        self.attachment_commits.insert(correlation, commit);
    }

    /// A COMMIT was acknowledged: the attachment whose it is, or none where it is the avatar's.
    pub fn commit_acknowledged(&mut self, correlation: u32) -> (commit: Option<AttachmentCommit>)
        ensures
            commit == (if old(self).attachment_commits@.contains_key(correlation) {
                Some(old(self).attachment_commits@[correlation])
            } else {
                None
            }),
            final(self).attachment_commits@ == old(self).attachment_commits@.remove(correlation),
            *final(self) == (Uploads {
                attachment_commits: final(self).attachment_commits,
                ..*old(self)
            }),
    {
        self.attachment_commits.remove(&correlation)
    }

    /// The voice note that a refused ask was carrying, by the conversation its draft belongs to.
    pub open spec fn note_of_ask(&self, correlation: u32) -> Option<Id> {
        if self.attachment_begins@.contains_key(correlation) {
            self.attachment_begins@[correlation].voice_note
        } else if self.attachment_commits@.contains_key(correlation) {
            self.attachment_commits@[correlation].voice_note
        } else {
            None
        }
    }

    /// A BEGIN or a COMMIT was refused: nothing waits for its reply any more, and a voice note that
    /// it was carrying is owed to its preview.
    pub fn ask_refused(&mut self, correlation: u32) -> (voice_note: Option<Id>)
        ensures
            voice_note == old(self).note_of_ask(correlation),
            final(self).attachment_begins@ == old(self).attachment_begins@.remove(correlation),
            final(self).attachment_commits@ == old(self).attachment_commits@.remove(correlation),
            *final(self) == (Uploads {
                attachment_begins: final(self).attachment_begins,
                attachment_commits: final(self).attachment_commits,
                ..*old(self)
            }),
    {
        let begun: Option<AttachmentBegin> = self.attachment_begins.remove(&correlation);
        let commit: Option<AttachmentCommit> = self.attachment_commits.remove(&correlation);
        match begun {
            Some(begun) => begun.voice_note,
            None => match commit {
                Some(commit) => commit.voice_note,
                None => None,
            },
        }
    }

    /// The BEGIN of the avatar went out.
    pub fn asked_avatar(&mut self, pending: AvatarPending)
        ensures
            *final(self) == (Uploads { avatar_pending: Some(pending), ..*old(self) }),
    {
        self.avatar_pending = Some(pending);
    }

    /// The COMMIT of the avatar went out: its object's id is the ticket's.
    pub fn asked_avatar_commit(&mut self, upload_id: Id)
        ensures
            *final(self) == (Uploads { avatar_commit_pending: Some(upload_id), ..*old(self) }),
    {
        self.avatar_commit_pending = Some(upload_id);
    }

    /// The uploads in flight have no session to commit under any more.
    pub fn sign_out(&mut self)
        ensures
            final(self).attachment_begins@ == Map::<u32, AttachmentBegin>::empty(),
            final(self).attachment_commits@ == Map::<u32, AttachmentCommit>::empty(),
            *final(self) == (Uploads {
                attachment_begins: final(self).attachment_begins,
                attachment_commits: final(self).attachment_commits,
                ..*old(self)
            }),
    {
        self.attachment_begins.clear();
        self.attachment_commits.clear();
    }

    /// A BEGIN was answered: the correlation says whether an attachment waits for the ticket;
    /// anything else is the avatar's, if it still waits.
    pub fn ticket_arrived(&mut self, correlation: u32) -> (owner: TicketFor)
        ensures
            old(self).attachment_begins@.contains_key(correlation) ==> {
                &&& owner == TicketFor::Attachment(old(self).attachment_begins@[correlation])
                &&& final(self).attachment_begins@ == old(self).attachment_begins@.remove(
                    correlation,
                )
                &&& *final(self) == (Uploads {
                    attachment_begins: final(self).attachment_begins,
                    ..*old(self)
                })
            },
            !old(self).attachment_begins@.contains_key(correlation) ==> {
                &&& owner == (match old(self).avatar_pending {
                    Some(pending) => TicketFor::Avatar(pending),
                    None => TicketFor::Nobody,
                })
                &&& final(self).attachment_begins@ == old(self).attachment_begins@
                &&& *final(self) == (Uploads {
                    attachment_begins: final(self).attachment_begins,
                    avatar_pending: None,
                    ..*old(self)
                })
            },
    {
        match self.attachment_begins.remove(&correlation) {
            Some(begun) => TicketFor::Attachment(begun),
            None => {
                assert(self.attachment_begins@ =~= old(self).attachment_begins@);
                match self.avatar_pending.take() {
                    Some(pending) => TicketFor::Avatar(pending),
                    None => TicketFor::Nobody,
                }
            },
        }
    }
}

/// The bytes of an attachment were sent: commit them under the digest of exactly those bytes, and
/// remember the object under the commit's correlation.
pub fn attachment_put(upload_id: Id, begun: AttachmentBegin) -> (r: (Request, AttachmentCommit))
    ensures
        r.0 matches Request::MediaCommit { upload_id: id, digest } && id == upload_id && digest@
            == sha256(begun.wire_bytes@),
        r.1 == (AttachmentCommit {
            conversation_id: begun.conversation_id,
            message_id: begun.message_id,
            media_id: upload_id,
            plan: begun.plan,
            voice_note: begun.voice_note,
        }),
{
    let digest: Vec<u8> = upload_digest(&begun.wire_bytes);
    (
        Request::MediaCommit { upload_id, digest },
        AttachmentCommit {
            conversation_id: begun.conversation_id,
            message_id: begun.message_id,
            media_id: upload_id,
            plan: begun.plan,
            voice_note: begun.voice_note,
        },
    )
}

/// The bytes of an attachment could not be sent: the ticket is abandoned, the person told, and a
/// voice note handed back.
pub fn attachment_not_put(
    upload_id: Id,
    reason: String,
    voice_note: Option<Id>,
) -> (out: Vec<Action>)
    ensures
        out@ == seq![
            abort(upload_id),
            toast(Notice::UploadFailed { reason }, ToastKind::Error),
        ] + restoring(voice_note),
{
    let mut out: Vec<Action> = vec![
        Action::Request(Request::MediaAbort { upload_id }),
        toasted(Notice::UploadFailed { reason }, ToastKind::Error),
    ];
    let mut more: Vec<Action> = restore(voice_note);
    out.append(&mut more);
    assert(out@ =~= seq![
        abort(upload_id),
        toast(Notice::UploadFailed { reason }, ToastKind::Error),
    ] + restoring(voice_note));
    out
}

/// The commit of an attachment could not be asked for: the ticket is abandoned, and a voice note
/// handed back.
pub fn commit_not_asked(upload_id: Id, voice_note: Option<Id>) -> (out: Vec<Action>)
    ensures
        out@ == seq![abort(upload_id)] + restoring(voice_note),
{
    let mut out: Vec<Action> = vec![Action::Request(Request::MediaAbort { upload_id })];
    let mut more: Vec<Action> = restore(voice_note);
    out.append(&mut more);
    assert(out@ =~= seq![abort(upload_id)] + restoring(voice_note));
    out
}

/// An upload that fails, wherever on its way it does, removes no draft: what could not be sealed,
/// put or committed hands a voice note back to its preview.
pub proof fn law_a_failed_upload_keeps_its_draft(
    upload_id: Id,
    reason: String,
    voice_note: Option<Id>,
)
    ensures
        !clears_draft(restoring(voice_note)),
        !clears_draft(
            seq![toast(Notice::Said { text: reason }, ToastKind::Error)] + restoring(voice_note),
        ),
        !clears_draft(
            seq![abort(upload_id), toast(Notice::UploadFailed { reason }, ToastKind::Error)]
                + restoring(voice_note),
        ),
        !clears_draft(seq![abort(upload_id)] + restoring(voice_note)),
        voice_note matches Some(conversation_id) ==> restoring(voice_note) == seq![
            Action::RestoreDraft { conversation_id },
        ],
{
}

/// The commit an avatar's bytes go under.
pub fn avatar_put(upload_id: Id, pending: &AvatarPending) -> (request: Request)
    ensures
        request matches Request::MediaCommit { upload_id: id, digest } && id == upload_id && digest@
            == sha256(pending.bytes@),
{
    Request::MediaCommit { upload_id, digest: upload_digest(&pending.bytes) }
}

/// The avatar's bytes could not be sent, or their commit not be asked for: the ticket is abandoned,
/// and the failure filed beside the form.
pub fn avatar_not_put(upload_id: Id, reason: String) -> (out: Vec<Action>)
    ensures
        out@ == seq![
            abort(upload_id),
            Action::Emit(Event::AvatarChangeFailed { notice: Notice::Said { text: reason } }),
        ],
{
    vec![
        Action::Request(Request::MediaAbort { upload_id }),
        Action::Emit(Event::AvatarChangeFailed { notice: Notice::Said { text: reason } }),
    ]
}

/// The kind a committed attachment's message is sent as: what its envelope actually carries.
pub open spec fn send_kind(kind: MediaKind) -> SendKind {
    if kind == MediaKind::VoiceNote {
        SendKind::Voice
    } else {
        SendKind::Media
    }
}

/// What a committed attachment becomes: its optimistic row, and the content to seal.
pub struct Committed {
    pub row: Message,
    pub content: Content,
    pub outgoing: Outgoing,
}

/// Whether some keys are others with a committed object's slots filed, unless it was known.
pub open spec fn commit_files(
    before: Map<Id, MediaKeying>,
    pending: AttachmentCommit,
    after: Map<Id, MediaKeying>,
) -> bool {
    files(before, content_of(pending.plan, pending.media_id), after)
}

/// An attachment's object exists: its message can go out.
///
/// The slots that open the object are filed for this session's own fetches. The row is shown at
/// once, as sending; the content is sealed after it.
pub fn attachment_committed(
    keys: &mut MediaKeys,
    pending: AttachmentCommit,
    sender_id: Id,
    now: Timestamp,
) -> (r: Committed)
    ensures
        commit_files(old(keys).keys@, pending, final(keys).keys@),
        r.content == content_of(pending.plan, pending.media_id),
        r.outgoing == (Outgoing::Message {
            message_id: pending.message_id,
            kind: send_kind(pending.plan.kind),
            expires_in_ms: pending.plan.expires_in_ms,
        }),
        r.row.message_id == pending.message_id,
        r.row.conversation_id == pending.conversation_id,
        r.row.seq == 0,
        r.row.sender_id == sender_id,
        r.row.outgoing,
        body_shows(r.row.body, r.content),
        r.row.sent_at == now,
        r.row.delivery == Delivery::Sending,
        !r.row.deleted,
        !r.row.edited,
        r.row.expires_at == deadline_of(now, pending.plan.expires_in_ms),
{
    let kind: SendKind = match pending.plan.kind {
        MediaKind::VoiceNote => SendKind::Voice,
        _ => SendKind::Media,
    };
    let expires_in_ms: Option<u32> = pending.plan.expires_in_ms;
    let content: Content = content_from(pending.plan, pending.media_id);
    keys.file(&content);
    let row = Message {
        message_id: pending.message_id,
        conversation_id: pending.conversation_id,
        seq: 0,
        sender_id,
        outgoing: true,
        body: body_for(&content),
        sent_at: now,
        delivery: Delivery::Sending,
        deleted: false,
        edited: false,
        expires_at: deadline(now, expires_in_ms),
    };
    let outgoing = Outgoing::Message { message_id: pending.message_id, kind, expires_in_ms };
    Committed { row, content, outgoing }
}

/// The fetches in flight and the attachments opened so far.
pub struct Fetches {
    pub media_wants: HashMap<u32, MediaWant>,
    /// The objects a fetch is in flight for.
    pub media_fetching: HashSet<Id>,
    pub cache: MediaCache,
}

/// How an opened attachment is kept, as far as serving it goes.
#[derive(Debug, Clone, Copy, PartialEq, Eq, Structural)]
pub enum ServedAs {
    Image,
    Audio,
    Document,
}

/// What an opened attachment is.
pub open spec fn served(entry: CachedMedia) -> ServedAs {
    match entry {
        CachedMedia::Image { .. } => ServedAs::Image,
        CachedMedia::Audio { .. } => ServedAs::Audio,
        CachedMedia::Document { .. } => ServedAs::Document,
    }
}

/// What serving an attachment for an intent has the edge do: pixels for a show, the speaker for a
/// play, the original bytes for a save. A kind and an intent that do not match are nothing.
pub open spec fn serving(media_id: Id, kind: ServedAs, intent: MediaIntent) -> Seq<Action> {
    match (kind, intent) {
        (ServedAs::Image, MediaIntent::Show) => seq![Action::ShowImage { media_id }],
        (ServedAs::Audio, MediaIntent::Play) => seq![Action::StartPlayback { media_id }],
        (ServedAs::Audio, MediaIntent::SaveTo(_)) => seq![
            toast(Notice::NoteHasNoFile, ToastKind::Info),
        ],
        (_, MediaIntent::SaveTo(path)) => seq![Action::SaveMedia { media_id, path }],
        _ => Seq::empty(),
    }
}

/// Serves an opened attachment for one intent.
pub fn serve_media(media_id: Id, kind: ServedAs, intent: MediaIntent) -> (out: Vec<Action>)
    ensures
        out@ == serving(media_id, kind, intent),
{
    match (kind, intent) {
        (ServedAs::Image, MediaIntent::Show) => vec![Action::ShowImage { media_id }],
        (ServedAs::Audio, MediaIntent::Play) => vec![Action::StartPlayback { media_id }],
        (ServedAs::Audio, MediaIntent::SaveTo(_)) => vec![
            toasted(Notice::NoteHasNoFile, ToastKind::Info),
        ],
        (ServedAs::Image, MediaIntent::SaveTo(path)) => vec![Action::SaveMedia { media_id, path }],
        (ServedAs::Document, MediaIntent::SaveTo(path)) => vec![
            Action::SaveMedia { media_id, path },
        ],
        _ => Vec::new(),
    }
}

/// What a want comes to.
pub enum WantStep {
    /// Nothing to ask the server for; these actions are all.
    Done(Vec<Action>),
    /// Ask for the signed address, and remember the want under the correlation.
    Ask(Request, MediaWant),
}

impl Fetches {
    pub open spec fn wf(&self) -> bool {
        self.cache.wf()
    }

    pub fn new() -> (fetches: Self)
        ensures
            fetches.wf(),
            fetches.media_wants@ == Map::<u32, MediaWant>::empty(),
            fetches.media_fetching@ == Set::<Id>::empty(),
            fetches.cache@.len() == 0,
    {
        Fetches {
            media_wants: HashMap::new(),
            media_fetching: HashSet::new(),
            cache: MediaCache::new(),
        }
    }

    /// What an opened attachment is, where it is cached.
    pub fn cached_as(&self, media_id: Id) -> (kind: Option<ServedAs>)
        requires
            self.wf(),
        ensures
            kind is Some <==> holds(self.cache@, media_id),
            kind matches Some(k) ==> exists|i: int|
                0 <= i < self.cache@.len() && (#[trigger] self.cache@[i]).0 == media_id && k
                    == served(self.cache@[i].1),
    {
        match self.cache.get(media_id) {
            Some(entry) => {
                let ghost at = choose|i: int|
                    0 <= i < self.cache@.len() && #[trigger] self.cache@[i] == (media_id, *entry);
                assert(self.cache@[at].0 == media_id);
                match entry {
                    CachedMedia::Image { .. } => Some(ServedAs::Image),
                    CachedMedia::Audio { .. } => Some(ServedAs::Audio),
                    CachedMedia::Document { .. } => Some(ServedAs::Document),
                }
            },
            None => None,
        }
    }

    /// Wants one attachment.
    ///
    /// One that is cached is served without a round trip, one that is being fetched is not asked
    /// for again, and one whose key this session does not hold cannot be opened.
    pub fn want_media(
        &mut self,
        media_id: Id,
        intent: MediaIntent,
        has_key: bool,
    ) -> (step: WantStep)
        requires
            old(self).wf(),
        ensures
            final(self).wf(),
            final(self).cache == old(self).cache,
            final(self).media_wants == old(self).media_wants,
            holds(old(self).cache@, media_id) ==> {
                &&& final(self).media_fetching@ == old(self).media_fetching@
                &&& step matches WantStep::Done(out) && exists|i: int|
                    0 <= i < old(self).cache@.len() && (#[trigger] old(self).cache@[i]).0 == media_id
                        && out@ == serving(media_id, served(old(self).cache@[i].1), intent)
            },
            !holds(old(self).cache@, media_id) && old(self).media_fetching@.contains(media_id) ==> {
                &&& final(self).media_fetching@ == old(self).media_fetching@
                &&& step matches WantStep::Done(out) && out@.len() == 0
            },
            !holds(old(self).cache@, media_id) && !old(self).media_fetching@.contains(media_id)
                && !has_key ==> {
                &&& final(self).media_fetching@ == old(self).media_fetching@
                &&& step matches WantStep::Done(out) && out@ == seq![
                    Action::Emit(
                        Event::MediaFailed { media_id, failure: MediaFailure::KeyNotInSession },
                    ),
                ]
            },
            !holds(old(self).cache@, media_id) && !old(self).media_fetching@.contains(media_id)
                && has_key ==> {
                &&& final(self).media_fetching@ == old(self).media_fetching@.insert(media_id)
                &&& step == WantStep::Ask(
                    Request::MediaFetchUrl { object_id: media_id },
                    MediaWant { media_id, intent },
                )
            },
    {
        if let Some(kind) = self.cached_as(media_id) {
            return WantStep::Done(serve_media(media_id, kind, intent));
        }
        if self.media_fetching.contains(&media_id) {
            return WantStep::Done(Vec::new());
        }
        if !has_key {
            return WantStep::Done(
                vec![
                    Action::Emit(
                        Event::MediaFailed { media_id, failure: MediaFailure::KeyNotInSession },
                    ),
                ],
            );
        }
        self.media_fetching.insert(media_id);
        WantStep::Ask(
            Request::MediaFetchUrl { object_id: media_id },
            MediaWant { media_id, intent },
        )
    }

    /// The ask for an address went out.
    pub fn asked(&mut self, correlation: u32, want: MediaWant)
        requires
            old(self).wf(),
        ensures
            final(self).wf(),
            final(self).media_wants@ == old(self).media_wants@.insert(correlation, want),
            final(self).media_fetching == old(self).media_fetching,
            final(self).cache == old(self).cache,
    {
        self.media_wants.insert(correlation, want);
    }

    /// The fetches in flight have no keys to open with any more.
    pub fn sign_out(&mut self)
        ensures
            final(self).wf(),
            final(self).media_wants@ == Map::<u32, MediaWant>::empty(),
            final(self).media_fetching@ == Set::<Id>::empty(),
            final(self).cache@.len() == 0,
    {
        self.media_wants.clear();
        self.media_fetching.clear();
        self.cache.clear();
    }

    /// The signed address of an object arrived: whose want it answers, if anybody's.
    pub fn url_arrived(&mut self, correlation: u32) -> (want: Option<MediaWant>)
        requires
            old(self).wf(),
        ensures
            final(self).wf(),
            want == (if old(self).media_wants@.contains_key(correlation) {
                Some(old(self).media_wants@[correlation])
            } else {
                None
            }),
            final(self).media_wants@ == old(self).media_wants@.remove(correlation),
            *final(self) == (Fetches { media_wants: final(self).media_wants, ..*old(self) }),
    {
        self.media_wants.remove(&correlation)
    }

    /// The ask for an address could not go out: the object may be wanted again.
    pub fn not_asked(&mut self, media_id: Id)
        requires
            old(self).wf(),
        ensures
            final(self).wf(),
            final(self).media_fetching@ == old(self).media_fetching@.remove(media_id),
            final(self).media_wants == old(self).media_wants,
            final(self).cache == old(self).cache,
    {
        self.media_fetching.remove(&media_id);
    }

    /// A fetch failed: the bubble is told, and a press of its button may ask again.
    pub fn failed(&mut self, media_id: Id, failure: MediaFailure) -> (out: Vec<Action>)
        requires
            old(self).wf(),
        ensures
            final(self).wf(),
            final(self).media_fetching@ == old(self).media_fetching@.remove(media_id),
            final(self).media_wants == old(self).media_wants,
            final(self).cache == old(self).cache,
            out@ == seq![Action::Emit(Event::MediaFailed { media_id, failure })],
    {
        self.media_fetching.remove(&media_id);
        vec![Action::Emit(Event::MediaFailed { media_id, failure })]
    }

    /// A fetch was opened: it is cached, and served for what it was fetched for.
    pub fn opened(&mut self, want: MediaWant, entry: CachedMedia) -> (out: Vec<Action>)
        requires
            old(self).wf(),
        ensures
            final(self).wf(),
            final(self).media_fetching@ == old(self).media_fetching@.remove(want.media_id),
            final(self).media_wants == old(self).media_wants,
            final(self).cache@ == (if holds(old(self).cache@, want.media_id) {
                old(self).cache@
            } else {
                crate::media_cache::evicted(old(self).cache@.push((want.media_id, entry)))
            }),
            !holds(old(self).cache@, want.media_id) ==> out@ == serving(
                want.media_id,
                served(entry),
                want.intent,
            ),
            holds(old(self).cache@, want.media_id) ==> exists|i: int|
                0 <= i < old(self).cache@.len() && (#[trigger] old(self).cache@[i]).0
                    == want.media_id && out@ == serving(
                    want.media_id,
                    served(old(self).cache@[i].1),
                    want.intent,
                ),
    {
        let media_id: Id = want.media_id;
        self.media_fetching.remove(&media_id);
        if let Some(kind) = self.cached_as(media_id) {
            return serve_media(media_id, kind, want.intent);
        }
        let kind: ServedAs = match &entry {
            CachedMedia::Image { .. } => ServedAs::Image,
            CachedMedia::Audio { .. } => ServedAs::Audio,
            CachedMedia::Document { .. } => ServedAs::Document,
        };
        self.cache.insert(media_id, entry);
        serve_media(media_id, kind, want.intent)
    }
}

/// Whether a key opens nothing: a room's plaintext carries one of zeros.
pub open spec fn all_zero(key: Seq<u8>) -> bool {
    forall|i: int| 0 <= i < key.len() ==> #[trigger] key[i] == 0
}

/// Whether a key opens nothing.
pub fn is_legacy_plaintext(key: &Vec<u8>) -> (r: bool)
    ensures
        r == all_zero(key@),
{
    let mut i: usize = 0;
    while i < key.len()
        invariant
            i <= key@.len(),
            forall|j: int| 0 <= j < i ==> #[trigger] key@[j] == 0,
        decreases key.len() - i,
    {
        if key[i] != 0 {
            return false;
        }
        i = i + 1;
    }
    true
}

/// What a download that arrived asks for.
pub enum DownloadStep {
    /// Nothing more: it failed.
    Failed(Vec<Action>),
    /// Open the bytes under this domain.
    Open { domain: SealDomain, bytes: Vec<u8> },
    /// The bytes are the attachment.
    Plain(Vec<u8>),
}

/// What an attachment that was opened asks for.
pub enum OpenedStep {
    /// Nothing more: it failed, or it was kept and served.
    Done(Vec<Action>),
    /// Decode the note's samples.
    Decode { want: MediaWant, bytes: Vec<u8> },
}

/// Whether a fetch ended in a failure: the object may be wanted again, and its bubble says why.
pub open spec fn fetch_failed(
    before: Fetches,
    media_id: Id,
    failure: MediaFailure,
    after: Fetches,
    out: Seq<Action>,
) -> bool {
    &&& after.media_fetching@ == before.media_fetching@.remove(media_id)
    &&& after == (Fetches { media_fetching: after.media_fetching, ..before })
    &&& out =~= seq![Action::Emit(Event::MediaFailed { media_id, failure })]
}

/// Whether an attachment was kept, and served for what it was wanted.
pub open spec fn fetch_kept(
    before: Fetches,
    want: MediaWant,
    entry: CachedMedia,
    after: Fetches,
    out: Seq<Action>,
) -> bool {
    &&& after.media_fetching@ == before.media_fetching@.remove(want.media_id)
    &&& after.media_wants == before.media_wants
    &&& after.cache@ == (if holds(before.cache@, want.media_id) {
        before.cache@
    } else {
        crate::media_cache::evicted(before.cache@.push((want.media_id, entry)))
    })
    &&& !holds(before.cache@, want.media_id) ==> out =~= serving(
        want.media_id,
        served(entry),
        want.intent,
    )
    &&& holds(before.cache@, want.media_id) ==> exists|i: int|
        0 <= i < before.cache@.len() && (#[trigger] before.cache@[i]).0 == want.media_id && out
            =~= serving(want.media_id, served(before.cache@[i].1), want.intent)
}

impl Fetches {
    /// A download arrived, or did not. The bytes of a sealed object are opened under the domain its
    /// message names; a room's are the attachment.
    pub fn downloaded(
        &mut self,
        media_id: Id,
        bytes: Result<Vec<u8>, String>,
        keying: Option<&MediaKeying>,
    ) -> (step: DownloadStep)
        requires
            old(self).wf(),
        ensures
            final(self).wf(),
            match (bytes, keying) {
                (Err(reason), _) => step matches DownloadStep::Failed(out) && fetch_failed(
                    *old(self),
                    media_id,
                    MediaFailure::NotFetched { reason },
                    *final(self),
                    out@,
                ),
                (Ok(_), None) => step matches DownloadStep::Failed(out) && fetch_failed(
                    *old(self),
                    media_id,
                    MediaFailure::KeyNoLongerHeld,
                    *final(self),
                    out@,
                ),
                (Ok(held), Some(key)) => {
                    &&& *final(self) == *old(self)
                    &&& step == (if all_zero(key.key@) {
                        DownloadStep::Plain(held)
                    } else {
                        DownloadStep::Open {
                            domain: if key.voice {
                                SealDomain::Voice
                            } else {
                                SealDomain::Media
                            },
                            bytes: held,
                        }
                    })
                },
            },
    {
        let bytes: Vec<u8> = match bytes {
            Ok(bytes) => bytes,
            Err(reason) => {
                return DownloadStep::Failed(
                    self.failed(media_id, MediaFailure::NotFetched { reason }),
                );
            },
        };
        match keying {
            None => DownloadStep::Failed(self.failed(media_id, MediaFailure::KeyNoLongerHeld)),
            Some(keying) => match opening_of(keying) {
                None => DownloadStep::Plain(bytes),
                Some(domain) => DownloadStep::Open { domain, bytes },
            },
        }
    }

    /// An attachment was opened, or was not. A note's samples are decoded first; anything else is
    /// kept as its bytes, and served.
    pub fn unsealed(
        &mut self,
        want: MediaWant,
        bytes: Result<Vec<u8>, String>,
        keying: &MediaKeying,
    ) -> (step: OpenedStep)
        requires
            old(self).wf(),
        ensures
            final(self).wf(),
            match bytes {
                Err(reason) => step matches OpenedStep::Done(out) && fetch_failed(
                    *old(self),
                    want.media_id,
                    MediaFailure::NotOpened { reason },
                    *final(self),
                    out@,
                ),
                Ok(held) => match kept_as(*keying) {
                    ServedAs::Audio => step == (OpenedStep::Decode { want, bytes: held })
                        && *final(self) == *old(self),
                    ServedAs::Image => step matches OpenedStep::Done(out) && fetch_kept(
                        *old(self),
                        want,
                        CachedMedia::Image { bytes: held },
                        *final(self),
                        out@,
                    ),
                    ServedAs::Document => step matches OpenedStep::Done(out) && fetch_kept(
                        *old(self),
                        want,
                        CachedMedia::Document { bytes: held },
                        *final(self),
                        out@,
                    ),
                },
            },
    {
        let bytes: Vec<u8> = match bytes {
            Ok(bytes) => bytes,
            Err(reason) => {
                return OpenedStep::Done(
                    self.failed(want.media_id, MediaFailure::NotOpened { reason }),
                );
            },
        };
        match keep_as(keying) {
            ServedAs::Audio => OpenedStep::Decode { want, bytes },
            ServedAs::Image => OpenedStep::Done(self.opened(want, CachedMedia::Image { bytes })),
            ServedAs::Document => OpenedStep::Done(
                self.opened(want, CachedMedia::Document { bytes }),
            ),
        }
    }

    /// A note's samples were decoded, or were not.
    pub fn decoded(
        &mut self,
        want: MediaWant,
        audio: Result<(Vec<i16>, u32), String>,
    ) -> (out: Vec<Action>)
        requires
            old(self).wf(),
        ensures
            final(self).wf(),
            match audio {
                Err(reason) => fetch_failed(
                    *old(self),
                    want.media_id,
                    MediaFailure::NotOpened { reason },
                    *final(self),
                    out@,
                ),
                Ok((samples, rate)) => fetch_kept(
                    *old(self),
                    want,
                    CachedMedia::Audio { samples, rate },
                    *final(self),
                    out@,
                ),
            },
    {
        match audio {
            Err(reason) => self.failed(want.media_id, MediaFailure::NotOpened { reason }),
            Ok((samples, rate)) => self.opened(want, CachedMedia::Audio { samples, rate }),
        }
    }
}

/// How an object's download is opened: as it is, or under a domain.
pub fn opening_of(keying: &MediaKeying) -> (domain: Option<SealDomain>)
    ensures
        domain == (if all_zero(keying.key@) {
            None
        } else if keying.voice {
            Some(SealDomain::Voice)
        } else {
            Some(SealDomain::Media)
        }),
{
    if is_legacy_plaintext(&keying.key) {
        None
    } else {
        Some(domain_of(keying.voice))
    }
}

/// How an object is kept once it is opened: a voice note by its samples, an image or any other
/// file by its bytes, as its message claimed.
pub open spec fn kept_as(keying: MediaKeying) -> ServedAs {
    if keying.voice {
        ServedAs::Audio
    } else if begins(keying.mime_type@, "image/"@) {
        ServedAs::Image
    } else {
        ServedAs::Document
    }
}

/// How an object is kept once it is opened.
pub fn keep_as(keying: &MediaKeying) -> (kind: ServedAs)
    ensures
        kind == kept_as(*keying),
{
    if keying.voice {
        return ServedAs::Audio;
    }
    let claimed: Vec<char> = chars_of(keying.mime_type.as_str());
    let image: Vec<char> = chars_of("image/");
    if starts_with(&claimed, &image) {
        ServedAs::Image
    } else {
        ServedAs::Document
    }
}

/// Points the profile at a committed avatar, and changes nothing else of it.
pub fn avatar_committed(uploads: &mut Uploads) -> (out: Vec<Action>)
    ensures
        *final(uploads) == (Uploads { avatar_commit_pending: None, ..*old(uploads) }),
        out@ == (match old(uploads).avatar_commit_pending {
            Some(media_id) => seq![
                Action::Request(
                    Request::ProfileUpdate { patch: untouched(), avatar_media_id: Some(media_id) },
                ),
            ],
            None => Seq::empty(),
        }),
{
    match uploads.avatar_commit_pending.take() {
        Some(media_id) => {
            let patch: ProfilePatch = ProfilePatch::default();
            vec![
                Action::Request(Request::ProfileUpdate { patch, avatar_media_id: Some(media_id) }),
            ]
        },
        None => Vec::new(),
    }
}

/// Tells that the avatar was not changed.
pub open spec fn avatar_failed(notice: Notice) -> Action {
    Action::Emit(Event::AvatarChangeFailed { notice })
}

/// Begins an avatar upload: the BEGIN to send, or what is told instead. `read` is what reading the
/// file gave.
pub fn change_avatar(
    read: Result<&Vec<u8>, String>,
    content_type: String,
) -> (r: Result<Request, Action>)
    ensures
        match read {
            Err(reason) => r == Err::<Request, Action>(
                avatar_failed(Notice::FileUnreadable { reason }),
            ),
            Ok(bytes) => if bytes@.len() == 0 {
                r == Err::<Request, Action>(avatar_failed(Notice::FileEmpty))
            } else {
                r == Ok::<Request, Action>(
                    (Request::MediaBegin {
                        kind: MediaKind::Avatar,
                        content_type,
                        size: bytes@.len() as u64,
                        conversation_id: None,
                        width: None,
                        height: None,
                        duration_ms: None,
                    }),
                )
            },
        },
{
    let bytes: &Vec<u8> = match read {
        Ok(bytes) => bytes,
        Err(reason) => {
            let notice: Notice = Notice::FileUnreadable { reason };
            return Err(Action::Emit(Event::AvatarChangeFailed { notice }));
        },
    };
    if bytes.len() == 0 {
        return Err(Action::Emit(Event::AvatarChangeFailed { notice: Notice::FileEmpty }));
    }
    Ok(
        Request::MediaBegin {
            kind: MediaKind::Avatar,
            content_type,
            size: bytes.len() as u64,
            conversation_id: None,
            width: None,
            height: None,
            duration_ms: None,
        },
    )
}

/// An attachment was written to where it was to be saved, or was not.
pub fn media_saved(path: String, outcome: Result<(), String>) -> (action: Action)
    ensures
        action == (match outcome {
            Ok(_) => toast(Notice::SavedTo { path }, ToastKind::Success),
            Err(reason) => toast(Notice::NotSaved { reason }, ToastKind::Error),
        }),
{
    match outcome {
        Ok(_) => toasted(Notice::SavedTo { path }, ToastKind::Success),
        Err(reason) => toasted(Notice::NotSaved { reason }, ToastKind::Error),
    }
}

/// What a file is sent as. One that was read, is not empty and is within its ceiling is sent: an
/// image where its bytes decode, of the size they decode to, and otherwise a document; with its own
/// length, type and lifetime, and no slots yet. Any other file is refused with its own reason.
pub proof fn law_a_file_is_sent_as_what_it_is(
    read: Result<&Vec<u8>, String>,
    size: Option<(u32, u32)>,
    image_type: String,
    document_type: String,
    expires_in_ms: Option<u32>,
    limits: MediaLimits,
    r: Result<OutgoingMedia, Action>,
)
    requires
        attached(read, size, image_type, document_type, expires_in_ms, limits, r),
    ensures
        read is Err ==> (r matches Err(Action::Emit(Event::Toast { notice, kind })) && notice == (
        Notice::FileUnreadable { reason: read->Err_0 }) && kind == ToastKind::Error),
        read is Ok && read->Ok_0@.len() == 0 ==> (r matches Err(
            Action::Emit(Event::Toast { notice, kind }),
        ) && notice == Notice::FileEmpty && kind == ToastKind::Error),
        read is Ok && read->Ok_0@.len() > 0 && size is Some ==> {
            &&& r is Ok <==> read->Ok_0@.len() <= limits.image_max_bytes
            &&& r is Err ==> (r matches Err(Action::Emit(Event::Toast { notice, kind })) && notice
                == Notice::ImageTooLarge && kind == ToastKind::Error)
            &&& r is Ok ==> {
                &&& r->Ok_0.kind == MediaKind::Image
                &&& r->Ok_0.mime_type == image_type
                &&& r->Ok_0.width == Some(size.unwrap().0)
                &&& r->Ok_0.height == Some(size.unwrap().1)
            }
        },
        read is Ok && read->Ok_0@.len() > 0 && size is None ==> {
            &&& r is Ok <==> read->Ok_0@.len() <= limits.document_max_bytes
            &&& r is Err ==> (r matches Err(Action::Emit(Event::Toast { notice, kind })) && notice
                == Notice::FileTooLarge && kind == ToastKind::Error)
            &&& r is Ok ==> {
                &&& r->Ok_0.kind == MediaKind::Document
                &&& r->Ok_0.mime_type == document_type
                &&& r->Ok_0.width is None
                &&& r->Ok_0.height is None
            }
        },
        r is Ok ==> {
            &&& read is Ok
            &&& r->Ok_0.size_bytes == read->Ok_0@.len()
            &&& r->Ok_0.expires_in_ms == expires_in_ms
            &&& r->Ok_0.key@.len() == 0
            &&& r->Ok_0.nonce@.len() == 0
            &&& r->Ok_0.duration_ms is None
            &&& r->Ok_0.waveform is None
            &&& r->Ok_0.caption is None
        },
{
}

/// A file is judged by its length and by what it decodes to, the boundary included: a file exactly
/// at its ceiling is sent.
pub proof fn law_a_ceiling_admits_its_own_length(
    len: int,
    size: Option<(u32, u32)>,
    limits: MediaLimits,
)
    requires
        len >= 0,
    ensures
        file_kind(len, size, limits) is Empty <==> len == 0,
        len > 0 && size is Some ==> (file_kind(len, size, limits) is ImageTooLarge <==> len
            > limits.image_max_bytes),
        len > 0 && size is Some && len <= limits.image_max_bytes ==> {
            &&& file_kind(len, size, limits) is Image
            &&& file_kind(len, size, limits)->width == size.unwrap().0
            &&& file_kind(len, size, limits)->height == size.unwrap().1
        },
        len > 0 && size is None ==> (file_kind(len, size, limits) is DocumentTooLarge <==> len
            > limits.document_max_bytes),
        len > 0 && size is None && len <= limits.document_max_bytes ==> file_kind(
            len,
            size,
            limits,
        ) is Document,
{
}

/// How an attachment crosses the wire: as it is only where its conversation is known to be readable
/// and it is no document; and what is sealed is sealed as a voice note exactly where it is one.
pub proof fn law_how_an_attachment_crosses(signed: Signed, conversation_id: Id, kind: MediaKind)
    ensures
        crossing(signed, conversation_id, kind) is None <==> kind != MediaKind::Document
            && signed.e2e@.contains_key(conversation_id) && !signed.e2e@[conversation_id],
        crossing(signed, conversation_id, kind) is Some ==> (crossing(
            signed,
            conversation_id,
            kind,
        ).unwrap() == SealDomain::Voice <==> kind == MediaKind::VoiceNote),
        crossing(signed, conversation_id, kind) is Some ==> (crossing(
            signed,
            conversation_id,
            kind,
        ).unwrap() == SealDomain::Media <==> kind != MediaKind::VoiceNote),
{
}

/// What an upload claims to the server: nothing about what a sealed object holds, and its own type
/// of one that is not sealed.
pub proof fn law_a_sealed_upload_claims_nothing(plan: OutgoingMedia)
    ensures
        claimed_type(plan, true) == "application/octet-stream"@,
        claimed_type(plan, false) == plan.mime_type@,
{
}

/// The message of a committed attachment states the slots its object was sealed under, the key as
/// the key and the nonce as the nonce; and of the object what its plan says. A voice note is
/// referenced as a voice note, and anything else as a file.
pub proof fn law_a_message_carries_its_objects_slots(plan: OutgoingMedia, media_id: Id)
    ensures
        plan.kind == MediaKind::VoiceNote <==> content_of(plan, media_id) is VoiceNoteRef,
        plan.kind != MediaKind::VoiceNote <==> content_of(plan, media_id) is MediaRef,
        content_of(plan, media_id) is MediaRef ==> {
            let content = content_of(plan, media_id);
            &&& content->MediaRef_media_id == media_id
            &&& content->MediaRef_key@ == plan.key@
            &&& content->MediaRef_nonce@ == plan.nonce@
            &&& content->MediaRef_mime_type@ == plan.mime_type@
            &&& content->MediaRef_size_bytes == plan.size_bytes
            &&& content->MediaRef_width == plan.width
            &&& content->MediaRef_height == plan.height
            &&& content->MediaRef_caption == plan.caption
            &&& content->MediaRef_expires_in_ms == plan.expires_in_ms
        },
        content_of(plan, media_id) is VoiceNoteRef ==> {
            let content = content_of(plan, media_id);
            &&& content->VoiceNoteRef_media_id == media_id
            &&& content->VoiceNoteRef_key@ == plan.key@
            &&& content->VoiceNoteRef_nonce@ == plan.nonce@
            &&& content->VoiceNoteRef_mime_type@ == plan.mime_type@
            &&& plan.duration_ms is Some ==> content->VoiceNoteRef_duration_ms
                == plan.duration_ms.unwrap()
            &&& plan.duration_ms is None ==> content->VoiceNoteRef_duration_ms == 0
            &&& content->VoiceNoteRef_waveform == plan.waveform
            &&& content->VoiceNoteRef_expires_in_ms == plan.expires_in_ms
        },
{
}

/// The slots filed for a committed object open it: they are the plan's own, unless slots of the
/// object are held already, and no other object's are touched.
pub proof fn law_a_committed_object_can_be_opened(
    before: Map<Id, MediaKeying>,
    pending: AttachmentCommit,
    after: Map<Id, MediaKeying>,
    other: Id,
)
    requires
        commit_files(before, pending, after),
        other != pending.media_id,
    ensures
        after.contains_key(pending.media_id),
        before.contains_key(pending.media_id) ==> after == before,
        !before.contains_key(pending.media_id) ==> {
            &&& after[pending.media_id].key@ == pending.plan.key@
            &&& after[pending.media_id].nonce@ == pending.plan.nonce@
            &&& after[pending.media_id].mime_type@ == pending.plan.mime_type@
            &&& after[pending.media_id].voice <==> pending.plan.kind == MediaKind::VoiceNote
        },
        after.contains_key(other) <==> before.contains_key(other),
        before.contains_key(other) ==> after[other] == before[other],
{
}

/// The row that shows an attachment at once shows the object its message references, with the same
/// facts that every reader will see.
pub proof fn law_an_attachments_row_shows_its_object(body: Body, plan: OutgoingMedia, media_id: Id)
    requires
        body_shows(body, content_of(plan, media_id)),
    ensures
        plan.kind == MediaKind::VoiceNote ==> {
            &&& body is VoiceNote
            &&& body->VoiceNote_media_id == media_id
            &&& plan.duration_ms is Some ==> body->VoiceNote_duration_ms
                == plan.duration_ms.unwrap()
            &&& body->VoiceNote_waveform is Some <==> plan.waveform is Some
            &&& plan.waveform is Some ==> body->VoiceNote_waveform.unwrap()@
                == plan.waveform.unwrap()@
        },
        plan.kind != MediaKind::VoiceNote ==> {
            &&& body is Media
            &&& body->Media_media_id == media_id
            &&& body->Media_mime_type@ == plan.mime_type@
            &&& body->size_bytes == plan.size_bytes
            &&& body->width == plan.width
            &&& body->height == plan.height
            &&& body->caption is Some <==> plan.caption is Some
            &&& plan.caption is Some ==> body->caption.unwrap()@ == plan.caption.unwrap()@
        },
{
}

/// A message goes out as what its envelope carries: a voice note as voice, anything else as media.
pub proof fn law_a_voice_note_is_sent_as_voice(kind: MediaKind)
    ensures
        send_kind(kind) == SendKind::Voice <==> kind == MediaKind::VoiceNote,
        send_kind(kind) == SendKind::Media <==> kind != MediaKind::VoiceNote,
{
}

/// What a failed upload hands back: the draft of its own conversation, once, where it was a voice
/// note, and nothing where it was not. What is given up is the upload's own ticket.
pub proof fn law_a_failed_note_goes_back_to_its_own_preview(voice_note: Option<Id>, upload_id: Id)
    ensures
        restoring(voice_note).len() == (if voice_note is Some { 1int } else { 0 }),
        voice_note is Some ==> restoring(voice_note)[0] is RestoreDraft && restoring(
            voice_note,
        )[0]->RestoreDraft_conversation_id == voice_note.unwrap(),
        abort(upload_id) is Request,
        abort(upload_id)->Request_0 is MediaAbort,
        abort(upload_id)->Request_0->MediaAbort_upload_id == upload_id,
{
}

/// What an opened attachment is served as for what it was wanted: an image is shown, a note is
/// played, and any file but a note is saved to where it was to be saved. Nothing else is done with
/// it, and it is always the object that was wanted.
pub proof fn law_an_attachment_is_served_as_wanted(
    media_id: Id,
    kind: ServedAs,
    intent: MediaIntent,
)
    ensures
        serving(media_id, kind, intent).len() <= 1,
        kind == ServedAs::Image && intent is Show <==> serving(media_id, kind, intent).contains(
            Action::ShowImage { media_id },
        ),
        kind == ServedAs::Audio && intent is Play <==> serving(media_id, kind, intent).contains(
            Action::StartPlayback { media_id },
        ),
        kind != ServedAs::Audio && intent is SaveTo ==> serving(media_id, kind, intent).len() == 1
            && serving(media_id, kind, intent)[0] == (Action::SaveMedia {
            media_id,
            path: intent->SaveTo_0,
        }),
        kind == ServedAs::Audio && intent is SaveTo ==> serving(media_id, kind, intent).len() == 1
            && (serving(media_id, kind, intent)[0] matches Action::Emit(Event::Toast { notice, .. })
            && notice == Notice::NoteHasNoFile),
        (intent is Show && kind != ServedAs::Image) || (intent is Play && kind != ServedAs::Audio)
            ==> serving(media_id, kind, intent).len() == 0,
{
    let out = serving(media_id, kind, intent);
    if kind == ServedAs::Image && intent is Show {
        assert(out[0] == Action::ShowImage { media_id });
    }
    if kind == ServedAs::Audio && intent is Play {
        assert(out[0] == Action::StartPlayback { media_id });
    }
}

/// What an attachment is kept as, and so served as, is what its message claimed: a note as its
/// sound; an image as one; anything else as a file.
pub proof fn law_an_attachment_is_kept_as_claimed(keying: MediaKeying, entry: CachedMedia)
    ensures
        kept_as(keying) == ServedAs::Audio <==> keying.voice,
        kept_as(keying) == ServedAs::Image <==> !keying.voice && keying.mime_type@.len() >= 6
            && keying.mime_type@.take(6) == "image/"@,
        kept_as(keying) == ServedAs::Document <==> !keying.voice && !(keying.mime_type@.len() >= 6
            && keying.mime_type@.take(6) == "image/"@),
        served(entry) == ServedAs::Image <==> entry is Image,
        served(entry) == ServedAs::Audio <==> entry is Audio,
        served(entry) == ServedAs::Document <==> entry is Document,
{
    reveal_strlit("image/");
    assert("image/"@.len() == 6);
}

/// A fetch that failed is told of its own object with its own reason, and the object may be wanted
/// again; one that was opened is kept and may be wanted again too. Neither touches what else is being
/// fetched.
pub proof fn law_a_fetch_ends_for_its_own_object(
    before: Fetches,
    want: MediaWant,
    entry: CachedMedia,
    failure: MediaFailure,
    after: Fetches,
    out: Seq<Action>,
    other: Id,
)
    requires
        fetch_failed(before, want.media_id, failure, after, out) || fetch_kept(
            before,
            want,
            entry,
            after,
            out,
        ),
        other != want.media_id,
    ensures
        !after.media_fetching@.contains(want.media_id),
        after.media_fetching@.contains(other) <==> before.media_fetching@.contains(other),
        after.media_wants == before.media_wants,
        out.len() <= 1,
        fetch_failed(before, want.media_id, failure, after, out) ==> {
            &&& after.cache == before.cache
            &&& out.len() == 1
            &&& out[0] matches Action::Emit(Event::MediaFailed { media_id, failure: why })
                && media_id == want.media_id && why == failure
        },
        fetch_kept(before, want, entry, after, out) && !holds(before.cache@, want.media_id)
            && want.intent is Show && entry is Image ==> out == seq![
            Action::ShowImage { media_id: want.media_id },
        ],
        fetch_kept(before, want, entry, after, out) && !holds(before.cache@, want.media_id)
            && want.intent is Play && entry is Audio ==> out == seq![
            Action::StartPlayback { media_id: want.media_id },
        ],
        fetch_kept(before, want, entry, after, out) && !holds(before.cache@, want.media_id)
            && want.intent is SaveTo && !(entry is Audio) ==> out == seq![
            Action::SaveMedia { media_id: want.media_id, path: want.intent->SaveTo_0 },
        ],
{
}

/// What could not be changed of an avatar is told beside its form, with its reason.
pub proof fn law_an_avatars_failure_says_why(notice: Notice)
    ensures
        avatar_failed(notice) is Emit,
        avatar_failed(notice)->Emit_0 is AvatarChangeFailed,
        avatar_failed(notice)->Emit_0->AvatarChangeFailed_notice == notice,
{
}

/// Where nothing is in flight, no correlation answers an upload, and no avatar waits.
pub proof fn law_nothing_is_in_flight(uploads: Uploads, correlation: u32)
    requires
        uploads.is_empty(),
    ensures
        !uploads.attachment_begins@.contains_key(correlation),
        !uploads.attachment_commits@.contains_key(correlation),
        uploads.avatar_pending is None,
        uploads.avatar_commit_pending is None,
        uploads.note_of_ask(correlation) is None,
{
}

/// A refused ask owes back the voice note that it was carrying, whether it was the beginning of
/// the upload or its end. An ask of nobody owes none.
pub proof fn law_a_refused_ask_owes_its_note(uploads: Uploads, correlation: u32)
    ensures
        uploads.attachment_begins@.contains_key(correlation) ==> uploads.note_of_ask(correlation)
            == uploads.attachment_begins@[correlation].voice_note,
        !uploads.attachment_begins@.contains_key(correlation)
            && uploads.attachment_commits@.contains_key(correlation) ==> uploads.note_of_ask(
            correlation,
        ) == uploads.attachment_commits@[correlation].voice_note,
        !uploads.attachment_begins@.contains_key(correlation)
            && !uploads.attachment_commits@.contains_key(correlation) ==> uploads.note_of_ask(
            correlation,
        ) is None,
{
}

} // verus!
