//! What a message says, and what of it a thread shows.

use vstd::prelude::*;

use crate::wire::{Id, Timestamp};

verus! {

/// The decrypted content of one message.
pub enum Content {
    Text { text: String, expires_in_ms: Option<u32> },
    MediaRef {
        media_id: Id,
        mime_type: String,
        size_bytes: u64,
        key: Vec<u8>,
        nonce: Vec<u8>,
        width: Option<u32>,
        height: Option<u32>,
        caption: Option<String>,
        expires_in_ms: Option<u32>,
    },
    VoiceNoteRef {
        media_id: Id,
        mime_type: String,
        key: Vec<u8>,
        nonce: Vec<u8>,
        duration_ms: u64,
        waveform: Option<Vec<u8>>,
        expires_in_ms: Option<u32>,
    },
    Reaction { target_message_id: Id, emoji: String, remove: bool },
    ControlEvent { event: String, data: Option<Vec<u8>> },
    Unsupported { content_type: u32 },
}

/// What a thread shows of a message.
pub enum Body {
    Text(String),
    Media {
        media_id: Id,
        mime_type: String,
        size_bytes: u64,
        width: Option<u32>,
        height: Option<u32>,
        caption: Option<String>,
    },
    VoiceNote { media_id: Id, duration_ms: u64, waveform: Option<Vec<u8>> },
    Reaction { emoji: String, target: Id },
    Tombstone,
    /// A message that did not open although its sender's chain is known.
    Undecryptable,
    Unsupported { content_type: u32 },
}

/// The number a control event is shown under when nothing consumed it.
pub const CONTROL_CONTENT_TYPE: u32 = 5;

/// How far a message has come.
#[derive(Debug, Clone, Copy, PartialEq, Eq, Structural)]
pub enum Delivery {
    Sending,
    Received,
}

/// One row of a thread.
pub struct Message {
    pub message_id: Id,
    pub conversation_id: Id,
    pub seq: u64,
    pub sender_id: Id,
    pub outgoing: bool,
    pub body: Body,
    pub sent_at: Timestamp,
    pub delivery: Delivery,
    pub deleted: bool,
    pub edited: bool,
    pub expires_at: Option<Timestamp>,
}

/// What one media reference said about its object: the slots that open it, and how it is served.
pub struct MediaKeying {
    /// The key of a sealed upload; all zero for a room's plaintext.
    pub key: Vec<u8>,
    pub nonce: Vec<u8>,
    /// The type the message claimed.
    pub mime_type: String,
    /// Whether the object is a voice note: its seal domain, and served by playing.
    pub voice: bool,
}

/// The thread's copy of some content.
pub open spec fn shown(content: Content) -> Body {
    match content {
        Content::Text { text, .. } => Body::Text(text),
        Content::MediaRef { media_id, mime_type, size_bytes, width, height, caption, .. } =>
            Body::Media { media_id, mime_type, size_bytes, width, height, caption },
        Content::VoiceNoteRef { media_id, duration_ms, waveform, .. } => Body::VoiceNote {
            media_id,
            duration_ms,
            waveform,
        },
        Content::Reaction { target_message_id, emoji, .. } => Body::Reaction {
            emoji,
            target: target_message_id,
        },
        Content::ControlEvent { .. } => Body::Unsupported { content_type: CONTROL_CONTENT_TYPE },
        Content::Unsupported { content_type } => Body::Unsupported { content_type },
    }
}

/// The lifetime sealed inside some content. Only what a person reads can disappear.
pub open spec fn lifetime(content: Content) -> Option<u32> {
    match content {
        Content::Text { expires_in_ms, .. } => expires_in_ms,
        Content::MediaRef { expires_in_ms, .. } => expires_in_ms,
        Content::VoiceNoteRef { expires_in_ms, .. } => expires_in_ms,
        _ => None,
    }
}

/// Projects decrypted content onto what the thread shows, and the sealed lifetime.
pub fn body_of(content: Content) -> (r: (Body, Option<u32>))
    ensures
        r.0 == shown(content),
        r.1 == lifetime(content),
{
    match content {
        Content::Text { text, expires_in_ms } => (Body::Text(text), expires_in_ms),
        Content::MediaRef {
            media_id,
            mime_type,
            size_bytes,
            width,
            height,
            caption,
            expires_in_ms,
            ..
        } => (
            Body::Media { media_id, mime_type, size_bytes, width, height, caption },
            expires_in_ms,
        ),
        Content::VoiceNoteRef { media_id, duration_ms, waveform, expires_in_ms, .. } => (
            Body::VoiceNote { media_id, duration_ms, waveform },
            expires_in_ms,
        ),
        Content::Reaction { emoji, target_message_id, .. } => (
            Body::Reaction { emoji, target: target_message_id },
            None,
        ),
        Content::ControlEvent { .. } => (
            Body::Unsupported { content_type: CONTROL_CONTENT_TYPE },
            None,
        ),
        Content::Unsupported { content_type } => (Body::Unsupported { content_type }, None),
    }
}

/// The moment a message that lives for some milliseconds disappears, from the moment it was sent.
/// A sum beyond the clock's range is held at its end.
pub fn deadline(sent_at: Timestamp, lifetime_ms: Option<u32>) -> (at: Option<Timestamp>)
    ensures
        at == deadline_of(sent_at, lifetime_ms),
{
    match lifetime_ms {
        Some(lifetime) => {
            let span: i64 = lifetime as i64;
            if sent_at > i64::MAX - span {
                Some(i64::MAX)
            } else {
                Some(sent_at + span)
            }
        },
        None => None,
    }
}

pub open spec fn deadline_of(sent_at: Timestamp, lifetime_ms: Option<u32>) -> Option<Timestamp> {
    match lifetime_ms {
        Some(lifetime) => if sent_at + lifetime > i64::MAX {
            Some(i64::MAX)
        } else {
            Some((sent_at + lifetime) as i64)
        },
        None => None,
    }
}

/// A disappearing message never disappears before it was sent.
pub proof fn law_a_deadline_is_not_in_the_past(sent_at: Timestamp, lifetime_ms: u32)
    ensures
        deadline_of(sent_at, Some(lifetime_ms)) matches Some(at) && at >= sent_at,
{
}

/// A copy of some bytes.
pub fn copy_bytes(bytes: &Vec<u8>) -> (copy: Vec<u8>)
    ensures
        copy@ == bytes@,
{
    let mut copy: Vec<u8> = Vec::new();
    let mut i: usize = 0;
    while i < bytes.len()
        invariant
            i <= bytes.len(),
            copy@ == bytes@.take(i as int),
        decreases bytes.len() - i,
    {
        copy.push(bytes[i]);
        assert(bytes@.take(i + 1) =~= bytes@.take(i as int).push(bytes@[i as int]));
        i = i + 1;
    }
    assert(bytes@.take(bytes@.len() as int) =~= bytes@);
    copy
}

/// Whether some keying holds exactly what some content said about its object.
pub open spec fn keying_from(content: Content, keying: MediaKeying) -> bool {
    match content {
        Content::MediaRef { mime_type, key, nonce, .. } => {
            &&& keying.key@ == key@
            &&& keying.nonce@ == nonce@
            &&& keying.mime_type@ == mime_type@
            &&& !keying.voice
        },
        Content::VoiceNoteRef { mime_type, key, nonce, .. } => {
            &&& keying.key@ == key@
            &&& keying.nonce@ == nonce@
            &&& keying.mime_type@ == mime_type@
            &&& keying.voice
        },
        _ => false,
    }
}

/// The object some content references, if it references one.
pub open spec fn media_of(content: Content) -> Option<Id> {
    match content {
        Content::MediaRef { media_id, .. } => Some(media_id),
        Content::VoiceNoteRef { media_id, .. } => Some(media_id),
        _ => None,
    }
}

/// What some content said about the media object it references.
pub fn keying_of(content: &Content) -> (r: Option<(Id, MediaKeying)>)
    ensures
        r is Some <==> media_of(*content) is Some,
        r matches Some((media_id, keying)) ==> media_of(*content) == Some(media_id)
            && keying_from(*content, keying),
{
    match content {
        Content::MediaRef { media_id, mime_type, key, nonce, .. } => Some(
            (
                *media_id,
                MediaKeying {
                    key: copy_bytes(key),
                    nonce: copy_bytes(nonce),
                    mime_type: mime_type.clone(),
                    voice: false,
                },
            ),
        ),
        Content::VoiceNoteRef { media_id, mime_type, key, nonce, .. } => Some(
            (
                *media_id,
                MediaKeying {
                    key: copy_bytes(key),
                    nonce: copy_bytes(nonce),
                    mime_type: mime_type.clone(),
                    voice: true,
                },
            ),
        ),
        _ => None,
    }
}

/// A thread shows what was said: a text by its words, an attachment by its object and what was said
/// of it, a reaction by its emoji and its target. What has no form of its own is shown as
/// unsupported, and nothing else is.
pub proof fn law_what_was_said_is_shown(content: Content)
    ensures
        content is Text <==> shown(content) is Text,
        content is Text ==> shown(content)->Text_0 == content->Text_text,
        content is MediaRef <==> shown(content) is Media,
        content is MediaRef ==> {
            &&& shown(content)->Media_media_id == content->MediaRef_media_id
            &&& shown(content)->Media_mime_type == content->MediaRef_mime_type
            &&& shown(content)->size_bytes == content->MediaRef_size_bytes
            &&& shown(content)->width == content->MediaRef_width
            &&& shown(content)->height == content->MediaRef_height
            &&& shown(content)->caption == content->MediaRef_caption
        },
        content is VoiceNoteRef <==> shown(content) is VoiceNote,
        content is VoiceNoteRef ==> {
            &&& shown(content)->VoiceNote_media_id == content->VoiceNoteRef_media_id
            &&& shown(content)->VoiceNote_duration_ms == content->VoiceNoteRef_duration_ms
            &&& shown(content)->VoiceNote_waveform == content->VoiceNoteRef_waveform
        },
        content is Reaction <==> shown(content) is Reaction,
        content is Reaction ==> {
            &&& shown(content)->Reaction_emoji == content->Reaction_emoji
            &&& shown(content)->target == content->Reaction_target_message_id
        },
        content is ControlEvent || content is Unsupported <==> shown(content) is Unsupported,
        content is ControlEvent ==> shown(content)->Unsupported_content_type == 5,
        content is Unsupported ==> shown(content)->Unsupported_content_type
            == content->Unsupported_content_type,
{
}

/// What references a media object is shown as that same object, and what shows an object references
/// it.
pub proof fn law_an_object_is_shown_where_it_is_named(content: Content, media_id: Id)
    ensures
        media_of(content) == Some(media_id) <==> (content is MediaRef
            && content->MediaRef_media_id == media_id) || (content is VoiceNoteRef
            && content->VoiceNoteRef_media_id == media_id),
        media_of(content) == Some(media_id) <==> match shown(content) {
            Body::Media { media_id: shown_id, .. } => shown_id == media_id,
            Body::VoiceNote { media_id: shown_id, .. } => shown_id == media_id,
            _ => false,
        },
{
}

/// Only what a person reads can disappear, and each after the lifetime that it states itself.
pub proof fn law_only_what_is_read_disappears(content: Content)
    ensures
        content is Text ==> lifetime(content) == content->Text_expires_in_ms,
        content is MediaRef ==> lifetime(content) == content->MediaRef_expires_in_ms,
        content is VoiceNoteRef ==> lifetime(content) == content->VoiceNoteRef_expires_in_ms,
        lifetime(content) is Some ==> content is Text || content is MediaRef || content
            is VoiceNoteRef,
{
}

/// A deadline is exactly the lifetime after the sending, held at the end of the clock's range; what
/// has no lifetime has no deadline; and what lives longer never disappears earlier.
pub proof fn law_a_deadline_is_its_lifetime_away(
    sent_at: Timestamp,
    lifetime_ms: u32,
    longer_ms: u32,
)
    requires
        lifetime_ms <= longer_ms,
    ensures
        deadline_of(sent_at, None) is None,
        deadline_of(sent_at, Some(lifetime_ms)) matches Some(at) && (at - sent_at == lifetime_ms || (
        at == i64::MAX && at - sent_at < lifetime_ms)),
        deadline_of(sent_at, Some(lifetime_ms)).unwrap() <= deadline_of(
            sent_at,
            Some(longer_ms),
        ).unwrap(),
{
}

/// The slots that are kept for an object are those its message carries: the key as the key, the
/// nonce as the nonce, the type that was claimed, and a voice note as a voice note.
pub proof fn law_kept_slots_are_the_messages_own(content: Content, keying: MediaKeying)
    requires
        keying_from(content, keying),
    ensures
        media_of(content) is Some,
        content is MediaRef || content is VoiceNoteRef,
        content is MediaRef ==> {
            &&& keying.key@ == content->MediaRef_key@
            &&& keying.nonce@ == content->MediaRef_nonce@
            &&& keying.mime_type@ == content->MediaRef_mime_type@
        },
        content is VoiceNoteRef ==> {
            &&& keying.key@ == content->VoiceNoteRef_key@
            &&& keying.nonce@ == content->VoiceNoteRef_nonce@
            &&& keying.mime_type@ == content->VoiceNoteRef_mime_type@
        },
        keying.voice <==> content is VoiceNoteRef,
{
}

} // verus!
