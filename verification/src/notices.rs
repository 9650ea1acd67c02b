//! The sentences a person reads.

use vstd::prelude::*;

use crate::effects::{Failure, FallbackReason, MediaFailure, Notice};
use crate::text::{decimal, decimal_of, join};

verus! {

/// The sentence a notice is shown as.
pub open spec fn notice_says(notice: Notice) -> Seq<char> {
    match notice {
        Notice::NotConnected => "not connected"@,
        Notice::EnterPeerId => "enter the account id of the person to message"@,
        Notice::EnterFriendId => "enter the account id of the person to add"@,
        Notice::ReadingRoster => "reading this group's full roster, try again in a moment"@,
        Notice::FetchingKeys => "fetching keys for this conversation, try again in a moment"@,
        Notice::BadKeyBundle =>
            "a key bundle from the server did not verify; not sending to that device"@,
        Notice::FewOneTimeKeys { left } => "Only "@ + decimal(left as nat)
            + " one-time keys left. Sign in again to replenish them."@,
        Notice::ProfileSaved => "Profile saved"@,
        Notice::GroupRenamed { title } => "Group renamed to "@ + title@,
        Notice::GiftSent => "Gift sent"@,
        Notice::GiftAlreadySent => "Gift already sent"@,
        Notice::GiftRefused => "The server refused the gift send"@,
        Notice::KickPointsBought => "Kick Points bought"@,
        Notice::KickPointsAlreadyBought => "Kick Points already bought"@,
        Notice::EditNotSealed => "The edit could not be sealed"@,
        Notice::FileEmpty => "The file is empty."@,
        Notice::FileUnreadable { reason } => "Could not read the file: "@ + reason@,
        Notice::ImageTooLarge => "That image is larger than the 16 MB limit."@,
        Notice::FileTooLarge => "That file is larger than the 32 MB limit."@,
        Notice::UploadFailed { reason } => "Could not upload the attachment: "@ + reason@,
        Notice::CallUsesMicrophone =>
            "A call is using the microphone. The note can be recorded once it ends."@,
        Notice::MicrophoneFailed { reason } => "Could not open the microphone: "@ + reason@,
        Notice::DraftFileFailed { reason } => "Could not open the recording's draft file: "@
            + reason@,
        Notice::NoteTooShort => "Hold the microphone a moment longer to record a note."@,
        Notice::NoteUnreadable => "The recording's draft could not be read back."@,
        Notice::NoteTooLong => "That recording is too long to send."@,
        Notice::SpeakerFailed { reason } => "Could not open the speaker: "@ + reason@,
        Notice::SavedTo { path } => "Saved to "@ + path@,
        Notice::NotSaved { reason } => "Could not save: "@ + reason@,
        Notice::NoteHasNoFile => "A voice note has no file to save \u{2014} it plays here."@,
        Notice::AdminAppointed { username } => username@ + " is now a global admin."@,
        Notice::AdminRevoked => "Admin revoked."@,
        Notice::SessionEnded => "Session ended"@,
        Notice::DeviceRemoved { sessions } => "Device removed; "@ + decimal(sessions as nat)
            + (if sessions == 1 {
            " session ended"@
        } else {
            " sessions ended"@
        }),
        Notice::WalletArchived => "Wallet address archived"@,
        Notice::ContactSaved => "Recovery contact saved"@,
        Notice::PassphraseChanged => "Passphrase changed; every other session was signed out"@,
        Notice::IdentityNotPublished { reason } => "could not publish the account identity: "@
            + reason@,
        Notice::WalletNotRegistered { index, reason } => "could not register wallet "@ + decimal(
            index as nat,
        ) + ": "@ + reason@,
        Notice::SignedOut => "Signed out. Every key on this device has been forgotten."@,
        Notice::NoRootForBackup =>
            "this device does not hold the account root; make the backup on a device that does, or keep the container you already have"@,
        Notice::BackupWritten { path } => "account backup written to "@ + path@,
        Notice::VaultNotOpened { reason } => "the vault did not open ("@ + reason@
            + "); the identity key was not rotated"@,
        Notice::VaultOfAnother =>
            "this vault belongs to another account; the identity key was not rotated"@,
        Notice::NoIdentityKey => "this device holds no identity key, so it cannot rotate one"@,
        Notice::PayloadNotBase64 => "the server's challenge payload was not base64"@,
        Notice::VaultNotSealed { reason } => "the vault could not be re-sealed ("@ + reason@
            + "); nothing was rotated"@,
        Notice::IdentityRotated =>
            "Identity key rotated; sessions, chats and safety numbers continue unchanged"@,
        Notice::RotationUnanswered =>
            "the server's answer never arrived; the new key is sealed in this vault \u{2014} rotate again to finish the change"@,
        Notice::IdentityNotRotated { reason } => "the identity key was not rotated: "@ + reason@,
        Notice::IdentityNotRestored { reason, vault } => "the identity key was not rotated ("@
            + reason@ + "), and the vault could not be restored: "@ + vault@
            + " \u{2014} rotate again to retry the ceremony"@,
        Notice::BackupDateKept { reason } =>
            "the rotation stands, but the vault could not be re-sealed to forget the old backup date: "@
            + reason@,
        Notice::Said { text } => text@,
    }
}

fn join3(a: &str, b: &str, c: &str) -> (r: String)
    ensures
        r@ == a@ + b@ + c@,
{
    let ab: String = join(a, b);
    join(ab.as_str(), c)
}

/// The sentence a notice is shown as.
pub fn notice_text(notice: &Notice) -> (text: String)
    ensures
        text@ == notice_says(*notice),
{
    match notice {
        Notice::NotConnected => "not connected".to_owned(),
        Notice::EnterPeerId => "enter the account id of the person to message".to_owned(),
        Notice::EnterFriendId => "enter the account id of the person to add".to_owned(),
        Notice::ReadingRoster =>
            "reading this group's full roster, try again in a moment".to_owned(),
        Notice::FetchingKeys =>
            "fetching keys for this conversation, try again in a moment".to_owned(),
        Notice::BadKeyBundle =>
            "a key bundle from the server did not verify; not sending to that device".to_owned(),
        Notice::FewOneTimeKeys { left } => join3(
            "Only ",
            decimal_of(*left).as_str(),
            " one-time keys left. Sign in again to replenish them.",
        ),
        Notice::ProfileSaved => "Profile saved".to_owned(),
        Notice::GroupRenamed { title } => join("Group renamed to ", title.as_str()),
        Notice::GiftSent => "Gift sent".to_owned(),
        Notice::GiftAlreadySent => "Gift already sent".to_owned(),
        Notice::GiftRefused => "The server refused the gift send".to_owned(),
        Notice::KickPointsBought => "Kick Points bought".to_owned(),
        Notice::KickPointsAlreadyBought => "Kick Points already bought".to_owned(),
        Notice::EditNotSealed => "The edit could not be sealed".to_owned(),
        Notice::FileEmpty => "The file is empty.".to_owned(),
        Notice::FileUnreadable { reason } => join("Could not read the file: ", reason.as_str()),
        Notice::ImageTooLarge => "That image is larger than the 16 MB limit.".to_owned(),
        Notice::FileTooLarge => "That file is larger than the 32 MB limit.".to_owned(),
        Notice::UploadFailed { reason } => join(
            "Could not upload the attachment: ",
            reason.as_str(),
        ),
        Notice::CallUsesMicrophone =>
            "A call is using the microphone. The note can be recorded once it ends.".to_owned(),
        Notice::MicrophoneFailed { reason } => join(
            "Could not open the microphone: ",
            reason.as_str(),
        ),
        Notice::DraftFileFailed { reason } => join(
            "Could not open the recording's draft file: ",
            reason.as_str(),
        ),
        Notice::NoteTooShort =>
            "Hold the microphone a moment longer to record a note.".to_owned(),
        Notice::NoteUnreadable => "The recording's draft could not be read back.".to_owned(),
        Notice::NoteTooLong => "That recording is too long to send.".to_owned(),
        Notice::SpeakerFailed { reason } => join("Could not open the speaker: ", reason.as_str()),
        Notice::SavedTo { path } => join("Saved to ", path.as_str()),
        Notice::NotSaved { reason } => join("Could not save: ", reason.as_str()),
        Notice::NoteHasNoFile =>
            "A voice note has no file to save \u{2014} it plays here.".to_owned(),
        Notice::AdminAppointed { username } => join(username.as_str(), " is now a global admin."),
        Notice::AdminRevoked => "Admin revoked.".to_owned(),
        Notice::SessionEnded => "Session ended".to_owned(),
        Notice::DeviceRemoved { sessions } => {
            let count: String = decimal_of(*sessions);
            if *sessions == 1 {
                join3("Device removed; ", count.as_str(), " session ended")
            } else {
                join3("Device removed; ", count.as_str(), " sessions ended")
            }
        },
        Notice::WalletArchived => "Wallet address archived".to_owned(),
        Notice::ContactSaved => "Recovery contact saved".to_owned(),
        Notice::PassphraseChanged =>
            "Passphrase changed; every other session was signed out".to_owned(),
        Notice::IdentityNotPublished { reason } => join(
            "could not publish the account identity: ",
            reason.as_str(),
        ),
        Notice::WalletNotRegistered { index, reason } => {
            let head: String = join3(
                "could not register wallet ",
                decimal_of(*index as u64).as_str(),
                ": ",
            );
            join(head.as_str(), reason.as_str())
        },
        Notice::SignedOut =>
            "Signed out. Every key on this device has been forgotten.".to_owned(),
        Notice::NoRootForBackup =>
            "this device does not hold the account root; make the backup on a device that does, or keep the container you already have".to_owned(),
        Notice::BackupWritten { path } => join("account backup written to ", path.as_str()),
        Notice::VaultNotOpened { reason } => join3(
            "the vault did not open (",
            reason.as_str(),
            "); the identity key was not rotated",
        ),
        Notice::VaultOfAnother =>
            "this vault belongs to another account; the identity key was not rotated".to_owned(),
        Notice::NoIdentityKey =>
            "this device holds no identity key, so it cannot rotate one".to_owned(),
        Notice::PayloadNotBase64 => "the server's challenge payload was not base64".to_owned(),
        Notice::VaultNotSealed { reason } => join3(
            "the vault could not be re-sealed (",
            reason.as_str(),
            "); nothing was rotated",
        ),
        Notice::IdentityRotated =>
            "Identity key rotated; sessions, chats and safety numbers continue unchanged".to_owned(),
        Notice::RotationUnanswered =>
            "the server's answer never arrived; the new key is sealed in this vault \u{2014} rotate again to finish the change".to_owned(),
        Notice::IdentityNotRotated { reason } => join(
            "the identity key was not rotated: ",
            reason.as_str(),
        ),
        Notice::IdentityNotRestored { reason, vault } => {
            let head: String = join3(
                "the identity key was not rotated (",
                reason.as_str(),
                "), and the vault could not be restored: ",
            );
            join3(
                head.as_str(),
                vault.as_str(),
                " \u{2014} rotate again to retry the ceremony",
            )
        },
        Notice::BackupDateKept { reason } => join(
            "the rotation stands, but the vault could not be re-sealed to forget the old backup date: ",
            reason.as_str(),
        ),
        Notice::Said { text } => text.clone(),
    }
}

/// The sentence a fallback is shown as.
pub open spec fn fallback_says(reason: FallbackReason) -> Seq<char> {
    match reason {
        FallbackReason::TcpNotNegotiated =>
            "the server did not negotiate TCP; connected over WebSocket"@,
        FallbackReason::TcpUnreachable =>
            "could not reach the TCP listener; connected over WebSocket"@,
        FallbackReason::QuicNotNegotiated =>
            "the server did not negotiate QUIC; connected over WebSocket"@,
        FallbackReason::QuicUnreachable =>
            "could not reach the QUIC listener; connected over WebSocket"@,
    }
}

/// The sentence a fallback is shown as.
pub fn fallback_text(reason: FallbackReason) -> (text: &'static str)
    ensures
        text@ == fallback_says(reason),
{
    match reason {
        FallbackReason::TcpNotNegotiated =>
            "the server did not negotiate TCP; connected over WebSocket",
        FallbackReason::TcpUnreachable =>
            "could not reach the TCP listener; connected over WebSocket",
        FallbackReason::QuicNotNegotiated =>
            "the server did not negotiate QUIC; connected over WebSocket",
        FallbackReason::QuicUnreachable =>
            "could not reach the QUIC listener; connected over WebSocket",
    }
}

/// The sentence a failure is shown as.
pub open spec fn failure_says(failure: Failure) -> Seq<char> {
    match failure {
        Failure::NoSavedSignIn => "this vault has no saved sign-in; sign in again"@,
        Failure::CouldNotReconnect =>
            "could not reconnect; check the server address and try signing in again"@,
        Failure::ContainerNamesNoAccount =>
            "this container does not name its account (it was sealed by an older build); sign in with your passphrase instead"@,
        Failure::ReturnRefused =>
            "this device already holds this account's keys, but signing back in as this device was refused; unlock the vault with its passphrase instead"@,
        Failure::VaultInTheWay =>
            "this device already has a vault; remove it deliberately before restoring onto this machine"@,
        Failure::VaultDidNotOpen =>
            "this device already has a vault and this passphrase did not open it \u{2014} the vault may belong to another account, or the passphrase may be the one for the new vault rather than the existing vault's own; remove the vault deliberately before restoring onto this machine"@,
        Failure::PayloadNotBase64 => "the server's challenge payload was not base64"@,
        Failure::Said { text } => text@,
    }
}

/// The sentence a failure is shown as.
pub fn failure_text(failure: &Failure) -> (text: String)
    ensures
        text@ == failure_says(*failure),
{
    match failure {
        Failure::NoSavedSignIn => "this vault has no saved sign-in; sign in again".to_owned(),
        Failure::CouldNotReconnect =>
            "could not reconnect; check the server address and try signing in again".to_owned(),
        Failure::ContainerNamesNoAccount =>
            "this container does not name its account (it was sealed by an older build); sign in with your passphrase instead".to_owned(),
        Failure::ReturnRefused =>
            "this device already holds this account's keys, but signing back in as this device was refused; unlock the vault with its passphrase instead".to_owned(),
        Failure::VaultInTheWay =>
            "this device already has a vault; remove it deliberately before restoring onto this machine".to_owned(),
        Failure::VaultDidNotOpen =>
            "this device already has a vault and this passphrase did not open it \u{2014} the vault may belong to another account, or the passphrase may be the one for the new vault rather than the existing vault's own; remove the vault deliberately before restoring onto this machine".to_owned(),
        Failure::PayloadNotBase64 => "the server's challenge payload was not base64".to_owned(),
        Failure::Said { text } => text.clone(),
    }
}

/// The sentence a media failure is shown as.
pub open spec fn media_failure_says(failure: MediaFailure) -> Seq<char> {
    match failure {
        MediaFailure::KeyNotInSession =>
            "This attachment's message is not in this session, so its key is not held. Reopen the conversation's history and try again."@,
        MediaFailure::KeyNoLongerHeld => "The key for this attachment is no longer held."@,
        MediaFailure::NotFetched { reason } => "Could not fetch the attachment: "@ + reason@,
        MediaFailure::NotOpened { reason } => reason@,
    }
}

/// The sentence a media failure is shown as.
pub fn media_failure_text(failure: &MediaFailure) -> (text: String)
    ensures
        text@ == media_failure_says(*failure),
{
    match failure {
        MediaFailure::KeyNotInSession =>
            "This attachment's message is not in this session, so its key is not held. Reopen the conversation's history and try again.".to_owned(),
        MediaFailure::KeyNoLongerHeld => "The key for this attachment is no longer held.".to_owned(),
        MediaFailure::NotFetched { reason } => join(
            "Could not fetch the attachment: ",
            reason.as_str(),
        ),
        MediaFailure::NotOpened { reason } => reason.clone(),
    }
}

/// Whether a sentence holds a text somewhere in it.
pub open spec fn holds(sentence: Seq<char>, text: Seq<char>) -> bool {
    exists|at: int|
        0 <= at && at + text.len() <= sentence.len() && #[trigger] sentence.subrange(
            at,
            at + text.len(),
        ) == text
}

proof fn lemma_holds(front: Seq<char>, text: Seq<char>, back: Seq<char>)
    ensures
        holds(front + text + back, text),
        holds(front + text, text),
{
    let all = front + text + back;
    assert(all.subrange(front.len() as int, (front.len() + text.len()) as int) =~= text);
    let some = front + text;
    assert(some.subrange(front.len() as int, (front.len() + text.len()) as int) =~= text);
}

/// A notice that something failed tells why.
pub proof fn law_a_notice_tells_its_reason(notice: Notice, reason: String)
    requires
        notice == (Notice::FileUnreadable { reason }) || notice == (Notice::UploadFailed { reason })
            || notice == (Notice::MicrophoneFailed { reason }) || notice == (
        Notice::DraftFileFailed { reason }) || notice == (Notice::SpeakerFailed { reason })
            || notice == (Notice::NotSaved { reason }) || notice == (
        Notice::IdentityNotPublished { reason }) || notice == (Notice::VaultNotOpened { reason })
            || notice == (Notice::VaultNotSealed { reason }) || notice == (
        Notice::IdentityNotRotated { reason }) || notice == (Notice::BackupDateKept { reason }),
    ensures
        holds(notice_says(notice), reason@),
{
    match notice {
        Notice::FileUnreadable { .. } => {
            lemma_holds("Could not read the file: "@, reason@, Seq::empty());
        },
        Notice::UploadFailed { .. } => {
            lemma_holds("Could not upload the attachment: "@, reason@, Seq::empty());
        },
        Notice::MicrophoneFailed { .. } => {
            lemma_holds("Could not open the microphone: "@, reason@, Seq::empty());
        },
        Notice::DraftFileFailed { .. } => {
            lemma_holds("Could not open the recording's draft file: "@, reason@, Seq::empty());
        },
        Notice::SpeakerFailed { .. } => {
            lemma_holds("Could not open the speaker: "@, reason@, Seq::empty());
        },
        Notice::NotSaved { .. } => {
            lemma_holds("Could not save: "@, reason@, Seq::empty());
        },
        Notice::IdentityNotPublished { .. } => {
            lemma_holds("could not publish the account identity: "@, reason@, Seq::empty());
        },
        Notice::VaultNotOpened { .. } => {
            lemma_holds(
                "the vault did not open ("@,
                reason@,
                "); the identity key was not rotated"@,
            );
        },
        Notice::VaultNotSealed { .. } => {
            lemma_holds(
                "the vault could not be re-sealed ("@,
                reason@,
                "); nothing was rotated"@,
            );
        },
        Notice::IdentityNotRotated { .. } => {
            lemma_holds("the identity key was not rotated: "@, reason@, Seq::empty());
        },
        _ => {
            lemma_holds(
                "the rotation stands, but the vault could not be re-sealed to forget the old backup date: "@,
                reason@,
                Seq::empty(),
            );
        },
    }
}

/// What was renamed, appointed, saved or written is named as it is, a text is said as it stands,
/// and a count is told in digits.
pub proof fn law_a_notice_names_what_it_is_about(text: String)
    ensures
        notice_says(Notice::Said { text }) == text@,
        holds(notice_says(Notice::GroupRenamed { title: text }), text@),
        holds(notice_says(Notice::SavedTo { path: text }), text@),
        holds(notice_says(Notice::BackupWritten { path: text }), text@),
        notice_says(Notice::AdminAppointed { username: text }).take(text@.len() as int) == text@,
        forall|n: Notice| #![auto]
            (n is FewOneTimeKeys) ==> holds(notice_says(n), decimal(n->left as nat)),
        forall|n: Notice| #![auto]
            (n is DeviceRemoved) ==> holds(notice_says(n), decimal(n->sessions as nat)),
        forall|n: Notice| #![auto]
            (n is WalletNotRegistered) ==> holds(notice_says(n), decimal(n->index as nat)) && holds(
                notice_says(n),
                n->WalletNotRegistered_reason@,
            ),
        forall|n: Notice| #![auto]
            (n is IdentityNotRestored) ==> holds(notice_says(n), n->IdentityNotRestored_reason@)
                && holds(notice_says(n), n->vault@),
{
    lemma_holds("Group renamed to "@, text@, Seq::empty());
    lemma_holds("Saved to "@, text@, Seq::empty());
    lemma_holds("account backup written to "@, text@, Seq::empty());
    let appointed = notice_says(Notice::AdminAppointed { username: text });
    assert(appointed.take(text@.len() as int) =~= text@);
    assert forall|n: Notice| #![auto] (n is FewOneTimeKeys) implies holds(
        notice_says(n),
        decimal(n->left as nat),
    ) by {
        lemma_holds(
            "Only "@,
            decimal(n->left as nat),
            " one-time keys left. Sign in again to replenish them."@,
        );
    }
    assert forall|n: Notice| #![auto] (n is DeviceRemoved) implies holds(
        notice_says(n),
        decimal(n->sessions as nat),
    ) by {
        lemma_holds(
            "Device removed; "@,
            decimal(n->sessions as nat),
            if n->sessions == 1 {
                " session ended"@
            } else {
                " sessions ended"@
            },
        );
    }
    assert forall|n: Notice| #![auto] (n is WalletNotRegistered) implies holds(
        notice_says(n),
        decimal(n->index as nat),
    ) && holds(notice_says(n), n->WalletNotRegistered_reason@) by {
        let front = "could not register wallet "@;
        let number = decimal(n->index as nat);
        let why = n->WalletNotRegistered_reason@;
        lemma_holds(front, number, ": "@ + why);
        assert(front + number + (": "@ + why) =~= front + number + ": "@ + why);
        lemma_holds(front + number + ": "@, why, Seq::empty());
    }
    assert forall|n: Notice| #![auto] (n is IdentityNotRestored) implies holds(
        notice_says(n),
        n->IdentityNotRestored_reason@,
    ) && holds(notice_says(n), n->vault@) by {
        let front = "the identity key was not rotated ("@;
        let why = n->IdentityNotRestored_reason@;
        let between = "), and the vault could not be restored: "@;
        let vault = n->vault@;
        let back = " \u{2014} rotate again to retry the ceremony"@;
        lemma_holds(front, why, between + vault + back);
        assert(front + why + (between + vault + back) =~= front + why + between + vault + back);
        lemma_holds(front + why + between, vault, back);
    }
}

/// A failure that carries its own words is told in them, and an attachment that was not fetched
/// tells why.
pub proof fn law_a_failure_tells_its_own_words(text: String)
    ensures
        failure_says(Failure::Said { text }) == text@,
        media_failure_says(MediaFailure::NotOpened { reason: text }) == text@,
        holds(media_failure_says(MediaFailure::NotFetched { reason: text }), text@),
{
    lemma_holds("Could not fetch the attachment: "@, text@, Seq::empty());
}

/// What was done, what had been done already and what was refused are told apart.
pub proof fn law_outcomes_are_told_apart()
    ensures
        notice_says(Notice::GiftSent) == "Gift sent"@,
        notice_says(Notice::GiftAlreadySent) == "Gift already sent"@,
        notice_says(Notice::GiftRefused) == "The server refused the gift send"@,
        notice_says(Notice::KickPointsBought) == "Kick Points bought"@,
        notice_says(Notice::KickPointsAlreadyBought) == "Kick Points already bought"@,
        notice_says(Notice::NotConnected) == "not connected"@,
        notice_says(Notice::ImageTooLarge) == "That image is larger than the 16 MB limit."@,
        notice_says(Notice::FileTooLarge) == "That file is larger than the 32 MB limit."@,
        notice_says(Notice::FileEmpty) == "The file is empty."@,
        notice_says(Notice::EditNotSealed) == "The edit could not be sealed"@,
        notice_says(Notice::SignedOut)
            == "Signed out. Every key on this device has been forgotten."@,
        fallback_says(FallbackReason::TcpNotNegotiated)
            == "the server did not negotiate TCP; connected over WebSocket"@,
        fallback_says(FallbackReason::TcpUnreachable)
            == "could not reach the TCP listener; connected over WebSocket"@,
        fallback_says(FallbackReason::QuicNotNegotiated)
            == "the server did not negotiate QUIC; connected over WebSocket"@,
        fallback_says(FallbackReason::QuicUnreachable)
            == "could not reach the QUIC listener; connected over WebSocket"@,
{
}

} // verus!
