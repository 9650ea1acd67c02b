use migo_net::content::MediaKeying;
use migo_net::effects::{Action, Event, MediaFailure, MediaKind, Notice, Request};
use migo_net::media::{
    attachment_put, begin_attachment, change_avatar, judge, media_saved, plan_attachment,
    send_attachment, DownloadStep, Fetches, FileKind, MediaIntent, MediaLimits, MediaWant, OpenedStep, SealDomain, TicketFor, Uploads,
    WantStep, WireBytes,
};
use migo_net::media_cache::CachedMedia;
use migo_net::voice::{
    heard, plan_note, playback_chunk, sent_samples, ChunkStep, HeldNote, Live, NoteStep, PlayStep,
    Playhead, Recorder, StartStep, Voice, VoiceLimits, Window,
};
use migo_net::voice_draft::VoiceDraft;
use migo_net::wire::Id;

const CHAT: Id = 9;

fn limits() -> VoiceLimits {
    VoiceLimits {
        sample_rate: 16_000,
        max_ms: 60_000,
        max_bytes: 2_000_000,
        waveform_bars: 8,
        window_samples: 4,
    }
}

fn live(samples: u64) -> Live {
    Live {
        samples,
        bars: vec![1, 2, 3],
    }
}

#[test]
fn a_stopped_recording_is_held() {
    let mut voice = Voice::new(100);
    assert!(matches!(voice.start_recording(true), StartStep::Busy(Action::Emit(Event::Toast { notice: Notice::CallUsesMicrophone, .. }))));
    assert!(matches!(voice.start_recording(false), StartStep::Open));
    let action = voice.recording_started(CHAT, None, Recorder::Ready);
    assert!(matches!(action, Action::Emit(Event::RecordingStarted { conversation_id: CHAT })));
    assert!(matches!(voice.start_recording(false), StartStep::Nothing));
    let out = voice.stop_recording(live(16_000), &limits());
    assert!(matches!(out[0], Action::StopCapture));
    assert!(matches!(out.last(), Some(Action::Emit(Event::RecordingPreview { duration_ms: 1_000, .. }))));
    let note = voice.held_note.as_ref().expect("held");
    assert_eq!(note.duration_ms, 1_000);
    let out = voice.cancel_voice_note(live(0), &limits());
    assert!(matches!(out.last(), Some(Action::Emit(Event::NoteDiscarded { undoable: true, .. }))));
    let _ = voice.undo_note_discard();
    assert!(!voice.undo_open);
    let out = voice.send_voice_note(live(0), &limits());
    assert!(matches!(&out[..], [Action::UploadNote { note }] if note.amplitudes == vec![1, 2, 3]));
}

#[test]
fn a_microphone_that_does_not_open_starts_nothing() {
    let mut voice = Voice::new(100);
    let action = voice.recording_started(CHAT, None, Recorder::NoMicrophone("busy".to_owned()));
    assert!(matches!(action, Action::Emit(Event::Toast { notice: Notice::MicrophoneFailed { .. }, .. })));
    let action = voice.recording_started(CHAT, None, Recorder::NoDraftFile("full".to_owned()));
    assert!(matches!(action, Action::Emit(Event::Toast { notice: Notice::DraftFileFailed { .. }, .. })));
    assert!(voice.recording.is_none());
    let action = voice.playback_started(1, Err("none".to_owned()));
    assert!(matches!(action, Action::Emit(Event::Toast { notice: Notice::SpeakerFailed { .. }, .. })));
    assert!(voice.playing.is_none());
}

#[test]
fn a_click_is_no_note() {
    let mut voice = Voice::new(100);
    let _ = voice.recording_started(CHAT, None, Recorder::Ready);
    let out = voice.stop_recording(live(3_999), &limits());
    assert!(matches!(out.last(), Some(Action::Emit(Event::Toast { notice: Notice::NoteTooShort, .. }))));
    assert!(voice.held_note.is_none());
    assert!(voice.recording.is_none());
}

#[test]
fn a_discarded_note_goes_with_its_window() {
    let mut voice = Voice::new(100);
    let _ = voice.recording_started(CHAT, None, Recorder::Ready);
    let _ = voice.stop_recording(live(16_000), &limits());
    let _ = voice.cancel_voice_note(live(0), &limits());
    let out = voice.note_undo_expired();
    assert!(out.iter().any(|action| matches!(action, Action::ClearDraft { conversation_id: CHAT })));
    assert!(voice.held_note.is_none());
}

#[test]
fn one_note_plays_at_a_time() {
    let mut voice = Voice::new(100);
    let _ = voice.playback_started(1, Ok(()));
    let mut out = Vec::new();
    assert!(voice.toggle_playback(2, &mut out));
    let _ = voice.playback_started(2, Ok(()));
    assert!(!voice.toggle_playback(2, &mut out));
    assert!(voice.playing.is_none());
    assert!(voice.stop_voice_note().is_empty());
    assert!(voice.voice_note_ended(2).is_empty());
    let _ = voice.set_voice_speed(150);
    assert_eq!(voice.speed_percent, 150);
}

#[test]
fn a_note_claims_what_it_holds() {
    let note = || HeldNote {
        conversation_id: CHAT,
        duration_ms: 500,
        amplitudes: vec![9],
        expires_in_ms: Some(4),
    };
    let NoteStep::Upload(plan) = plan_note(note(), Some(8_000), 16_044, vec![1, 2], &limits()) else {
        panic!("an upload");
    };
    assert_eq!(plan.kind, MediaKind::VoiceNote);
    assert_eq!(plan.mime_type, "audio/wav");
    assert_eq!(plan.duration_ms, Some(500));
    assert_eq!(plan.waveform, Some(vec![1, 2]));
    assert!(matches!(
        plan_note(note(), None, 0, Vec::new(), &limits()),
        NoteStep::Refused(out)
            if matches!(&out[..], [Action::Emit(Event::Toast { notice: Notice::NoteUnreadable, .. })])
    ));
    assert!(matches!(
        plan_note(note(), Some(1), 2_000_001, Vec::new(), &limits()),
        NoteStep::Refused(out)
            if matches!(&out[..], [Action::Emit(Event::Toast { notice: Notice::NoteTooLong, .. })])
    ));
}

#[test]
fn a_draft_survives_a_failed_upload() {
    let draft = || Some(VoiceDraft { duration_ms: 700, amplitudes: vec![4] });
    let mut voice = Voice::new(100);
    assert!(voice.restore_draft(CHAT, draft(), None, &limits()).is_empty());
    assert!(voice.restore_draft(CHAT, draft(), Some(3_999), &limits()).is_empty());
    assert!(voice.restore_draft(CHAT, None, Some(16_000), &limits()).is_empty());
    assert!(voice.held_note.is_none());
    let out = voice.restore_draft(CHAT, draft(), Some(16_000), &limits());
    assert!(matches!(&out[..], [Action::Emit(Event::RecordingPreview { duration_ms: 700, .. })]));
    assert_eq!(voice.held_note.as_ref().map(|note| note.expires_in_ms), Some(None));
}

#[test]
fn a_draft_nobody_can_hear_is_not_recovered() {
    let draft = || Some(VoiceDraft { duration_ms: 700, amplitudes: vec![4] });
    let mut voice = Voice::new(100);
    let cleared = |out: Vec<Action>| matches!(out[..], [Action::ClearDraft { conversation_id: CHAT }]);
    assert!(cleared(voice.recover_draft(CHAT, draft(), None, &limits())));
    assert!(cleared(voice.recover_draft(CHAT, draft(), Some(3_999), &limits())));
    assert!(voice.recover_draft(CHAT, None, None, &limits()).is_empty());
    assert!(voice.may_recover());
    assert_eq!(voice.recover_draft(CHAT, draft(), Some(4_000), &limits()).len(), 1);
    assert!(voice.held_note.is_some());
    assert!(voice.recover_draft(8, draft(), None, &limits()).is_empty(), "a note is held");
}

#[test]
fn a_window_that_is_not_open_takes_nothing() {
    let mut voice = Voice::new(100);
    let _ = voice.recording_started(CHAT, None, Recorder::Ready);
    let _ = voice.stop_recording(live(16_000), &limits());
    let _ = voice.cancel_voice_note(live(0), &limits());
    let _ = voice.undo_note_discard();
    assert!(voice.note_undo_expired().is_empty(), "the note was restored");
    assert!(voice.held_note.is_some());
}

#[test]
fn a_note_is_reported_heard_once_and_ended_once() {
    let mut head = Playhead::new(4_000, 16_000);
    assert_eq!(head.next(true), PlayStep::Stop);
    assert_eq!(head.next(false), PlayStep::Play { from: 0, to: 1_600 });
    assert!(!head.advance());
    assert_eq!(head.next(false), PlayStep::Play { from: 1_600, to: 3_200 });
    assert!(!head.advance());
    assert_eq!(head.next(false), PlayStep::Play { from: 3_200, to: 4_000 });
    assert!(head.advance());
    assert_eq!(head.next(false), PlayStep::End);
    assert_eq!(head.next(true), PlayStep::Stop, "a stopped note reports nothing");
    let mut long = Playhead::new(10, 10);
    let reports = (0..10).filter(|_| long.advance()).count();
    assert_eq!(reports, 1);
}

#[test]
fn capture_and_playback_run_in_chunks() {
    let mut window = Window::new();
    let _ = window.take(7, &limits());
    assert_eq!(window.chunk_step(true, false, 0, &limits()), ChunkStep::Stop);
    assert_eq!(window.chunk_step(false, false, 0, &limits()), ChunkStep::Append);
    assert_eq!(window.chunk_step(false, false, 960_000, &limits()), ChunkStep::Stop);
    assert_eq!(window.len, 1);
    assert_eq!(window.chunk_step(false, true, 0, &limits()), ChunkStep::Skip);
    assert_eq!(window, Window::new(), "a window that a pause interrupts is dropped");
    assert_eq!(playback_chunk(16_000), 1_600);
    assert_eq!(playback_chunk(9), 1);
    assert!(heard(9, 10));
    assert!(!heard(1, 10));
    assert_eq!(sent_samples(10, &limits()), 10);
    let mut window = Window::new();
    let peaks: Vec<Option<i16>> = [1, 5, 3, 2].iter().map(|s| window.take(*s, &limits())).collect();
    assert_eq!(peaks, vec![None, None, None, Some(5)]);
}

fn media_limits() -> MediaLimits {
    MediaLimits {
        image_max_bytes: 100,
        document_max_bytes: 1_000,
    }
}

#[test]
fn a_file_that_decodes_is_sent_as_an_image() {
    let bytes = vec![1, 2, 3];
    let attach = |size: Option<(u32, u32)>, limits: &MediaLimits| {
        let types = ("image/png".to_owned(), "application/pdf".to_owned());
        plan_attachment(Ok(&bytes), size, types.0, types.1, Some(5), limits)
    };
    let image = attach(Some((2, 3)), &media_limits()).ok().expect("it may be sent");
    assert_eq!(image.kind, MediaKind::Image);
    assert_eq!((image.width, image.height, image.size_bytes), (Some(2), Some(3), 3));
    assert_eq!(image.mime_type, "image/png");
    let document = attach(None, &media_limits()).ok().expect("it may be sent");
    assert_eq!(document.kind, MediaKind::Document);
    assert_eq!(document.mime_type, "application/pdf");
    let tight = MediaLimits { image_max_bytes: 2, document_max_bytes: 2 };
    assert!(matches!(attach(Some((2, 3)), &tight),
        Err(Action::Emit(Event::Toast { notice: Notice::ImageTooLarge, .. }))));
    assert!(matches!(attach(None, &tight),
        Err(Action::Emit(Event::Toast { notice: Notice::FileTooLarge, .. }))));
}

#[test]
fn a_file_is_judged_by_its_bytes() {
    let limits = media_limits();
    assert!(matches!(judge(0, None, &limits), FileKind::Empty));
    assert!(matches!(judge(100, Some((2, 3)), &limits), FileKind::Image { width: 2, height: 3 }));
    assert!(matches!(judge(101, Some((2, 3)), &limits), FileKind::ImageTooLarge));
    assert!(matches!(judge(101, None, &limits), FileKind::Document));
    assert!(matches!(judge(1_001, None, &limits), FileKind::DocumentTooLarge));
    let none = send_attachment(Ok(&Vec::new()), String::new(), String::new(), None, &limits);
    assert!(matches!(none, Err(Action::Emit(Event::Toast { notice: Notice::FileEmpty, .. }))));
    let text = send_attachment(
        Ok(&b"plain words".to_vec()),
        "image/png".to_owned(),
        "text/plain".to_owned(),
        None,
        &limits,
    );
    let plan = text.ok().expect("a plan");
    assert_eq!(plan.kind, MediaKind::Document);
    assert_eq!(plan.mime_type, "text/plain");
    assert_eq!(plan.size_bytes, 11);
    assert!(matches!(
        change_avatar(Ok(&Vec::new()), String::new()),
        Err(Action::Emit(Event::AvatarChangeFailed { notice: Notice::FileEmpty }))
    ));
    assert!(matches!(
        send_attachment(Err("gone".to_owned()), String::new(), String::new(), None, &limits),
        Err(Action::Emit(Event::Toast { notice: Notice::FileUnreadable { .. }, .. }))
    ));
    assert!(matches!(
        media_saved("p".to_owned(), Ok(())),
        Action::Emit(Event::Toast { notice: Notice::SavedTo { path }, .. }) if path == "p"
    ));
    assert!(matches!(
        media_saved("p".to_owned(), Err("full".to_owned())),
        Action::Emit(Event::Toast { notice: Notice::NotSaved { .. }, .. })
    ));
}

#[test]
fn a_sealed_upload_claims_nothing_of_its_type() {
    let plan = send_attachment(
        Ok(&b"plain words".to_vec()),
        String::new(),
        "text/plain".to_owned(),
        None,
        &media_limits(),
    )
    .ok()
    .expect("a plan");
    let wire = WireBytes {
        sealed: true,
        key: vec![1; 32],
        nonce: vec![2; 12],
        bytes: vec![0; 27],
    };
    let (request, begun) = begin_attachment(CHAT, 5, plan, wire, None);
    assert!(matches!(&request, Request::MediaBegin { content_type, size: 27, conversation_id: Some(CHAT), .. }
        if content_type == "application/octet-stream"));
    let mut uploads = Uploads::new();
    uploads.asked_begin(3, begun);
    assert!(matches!(uploads.ticket_arrived(4), TicketFor::Nobody));
    let TicketFor::Attachment(begun) = uploads.ticket_arrived(3) else {
        panic!("the attachment's ticket");
    };
    let (request, commit) = attachment_put(70, begun);
    assert!(matches!(&request, Request::MediaCommit { upload_id: 70, digest } if digest.len() == 32));
    assert_eq!(commit.media_id, 70);
    uploads.asked_commit(6, commit);
    assert!(uploads.commit_acknowledged(5).is_none());
    assert!(uploads.commit_acknowledged(6).is_some());
    assert!(uploads.commit_acknowledged(6).is_none());
}

fn keying(key: Vec<u8>, mime_type: &str, voice: bool) -> MediaKeying {
    MediaKeying {
        key,
        nonce: vec![0; 12],
        mime_type: mime_type.to_owned(),
        voice,
    }
}

#[test]
fn an_attachment_is_fetched_once_and_served_after() {
    let mut fetches = Fetches::new();
    assert!(matches!(
        fetches.want_media(8, MediaIntent::Show, false),
        WantStep::Done(out) if matches!(out[..], [Action::Emit(Event::MediaFailed { media_id: 8, failure: MediaFailure::KeyNotInSession })])
    ));
    let WantStep::Ask(Request::MediaFetchUrl { object_id: 8 }, want) =
        fetches.want_media(8, MediaIntent::Show, true)
    else {
        panic!("asks");
    };
    assert!(matches!(fetches.want_media(8, MediaIntent::Show, true), WantStep::Done(out) if out.is_empty()));
    fetches.asked(2, want);
    let want = fetches.url_arrived(2).expect("its want");
    let key = keying(vec![1; 32], "image/png", false);
    assert!(matches!(
        fetches.downloaded(8, Ok(vec![4, 4]), Some(&key)),
        DownloadStep::Open { domain: SealDomain::Media, .. }
    ));
    let OpenedStep::Done(out) = fetches.unsealed(want, Ok(vec![4]), &key) else {
        panic!("shown");
    };
    assert!(matches!(out[..], [Action::ShowImage { media_id: 8 }]));
    assert!(matches!(
        fetches.want_media(8, MediaIntent::SaveTo("p".to_owned()), true),
        WantStep::Done(out) if matches!(&out[..], [Action::SaveMedia { media_id: 8, path }] if path == "p")
    ));
}

#[test]
fn a_fetch_that_fails_may_be_tried_again() {
    let mut fetches = Fetches::new();
    let _ = fetches.want_media(8, MediaIntent::Show, true);
    assert!(matches!(
        fetches.downloaded(8, Err("gone".to_owned()), None),
        DownloadStep::Failed(out) if matches!(&out[..], [Action::Emit(Event::MediaFailed { failure: MediaFailure::NotFetched { reason }, .. })] if reason == "gone")
    ));
    assert!(matches!(fetches.want_media(8, MediaIntent::Show, true), WantStep::Ask(..)));
    assert!(matches!(
        fetches.downloaded(8, Ok(Vec::new()), None),
        DownloadStep::Failed(out) if matches!(&out[..], [Action::Emit(Event::MediaFailed { failure: MediaFailure::KeyNoLongerHeld, .. })])
    ));
    let plain = keying(vec![0; 32], "image/png", false);
    assert!(matches!(
        fetches.downloaded(8, Ok(vec![1]), Some(&plain)),
        DownloadStep::Plain(bytes) if bytes == vec![1]
    ));
}

#[test]
fn a_note_is_decoded_before_it_plays() {
    let mut fetches = Fetches::new();
    let want = || MediaWant { media_id: 8, intent: MediaIntent::Play };
    let key = keying(vec![1; 32], "audio/wav", true);
    let OpenedStep::Decode { want: wanted, .. } = fetches.unsealed(want(), Ok(vec![1, 2]), &key) else {
        panic!("decodes");
    };
    let out = fetches.decoded(wanted, Ok((vec![1, 2, 3], 16_000)));
    assert!(matches!(out[..], [Action::StartPlayback { media_id: 8 }]));
    let out = fetches.decoded(want(), Err("no wav".to_owned()));
    assert!(matches!(&out[..], [Action::Emit(Event::MediaFailed { failure: MediaFailure::NotOpened { .. }, .. })]));
    let _ = CachedMedia::Document { bytes: Vec::new() };
}
