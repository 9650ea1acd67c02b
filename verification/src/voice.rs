//! Voice notes: recording one, holding it, sending it, playing one.

use vstd::prelude::*;

use crate::content::copy_bytes;
use crate::effects::{toast, toasted, Action, Event, MediaKind, Notice, ToastKind};
use crate::media::OutgoingMedia;
use crate::voice_draft::VoiceDraft;
use crate::wire::Id;

verus! {

/// How often a live recording states itself, in milliseconds.
pub const RECORDING_TICK_MS: u64 = 250;

/// How long a discarded note stays recoverable, in milliseconds.
pub const NOTE_UNDO_WINDOW_MS: u64 = 5_000;

/// How often a recording's descriptor is rewritten, in milliseconds.
pub const PERSIST_EVERY_MS: u64 = 1_000;

/// What a note is recorded and sent at.
#[derive(Debug, Clone, Copy, PartialEq, Eq, Structural)]
pub struct VoiceLimits {
    /// Samples a second.
    pub sample_rate: u32,
    /// The longest note, in milliseconds.
    pub max_ms: u64,
    /// The largest file a note is sent as.
    pub max_bytes: u64,
    /// The bars a waveform is drawn with.
    pub waveform_bars: usize,
    /// The samples one bar of the live waveform stands for.
    pub window_samples: u64,
}

impl VoiceLimits {
    /// Limits that a recording can be made under, without its counts leaving the machine's range.
    pub open spec fn wf(self) -> bool {
        &&& self.sample_rate > 0
        &&& self.window_samples > 0
        &&& self.max_ms * self.sample_rate <= u64::MAX
    }

    /// The most samples a note holds.
    pub open spec fn max_samples(self) -> int {
        self.max_ms * self.sample_rate / 1000
    }

    /// How long so many samples play, in milliseconds.
    pub open spec fn plays(self, samples: int) -> int {
        samples * 1000 / self.sample_rate as int
    }

    /// Whether so many samples are a note: less than a quarter of a second is a click.
    pub open spec fn is_note(self, samples: int) -> bool {
        samples >= self.sample_rate / 4
    }

    fn cap(&self) -> (samples: u64)
        requires
            self.wf(),
        ensures
            samples == self.max_samples(),
    {
        assert(self.max_ms * self.sample_rate as u64 <= u64::MAX);
        self.max_ms * self.sample_rate as u64 / 1000
    }

    fn duration(&self, samples: u64) -> (ms: u64)
        requires
            self.wf(),
            samples * 1000 <= u64::MAX,
        ensures
            ms == self.plays(samples as int),
    {
        samples * 1000 / self.sample_rate as u64
    }
}

/// One recording in progress, as far as it is decided about.
#[derive(Debug, Clone, Copy, PartialEq, Eq, Structural)]
pub struct Recording {
    pub conversation_id: Id,
    /// The lifetime that stood when the recording began.
    pub expires_in_ms: Option<u32>,
    pub paused: bool,
    /// Whether the pause standing now was an interruption's, which lifts it itself, rather than
    /// the speaker's.
    pub paused_by_interruption: bool,
    /// The elapsed time the descriptor was last written with.
    pub persisted_ms: u64,
}

/// What the capture has taken so far: the samples counted, and the live bars.
pub struct Live {
    pub samples: u64,
    pub bars: Vec<u8>,
}

/// A finished recording the composer is holding. Its bytes stay in the draft store.
pub struct HeldNote {
    pub conversation_id: Id,
    pub duration_ms: u64,
    /// The sampled bars, unfolded.
    pub amplitudes: Vec<u8>,
    pub expires_in_ms: Option<u32>,
}

/// What is being recorded, held and played.
pub struct Voice {
    pub recording: Option<Recording>,
    pub held_note: Option<HeldNote>,
    /// Whether the held note was discarded and its undo window is open.
    pub undo_open: bool,
    pub playing: Option<Id>,
    /// The pace notes are played at, in percent.
    pub speed_percent: u32,
}

/// What a wish to record comes to.
pub enum StartStep {
    /// A recording runs already.
    Nothing,
    /// A call uses the microphone: the person is told that the note waits.
    Busy(Action),
    /// Open the microphone and the draft's file.
    Open,
}

/// What became of opening the microphone and the draft's file.
pub enum Recorder {
    /// The microphone did not open, and why.
    NoMicrophone(String),
    /// The draft's file could not be made, and why.
    NoDraftFile(String),
    /// Both are open.
    Ready,
}

/// How a preview states its length: one that does not fit is stated as nothing.
pub open spec fn preview_ms(duration_ms: u64) -> u32 {
    if duration_ms > u32::MAX {
        0
    } else {
        duration_ms as u32
    }
}

/// Whether an action states a held note to the composer.
pub open spec fn previews(action: Action, note: HeldNote) -> bool {
    action matches Action::Emit(
        Event::RecordingPreview { conversation_id, duration_ms, amplitudes },
    ) && conversation_id == note.conversation_id && duration_ms == preview_ms(note.duration_ms)
        && amplitudes@ == note.amplitudes@
}

fn preview_of(note: &HeldNote) -> (action: Action)
    ensures
        previews(action, *note),
{
    let duration_ms: u32 = if note.duration_ms > 4_294_967_295 {
        0
    } else {
        note.duration_ms as u32
    };
    Action::Emit(
        Event::RecordingPreview {
            conversation_id: note.conversation_id,
            duration_ms,
            amplitudes: copy_bytes(&note.amplitudes),
        },
    )
}

/// Whether some actions are what ending a capture asks for.
pub open spec fn ending(
    recording: Recording,
    live: Live,
    limits: VoiceLimits,
    out: Seq<Action>,
) -> bool {
    let conversation_id = recording.conversation_id;
    &&& out.len() == (if limits.is_note(live.samples as int) {
        3int
    } else {
        4int
    })
    &&& out[0] == Action::StopCapture
    &&& out[1] == Action::Emit(Event::RecordingStopped { conversation_id })
    &&& limits.is_note(live.samples as int) ==> (out[2] matches Action::SaveDraft {
        conversation_id: c,
        duration_ms,
        amplitudes,
    } && c == conversation_id && duration_ms == limits.plays(live.samples as int) && amplitudes@
        == live.bars@)
    &&& !limits.is_note(live.samples as int) ==> out[2] == Action::ClearDraft { conversation_id }
        && out[3] == toast(Notice::NoteTooShort, ToastKind::Info)
}

/// The note that ending a capture leaves: none, where it was only a click.
pub open spec fn finished(
    recording: Recording,
    live: Live,
    limits: VoiceLimits,
) -> Option<HeldNote> {
    if limits.is_note(live.samples as int) {
        Some(
            HeldNote {
                conversation_id: recording.conversation_id,
                duration_ms: limits.plays(live.samples as int) as u64,
                amplitudes: live.bars,
                expires_in_ms: recording.expires_in_ms,
            },
        )
    } else {
        None
    }
}

impl Voice {
    pub fn new(speed_percent: u32) -> (voice: Self)
        ensures
            voice.recording is None,
            voice.held_note is None,
            !voice.undo_open,
            voice.playing is None,
            voice.speed_percent == speed_percent,
    {
        Voice { recording: None, held_note: None, undo_open: false, playing: None, speed_percent }
    }

    /// Decides whether a recording may begin.
    pub fn start_recording(&self, call_busy: bool) -> (step: StartStep)
        ensures
            step == (if self.recording is Some {
                StartStep::Nothing
            } else if call_busy {
                StartStep::Busy(toast(Notice::CallUsesMicrophone, ToastKind::Info))
            } else {
                StartStep::Open
            }),
    {
        if self.recording.is_some() {
            StartStep::Nothing
        } else if call_busy {
            StartStep::Busy(toasted(Notice::CallUsesMicrophone, ToastKind::Info))
        } else {
            StartStep::Open
        }
    }

    /// The microphone and the draft's file are open, or one of them is not. Once both are, whatever
    /// the composer was holding stands down; its bytes stay in the store.
    pub fn recording_started(
        &mut self,
        conversation_id: Id,
        expires_in_ms: Option<u32>,
        recorder: Recorder,
    ) -> (action: Action)
        ensures
            match recorder {
                Recorder::NoMicrophone(reason) => {
                    &&& *final(self) == *old(self)
                    &&& action == toast(Notice::MicrophoneFailed { reason }, ToastKind::Error)
                },
                Recorder::NoDraftFile(reason) => {
                    &&& *final(self) == *old(self)
                    &&& action == toast(Notice::DraftFileFailed { reason }, ToastKind::Error)
                },
                Recorder::Ready => {
                    &&& *final(self) == (Voice {
                        recording: Some(
                            Recording {
                                conversation_id,
                                expires_in_ms,
                                paused: false,
                                paused_by_interruption: false,
                                persisted_ms: 0,
                            },
                        ),
                        held_note: None,
                        undo_open: false,
                        ..*old(self)
                    })
                    &&& action == Action::Emit(Event::RecordingStarted { conversation_id })
                },
            },
    {
        match recorder {
            Recorder::NoMicrophone(reason) => {
                return toasted(Notice::MicrophoneFailed { reason }, ToastKind::Error);
            },
            Recorder::NoDraftFile(reason) => {
                return toasted(Notice::DraftFileFailed { reason }, ToastKind::Error);
            },
            Recorder::Ready => {},
        }
        self.held_note = None;
        self.undo_open = false;
        self.recording = Some(
            Recording {
                conversation_id,
                expires_in_ms,
                paused: false,
                paused_by_interruption: false,
                persisted_ms: 0,
            },
        );
        Action::Emit(Event::RecordingStarted { conversation_id })
    }

    /// Ends the live capture, if there is one, and collects the note it left.
    pub fn finalize_recording(
        &mut self,
        live: Live,
        limits: &VoiceLimits,
        out: &mut Vec<Action>,
    ) -> (note: Option<HeldNote>)
        requires
            limits.wf(),
            live.samples * 1000 <= u64::MAX,
        ensures
            *final(self) == (Voice { recording: None, ..*old(self) }),
            match old(self).recording {
                Some(recording) => {
                    &&& note == finished(recording, live, *limits)
                    &&& final(out)@.len() >= old(out)@.len()
                    &&& final(out)@.take(old(out)@.len() as int) == old(out)@
                    &&& ending(
                        recording,
                        live,
                        *limits,
                        final(out)@.subrange(old(out)@.len() as int, final(out)@.len() as int),
                    )
                },
                None => note is None && final(out)@ == old(out)@,
            },
    {
        let recording: Recording = match self.recording.take() {
            Some(recording) => recording,
            None => {
                return None;
            },
        };
        let ghost before = out@;
        let conversation_id: Id = recording.conversation_id;
        out.push(Action::StopCapture);
        out.push(Action::Emit(Event::RecordingStopped { conversation_id }));
        if live.samples < (limits.sample_rate / 4) as u64 {
            out.push(Action::ClearDraft { conversation_id });
            out.push(toasted(Notice::NoteTooShort, ToastKind::Info));
            assert(out@.take(before.len() as int) =~= before);
            return None;
        }
        let duration_ms: u64 = limits.duration(live.samples);
        out.push(
            Action::SaveDraft {
                conversation_id,
                duration_ms,
                amplitudes: copy_bytes(&live.bars),
            },
        );
        assert(out@.take(before.len() as int) =~= before);
        Some(
            HeldNote {
                conversation_id,
                duration_ms,
                amplitudes: live.bars,
                expires_in_ms: recording.expires_in_ms,
            },
        )
    }

    /// Holds a finished note as the composer's preview.
    pub fn hold_note(&mut self, note: HeldNote) -> (action: Action)
        ensures
            *final(self) == (Voice { held_note: Some(note), undo_open: false, ..*old(self) }),
            previews(action, note),
    {
        let action: Action = preview_of(&note);
        self.undo_open = false;
        self.held_note = Some(note);
        action
    }

    /// Ends the capture and holds the note for the composer's word.
    pub fn stop_recording(&mut self, live: Live, limits: &VoiceLimits) -> (out: Vec<Action>)
        requires
            limits.wf(),
            live.samples * 1000 <= u64::MAX,
        ensures
            match old(self).recording {
                Some(recording) => match finished(recording, live, *limits) {
                    Some(note) => {
                        &&& *final(self) == (Voice {
                            recording: None,
                            held_note: Some(note),
                            undo_open: false,
                            ..*old(self)
                        })
                        &&& ending(recording, live, *limits, out@.drop_last())
                        &&& previews(out@.last(), note)
                    },
                    None => {
                        &&& *final(self) == (Voice { recording: None, ..*old(self) })
                        &&& ending(recording, live, *limits, out@)
                    },
                },
                None => *final(self) == *old(self) && out@.len() == 0,
            },
    {
        let mut out: Vec<Action> = Vec::new();
        let noted: Option<HeldNote> = self.finalize_recording(live, limits, &mut out);
        let ghost ended = out@;
        assert(ended.subrange(0, ended.len() as int) =~= ended);
        if let Some(note) = noted {
            let action: Action = self.hold_note(note);
            out.push(action);
            assert(out@.drop_last() =~= ended);
        }
        out
    }

    /// Sends the note: the one being recorded, which is ended first, or the one being held.
    pub fn send_voice_note(&mut self, live: Live, limits: &VoiceLimits) -> (out: Vec<Action>)
        requires
            limits.wf(),
            live.samples * 1000 <= u64::MAX,
        ensures
            match old(self).recording {
                Some(recording) => {
                    &&& *final(self) == (Voice { recording: None, ..*old(self) })
                    &&& match finished(recording, live, *limits) {
                        Some(note) => ending(recording, live, *limits, out@.drop_last())
                            && out@.last() == Action::UploadNote { note },
                        None => ending(recording, live, *limits, out@),
                    }
                },
                None => match old(self).held_note {
                    Some(note) => {
                        &&& *final(self) == (Voice { held_note: None, undo_open: false, ..*old(self) })
                        &&& out@ == seq![Action::UploadNote { note }]
                    },
                    None => *final(self) == *old(self) && out@.len() == 0,
                },
            },
    {
        let mut out: Vec<Action> = Vec::new();
        if self.recording.is_some() {
            let noted: Option<HeldNote> = self.finalize_recording(live, limits, &mut out);
            let ghost ended = out@;
            assert(ended.subrange(0, ended.len() as int) =~= ended);
            if let Some(note) = noted {
                out.push(Action::UploadNote { note });
                assert(out@.drop_last() =~= ended);
            }
            return out;
        }
        if let Some(note) = self.held_note.take() {
            self.undo_open = false;
            out.push(Action::UploadNote { note });
        }
        out
    }

    /// Cancels: nothing is deleted outright, the note becomes the undo window's.
    pub fn cancel_voice_note(&mut self, live: Live, limits: &VoiceLimits) -> (out: Vec<Action>)
        requires
            limits.wf(),
            live.samples * 1000 <= u64::MAX,
        ensures
            ({
                let held = match old(self).recording {
                    Some(recording) => match finished(recording, live, *limits) {
                        Some(note) => Some(note),
                        None => old(self).held_note,
                    },
                    None => old(self).held_note,
                };
                &&& *final(self) == (Voice {
                    recording: None,
                    held_note: held,
                    undo_open: old(self).undo_open || held is Some,
                    ..*old(self)
                })
                &&& match held {
                    Some(note) => {
                        &&& out@.len() > 0
                        &&& out@.last() == Action::Emit(
                            (Event::NoteDiscarded {
                                conversation_id: note.conversation_id,
                                undoable: true,
                            }),
                        )
                        &&& match old(self).recording {
                            Some(recording) => ending(recording, live, *limits, out@.drop_last()),
                            None => out@.len() == 1,
                        }
                    },
                    None => match old(self).recording {
                        Some(recording) => ending(recording, live, *limits, out@),
                        None => out@.len() == 0,
                    },
                }
            }),
    {
        let mut out: Vec<Action> = Vec::new();
        if self.recording.is_some() {
            let noted: Option<HeldNote> = self.finalize_recording(live, limits, &mut out);
            if let Some(note) = noted {
                self.held_note = Some(note);
            }
        }
        let ghost ended = out@;
        assert(ended.subrange(0, ended.len() as int) =~= ended);
        if let Some(note) = &self.held_note {
            let conversation_id: Id = note.conversation_id;
            self.undo_open = true;
            out.push(Action::Emit(Event::NoteDiscarded { conversation_id, undoable: true }));
            assert(out@.drop_last() =~= ended);
        }
        out
    }

    /// Restores a cancelled note to its preview. The bytes never moved.
    pub fn undo_note_discard(&mut self) -> (out: Vec<Action>)
        ensures
            match old(self).held_note {
                Some(note) => {
                    &&& *final(self) == (Voice { undo_open: false, ..*old(self) })
                    &&& out@.len() == 1
                    &&& previews(out@[0], note)
                },
                None => *final(self) == *old(self) && out@.len() == 0,
            },
    {
        let mut out: Vec<Action> = Vec::new();
        if let Some(note) = &self.held_note {
            out.push(preview_of(note));
            self.undo_open = false;
        }
        out
    }

    /// The undo window closed: the note is gone for real, bytes and all. With no window open there
    /// is none to close.
    pub fn note_undo_expired(&mut self) -> (out: Vec<Action>)
        ensures
            !old(self).undo_open ==> *final(self) == *old(self) && out@.len() == 0,
            old(self).undo_open ==> {
                &&& *final(self) == (Voice { undo_open: false, held_note: None, ..*old(self) })
                &&& out@ == (match old(self).held_note {
                    Some(note) => seq![
                        Action::ClearDraft { conversation_id: note.conversation_id },
                        Action::Emit(
                            Event::NoteDiscarded {
                                conversation_id: note.conversation_id,
                                undoable: false,
                            },
                        ),
                    ],
                    None => Seq::empty(),
                })
            },
    {
        if !self.undo_open {
            return Vec::new();
        }
        self.undo_open = false;
        match self.held_note.take() {
            Some(note) => {
                let conversation_id: Id = note.conversation_id;
                vec![
                    Action::ClearDraft { conversation_id },
                    Action::Emit(Event::NoteDiscarded { conversation_id, undoable: false }),
                ]
            },
            None => Vec::new(),
        }
    }

    /// A draft was read back, after a failed upload: it is held as a preview again, unless its
    /// bytes cannot be read or are no note. Either way it stays: only a committed upload removes
    /// the draft of a note that was sent. `samples` is the length of the recording, where it can be
    /// read; a note that is restored makes no promise to disappear.
    pub fn restore_draft(
        &mut self,
        conversation_id: Id,
        draft: Option<VoiceDraft>,
        samples: Option<u64>,
        limits: &VoiceLimits,
    ) -> (out: Vec<Action>)
        ensures
            draft_restored(
                *old(self),
                conversation_id,
                draft,
                samples,
                *limits,
                *final(self),
                out@,
            ),
    {
        match draft {
            Some(held) => {
                if limits.reads_as_note(samples) {
                    let action: Action = self.hold_note(note_of(conversation_id, held));
                    vec![action]
                } else {
                    Vec::new()
                }
            },
            None => Vec::new(),
        }
    }

    /// A draft that the last session left was looked for: it is offered as a preview, unless a note
    /// is being recorded or held. One whose bytes cannot be read, or are no note, is removed
    /// quietly rather than offered as speech it is not.
    pub fn recover_draft(
        &mut self,
        conversation_id: Id,
        draft: Option<VoiceDraft>,
        samples: Option<u64>,
        limits: &VoiceLimits,
    ) -> (out: Vec<Action>)
        ensures
            match draft {
                Some(held) if old(self).recording is None && old(self).held_note is None => {
                    if reads_as_note(*limits, samples) {
                        draft_held(*old(self), conversation_id, held, *final(self), out@)
                    } else {
                        *final(self) == *old(self) && out@ == seq![
                            Action::ClearDraft { conversation_id },
                        ]
                    }
                },
                _ => *final(self) == *old(self) && out@.len() == 0,
            },
    {
        match draft {
            Some(held) => {
                if !self.may_recover() {
                    Vec::new()
                } else if limits.reads_as_note(samples) {
                    let action: Action = self.hold_note(note_of(conversation_id, held));
                    vec![action]
                } else {
                    vec![Action::ClearDraft { conversation_id }]
                }
            },
            None => Vec::new(),
        }
    }

    /// Whether a draft the last session left may be offered: not while a note is being recorded or
    /// held.
    pub fn may_recover(&self) -> (r: bool)
        ensures
            r == (self.recording is None && self.held_note is None),
    {
        self.recording.is_none() && self.held_note.is_none()
    }

    /// Pauses the live capture, once.
    pub fn pause_recording(
        &mut self,
        by_interruption: bool,
        live: Live,
        limits: &VoiceLimits,
    ) -> (out: Vec<Action>)
        requires
            limits.wf(),
            live.samples * 1000 <= u64::MAX,
        ensures
            match old(self).recording {
                Some(recording) if !recording.paused => {
                    let paused = Recording {
                        paused: true,
                        paused_by_interruption: by_interruption,
                        ..recording
                    };
                    &&& *final(self) == (Voice { recording: Some(paused), ..*old(self) })
                    &&& out@ == seq![progress(paused, live, *limits)]
                },
                _ => *final(self) == *old(self) && out@.len() == 0,
            },
    {
        if let Some(recording) = self.recording {
            if !recording.paused {
                let paused = Recording {
                    paused: true,
                    paused_by_interruption: by_interruption,
                    ..recording
                };
                self.recording = Some(paused);
                return vec![progress_of(&paused, live, limits)];
            }
        }
        Vec::new()
    }

    /// Resumes a paused capture. An interruption's resume lifts only an interruption's pause.
    pub fn resume_recording(
        &mut self,
        after_interruption: bool,
        live: Live,
        limits: &VoiceLimits,
    ) -> (out: Vec<Action>)
        requires
            limits.wf(),
            live.samples * 1000 <= u64::MAX,
        ensures
            match old(self).recording {
                Some(recording) if lifts(recording, after_interruption) => {
                    let resumed = Recording {
                        paused: false,
                        paused_by_interruption: false,
                        ..recording
                    };
                    &&& *final(self) == (Voice { recording: Some(resumed), ..*old(self) })
                    &&& out@ == seq![progress(resumed, live, *limits)]
                },
                _ => *final(self) == *old(self) && out@.len() == 0,
            },
    {
        if let Some(recording) = self.recording {
            if recording.paused && (!after_interruption || recording.paused_by_interruption) {
                let resumed = Recording {
                    paused: false,
                    paused_by_interruption: false,
                    ..recording
                };
                self.recording = Some(resumed);
                return vec![progress_of(&resumed, live, limits)];
            }
        }
        Vec::new()
    }

    /// Whether a tick rewrites the descriptor: a second or more passed since it last did.
    pub open spec fn persists(recording: Recording, live: Live, limits: VoiceLimits) -> bool {
        limits.plays(live.samples as int) - recording.persisted_ms >= PERSIST_EVERY_MS
    }

    /// The recording's own tick: the descriptor once a second, the newest bars, and the end at the
    /// cap, which sends the note.
    pub fn recording_ticked(&mut self, live: Live, limits: &VoiceLimits) -> (out: Vec<Action>)
        requires
            limits.wf(),
            live.samples * 1000 <= u64::MAX,
        ensures
            match old(self).recording {
                None => *final(self) == *old(self) && out@.len() == 0,
                Some(recording) => {
                    let elapsed = limits.plays(live.samples as int);
                    let saved = Self::persists(recording, live, *limits);
                    let n = if saved {
                        1int
                    } else {
                        0
                    };
                    let ticked = Recording {
                        persisted_ms: if saved {
                            elapsed as u64
                        } else {
                            recording.persisted_ms
                        },
                        ..recording
                    };
                    &&& out@.len() > n
                    &&& saved ==> (out@[0] matches Action::SaveDraft {
                        conversation_id,
                        duration_ms,
                        amplitudes,
                    } && conversation_id == recording.conversation_id && duration_ms == elapsed
                        && amplitudes@ == live.bars@)
                    &&& out@[n] matches Action::Emit(
                        Event::RecordingProgress {
                            conversation_id,
                            elapsed_ms,
                            paused,
                            amplitudes,
                        },
                    ) && conversation_id == recording.conversation_id && elapsed_ms == elapsed
                        && paused == recording.paused && amplitudes@ == newest_bars(
                        live.bars@,
                        limits.waveform_bars,
                    )
                    &&& if live.samples >= limits.max_samples() {
                        let rest = out@.subrange(n + 1, out@.len() as int);
                        &&& *final(self) == (Voice { recording: None, ..*old(self) })
                        &&& match finished(ticked, live, *limits) {
                            Some(note) => ending(ticked, live, *limits, rest.drop_last())
                                && rest.last() == Action::UploadNote { note },
                            None => ending(ticked, live, *limits, rest),
                        }
                    } else {
                        &&& out@.len() == n + 1
                        &&& *final(self) == (Voice { recording: Some(ticked), ..*old(self) })
                    }
                },
            },
    {
        let mut out: Vec<Action> = Vec::new();
        let recording: Recording = match self.recording {
            Some(recording) => recording,
            None => {
                return out;
            },
        };
        let elapsed_ms: u64 = limits.duration(live.samples);
        let saved: bool = elapsed_ms >= recording.persisted_ms && elapsed_ms
            - recording.persisted_ms >= PERSIST_EVERY_MS;
        let persisted_ms: u64 = if saved {
            elapsed_ms
        } else {
            recording.persisted_ms
        };
        if saved {
            out.push(
                Action::SaveDraft {
                    conversation_id: recording.conversation_id,
                    duration_ms: elapsed_ms,
                    amplitudes: copy_bytes(&live.bars),
                },
            );
        }
        let ticked = Recording { persisted_ms, ..recording };
        self.recording = Some(ticked);
        out.push(
            Action::Emit(
                Event::RecordingProgress {
                    conversation_id: recording.conversation_id,
                    elapsed_ms,
                    paused: recording.paused,
                    amplitudes: newest_of(&live.bars, limits.waveform_bars),
                },
            ),
        );
        let ghost told = out@;
        if live.samples >= limits.cap() {
            let noted: Option<HeldNote> = self.finalize_recording(live, limits, &mut out);
            let ghost rest = out@.subrange(told.len() as int, out@.len() as int);
            proof {
                assert(out@.take(told.len() as int) == told);
                assert(told[0] == out@[0]);
                assert(told[told.len() - 1] == out@[told.len() - 1]);
            }
            if let Some(note) = noted {
                let ghost ended = out@;
                out.push(Action::UploadNote { note });
                assert(out@.subrange(told.len() as int, out@.len() as int).drop_last() =~= rest);
                assert(out@[0] == ended[0]);
            }
        }
        out
    }

    /// Plays a note, or stops it if it is the one playing. Any other note that plays is stopped
    /// first; the result says whether this one is to be played.
    pub fn toggle_playback(&mut self, media_id: Id, out: &mut Vec<Action>) -> (play: bool)
        ensures
            play == (old(self).playing != Some(media_id)),
            *final(self) == (Voice { playing: None, ..*old(self) }),
            final(out)@ == old(out)@ + stopping(old(self).playing),
    {
        let again: bool = match self.playing {
            Some(current) => current == media_id,
            None => false,
        };
        let mut stopped: Vec<Action> = self.stop_voice_note();
        out.append(&mut stopped);
        !again
    }

    /// A note started playing, or the speaker did not open.
    pub fn playback_started(
        &mut self,
        media_id: Id,
        speaker: Result<(), String>,
    ) -> (action: Action)
        ensures
            match speaker {
                Ok(_) => {
                    &&& *final(self) == (Voice { playing: Some(media_id), ..*old(self) })
                    &&& action == Action::Emit(Event::VoicePlaying { media_id })
                },
                Err(reason) => {
                    &&& *final(self) == *old(self)
                    &&& action == toast(Notice::SpeakerFailed { reason }, ToastKind::Error)
                },
            },
    {
        if let Err(reason) = speaker {
            return toasted(Notice::SpeakerFailed { reason }, ToastKind::Error);
        }
        self.playing = Some(media_id);
        Action::Emit(Event::VoicePlaying { media_id })
    }

    /// Stops the note that plays, if one does.
    pub fn stop_voice_note(&mut self) -> (out: Vec<Action>)
        ensures
            *final(self) == (Voice { playing: None, ..*old(self) }),
            out@ == stopping(old(self).playing),
    {
        match self.playing.take() {
            Some(media_id) => vec![
                Action::StopPlayback,
                Action::Emit(Event::VoiceStopped { media_id }),
            ],
            None => Vec::new(),
        }
    }

    /// A playback ran out of samples. A late report of a note that was replaced ends nothing.
    pub fn voice_note_ended(&mut self, media_id: Id) -> (out: Vec<Action>)
        ensures
            old(self).playing == Some(media_id) ==> *final(self) == (Voice {
                playing: None,
                ..*old(self)
            }) && out@ == stopping(old(self).playing),
            old(self).playing != Some(media_id) ==> *final(self) == *old(self) && out@.len() == 0,
    {
        let current: bool = match self.playing {
            Some(playing) => playing == media_id,
            None => false,
        };
        if current {
            self.stop_voice_note()
        } else {
            Vec::new()
        }
    }

    /// Sets the pace of notes, the one playing included.
    pub fn set_voice_speed(&mut self, percent: u32) -> (out: Vec<Action>)
        ensures
            *final(self) == (Voice { speed_percent: percent, ..*old(self) }),
            out@ == (if old(self).playing is Some {
                seq![Action::SetPace { percent }]
            } else {
                Seq::empty()
            }),
    {
        self.speed_percent = percent;
        if self.playing.is_some() {
            vec![Action::SetPace { percent }]
        } else {
            Vec::new()
        }
    }
}

/// What stopping a note asks for.
pub open spec fn stopping(playing: Option<Id>) -> Seq<Action> {
    match playing {
        Some(media_id) => seq![
            Action::StopPlayback,
            Action::Emit(Event::VoiceStopped { media_id }),
        ],
        None => Seq::empty(),
    }
}

/// A live recording stated to the composer.
pub open spec fn progress(recording: Recording, live: Live, limits: VoiceLimits) -> Action {
    Action::Emit(
        Event::RecordingProgress {
            conversation_id: recording.conversation_id,
            elapsed_ms: limits.plays(live.samples as int) as u64,
            paused: recording.paused,
            amplitudes: live.bars,
        },
    )
}

fn progress_of(recording: &Recording, live: Live, limits: &VoiceLimits) -> (action: Action)
    requires
        limits.wf(),
        live.samples * 1000 <= u64::MAX,
    ensures
        action == progress(*recording, live, *limits),
{
    Action::Emit(
        Event::RecordingProgress {
            conversation_id: recording.conversation_id,
            elapsed_ms: limits.duration(live.samples),
            paused: recording.paused,
            amplitudes: live.bars,
        },
    )
}

/// The newest bars, as many as are drawn.
pub open spec fn newest_bars(bars: Seq<u8>, count: usize) -> Seq<u8> {
    if bars.len() > count {
        bars.subrange(bars.len() - count, bars.len() as int)
    } else {
        bars
    }
}

fn newest_of(bars: &Vec<u8>, count: usize) -> (newest: Vec<u8>)
    ensures
        newest@ == newest_bars(bars@, count),
{
    let from: usize = if bars.len() > count {
        bars.len() - count
    } else {
        0
    };
    let mut newest: Vec<u8> = Vec::new();
    let mut i: usize = from;
    while i < bars.len()
        invariant
            from <= i <= bars@.len(),
            newest@ == bars@.subrange(from as int, i as int),
        decreases bars.len() - i,
    {
        newest.push(bars[i]);
        assert(newest@ =~= bars@.subrange(from as int, i + 1));
        i = i + 1;
    }
    assert(newest@ =~= newest_bars(bars@, count));
    newest
}

/// Whether a draft's recording can be read, and is long enough to be a note.
pub open spec fn reads_as_note(limits: VoiceLimits, samples: Option<u64>) -> bool {
    samples matches Some(n) && limits.is_note(n as int)
}

impl VoiceLimits {
    fn reads_as_note(&self, samples: Option<u64>) -> (r: bool)
        ensures
            r == reads_as_note(*self, samples),
    {
        match samples {
            Some(n) => n >= (self.sample_rate / 4) as u64,
            None => false,
        }
    }
}

/// The note that a draft holds. It makes no promise to disappear.
pub open spec fn note_in(conversation_id: Id, draft: VoiceDraft) -> HeldNote {
    HeldNote {
        conversation_id,
        duration_ms: draft.duration_ms,
        amplitudes: draft.amplitudes,
        expires_in_ms: None,
    }
}

fn note_of(conversation_id: Id, draft: VoiceDraft) -> (note: HeldNote)
    ensures
        note == note_in(conversation_id, draft),
{
    HeldNote {
        conversation_id,
        duration_ms: draft.duration_ms,
        amplitudes: draft.amplitudes,
        expires_in_ms: None,
    }
}

/// Whether a draft is held as a preview.
pub open spec fn draft_held(
    before: Voice,
    conversation_id: Id,
    draft: VoiceDraft,
    after: Voice,
    out: Seq<Action>,
) -> bool {
    let note = note_in(conversation_id, draft);
    &&& after == (Voice { held_note: Some(note), undo_open: false, ..before })
    &&& out.len() == 1
    &&& previews(out[0], note)
}

/// Whether a draft that was read back after a failed upload is held again as it should be.
pub open spec fn draft_restored(
    before: Voice,
    conversation_id: Id,
    draft: Option<VoiceDraft>,
    samples: Option<u64>,
    limits: VoiceLimits,
    after: Voice,
    out: Seq<Action>,
) -> bool {
    match draft {
        Some(held) if reads_as_note(limits, samples) => draft_held(
            before,
            conversation_id,
            held,
            after,
            out,
        ),
        _ => after == before && out.len() == 0,
    }
}

/// How many samples of a recording are sent: all, up to the cap.
pub fn sent_samples(samples: usize, limits: &VoiceLimits) -> (sent: usize)
    requires
        limits.wf(),
    ensures
        sent == (if samples <= limits.max_samples() {
            samples as int
        } else {
            limits.max_samples()
        }),
{
    let cap: u64 = limits.cap();
    if samples as u64 <= cap {
        samples
    } else {
        cap as usize
    }
}

/// What a note that was read back is sent as.
pub enum NoteStep {
    /// It is not sent, and the person told. Its draft stays: only a committed upload removes it.
    Refused(Vec<Action>),
    /// It is uploaded as this.
    Upload(OutgoingMedia),
}

/// Whether a note that was read back is sent as it should be.
pub open spec fn note_planned(
    note: HeldNote,
    samples: Option<u64>,
    file_bytes: u64,
    folded: Vec<u8>,
    limits: VoiceLimits,
    step: NoteStep,
) -> bool {
    match samples {
        None => step matches NoteStep::Refused(out) && out@ =~= seq![
            toast(Notice::NoteUnreadable, ToastKind::Error),
        ],
        Some(n) => if file_bytes > limits.max_bytes {
            step matches NoteStep::Refused(out) && out@ =~= seq![
                toast(Notice::NoteTooLong, ToastKind::Error),
            ]
        } else {
            step matches NoteStep::Upload(plan) && plan.kind == MediaKind::VoiceNote
                && plan.mime_type@ == "audio/wav"@ && plan.size_bytes == file_bytes
                && plan.key@.len() == 0 && plan.nonce@.len() == 0 && plan.width is None
                && plan.height is None && plan.duration_ms == Some(limits.plays(n as int) as u64)
                && plan.waveform == (if note.amplitudes@.len() == 0 {
                None::<Vec<u8>>
            } else {
                Some(folded)
            }) && plan.caption is None && plan.expires_in_ms == note.expires_in_ms
        },
    }
}

/// Plans the upload of a note.
///
/// `samples` is how many samples are sent, or `None` where the recording could not be read back;
/// `file_bytes` the size of the file they make, and `folded` the fold of the note's bars. The draft
/// survives every failure on the way.
pub fn plan_note(
    note: HeldNote,
    samples: Option<u64>,
    file_bytes: u64,
    folded: Vec<u8>,
    limits: &VoiceLimits,
) -> (step: NoteStep)
    requires
        limits.wf(),
        samples matches Some(n) ==> n * 1000 <= u64::MAX,
    ensures
        note_planned(note, samples, file_bytes, folded, *limits, step),
{
    let n: u64 = match samples {
        Some(n) => n,
        None => {
            return NoteStep::Refused(vec![toasted(Notice::NoteUnreadable, ToastKind::Error)]);
        },
    };
    let duration_ms: u64 = limits.duration(n);
    if file_bytes > limits.max_bytes {
        return NoteStep::Refused(vec![toasted(Notice::NoteTooLong, ToastKind::Error)]);
    }
    NoteStep::Upload(
        OutgoingMedia {
            kind: MediaKind::VoiceNote,
            mime_type: "audio/wav".to_owned(),
            size_bytes: file_bytes,
            key: Vec::new(),
            nonce: Vec::new(),
            width: None,
            height: None,
            duration_ms: Some(duration_ms),
            waveform: if note.amplitudes.len() == 0 {
                None
            } else {
                Some(folded)
            },
            caption: None,
            expires_in_ms: note.expires_in_ms,
        },
    )
}

/// The loudest of some samples so far: its distance from silence.
pub open spec fn loudness(sample: i16) -> int {
    if sample < 0 {
        -(sample as int)
    } else {
        sample as int
    }
}

/// One window of the live waveform, as far as it has been filled.
#[derive(Debug, Clone, Copy, PartialEq, Eq, Structural)]
pub struct Window {
    /// The first of its loudest samples.
    pub peak: i16,
    pub len: u64,
}

/// The window before anything was taken.
pub open spec fn empty_window() -> Window {
    Window { peak: 0, len: 0 }
}

/// The window with one more sample, whether or not that fills it.
pub open spec fn window_with(window: Window, sample: i16) -> Window {
    Window {
        peak: if loudness(sample) > loudness(window.peak) {
            sample
        } else {
            window.peak
        },
        len: (window.len + 1) as u64,
    }
}

/// The windows that a run of samples fills, each by its peak, and the one it leaves open.
pub open spec fn windows(samples: Seq<i16>, window_samples: u64) -> (Seq<i16>, Window)
    decreases samples.len(),
{
    if samples.len() == 0 {
        (Seq::empty(), empty_window())
    } else {
        let (peaks, open) = windows(samples.drop_last(), window_samples);
        let grown = window_with(open, samples.last());
        if grown.len >= window_samples {
            (peaks.push(grown.peak), empty_window())
        } else {
            (peaks, grown)
        }
    }
}

impl Window {
    pub fn new() -> (window: Self)
        ensures
            window == empty_window(),
    {
        Window { peak: 0, len: 0 }
    }

    /// Takes one sample; a sample that fills the window hands its peak out and empties it.
    pub fn take(&mut self, sample: i16, limits: &VoiceLimits) -> (peak: Option<i16>)
        requires
            limits.wf(),
            old(self).len < limits.window_samples,
        ensures
            final(self).len < limits.window_samples,
            ({
                let grown = window_with(*old(self), sample);
                if grown.len >= limits.window_samples {
                    peak == Some(grown.peak) && *final(self) == empty_window()
                } else {
                    peak is None && *final(self) == grown
                }
            }),
    {
        let ours: i32 = if sample < 0 {
            -(sample as i32)
        } else {
            sample as i32
        };
        let best: i32 = if self.peak < 0 {
            -(self.peak as i32)
        } else {
            self.peak as i32
        };
        if ours > best {
            self.peak = sample;
        }
        self.len = self.len + 1;
        if self.len >= limits.window_samples {
            let peak: i16 = self.peak;
            self.peak = 0;
            self.len = 0;
            Some(peak)
        } else {
            None
        }
    }
}

/// What the capture does with one chunk.
#[derive(Debug, Clone, Copy, PartialEq, Eq, Structural)]
pub enum ChunkStep {
    /// Stop capturing.
    Stop,
    /// Drop the chunk: a pause is time the note does not contain.
    Skip,
    /// Append the chunk.
    Append,
}

impl Window {
    /// Decides about one chunk: a stop ends the capture, a pause drops the chunk, and a note at its
    /// cap takes no more. A window that a pause interrupts is dropped: a bar stands for a tenth of a
    /// second that somebody spoke.
    pub fn chunk_step(
        &mut self,
        stopped: bool,
        paused: bool,
        samples: u64,
        limits: &VoiceLimits,
    ) -> (step: ChunkStep)
        requires
            limits.wf(),
        ensures
            step == (if stopped {
                ChunkStep::Stop
            } else if paused {
                ChunkStep::Skip
            } else if samples >= limits.max_samples() {
                ChunkStep::Stop
            } else {
                ChunkStep::Append
            }),
            *final(self) == (if step == ChunkStep::Skip {
                empty_window()
            } else {
                *old(self)
            }),
    {
        if stopped {
            ChunkStep::Stop
        } else if paused {
            self.peak = 0;
            self.len = 0;
            ChunkStep::Skip
        } else if samples >= limits.cap() {
            ChunkStep::Stop
        } else {
            ChunkStep::Append
        }
    }
}

/// The samples one chunk of a playback holds: a tenth of a second, and at least one.
pub fn playback_chunk(rate: u32) -> (len: usize)
    ensures
        len == (if rate / 10 == 0 {
            1
        } else {
            rate / 10
        }),
{
    let tenth: u32 = rate / 10;
    if tenth == 0 {
        1
    } else {
        tenth as usize
    }
}

/// Whether a note has been heard: nine tenths of it have been played.
pub open spec fn is_heard(played: int, total: int) -> bool {
    played * 10 >= total * 9
}

/// Whether a note has been heard: nine tenths of it have been played.
pub fn heard(played: usize, total: usize) -> (r: bool)
    ensures
        r == is_heard(played as int, total as int),
{
    played as u128 * 10 >= total as u128 * 9
}

/// Where a playing note stands.
#[derive(Debug, Clone, Copy, PartialEq, Eq, Structural)]
pub struct Playhead {
    /// The samples that were played.
    pub played: usize,
    /// The samples of the note.
    pub total: usize,
    /// The samples of one chunk.
    pub chunk: usize,
    /// Whether it was reported that the note has been heard.
    pub reported: bool,
}

/// What a playback does next.
#[derive(Debug, Clone, Copy, PartialEq, Eq, Structural)]
pub enum PlayStep {
    /// It was stopped: nothing is reported.
    Stop,
    /// Play the samples from one place up to another.
    Play { from: usize, to: usize },
    /// The note played to its end: that is reported.
    End,
}

/// Where a chunk that begins at some place ends.
pub open spec fn chunk_end(head: Playhead) -> int {
    if head.played + head.chunk < head.total {
        head.played + head.chunk
    } else {
        head.total as int
    }
}

impl Playhead {
    /// Whether no more was played than there is, and a chunk moves it on.
    pub open spec fn wf(self) -> bool {
        self.played <= self.total && self.chunk > 0
    }

    /// At the start of a note.
    pub fn new(total: usize, rate: u32) -> (head: Self)
        ensures
            head.wf(),
            head.played == 0,
            head.total == total,
            head.chunk == (if rate / 10 == 0 {
                1
            } else {
                rate / 10
            }),
            !head.reported,
    {
        Playhead { played: 0, total, chunk: playback_chunk(rate), reported: false }
    }

    /// What is done next.
    pub fn next(&self, stopped: bool) -> (step: PlayStep)
        requires
            self.wf(),
        ensures
            step == (if stopped {
                PlayStep::Stop
            } else if self.played < self.total {
                PlayStep::Play { from: self.played, to: chunk_end(*self) as usize }
            } else {
                PlayStep::End
            }),
    {
        if stopped {
            return PlayStep::Stop;
        }
        if self.played >= self.total {
            return PlayStep::End;
        }
        let left: usize = self.total - self.played;
        let to: usize = if self.chunk < left {
            self.played + self.chunk
        } else {
            self.total
        };
        PlayStep::Play { from: self.played, to }
    }

    /// A chunk was handed to the speaker. Says whether it is now to be reported that the note has
    /// been heard, which is once.
    pub fn advance(&mut self) -> (report: bool)
        requires
            old(self).wf(),
        ensures
            final(self).wf(),
            ({
                let played = chunk_end(*old(self));
                &&& report == (!old(self).reported && is_heard(played, old(self).total as int))
                &&& *final(self) == (Playhead {
                    played: played as usize,
                    reported: old(self).reported || report,
                    ..*old(self)
                })
            }),
    {
        let left: usize = self.total - self.played;
        self.played = if self.chunk < left {
            self.played + self.chunk
        } else {
            self.total
        };
        let report: bool = !self.reported && heard(self.played, self.total);
        if report {
            self.reported = true;
        }
        report
    }
}

/// Every chunk moves a note on, and a note that played to its end was reported heard.
pub proof fn law_a_note_plays_through(before: Playhead, after: Playhead, report: bool)
    requires
        before.wf(),
        before.played < before.total,
        after == (Playhead {
            played: chunk_end(before) as usize,
            reported: before.reported || report,
            ..before
        }),
        report == (!before.reported && is_heard(chunk_end(before), before.total as int)),
    ensures
        before.played < after.played <= after.total,
        after.played == after.total ==> after.reported,
        before.reported ==> !report,
{
}

/// Whatever a capture was and however it ended, its end stops the device and tells the window, and
/// leaves a draft behind exactly where it leaves a note.
pub proof fn law_a_note_keeps_its_draft(
    recording: Recording,
    live: Live,
    limits: VoiceLimits,
    out: Seq<Action>,
)
    requires
        ending(recording, live, limits, out),
    ensures
        out[0] == Action::StopCapture,
        finished(recording, live, limits) is Some <==> !out.contains(
            Action::ClearDraft { conversation_id: recording.conversation_id },
        ),
{
    let cleared = Action::ClearDraft { conversation_id: recording.conversation_id };
    if finished(recording, live, limits) is None {
        assert(out[2] == cleared);
    } else if out.contains(cleared) {
        let i = choose|i: int| 0 <= i < out.len() && out[i] == cleared;
        assert(i == 0 || i == 1 || i == 2);
    }
}

/// Whether some actions remove a draft.
pub open spec fn clears_draft(out: Seq<Action>) -> bool {
    exists|i: int| 0 <= i < out.len() && (#[trigger] out[i]) is ClearDraft
}

/// Reading a note back to send it, and handing it back to its preview after a failed upload, remove
/// no draft, whatever was or was not read.
pub proof fn law_a_draft_survives_its_reading(
    note: HeldNote,
    samples: Option<u64>,
    file_bytes: u64,
    folded: Vec<u8>,
    limits: VoiceLimits,
    step: NoteStep,
    before: Voice,
    conversation_id: Id,
    draft: Option<VoiceDraft>,
    after: Voice,
    restored: Seq<Action>,
)
    requires
        note_planned(note, samples, file_bytes, folded, limits, step),
        draft_restored(before, conversation_id, draft, samples, limits, after, restored),
    ensures
        step matches NoteStep::Refused(out) ==> !clears_draft(out@),
        !clears_draft(restored),
{
}

/// Whether a resume lifts the pause that stands: an interruption's lifts only an interruption's.
pub open spec fn lifts(recording: Recording, after_interruption: bool) -> bool {
    recording.paused && (!after_interruption || recording.paused_by_interruption)
}

/// A pause the speaker chose is not lifted by an interruption's passing, only by the speaker; an
/// interruption's pause is lifted by either.
pub proof fn law_the_speakers_pause_is_theirs(recording: Recording)
    requires
        recording.paused,
    ensures
        lifts(recording, false),
        lifts(recording, true) <==> recording.paused_by_interruption,
{
}

/// How long samples play, and how many a note may hold: a second holds as many as the rate says, and
/// less than a quarter of a second is no note.
pub proof fn law_samples_play_at_their_rate(limits: VoiceLimits, seconds: nat)
    requires
        limits.wf(),
    ensures
        limits.plays((seconds * limits.sample_rate) as int) == seconds * 1000,
        limits.plays(0) == 0,
        limits.is_note(limits.sample_rate as int),
        limits.is_note((limits.sample_rate / 4) as int),
        limits.sample_rate >= 4 ==> !limits.is_note(limits.sample_rate / 4 - 1),
        limits.max_samples() * 1000 <= limits.max_ms * limits.sample_rate,
        limits.max_ms * limits.sample_rate < limits.max_samples() * 1000 + 1000,
{
    let rate = limits.sample_rate as int;
    assert((seconds * rate) * 1000 / rate == seconds * 1000) by (nonlinear_arith)
        requires
            rate > 0,
    ;
    assert(0int * 1000 / rate == 0) by (nonlinear_arith)
        requires
            rate > 0,
    ;
}

/// A preview states the held note: its own conversation, its own length and its own bars. A length
/// that does not fit is stated as nothing.
pub proof fn law_a_preview_states_the_held_note(action: Action, note: HeldNote)
    requires
        previews(action, note),
    ensures
        action is Emit,
        action->Emit_0 is RecordingPreview,
        action->Emit_0->RecordingPreview_conversation_id == note.conversation_id,
        action->Emit_0->RecordingPreview_amplitudes@ == note.amplitudes@,
        note.duration_ms <= u32::MAX ==> action->Emit_0->RecordingPreview_duration_ms
            == note.duration_ms,
        note.duration_ms > u32::MAX ==> action->Emit_0->RecordingPreview_duration_ms == 0,
{
}

/// A capture that ends stops the device and says so; one that is long enough is written down with its
/// length and its bars, under its own conversation; one that is not is removed, and said to be too
/// short.
pub proof fn law_an_ended_capture_is_written_down(
    recording: Recording,
    live: Live,
    limits: VoiceLimits,
    out: Seq<Action>,
)
    requires
        ending(recording, live, limits, out),
    ensures
        out[0] == Action::StopCapture,
        out[1] == Action::Emit(
            Event::RecordingStopped { conversation_id: recording.conversation_id },
        ),
        live.samples >= limits.sample_rate / 4 ==> {
            &&& out.len() == 3
            &&& out[2] is SaveDraft
            &&& out[2]->SaveDraft_conversation_id == recording.conversation_id
            &&& out[2]->SaveDraft_duration_ms == live.samples * 1000 / limits.sample_rate as int
            &&& out[2]->SaveDraft_amplitudes@ == live.bars@
        },
        live.samples < limits.sample_rate / 4 ==> {
            &&& out.len() == 4
            &&& out[2] == (Action::ClearDraft { conversation_id: recording.conversation_id })
            &&& out[3] matches Action::Emit(Event::Toast { notice, .. }) && notice
                == Notice::NoteTooShort
        },
{
}

/// The note that a capture leaves is what was recorded: in its own conversation, as long as its
/// samples play, with its bars, and with the lifetime that stood when it began.
pub proof fn law_a_note_is_what_was_recorded(
    recording: Recording,
    live: Live,
    limits: VoiceLimits,
)
    requires
        limits.wf(),
        live.samples * 1000 <= u64::MAX,
    ensures
        finished(recording, live, limits) is Some <==> live.samples >= limits.sample_rate / 4,
        finished(recording, live, limits) is Some ==> {
            let note = finished(recording, live, limits).unwrap();
            &&& note.conversation_id == recording.conversation_id
            &&& note.duration_ms == live.samples * 1000 / limits.sample_rate as int
            &&& note.amplitudes@ == live.bars@
            &&& note.expires_in_ms == recording.expires_in_ms
        },
{
    let samples = live.samples as int;
    let rate = limits.sample_rate as int;
    assert(0 <= samples * 1000 / rate <= samples * 1000) by (nonlinear_arith)
        requires
            rate > 0,
            samples >= 0,
    ;
}

/// Stopping a note stops the speaker and says which note stopped; nothing that plays is nothing to
/// stop.
pub proof fn law_a_stopped_note_is_told(playing: Option<Id>)
    ensures
        playing is None ==> stopping(playing).len() == 0,
        playing is Some ==> stopping(playing).len() == 2 && stopping(playing)[0]
            == Action::StopPlayback && stopping(playing)[1] == Action::Emit(
            Event::VoiceStopped { media_id: playing.unwrap() },
        ),
{
}

/// A live recording is stated as it is: its conversation, whether it is paused, its bars, and how
/// long its samples play.
pub proof fn law_a_recording_is_stated_as_it_is(
    recording: Recording,
    live: Live,
    limits: VoiceLimits,
)
    requires
        limits.wf(),
        live.samples * 1000 <= u64::MAX,
    ensures
        progress(recording, live, limits) is Emit,
        progress(recording, live, limits)->Emit_0 is RecordingProgress,
        ({
            let told = progress(recording, live, limits)->Emit_0;
            &&& told->RecordingProgress_conversation_id == recording.conversation_id
            &&& told->RecordingProgress_paused == recording.paused
            &&& told->RecordingProgress_amplitudes == live.bars
            &&& told->RecordingProgress_elapsed_ms == live.samples * 1000
                / limits.sample_rate as int
        }),
{
    let samples = live.samples as int;
    let rate = limits.sample_rate as int;
    assert(0 <= samples * 1000 / rate <= samples * 1000) by (nonlinear_arith)
        requires
            rate > 0,
            samples >= 0,
    ;
}

/// The bars that are drawn are the newest, as many as there is room for, in their order.
pub proof fn law_the_newest_bars_are_drawn(bars: Seq<u8>, count: usize, i: int)
    ensures
        newest_bars(bars, count).len() <= count,
        bars.len() <= count ==> newest_bars(bars, count) == bars,
        bars.len() > count ==> newest_bars(bars, count).len() == count,
        0 <= i < newest_bars(bars, count).len() ==> newest_bars(bars, count)[i] == bars[bars.len()
            - newest_bars(bars, count).len() + i],
{
}

/// A draft is a note exactly where its recording can be read and is long enough; and the note it
/// holds is its own conversation's, as long and with the bars it was written with, without a promise
/// to disappear.
pub proof fn law_a_draft_holds_the_note_it_was(
    limits: VoiceLimits,
    samples: Option<u64>,
    conversation_id: Id,
    draft: VoiceDraft,
)
    ensures
        reads_as_note(limits, samples) <==> samples is Some && samples.unwrap()
            >= limits.sample_rate / 4,
        note_in(conversation_id, draft).conversation_id == conversation_id,
        note_in(conversation_id, draft).duration_ms == draft.duration_ms,
        note_in(conversation_id, draft).amplitudes == draft.amplitudes,
        note_in(conversation_id, draft).expires_in_ms is None,
{
}

/// A draft that is read back after a failed upload is held again and shown as the note it was; one
/// that cannot be read is left alone, and what was held stays held.
pub proof fn law_a_restored_draft_is_held_again(
    before: Voice,
    conversation_id: Id,
    draft: Option<VoiceDraft>,
    samples: Option<u64>,
    limits: VoiceLimits,
    after: Voice,
    out: Seq<Action>,
)
    requires
        draft_restored(before, conversation_id, draft, samples, limits, after, out),
    ensures
        ({
            let readable = draft is Some && samples is Some && samples.unwrap()
                >= limits.sample_rate / 4;
            &&& readable ==> {
                &&& after.held_note is Some
                &&& after.held_note.unwrap().conversation_id == conversation_id
                &&& after.held_note.unwrap().duration_ms == draft.unwrap().duration_ms
                &&& after.held_note.unwrap().amplitudes == draft.unwrap().amplitudes
                &&& !after.undo_open
                &&& out.len() == 1
                &&& out[0] matches Action::Emit(
                    Event::RecordingPreview { conversation_id: c, amplitudes, .. },
                ) && c == conversation_id && amplitudes@ == draft.unwrap().amplitudes@
            }
            &&& !readable ==> after == before && out.len() == 0
            &&& after.recording == before.recording
            &&& after.playing == before.playing
        }),
{
}

/// A note that was read back is uploaded as a voice note of its own length, size, waveform and
/// lifetime, unless it could not be read or its file is too large, which is said.
pub proof fn law_a_note_is_uploaded_as_it_is(
    note: HeldNote,
    samples: Option<u64>,
    file_bytes: u64,
    folded: Vec<u8>,
    limits: VoiceLimits,
    step: NoteStep,
)
    requires
        note_planned(note, samples, file_bytes, folded, limits, step),
        limits.wf(),
        samples matches Some(n) ==> n * 1000 <= u64::MAX,
    ensures
        step is Upload <==> samples is Some && file_bytes <= limits.max_bytes,
        step is Upload ==> {
            let plan = step->Upload_0;
            &&& plan.kind == MediaKind::VoiceNote
            &&& plan.mime_type@ == "audio/wav"@
            &&& plan.size_bytes == file_bytes
            &&& plan.duration_ms is Some
            &&& plan.duration_ms.unwrap() == samples.unwrap() * 1000 / limits.sample_rate as int
            &&& plan.waveform is Some <==> note.amplitudes@.len() > 0
            &&& plan.waveform is Some ==> plan.waveform.unwrap() == folded
            &&& plan.expires_in_ms == note.expires_in_ms
            &&& plan.width is None
            &&& plan.height is None
            &&& plan.caption is None
        },
        samples is None ==> step->Refused_0@.len() == 1 && (step->Refused_0@[0] matches Action::Emit(
            Event::Toast { notice, .. },
        ) && notice == Notice::NoteUnreadable),
        samples is Some && file_bytes > limits.max_bytes ==> step->Refused_0@.len() == 1 && (
        step->Refused_0@[0] matches Action::Emit(Event::Toast { notice, .. }) && notice
            == Notice::NoteTooLong),
{
    if samples is Some {
        let n = samples.unwrap() as int;
        let rate = limits.sample_rate as int;
        assert(0 <= n * 1000 / rate <= n * 1000) by (nonlinear_arith)
            requires
                rate > 0,
                n >= 0,
        ;
    }
}

/// How loud a sample is does not depend on its sign, and silence is the quietest.
pub proof fn law_loudness_is_distance_from_silence(sample: i16)
    ensures
        loudness(sample) >= 0,
        loudness(sample) == 0 <==> sample == 0,
        loudness(sample) == sample || loudness(sample) == -sample,
{
}

/// A window's peak is one of its samples, and none of them is louder; it counts every sample.
pub proof fn law_a_window_peaks_at_its_loudest(window: Window, sample: i16)
    requires
        window.len < u64::MAX,
    ensures
        window_with(window, sample).len == window.len + 1,
        window_with(window, sample).peak == window.peak || window_with(window, sample).peak
            == sample,
        loudness(window_with(window, sample).peak) >= loudness(sample),
        loudness(window_with(window, sample).peak) >= loudness(window.peak),
        loudness(sample) <= loudness(window.peak) ==> window_with(window, sample).peak
            == window.peak,
        empty_window().len == 0,
        empty_window().peak == 0,
{
}

/// Samples fill one bar for each whole window, and leave the rest in the window that is open.
pub proof fn law_every_window_is_one_bar(samples: Seq<i16>, window_samples: u64)
    requires
        window_samples > 0,
    ensures
        windows(samples, window_samples).1.len < window_samples,
        windows(samples, window_samples).0.len() * window_samples + windows(
            samples,
            window_samples,
        ).1.len == samples.len(),
    decreases samples.len(),
{
    if samples.len() > 0 {
        law_every_window_is_one_bar(samples.drop_last(), window_samples);
        let (peaks, open) = windows(samples.drop_last(), window_samples);
        let n = peaks.len() as int;
        let w = window_samples as int;
        assert((n + 1) * w == n * w + w) by (nonlinear_arith);
    }
}

/// A note has been heard from nine tenths of it on, and not before.
pub proof fn law_a_note_is_heard_at_nine_tenths(played: int, total: int)
    requires
        0 <= played <= total,
    ensures
        is_heard(total, total),
        is_heard(played, total) <==> 10 * (total - played) <= total,
        total > 0 ==> !is_heard(0, total),
{
}

/// The descriptor of a recording is rewritten once a second more of it plays than the descriptor
/// states, and not before. The recording ticks four times a second, and a discarded note can be had
/// back for five.
pub proof fn law_a_recording_is_written_down_each_second(
    recording: Recording,
    live: Live,
    limits: VoiceLimits,
)
    ensures
        Voice::persists(recording, live, limits) <==> limits.plays(live.samples as int)
            >= recording.persisted_ms + 1000,
        RECORDING_TICK_MS * 4 == 1000,
        NOTE_UNDO_WINDOW_MS == 5 * 1000,
{
}

/// A note that cannot be read back, and one that is too long to send, is not sent; the person is
/// told which, as an error, once.
pub proof fn law_a_note_that_is_not_sent_says_why(
    note: HeldNote,
    samples: Option<u64>,
    file_bytes: u64,
    folded: Vec<u8>,
    limits: VoiceLimits,
    step: NoteStep,
)
    requires
        note_planned(note, samples, file_bytes, folded, limits, step),
    ensures
        samples is None ==> step is Refused && step->Refused_0@ == seq![
            Action::Emit(Event::Toast { notice: Notice::NoteUnreadable, kind: ToastKind::Error }),
        ],
        samples is Some && file_bytes > limits.max_bytes ==> step is Refused && step->Refused_0@
            == seq![
            Action::Emit(Event::Toast { notice: Notice::NoteTooLong, kind: ToastKind::Error }),
        ],
        samples is Some && file_bytes <= limits.max_bytes ==> step is Upload,
{
}

} // verus!
