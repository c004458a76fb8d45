use vstd::prelude::*;
use vstd::string::*;

use vstd::arithmetic::div_mod::{lemma_div_by_multiple, lemma_div_is_ordered};

use crate::level::{frame_sums, frame_sums_of, frame_total, lemma_sum_bound, level_of, LevelStats};

verus! {

/// Sample rate assumed until a capture stream reports its own.
pub const DEFAULT_SAMPLE_RATE_HZ: u32 = 16000;

/// Minimum time between two level readings handed to the UI.
pub const LEVEL_EMIT_INTERVAL_MS: u64 = 50;

/// Division rounding toward zero, as integer division in Rust does.
pub open spec fn trunc_div(a: int, d: int) -> int {
    if a >= 0 {
        a / d
    } else {
        -((-a) / d)
    }
}

/// Mono samples of an interleaved batch: the per-frame average of the channels.
pub open spec fn downmix_of(s: Seq<i16>, c: nat) -> Seq<i16> {
    Seq::new(frame_total(s, c), |f: int| trunc_div(frame_sums_of(s, c)[f], c as int) as i16)
}

/// The part of the recorder that recording commands and capture act on.
pub struct SessionView {
    pub recording: bool,
    pub buffer: Seq<i16>,
}

pub open spec fn after_begin(v: SessionView) -> SessionView {
    if v.recording {
        v
    } else {
        SessionView { recording: true, buffer: Seq::empty() }
    }
}

/// Samples that a stop hands back.
pub open spec fn drained(v: SessionView) -> Seq<i16> {
    if v.recording {
        v.buffer
    } else {
        Seq::empty()
    }
}

pub open spec fn after_end(v: SessionView) -> SessionView {
    if v.recording {
        SessionView { recording: false, buffer: Seq::empty() }
    } else {
        v
    }
}

/// Mono samples arriving from capture are kept only while recording.
pub open spec fn after_capture(v: SessionView, mono: Seq<i16>) -> SessionView {
    if v.recording {
        SessionView { recording: true, buffer: v.buffer + mono }
    } else {
        v
    }
}

/// A command or a captured mono batch, as seen by the recorder.
pub enum SessionEvent {
    Begin,
    Capture(Seq<i16>),
    End,
}

pub open spec fn apply_event(v: SessionView, e: SessionEvent) -> SessionView {
    match e {
        SessionEvent::Begin => after_begin(v),
        SessionEvent::Capture(mono) => after_capture(v, mono),
        SessionEvent::End => after_end(v),
    }
}

pub open spec fn run_events(v: SessionView, evs: Seq<SessionEvent>) -> SessionView
    decreases evs.len(),
{
    if evs.len() == 0 {
        v
    } else {
        apply_event(run_events(v, evs.drop_last()), evs.last())
    }
}

/// Concatenation of the captured batches of a run, in order.
pub open spec fn captured_in(evs: Seq<SessionEvent>) -> Seq<i16>
    decreases evs.len(),
{
    if evs.len() == 0 {
        Seq::empty()
    } else {
        match evs.last() {
            SessionEvent::Capture(mono) => captured_in(evs.drop_last()) + mono,
            _ => captured_in(evs.drop_last()),
        }
    }
}

pub open spec fn has_no_end(evs: Seq<SessionEvent>) -> bool {
    forall|i: int| 0 <= i < evs.len() ==> !(#[trigger] evs[i] is End)
}

/// Recording state shared by the capture callback and the recording commands.
/// Timestamps are milliseconds on a monotonic clock.
#[derive(Debug)]
pub struct RecorderState {
    pub is_recording: bool,
    pub buffer: Vec<i16>,
    pub start_instant: Option<u64>,
    pub sample_rate_hz: u32,
    pub last_level_emit: Option<u64>,
}

/// Outcome of a toggle: a new session, or the samples of the session that ended.
#[derive(Debug)]
pub enum Toggle {
    Started,
    Stopped(Vec<i16>),
}

/// Why a user's toggle is refused while no model is loaded.
pub const NO_MODEL_MESSAGE: &'static str = "No model selected. Please select and download a model first.";

/// The lifecycle changes that the UI observes.
#[derive(Clone, Copy, Debug, PartialEq, Eq)]
pub enum LifecycleSignal {
    RecordingStarted,
    RecordingStopped,
    TranscriptionStarted,
    TranscriptionCompleted,
    TranscriptionFailed,
}

/// Signals for a recorder change: a start announces the recording; a stop announces the
/// transcription it hands off and the end of the recording.
pub open spec fn signals_of(started: bool, stopped: bool) -> Seq<LifecycleSignal> {
    if started {
        seq![LifecycleSignal::RecordingStarted]
    } else if stopped {
        seq![LifecycleSignal::TranscriptionStarted, LifecycleSignal::RecordingStopped]
    } else {
        Seq::empty()
    }
}

/// The signals to emit after a recorder change.
pub fn lifecycle_signals(started: bool, stopped: bool) -> (v: Vec<LifecycleSignal>)
    ensures
        v@ == signals_of(started, stopped),
{
    let mut v: Vec<LifecycleSignal> = Vec::new();
    if started {
        v.push(LifecycleSignal::RecordingStarted);
    } else if stopped {
        v.push(LifecycleSignal::TranscriptionStarted);
        v.push(LifecycleSignal::RecordingStopped);
    }
    proof {
        assert(v@ =~= signals_of(started, stopped));
    }
    v
}

/// The signal that ends a transcription.
pub fn transcription_signal(succeeded: bool) -> (s: LifecycleSignal)
    ensures
        s == (if succeeded {
            LifecycleSignal::TranscriptionCompleted
        } else {
            LifecycleSignal::TranscriptionFailed
        }),
{
    if succeeded {
        LifecycleSignal::TranscriptionCompleted
    } else {
        LifecycleSignal::TranscriptionFailed
    }
}

/// What a hotkey event did to the recorder.
#[derive(Debug)]
pub enum HotkeyAction {
    Nothing,
    Started,
    Stopped(Vec<i16>),
}

/// A level reading due for the UI, taken from one capture batch.
#[derive(Clone, Copy, Debug, PartialEq, Eq)]
pub struct LevelReading {
    pub stats: LevelStats,
    pub recording: bool,
}

impl RecorderState {
    pub open spec fn view(&self) -> SessionView {
        SessionView { recording: self.is_recording, buffer: self.buffer@ }
    }

    /// Samples accumulate only inside a session, and a session has a start time.
    pub open spec fn wf(&self) -> bool {
        &&& (!self.is_recording ==> self.buffer@.len() == 0 && self.start_instant is None)
        &&& (self.is_recording ==> self.start_instant is Some)
    }

    pub fn new() -> (r: Self)
        ensures
            r.wf(),
            !r.is_recording,
            r.buffer@.len() == 0,
            r.start_instant is None,
            r.sample_rate_hz == DEFAULT_SAMPLE_RATE_HZ,
            r.last_level_emit is None,
    {
        RecorderState {
            is_recording: false,
            buffer: Vec::new(),
            start_instant: None,
            sample_rate_hz: DEFAULT_SAMPLE_RATE_HZ,
            last_level_emit: None,
        }
    }

    /// Starts a session unless one is running; returns whether it started one.
    pub fn begin_recording(&mut self, now_ms: u64) -> (started: bool)
        ensures
            started == !old(self).is_recording,
            final(self)@ == after_begin(old(self)@),
            started ==> final(self).start_instant == Some(now_ms),
            !started ==> *final(self) == *old(self),
            final(self).sample_rate_hz == old(self).sample_rate_hz,
            final(self).last_level_emit == old(self).last_level_emit,
            old(self).wf() ==> final(self).wf(),
    {
        if self.is_recording {
            return false;
        }
        self.is_recording = true;
        self.buffer.clear();
        self.start_instant = Some(now_ms);
        proof {
            assert(self.buffer@ =~= Seq::<i16>::empty());
        }
        true
    }

    /// Ends the running session and hands back its samples; when no session runs, nothing
    /// changes and no samples come back.
    pub fn end_recording(&mut self) -> (samples: Vec<i16>)
        ensures
            samples@ == drained(old(self)@),
            final(self)@ == after_end(old(self)@),
            old(self).is_recording ==> final(self).start_instant is None,
            !old(self).is_recording ==> *final(self) == *old(self),
            final(self).sample_rate_hz == old(self).sample_rate_hz,
            final(self).last_level_emit == old(self).last_level_emit,
            old(self).wf() ==> final(self).wf(),
    {
        if !self.is_recording {
            return Vec::new();
        }
        self.is_recording = false;
        let mut samples: Vec<i16> = Vec::new();
        std::mem::swap(&mut samples, &mut self.buffer);
        self.start_instant = None;
        samples
    }

    /// Starts a session when none runs, else ends the running one.
    pub fn toggle(&mut self, now_ms: u64) -> (t: Toggle)
        ensures
            old(self).is_recording ==> (t matches Toggle::Stopped(s) && s@ == old(self).buffer@),
            !old(self).is_recording ==> t is Started,
            final(self)@ == (if old(self).is_recording {
                after_end(old(self)@)
            } else {
                after_begin(old(self)@)
            }),
            !old(self).is_recording ==> final(self).start_instant == Some(now_ms),
            old(self).is_recording ==> final(self).start_instant is None,
            final(self).sample_rate_hz == old(self).sample_rate_hz,
            final(self).last_level_emit == old(self).last_level_emit,
            old(self).wf() ==> final(self).wf(),
    {
        if self.is_recording {
            Toggle::Stopped(self.end_recording())
        } else {
            self.begin_recording(now_ms);
            Toggle::Started
        }
    }

    /// A toggle asked for by a user: refused, with nothing changed, while no model is loaded.
    pub fn request_toggle(&mut self, model_loaded: bool, now_ms: u64) -> (r: Result<Toggle, String>)
        ensures
            !model_loaded ==> *final(self) == *old(self) && (r matches Err(m) && m@ == NO_MODEL_MESSAGE@),
            model_loaded ==> r is Ok,
            model_loaded && old(self).is_recording ==> (r matches Ok(Toggle::Stopped(s)) && s@ == old(self).buffer@),
            model_loaded && !old(self).is_recording ==> (r matches Ok(t) && t is Started),
            model_loaded ==> final(self)@ == (if old(self).is_recording {
                after_end(old(self)@)
            } else {
                after_begin(old(self)@)
            }),
            model_loaded && !old(self).is_recording ==> final(self).start_instant == Some(now_ms),
            model_loaded && old(self).is_recording ==> final(self).start_instant is None,
            final(self).sample_rate_hz == old(self).sample_rate_hz,
            final(self).last_level_emit == old(self).last_level_emit,
            old(self).wf() ==> final(self).wf(),
    {
        if !model_loaded {
            return Err(String::from_str(NO_MODEL_MESSAGE));
        }
        Ok(self.toggle(now_ms))
    }

    /// Handles a press or a release of the recording hotkey. In hold mode a press starts a
    /// session and a release ends it; otherwise a press toggles and a release does nothing.
    pub fn hotkey(&mut self, hold_mode: bool, pressed: bool, now_ms: u64) -> (a: HotkeyAction)
        ensures
            hold_mode && pressed ==> final(self)@ == after_begin(old(self)@) && (if old(self).is_recording {
                a is Nothing
            } else {
                a is Started
            }),
            hold_mode && pressed && old(self).is_recording ==> *final(self) == *old(self),
            hold_mode && pressed && !old(self).is_recording ==> final(self).start_instant == Some(now_ms),
            hold_mode && !pressed && old(self).is_recording ==> final(self).start_instant is None,
            hold_mode && !pressed && !old(self).is_recording ==> *final(self) == *old(self),
            !hold_mode && pressed && !old(self).is_recording ==> final(self).start_instant == Some(now_ms),
            !hold_mode && pressed && old(self).is_recording ==> final(self).start_instant is None,
            hold_mode && !pressed ==> final(self)@ == after_end(old(self)@) && (if old(self).is_recording {
                a matches HotkeyAction::Stopped(s) && s@ == old(self).buffer@
            } else {
                a is Nothing
            }),
            !hold_mode && pressed ==> final(self)@ == (if old(self).is_recording {
                after_end(old(self)@)
            } else {
                after_begin(old(self)@)
            }) && (if old(self).is_recording {
                a matches HotkeyAction::Stopped(s) && s@ == old(self).buffer@
            } else {
                a is Started
            }),
            !hold_mode && !pressed ==> *final(self) == *old(self) && a is Nothing,
            final(self).sample_rate_hz == old(self).sample_rate_hz,
            final(self).last_level_emit == old(self).last_level_emit,
            old(self).wf() ==> final(self).wf(),
    {
        if hold_mode && pressed {
            if self.begin_recording(now_ms) {
                HotkeyAction::Started
            } else {
                HotkeyAction::Nothing
            }
        } else if hold_mode {
            if self.is_recording {
                HotkeyAction::Stopped(self.end_recording())
            } else {
                HotkeyAction::Nothing
            }
        } else if pressed {
            match self.toggle(now_ms) {
                Toggle::Started => HotkeyAction::Started,
                Toggle::Stopped(s) => HotkeyAction::Stopped(s),
            }
        } else {
            HotkeyAction::Nothing
        }
    }

    /// Whether a level reading may go out at `now_ms`; when it may, the time is kept as
    /// the last emission.
    pub fn level_emit_due(&mut self, now_ms: u64) -> (due: bool)
        ensures
            due == match old(self).last_level_emit {
                None => true,
                Some(t) => now_ms >= t + LEVEL_EMIT_INTERVAL_MS,
            },
            due ==> final(self).last_level_emit == Some(now_ms),
            !due ==> final(self).last_level_emit == old(self).last_level_emit,
            final(self).is_recording == old(self).is_recording,
            final(self).buffer == old(self).buffer,
            final(self).start_instant == old(self).start_instant,
            final(self).sample_rate_hz == old(self).sample_rate_hz,
    {
        let due = match self.last_level_emit {
            None => true,
            Some(t) => now_ms >= t && now_ms - t >= LEVEL_EMIT_INTERVAL_MS,
        };
        if due {
            self.last_level_emit = Some(now_ms);
        }
        due
    }

    /// Handles one interleaved capture batch: keeps its mono downmix while recording and
    /// returns its level when a reading is due. A batch without a whole frame changes nothing.
    pub fn process_batch(&mut self, input: &[i16], channels: u16, now_ms: u64) -> (reading:
        Option<LevelReading>)
        ensures
            channels == 0 || frame_total(input@, channels as nat) == 0 ==> reading is None
                && *final(self) == *old(self),
            channels > 0 && frame_total(input@, channels as nat) > 0 ==> {
                &&& final(self)@ == after_capture(old(self)@, downmix_of(input@, channels as nat))
                &&& final(self).start_instant == old(self).start_instant
                &&& final(self).sample_rate_hz == old(self).sample_rate_hz
                &&& reading is Some == match old(self).last_level_emit {
                    None => true,
                    Some(t) => now_ms >= t + LEVEL_EMIT_INTERVAL_MS,
                }
                &&& (reading is Some ==> final(self).last_level_emit == Some(now_ms))
                &&& (reading is None ==> final(self).last_level_emit == old(self).last_level_emit)
                &&& (reading matches Some(r) ==> {
                    &&& r.recording == old(self).is_recording
                    &&& r.stats.sum_squares == crate::level::sum_of_squares(frame_sums_of(input@, channels as nat))
                    &&& r.stats.peak_abs == crate::level::peak_of(frame_sums_of(input@, channels as nat))
                    &&& r.stats.frames == frame_total(input@, channels as nat)
                    &&& r.stats.full_scale == channels * crate::level::I16_FULL_SCALE
                })
            },
            old(self).wf() ==> final(self).wf(),
    {
        if channels == 0 {
            return None;
        }
        let sums = frame_sums(input, channels);
        if sums.len() == 0 {
            return None;
        }
        proof {
            lemma_frame_sums_bounded(input@, channels as nat);
            assert(sums@.map_values(|v: i32| v as int) =~= frame_sums_of(input@, channels as nat));
            assert forall|f: int| 0 <= f < sums@.len() implies -32768 * channels <= #[trigger] sums@[f]
                <= 32767 * channels by {
                assert(sums@[f] as int == frame_sums_of(input@, channels as nat)[f]);
            }
        }
        let stats = level_of(&sums, channels);
        let recording = self.is_recording;
        if recording {
            let mut mono = downmix(&sums, channels);
            proof {
                assert(mono@ =~= downmix_of(input@, channels as nat));
            }
            self.buffer.append(&mut mono);
        }
        if self.level_emit_due(now_ms) {
            Some(LevelReading { stats, recording })
        } else {
            None
        }
    }
}

/// With one channel the downmix keeps every sample as it is.
pub proof fn lemma_mono_downmix_is_identity(s: Seq<i16>)
    ensures
        downmix_of(s, 1) == s,
{
    crate::level::lemma_mono_frame_sums(s);
    assert(downmix_of(s, 1) =~= s);
}

/// Once a session has started, further starts and captured batches leave the recorder
/// holding exactly the samples captured since that start; a stop hands back exactly those
/// samples and leaves the buffer empty and the recorder idle.
pub proof fn lemma_stop_returns_samples_since_start(v: SessionView, evs: Seq<SessionEvent>)
    requires
        !v.recording,
        has_no_end(evs),
    ensures
        run_events(after_begin(v), evs).recording,
        run_events(after_begin(v), evs).buffer == captured_in(evs),
        drained(run_events(after_begin(v), evs)) == captured_in(evs),
        !after_end(run_events(after_begin(v), evs)).recording,
        after_end(run_events(after_begin(v), evs)).buffer.len() == 0,
    decreases evs.len(),
{
    if evs.len() > 0 {
        let p = evs.drop_last();
        assert forall|i: int| 0 <= i < p.len() implies !(#[trigger] p[i] is End) by {
            assert(p[i] == evs[i]);
        }
        lemma_stop_returns_samples_since_start(v, p);
        assert(!(evs[evs.len() - 1] is End));
    }
}

/// The batches of a run, one after the other.
pub open spec fn concat_batches(bs: Seq<Seq<i16>>) -> Seq<i16>
    decreases bs.len(),
{
    if bs.len() == 0 {
        Seq::empty()
    } else {
        concat_batches(bs.drop_last()) + bs.last()
    }
}

/// Number of samples in a run of batches.
pub open spec fn batch_total(bs: Seq<Seq<i16>>) -> nat
    decreases bs.len(),
{
    if bs.len() == 0 {
        0
    } else {
        batch_total(bs.drop_last()) + bs.last().len()
    }
}

/// One capture event per mono batch.
pub open spec fn mono_captures(bs: Seq<Seq<i16>>) -> Seq<SessionEvent> {
    bs.map_values(|b: Seq<i16>| SessionEvent::Capture(downmix_of(b, 1)))
}

proof fn lemma_mono_captures_concat(bs: Seq<Seq<i16>>)
    ensures
        has_no_end(mono_captures(bs)),
        captured_in(mono_captures(bs)) == concat_batches(bs),
        concat_batches(bs).len() == batch_total(bs),
    decreases bs.len(),
{
    if bs.len() > 0 {
        let p = bs.drop_last();
        lemma_mono_captures_concat(p);
        assert(mono_captures(bs).drop_last() =~= mono_captures(p));
        lemma_mono_downmix_is_identity(bs.last());
    }
}

/// Mono batches captured between a start and a stop, however many, come back whole and in
/// order: the stop hands back their concatenation, exactly as many samples as were fed, and
/// leaves the recorder idle with an empty buffer.
pub proof fn lemma_mono_batches_come_back(v: SessionView, bs: Seq<Seq<i16>>)
    requires
        !v.recording,
    ensures
        drained(run_events(after_begin(v), mono_captures(bs))) == concat_batches(bs),
        drained(run_events(after_begin(v), mono_captures(bs))).len() == batch_total(bs),
        !after_end(run_events(after_begin(v), mono_captures(bs))).recording,
        after_end(run_events(after_begin(v), mono_captures(bs))).buffer.len() == 0,
{
    lemma_mono_captures_concat(bs);
    lemma_stop_returns_samples_since_start(v, mono_captures(bs));
}

/// A stop while idle hands back nothing and changes nothing; a start while recording
/// changes nothing, so the samples of the running session stay.
pub proof fn lemma_redundant_commands_are_no_ops(v: SessionView)
    ensures
        !v.recording ==> drained(v).len() == 0 && after_end(v) == v,
        v.recording ==> after_begin(v) == v && after_begin(v).buffer == v.buffer,
{
}

pub proof fn lemma_frame_sums_bounded(s: Seq<i16>, c: nat)
    requires
        0 < c <= 65535,
    ensures
        forall|f: int|
            0 <= f < frame_total(s, c) ==> -32768 * c <= #[trigger] frame_sums_of(s, c)[f] <= 32767 * c,
{
    assert forall|f: int| 0 <= f < frame_total(s, c) implies -32768 * c <= #[trigger] frame_sums_of(
        s,
        c,
    )[f] <= 32767 * c by {
        crate::level::lemma_frame_in_bounds(s.len() as int, c as int, f);
        lemma_sum_bound(s.subrange(f * c, f * c + c));
    }
}

/// Per-frame channel averages (rounded toward zero) of per-frame channel sums.
pub fn downmix(sums: &Vec<i32>, channels: u16) -> (mono: Vec<i16>)
    requires
        channels > 0,
        forall|f: int|
            0 <= f < sums@.len() ==> -32768 * channels <= #[trigger] sums@[f] <= 32767 * channels,
    ensures
        mono@.len() == sums@.len(),
        forall|f: int| 0 <= f < sums@.len() ==> #[trigger] mono@[f] as int == trunc_div(sums@[f] as int, channels as int),
{
    let c = channels as u32;
    let mut mono: Vec<i16> = Vec::with_capacity(sums.len());
    let mut i: usize = 0;
    while i < sums.len()
        invariant
            c == channels as u32,
            c > 0,
            i <= sums@.len(),
            mono@.len() == i,
            forall|f: int|
                0 <= f < sums@.len() ==> -32768 * channels <= #[trigger] sums@[f] <= 32767 * channels,
            forall|f: int| 0 <= f < i ==> #[trigger] mono@[f] as int == trunc_div(sums@[f] as int, channels as int),
        decreases sums@.len() - i,
    {
        let v = sums[i];
        let avg: i16 = if v >= 0 {
            let q = (v as u32) / c;
            proof {
                lemma_div_is_ordered(v as int, 32767 * c, c as int);
                lemma_div_by_multiple(32767, c as int);
            }
            q as i16
        } else {
            let m: u32 = (-(v as i64)) as u32;
            let q = m / c;
            proof {
                lemma_div_is_ordered(m as int, 32768 * c, c as int);
                lemma_div_by_multiple(32768, c as int);
            }
            (-(q as i32)) as i16
        };
        mono.push(avg);
        i = i + 1;
    }
    mono
}

} // verus!
