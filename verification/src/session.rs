//! The capture session: the life cycle of one recording and what each
//! delivered buffer does to it.
//!
//! The session is a plain value. Whoever shares it between a control thread
//! and the audio callbacks guards it; the session itself only says what each
//! event changes.
use vstd::prelude::*;
use crate::downmix::{to_mono, to_mono_spec, lemma_to_mono_single_channel};
use crate::fixed::FULL_SCALE;
use crate::gain::{UNITY_GAIN, apply_gain, apply_gain_spec};
use crate::history::{HISTORY_LEN, WaveformHistory, after_push, silent_window};
use crate::level::{level, level_of};
use crate::mixdown::{mixdown, mix_spec};
use crate::recording::Recording;
use crate::resample::{resample, resample_result};

verus! {

/// The sample rate of a session that has not yet opened a microphone.
pub const DEFAULT_SAMPLE_RATE: u32 = 48000;

/// Where a session is in its life cycle.
#[derive(Debug, Clone, Copy, PartialEq, Eq, Structural)]
pub enum SessionState {
    /// Nothing is being captured.
    Idle,
    /// Capturing, with the clock running.
    Recording,
    /// Capturing, with the displayed clock frozen.
    Paused,
}

/// Why a session refused an event.
#[derive(Debug, Clone, Copy, PartialEq, Eq, Structural)]
pub enum SessionError {
    /// `start` was asked of a session that is not idle.
    NotIdle,
    /// `pause` was asked of a session that is not recording.
    NotRecording,
    /// `resume` was asked of a session that is not paused.
    NotPaused,
    /// The event needs a session that is recording or paused.
    NotActive,
    /// A converted loopback buffer would be too long to hold.
    BufferTooLong,
}

/// The native format of an opened capture stream: both numbers are positive.
#[derive(Debug, Clone, Copy)]
pub struct StreamFormat {
    sample_rate: u32,
    channels: u16,
}

impl StreamFormat {
    #[verifier::type_invariant]
    spec fn well_formed(self) -> bool {
        self.sample_rate > 0 && self.channels > 0
    }

    /// The samples per second of the stream.
    pub closed spec fn rate_view(&self) -> u32 {
        self.sample_rate
    }

    /// The number of interleaved channels of the stream.
    pub closed spec fn channels_view(&self) -> u16 {
        self.channels
    }

    /// A format, unless the rate or the channel count is zero.
    pub fn new(sample_rate: u32, channels: u16) -> (r: Option<Self>)
        ensures
            r is Some <==> (sample_rate > 0 && channels > 0),
            r matches Some(f) ==> f.rate_view() == sample_rate && f.channels_view() == channels,
    {
        if sample_rate == 0 || channels == 0 {
            None
        } else {
            Some(StreamFormat { sample_rate, channels })
        }
    }

    /// The samples per second of the stream.
    pub fn sample_rate(&self) -> (rate: u32)
        ensures
            rate == self.rate_view(),
            rate > 0,
    {
        proof {
            use_type_invariant(self);
        }
        self.sample_rate
    }

    /// The number of interleaved channels of the stream.
    pub fn channels(&self) -> (count: u16)
        ensures
            count == self.channels_view(),
            count > 0,
    {
        proof {
            use_type_invariant(self);
        }
        self.channels
    }
}

/// What a session holds, as mathematical values.
pub struct SessionView {
    pub state: SessionState,
    pub sample_rate: u32,
    pub channels: u16,
    pub mic_gain: i32,
    pub input_level: i32,
    pub output_level: i32,
    pub input_samples: Seq<i32>,
    pub output_samples: Seq<i32>,
    pub history: Seq<i32>,
    pub elapsed_ms: u64,
}

/// The sum of the two levels, capped at full scale.
pub open spec fn combined_level(input_level: int, output_level: int) -> int {
    if input_level + output_level > FULL_SCALE {
        FULL_SCALE as int
    } else {
        input_level + output_level
    }
}

/// A session that has never recorded.
pub open spec fn initial_view() -> SessionView {
    SessionView {
        state: SessionState::Idle,
        sample_rate: DEFAULT_SAMPLE_RATE,
        channels: 1,
        mic_gain: UNITY_GAIN,
        input_level: 0,
        output_level: 0,
        input_samples: Seq::empty(),
        output_samples: Seq::empty(),
        history: silent_window(),
        elapsed_ms: 0,
    }
}

/// An idle session after `start`: it records into empty buffers, at the
/// microphone's native format where a microphone was opened.
pub open spec fn started(v: SessionView, mic: Option<StreamFormat>) -> SessionView {
    SessionView {
        state: SessionState::Recording,
        sample_rate: match mic {
            Some(f) => f.rate_view(),
            None => v.sample_rate,
        },
        channels: match mic {
            Some(f) => f.channels_view(),
            None => v.channels,
        },
        input_samples: Seq::empty(),
        output_samples: Seq::empty(),
        elapsed_ms: 0,
        ..v
    }
}

/// An active session after a metered microphone frame: the level is stored,
/// the combined level enters the history and the samples join the
/// microphone buffer.
pub open spec fn after_mic_frame(v: SessionView, samples: Seq<i32>, mic_level: int) -> SessionView {
    SessionView {
        input_level: mic_level as i32,
        history: after_push(v.history, combined_level(mic_level, v.output_level as int) as i32),
        input_samples: v.input_samples + samples,
        ..v
    }
}

/// An active session after a microphone buffer: the gained samples are
/// metered, the combined level enters the history and the gained samples
/// join the microphone buffer.
pub open spec fn after_mic_buffer(v: SessionView, data: Seq<i32>) -> SessionView {
    let gained = apply_gain_spec(data, v.mic_gain);
    after_mic_frame(v, gained, level_of(gained))
}

/// The mono mix of a loopback buffer at `target_rate`, or an error where that
/// would be too long.
pub open spec fn converted(data: Seq<i32>, format: StreamFormat, target_rate: u32) -> Result<
    Seq<i32>,
    crate::resample::ResampleError,
> {
    resample_result(
        to_mono_spec(data, format.channels_view() as int),
        format.rate_view() as nat,
        target_rate as nat,
    )
}

/// The samples of a converted loopback buffer, where there are any.
pub open spec fn converted_samples(
    data: Seq<i32>,
    format: StreamFormat,
    target_rate: u32,
) -> Option<Seq<i32>> {
    match converted(data, format, target_rate) {
        Ok(samples) => Some(samples),
        Err(_) => None,
    }
}

/// An active session after a metered loopback frame: the level is stored and
/// the samples, where there are any, join the loopback buffer.
pub open spec fn after_loopback_frame(
    v: SessionView,
    samples: Option<Seq<i32>>,
    loopback_level: int,
) -> SessionView {
    SessionView {
        output_level: loopback_level as i32,
        output_samples: match samples {
            Some(converted) => v.output_samples + converted,
            None => v.output_samples,
        },
        ..v
    }
}

/// What a loopback buffer adds to the loopback samples: its mono mix at the
/// session's rate, or an error where that would be too long.
pub open spec fn loopback_samples(v: SessionView, data: Seq<i32>, format: StreamFormat) -> Result<
    Seq<i32>,
    crate::resample::ResampleError,
> {
    converted(data, format, v.sample_rate)
}

/// An active session after a loopback buffer: the raw samples are metered,
/// and their converted mono mix joins the loopback buffer.
pub open spec fn after_loopback_buffer(
    v: SessionView,
    data: Seq<i32>,
    format: StreamFormat,
) -> SessionView {
    after_loopback_frame(v, converted_samples(data, format, v.sample_rate), level_of(data))
}

/// The mono mixdown of everything an active session has accumulated.
pub open spec fn final_mix(v: SessionView) -> Seq<i32> {
    mix_spec(to_mono_spec(v.input_samples, v.channels as int), v.output_samples)
}

/// An active session after `stop`: idle, drained and silent.
pub open spec fn stopped(v: SessionView) -> SessionView {
    SessionView {
        state: SessionState::Idle,
        input_level: 0,
        output_level: 0,
        input_samples: Seq::empty(),
        output_samples: Seq::empty(),
        history: silent_window(),
        elapsed_ms: 0,
        ..v
    }
}

/// Whether a session is recording or paused.
pub open spec fn is_active(v: SessionView) -> bool {
    v.state != SessionState::Idle
}

/// A recording session after `pause`.
pub open spec fn paused(v: SessionView) -> SessionView {
    SessionView { state: SessionState::Paused, ..v }
}

/// A paused session after `resume`.
pub open spec fn resumed(v: SessionView) -> SessionView {
    SessionView { state: SessionState::Recording, ..v }
}

/// Pausing does not stop capture: a buffer delivered to a paused session has
/// the effect it would have had without the pause, its samples join the
/// accumulated ones, and the final mixdown holds them.
pub proof fn lemma_pause_keeps_capturing(v: SessionView, data: Seq<i32>, format: StreamFormat)
    requires
        v.state == SessionState::Recording,
    ensures
        after_mic_buffer(paused(v), data) == paused(after_mic_buffer(v, data)),
        after_loopback_buffer(paused(v), data, format) == paused(
            after_loopback_buffer(v, data, format),
        ),
        after_mic_buffer(paused(v), data).input_samples == v.input_samples + apply_gain_spec(
            data,
            v.mic_gain,
        ),
        final_mix(after_mic_buffer(paused(v), data)) == mix_spec(
            to_mono_spec(v.input_samples + apply_gain_spec(data, v.mic_gain), v.channels as int),
            v.output_samples,
        ),
        final_mix(after_mic_buffer(paused(v), data)) == final_mix(after_mic_buffer(v, data)),
        final_mix(after_loopback_buffer(paused(v), data, format)) == final_mix(
            after_loopback_buffer(v, data, format),
        ),
{
}

/// A session whose two buffers are empty has an empty mixdown, so stopping it
/// yields no recording.
pub proof fn lemma_nothing_captured_nothing_mixed(v: SessionView)
    requires
        v.channels > 0,
        v.input_samples.len() == 0,
        v.output_samples.len() == 0,
    ensures
        final_mix(v).len() == 0,
{
    assert(0int / (v.channels as int) == 0);
}

/// The mixdown is empty exactly when the loopback buffer is empty and the
/// microphone buffer holds less than one whole frame.
pub proof fn lemma_final_mix_empty(v: SessionView)
    requires
        v.channels > 0,
    ensures
        final_mix(v).len() == 0 <==> (v.output_samples.len() == 0 && v.input_samples.len()
            < v.channels),
{
    let k = v.channels as int;
    let n = v.input_samples.len() as int;
    assert(n / k == 0 <==> n < k) by (nonlinear_arith)
        requires
            k > 0,
            n >= 0,
    ;
    assert(n / k >= 0) by (nonlinear_arith)
        requires
            k > 0,
            n >= 0,
    ;
}

/// No event changes the length of the waveform history.
pub proof fn lemma_history_length_kept(
    v: SessionView,
    data: Seq<i32>,
    format: StreamFormat,
    mic: Option<StreamFormat>,
)
    requires
        v.history.len() == HISTORY_LEN,
    ensures
        started(v, mic).history.len() == HISTORY_LEN,
        paused(v).history.len() == HISTORY_LEN,
        resumed(v).history.len() == HISTORY_LEN,
        after_mic_buffer(v, data).history.len() == HISTORY_LEN,
        after_loopback_buffer(v, data, format).history.len() == HISTORY_LEN,
        stopped(v).history.len() == HISTORY_LEN,
{
}

/// One microphone buffer after the gain stage, with its level.
///
/// A frame is made without touching the session, so the work on the samples
/// can be done before the session is locked.
pub struct MicFrame {
    samples: Vec<i32>,
    level: i32,
}

impl MicFrame {
    #[verifier::type_invariant]
    spec fn well_formed(self) -> bool {
        self.level as int == level_of(self.samples@)
    }

    /// The gained samples.
    pub closed spec fn samples_view(&self) -> Seq<i32> {
        self.samples@
    }

    /// The level of the gained samples.
    pub closed spec fn level_view(&self) -> int {
        self.level as int
    }

    /// Applies `gain` to a delivered buffer and meters the result.
    pub fn from_buffer(data: &[i32], gain: i32) -> (frame: Self)
        ensures
            frame.samples_view() == apply_gain_spec(data@, gain),
            frame.level_view() == level_of(apply_gain_spec(data@, gain)),
    {
        let samples: Vec<i32> = apply_gain(data, gain);
        let level: i32 = level(samples.as_slice());
        MicFrame { samples, level }
    }

    /// The level of the gained samples, between silence and full scale.
    pub fn level(&self) -> (l: i32)
        ensures
            l as int == self.level_view(),
            self.level_view() == level_of(self.samples_view()),
            0 <= l <= FULL_SCALE,
    {
        proof {
            use_type_invariant(self);
        }
        self.level
    }
}

/// One loopback buffer, metered, mixed to mono and converted to a target rate.
pub struct LoopbackFrame {
    samples: Option<Vec<i32>>,
    level: i32,
}

impl LoopbackFrame {
    #[verifier::type_invariant]
    spec fn well_formed(self) -> bool {
        0 <= self.level <= FULL_SCALE
    }

    /// The converted samples; none where they would have been too many.
    pub closed spec fn samples_view(&self) -> Option<Seq<i32>> {
        match self.samples {
            Some(v) => Some(v@),
            None => None,
        }
    }

    /// The level of the raw samples.
    pub closed spec fn level_view(&self) -> int {
        self.level as int
    }

    /// Meters a delivered buffer, mixes it to mono and converts it from the
    /// stream's rate to `target_rate`.
    pub fn from_buffer(data: &[i32], format: StreamFormat, target_rate: u32) -> (frame: Self)
        ensures
            frame.samples_view() == converted_samples(data@, format, target_rate),
            frame.level_view() == level_of(data@),
    {
        let level: i32 = level(data);
        let mono: Vec<i32> = to_mono(data, format.channels());
        let samples: Option<Vec<i32>> = match resample(mono, format.sample_rate(), target_rate) {
            Ok(converted) => Some(converted),
            Err(_) => None,
        };
        LoopbackFrame { samples, level }
    }

    /// The level of the raw samples, between silence and full scale.
    pub fn level(&self) -> (l: i32)
        ensures
            l as int == self.level_view(),
            0 <= l <= FULL_SCALE,
    {
        proof {
            use_type_invariant(self);
        }
        self.level
    }
}

/// One capture session, from `start` to `stop`, any number of times.
pub struct CaptureSession {
    state: SessionState,
    sample_rate: u32,
    channels: u16,
    mic_gain: i32,
    input_level: i32,
    output_level: i32,
    input_samples: Vec<i32>,
    output_samples: Vec<i32>,
    waveform_history: WaveformHistory,
    elapsed_ms: u64,
}

impl View for CaptureSession {
    type V = SessionView;

    closed spec fn view(&self) -> SessionView {
        SessionView {
            state: self.state,
            sample_rate: self.sample_rate,
            channels: self.channels,
            mic_gain: self.mic_gain,
            input_level: self.input_level,
            output_level: self.output_level,
            input_samples: self.input_samples@,
            output_samples: self.output_samples@,
            history: self.waveform_history@,
            elapsed_ms: self.elapsed_ms,
        }
    }
}

impl CaptureSession {
    #[verifier::type_invariant]
    spec fn well_formed(self) -> bool {
        &&& self.sample_rate > 0
        &&& self.channels > 0
        &&& 0 <= self.input_level <= FULL_SCALE
        &&& 0 <= self.output_level <= FULL_SCALE
    }

    /// An idle session with empty buffers, unity gain and a silent history.
    pub fn new() -> (s: Self)
        ensures
            s@ == initial_view(),
    {
        CaptureSession {
            state: SessionState::Idle,
            sample_rate: DEFAULT_SAMPLE_RATE,
            channels: 1,
            mic_gain: UNITY_GAIN,
            input_level: 0,
            output_level: 0,
            input_samples: Vec::new(),
            output_samples: Vec::new(),
            waveform_history: WaveformHistory::new(),
            elapsed_ms: 0,
        }
    }

    /// Where the session is in its life cycle.
    pub fn state(&self) -> (state: SessionState)
        ensures
            state == self@.state,
    {
        self.state
    }

    /// Whether the session is capturing, paused or not.
    pub fn is_recording(&self) -> (b: bool)
        ensures
            b == is_active(self@),
    {
        match self.state {
            SessionState::Idle => false,
            _ => true,
        }
    }

    /// Whether the displayed clock is frozen.
    pub fn is_paused(&self) -> (b: bool)
        ensures
            b == (self@.state == SessionState::Paused),
    {
        match self.state {
            SessionState::Paused => true,
            _ => false,
        }
    }

    /// The rate at which the session records; never zero.
    pub fn sample_rate(&self) -> (rate: u32)
        ensures
            rate == self@.sample_rate,
            rate > 0,
    {
        proof {
            use_type_invariant(self);
        }
        self.sample_rate
    }

    /// The channel count of the microphone samples; never zero.
    pub fn channels(&self) -> (count: u16)
        ensures
            count == self@.channels,
            count > 0,
    {
        proof {
            use_type_invariant(self);
        }
        self.channels
    }

    /// The gain applied to microphone samples.
    pub fn mic_gain(&self) -> (gain: i32)
        ensures
            gain == self@.mic_gain,
    {
        self.mic_gain
    }

    /// The level of the latest microphone buffer, between silence and full scale.
    pub fn input_level(&self) -> (l: i32)
        ensures
            l == self@.input_level,
            0 <= l <= FULL_SCALE,
    {
        proof {
            use_type_invariant(self);
        }
        self.input_level
    }

    /// The level of the latest loopback buffer, between silence and full scale.
    pub fn output_level(&self) -> (l: i32)
        ensures
            l == self@.output_level,
            0 <= l <= FULL_SCALE,
    {
        proof {
            use_type_invariant(self);
        }
        self.output_level
    }

    /// The time shown on the clock, in milliseconds.
    pub fn elapsed_ms(&self) -> (ms: u64)
        ensures
            ms == self@.elapsed_ms,
    {
        self.elapsed_ms
    }

    /// The number of microphone samples accumulated so far.
    pub fn input_len(&self) -> (n: usize)
        ensures
            n == self@.input_samples.len(),
    {
        self.input_samples.len()
    }

    /// The number of loopback samples accumulated so far.
    pub fn output_len(&self) -> (n: usize)
        ensures
            n == self@.output_samples.len(),
    {
        self.output_samples.len()
    }

    /// The waveform history of every session holds `HISTORY_LEN` levels.
    pub proof fn lemma_history_len(&self)
        ensures
            self@.history.len() == HISTORY_LEN,
    {
        self.waveform_history.lemma_len();
    }

    /// The waveform history, oldest level first: always `HISTORY_LEN` levels.
    pub fn waveform(&self) -> (levels: Vec<i32>)
        ensures
            levels@ == self@.history,
            levels@.len() == HISTORY_LEN,
    {
        proof {
            self.waveform_history.lemma_len();
        }
        self.waveform_history.to_vec()
    }

    /// Empties both sample buffers and keeps what they had allocated.
    fn clear_buffers(&mut self)
        ensures
            final(self)@ == (SessionView {
                input_samples: Seq::empty(),
                output_samples: Seq::empty(),
                ..old(self)@
            }),
    {
        proof {
            use_type_invariant(&*self);
        }
        let mut input: Vec<i32> = Vec::new();
        core::mem::swap(&mut input, &mut self.input_samples);
        input.clear();
        self.input_samples = input;
        let mut output: Vec<i32> = Vec::new();
        core::mem::swap(&mut output, &mut self.output_samples);
        output.clear();
        self.output_samples = output;
    }

    /// Sets the gain that the next microphone buffer is multiplied by.
    pub fn set_mic_gain(&mut self, gain: i32)
        ensures
            final(self)@ == (SessionView { mic_gain: gain, ..old(self)@ }),
    {
        proof {
            use_type_invariant(&*self);
        }
        self.mic_gain = gain;
    }

    /// Starts a recording. `mic` is the native format of the microphone stream,
    /// where one could be opened; the session starts with or without it.
    pub fn start(&mut self, mic: Option<StreamFormat>) -> (r: Result<(), SessionError>)
        ensures
            old(self)@.state == SessionState::Idle ==> r is Ok && final(self)@ == started(
                old(self)@,
                mic,
            ),
            old(self)@.state != SessionState::Idle ==> r == Err::<(), SessionError>(
                SessionError::NotIdle,
            ) && final(self)@ == old(self)@,
    {
        proof {
            use_type_invariant(&*self);
        }
        match self.state {
            SessionState::Idle => {},
            _ => {
                return Err(SessionError::NotIdle);
            },
        }
        match mic {
            Some(format) => {
                self.sample_rate = format.sample_rate();
                self.channels = format.channels();
            },
            None => {},
        }
        self.clear_buffers();
        self.elapsed_ms = 0;
        self.state = SessionState::Recording;
        Ok(())
    }

    /// Freezes the displayed clock. Capture goes on.
    pub fn pause(&mut self) -> (r: Result<(), SessionError>)
        ensures
            old(self)@.state == SessionState::Recording ==> r is Ok && final(self)@ == (
            SessionView { state: SessionState::Paused, ..old(self)@ }),
            old(self)@.state != SessionState::Recording ==> r == Err::<(), SessionError>(
                SessionError::NotRecording,
            ) && final(self)@ == old(self)@,
    {
        proof {
            use_type_invariant(&*self);
        }
        match self.state {
            SessionState::Recording => {
                self.state = SessionState::Paused;
                Ok(())
            },
            _ => Err(SessionError::NotRecording),
        }
    }

    /// Lets the displayed clock run again.
    pub fn resume(&mut self) -> (r: Result<(), SessionError>)
        ensures
            old(self)@.state == SessionState::Paused ==> r is Ok && final(self)@ == (SessionView {
                state: SessionState::Recording,
                ..old(self)@
            }),
            old(self)@.state != SessionState::Paused ==> r == Err::<(), SessionError>(
                SessionError::NotPaused,
            ) && final(self)@ == old(self)@,
    {
        proof {
            use_type_invariant(&*self);
        }
        match self.state {
            SessionState::Paused => {
                self.state = SessionState::Recording;
                Ok(())
            },
            _ => Err(SessionError::NotPaused),
        }
    }

    /// Pauses a recording session and resumes a paused one.
    pub fn toggle_pause(&mut self) -> (r: Result<(), SessionError>)
        ensures
            old(self)@.state == SessionState::Recording ==> r is Ok && final(self)@ == (
            SessionView { state: SessionState::Paused, ..old(self)@ }),
            old(self)@.state == SessionState::Paused ==> r is Ok && final(self)@ == (SessionView {
                state: SessionState::Recording,
                ..old(self)@
            }),
            old(self)@.state == SessionState::Idle ==> r == Err::<(), SessionError>(
                SessionError::NotActive,
            ) && final(self)@ == old(self)@,
    {
        match self.state {
            SessionState::Recording => self.pause(),
            SessionState::Paused => self.resume(),
            SessionState::Idle => Err(SessionError::NotActive),
        }
    }

    /// Moves the displayed clock to `since_start_ms` while recording; a paused
    /// or idle session keeps the time it shows.
    pub fn tick(&mut self, since_start_ms: u64)
        ensures
            old(self)@.state == SessionState::Recording ==> final(self)@ == (SessionView {
                elapsed_ms: since_start_ms,
                ..old(self)@
            }),
            old(self)@.state != SessionState::Recording ==> final(self)@ == old(self)@,
    {
        proof {
            use_type_invariant(&*self);
        }
        match self.state {
            SessionState::Recording => {
                self.elapsed_ms = since_start_ms;
            },
            _ => {},
        }
    }

    /// Takes in one metered microphone frame.
    ///
    /// Paused or not, an active session stores the level, pushes the combined
    /// level into the history and keeps the samples. An idle session refuses
    /// the frame.
    pub fn take_mic_frame(&mut self, frame: MicFrame) -> (r: Result<(), SessionError>)
        ensures
            is_active(old(self)@) ==> r is Ok && final(self)@ == after_mic_frame(
                old(self)@,
                frame.samples_view(),
                frame.level_view(),
            ),
            !is_active(old(self)@) ==> r == Err::<(), SessionError>(SessionError::NotActive)
                && final(self)@ == old(self)@,
    {
        proof {
            use_type_invariant(&*self);
            use_type_invariant(&frame);
        }
        match self.state {
            SessionState::Idle => {
                return Err(SessionError::NotActive);
            },
            _ => {},
        }
        let mic_level: i32 = frame.level();
        let mut gained: Vec<i32> = frame.samples;
        let sum: i32 = mic_level + self.output_level;
        let combined: i32 = if sum > FULL_SCALE {
            FULL_SCALE
        } else {
            sum
        };
        self.input_level = mic_level;
        self.waveform_history.push(combined);
        let mut buffer: Vec<i32> = Vec::new();
        core::mem::swap(&mut buffer, &mut self.input_samples);
        buffer.append(&mut gained);
        self.input_samples = buffer;
        Ok(())
    }

    /// Takes in one buffer from the microphone stream: applies the session's
    /// gain, meters the result and takes the frame in.
    pub fn on_mic_buffer(&mut self, data: &[i32]) -> (r: Result<(), SessionError>)
        ensures
            is_active(old(self)@) ==> r is Ok && final(self)@ == after_mic_buffer(
                old(self)@,
                data@,
            ),
            !is_active(old(self)@) ==> r == Err::<(), SessionError>(SessionError::NotActive)
                && final(self)@ == old(self)@,
    {
        match self.state {
            SessionState::Idle => Err(SessionError::NotActive),
            _ => {
                let frame: MicFrame = MicFrame::from_buffer(data, self.mic_gain);
                self.take_mic_frame(frame)
            },
        }
    }

    /// Takes in one metered loopback frame.
    ///
    /// An active session stores the level and keeps the samples. Where the
    /// frame has no samples, because the converted buffer would have been too
    /// long, the level is still stored and the call reports it. An idle
    /// session refuses the frame.
    pub fn take_loopback_frame(&mut self, frame: LoopbackFrame) -> (r: Result<(), SessionError>)
        ensures
            !is_active(old(self)@) ==> r == Err::<(), SessionError>(SessionError::NotActive)
                && final(self)@ == old(self)@,
            is_active(old(self)@) ==> final(self)@ == after_loopback_frame(
                old(self)@,
                frame.samples_view(),
                frame.level_view(),
            ),
            is_active(old(self)@) && frame.samples_view() is Some ==> r is Ok,
            is_active(old(self)@) && frame.samples_view() is None ==> r == Err::<
                (),
                SessionError,
            >(SessionError::BufferTooLong),
    {
        proof {
            use_type_invariant(&*self);
            use_type_invariant(&frame);
        }
        match self.state {
            SessionState::Idle => {
                return Err(SessionError::NotActive);
            },
            _ => {},
        }
        self.output_level = frame.level();
        match frame.samples {
            Some(mut converted) => {
                let mut buffer: Vec<i32> = Vec::new();
                core::mem::swap(&mut buffer, &mut self.output_samples);
                buffer.append(&mut converted);
                self.output_samples = buffer;
                Ok(())
            },
            None => Err(SessionError::BufferTooLong),
        }
    }

    /// Takes in one buffer from the loopback stream, delivered in `format`:
    /// meters the raw samples, mixes them to mono, converts them to the
    /// session's rate and takes the frame in.
    pub fn on_loopback_buffer(&mut self, data: &[i32], format: StreamFormat) -> (r: Result<
        (),
        SessionError,
    >)
        ensures
            !is_active(old(self)@) ==> r == Err::<(), SessionError>(SessionError::NotActive)
                && final(self)@ == old(self)@,
            is_active(old(self)@) ==> final(self)@ == after_loopback_buffer(
                old(self)@,
                data@,
                format,
            ),
            is_active(old(self)@) ==> (r is Ok <==> loopback_samples(old(self)@, data@, format)
                is Ok),
            is_active(old(self)@) && r is Err ==> r == Err::<(), SessionError>(
                SessionError::BufferTooLong,
            ),
    {
        match self.state {
            SessionState::Idle => Err(SessionError::NotActive),
            _ => {
                let frame: LoopbackFrame = LoopbackFrame::from_buffer(
                    data,
                    format,
                    self.sample_rate,
                );
                self.take_loopback_frame(frame)
            },
        }
    }

    /// Ends the recording and hands out its mixdown.
    ///
    /// Both buffers are drained and mixed; the session returns to idle with
    /// silent levels and history. There is a recording exactly when the
    /// mixdown is not empty.
    pub fn stop(&mut self) -> (r: Result<Option<Recording>, SessionError>)
        ensures
            !is_active(old(self)@) ==> r == Err::<Option<Recording>, SessionError>(
                SessionError::NotActive,
            ) && final(self)@ == old(self)@,
            is_active(old(self)@) ==> r is Ok && final(self)@ == stopped(old(self)@),
            r matches Ok(outcome) ==> (outcome is Some <==> final_mix(old(self)@).len() > 0),
            is_active(old(self)@) && old(self)@.input_samples.len() == 0
                && old(self)@.output_samples.len() == 0 ==> r matches Ok(None),
            r matches Ok(Some(rec)) ==> rec.samples_view() == final_mix(old(self)@)
                && rec.rate_view() == old(self)@.sample_rate,
    {
        proof {
            use_type_invariant(&*self);
        }
        match self.state {
            SessionState::Idle => {
                return Err(SessionError::NotActive);
            },
            _ => {},
        }
        proof {
            if self@.input_samples.len() == 0 && self@.output_samples.len() == 0 {
                lemma_nothing_captured_nothing_mixed(self@);
            }
        }
        let mixed: Vec<i32> = if self.channels == 1 {
            proof {
                lemma_to_mono_single_channel(self.input_samples@);
            }
            mixdown(self.input_samples.as_slice(), self.output_samples.as_slice())
        } else {
            let mono: Vec<i32> = to_mono(self.input_samples.as_slice(), self.channels);
            mixdown(mono.as_slice(), self.output_samples.as_slice())
        };
        self.clear_buffers();
        self.state = SessionState::Idle;
        self.elapsed_ms = 0;
        self.input_level = 0;
        self.output_level = 0;
        self.waveform_history.reset();
        Ok(Recording::from_mix(mixed, self.sample_rate))
    }
}

} // verus!
