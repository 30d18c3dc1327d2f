use audio_recorder::fixed::FULL_SCALE;
use audio_recorder::gain::UNITY_GAIN;
use audio_recorder::session::{
    CaptureSession, LoopbackFrame, MicFrame, SessionError, SessionState, StreamFormat,
    DEFAULT_SAMPLE_RATE,
};

#[test]
fn a_new_session_is_idle_and_silent() {
    let session = CaptureSession::new();
    assert_eq!(session.state(), SessionState::Idle);
    assert!(!session.is_recording());
    assert!(!session.is_paused());
    assert_eq!(session.sample_rate(), DEFAULT_SAMPLE_RATE);
    assert_eq!(session.sample_rate(), 48000);
    assert_eq!(session.channels(), 1);
    assert_eq!(session.mic_gain(), UNITY_GAIN);
    assert_eq!(session.input_level(), 0);
    assert_eq!(session.output_level(), 0);
    assert_eq!(session.input_len(), 0);
    assert_eq!(session.output_len(), 0);
    assert_eq!(session.elapsed_ms(), 0);
    assert_eq!(session.waveform(), vec![0; 60]);
}

#[test]
fn a_stream_format_needs_a_rate_and_a_channel() {
    assert!(StreamFormat::new(0, 2).is_none());
    assert!(StreamFormat::new(44100, 0).is_none());
    let f = StreamFormat::new(44100, 2).unwrap();
    assert_eq!(f.sample_rate(), 44100);
    assert_eq!(f.channels(), 2);
}

#[test]
fn stopping_an_empty_session_yields_no_recording() {
    let mut session = CaptureSession::new();
    assert!(session.start(None).is_ok());
    let outcome = session.stop();
    assert!(matches!(outcome, Ok(None)));
    assert_eq!(session.state(), SessionState::Idle);
}

#[test]
fn samples_captured_while_paused_reach_the_mixdown() {
    let mut session = CaptureSession::new();
    let mono = StreamFormat::new(48000, 1);
    assert!(session.start(mono).is_ok());
    assert!(session.on_mic_buffer(&[100_000]).is_ok());
    assert!(session.pause().is_ok());
    assert!(session.is_paused());
    assert!(session.is_recording());
    assert!(session.on_mic_buffer(&[200_000, 300_000]).is_ok());
    let loopback = StreamFormat::new(48000, 1).unwrap();
    assert!(session.on_loopback_buffer(&[0, 0, 0, 100_000], loopback).is_ok());
    assert_eq!(session.input_len(), 3);
    assert_eq!(session.output_len(), 4);
    let recording = session.stop().unwrap().unwrap();
    assert_eq!(recording.samples(), &vec![70_000, 140_000, 210_000, 70_000]);
    assert_eq!(recording.sample_rate(), 48000);
}

#[test]
fn an_idle_session_refuses_buffers_and_stop() {
    let mut session = CaptureSession::new();
    let format = StreamFormat::new(48000, 2).unwrap();
    assert_eq!(session.on_mic_buffer(&[1]), Err(SessionError::NotActive));
    assert_eq!(session.on_loopback_buffer(&[1, 2], format), Err(SessionError::NotActive));
    assert!(matches!(session.stop(), Err(SessionError::NotActive)));
    assert_eq!(session.pause(), Err(SessionError::NotRecording));
    assert_eq!(session.resume(), Err(SessionError::NotPaused));
    assert_eq!(session.toggle_pause(), Err(SessionError::NotActive));
    assert_eq!(session.input_len(), 0);
    assert_eq!(session.output_len(), 0);
    assert_eq!(session.input_level(), 0);
    assert_eq!(session.state(), SessionState::Idle);
}

#[test]
fn start_is_refused_unless_idle() {
    let mut session = CaptureSession::new();
    assert!(session.start(StreamFormat::new(44100, 2)).is_ok());
    assert_eq!(session.start(StreamFormat::new(8000, 1)), Err(SessionError::NotIdle));
    assert_eq!(session.sample_rate(), 44100);
    assert!(session.pause().is_ok());
    assert_eq!(session.start(None), Err(SessionError::NotIdle));
    assert_eq!(session.state(), SessionState::Paused);
}

#[test]
fn pause_and_resume_alternate() {
    let mut session = CaptureSession::new();
    session.start(None).unwrap();
    assert_eq!(session.resume(), Err(SessionError::NotPaused));
    assert_eq!(session.pause(), Ok(()));
    assert_eq!(session.state(), SessionState::Paused);
    assert_eq!(session.pause(), Err(SessionError::NotRecording));
    assert_eq!(session.resume(), Ok(()));
    assert_eq!(session.state(), SessionState::Recording);
    assert_eq!(session.toggle_pause(), Ok(()));
    assert_eq!(session.state(), SessionState::Paused);
    assert_eq!(session.toggle_pause(), Ok(()));
    assert_eq!(session.state(), SessionState::Recording);
}

#[test]
fn start_takes_the_format_of_the_microphone() {
    let mut session = CaptureSession::new();
    session.start(StreamFormat::new(44100, 2)).unwrap();
    assert_eq!(session.sample_rate(), 44100);
    assert_eq!(session.channels(), 2);
    assert_eq!(session.state(), SessionState::Recording);
    session.stop().unwrap();
    session.start(None).unwrap();
    assert_eq!(session.sample_rate(), 44100);
    assert_eq!(session.channels(), 2);
}

#[test]
fn the_microphone_buffer_is_gained_metered_and_kept() {
    let mut session = CaptureSession::new();
    session.set_mic_gain(2_000_000);
    assert_eq!(session.mic_gain(), 2_000_000);
    session.start(StreamFormat::new(48000, 1)).unwrap();
    session.on_mic_buffer(&[50_000, -50_000]).unwrap();
    assert_eq!(session.input_level(), 500_000);
    assert_eq!(session.input_len(), 2);
    let wave = session.waveform();
    assert_eq!(wave.len(), 60);
    assert_eq!(wave[59], 500_000);
    assert_eq!(wave[58], 0);
    let recording = session.stop().unwrap().unwrap();
    assert_eq!(recording.samples(), &vec![70_000, -70_000]);
}

#[test]
fn the_combined_level_adds_both_sources_and_is_capped() {
    let mut session = CaptureSession::new();
    let format = StreamFormat::new(48000, 1).unwrap();
    session.start(Some(format)).unwrap();
    session.on_loopback_buffer(&[60_000, -60_000], format).unwrap();
    assert_eq!(session.output_level(), 300_000);
    assert_eq!(session.waveform(), vec![0; 60]);
    session.on_mic_buffer(&[100_000]).unwrap();
    assert_eq!(session.input_level(), 500_000);
    assert_eq!(session.waveform()[59], 800_000);
    session.on_loopback_buffer(&[200_000], format).unwrap();
    assert_eq!(session.output_level(), FULL_SCALE);
    session.on_mic_buffer(&[100_000]).unwrap();
    assert_eq!(session.waveform()[59], FULL_SCALE);
    assert_eq!(session.waveform()[58], 800_000);
}

#[test]
fn the_loopback_buffer_is_mixed_to_mono_and_converted() {
    let mut session = CaptureSession::new();
    session.start(StreamFormat::new(48000, 1)).unwrap();
    let stereo_half_rate = StreamFormat::new(24000, 2).unwrap();
    session.on_loopback_buffer(&[100_000, 300_000, -100_000, -300_000], stereo_half_rate).unwrap();
    assert_eq!(session.output_len(), 4);
    let recording = session.stop().unwrap().unwrap();
    assert_eq!(recording.samples(), &vec![140_000, 140_000, -140_000, -140_000]);
}

#[test]
fn a_multi_channel_microphone_is_mixed_to_mono_at_stop() {
    let mut session = CaptureSession::new();
    session.start(StreamFormat::new(48000, 2)).unwrap();
    session.on_mic_buffer(&[100_000, 300_000, 500_000]).unwrap();
    session.on_mic_buffer(&[700_000]).unwrap();
    let recording = session.stop().unwrap().unwrap();
    assert_eq!(recording.samples(), &vec![140_000, 420_000]);
}

#[test]
fn less_than_one_frame_of_microphone_samples_yields_no_recording() {
    let mut session = CaptureSession::new();
    session.start(StreamFormat::new(48000, 2)).unwrap();
    session.on_mic_buffer(&[100_000]).unwrap();
    assert!(matches!(session.stop(), Ok(None)));
}

#[test]
fn stop_drains_the_buffers_and_silences_the_meters() {
    let mut session = CaptureSession::new();
    let format = StreamFormat::new(48000, 1).unwrap();
    session.start(Some(format)).unwrap();
    session.on_mic_buffer(&[900_000]).unwrap();
    session.on_loopback_buffer(&[900_000], format).unwrap();
    session.tick(1500);
    assert!(session.stop().unwrap().is_some());
    assert_eq!(session.state(), SessionState::Idle);
    assert_eq!(session.input_len(), 0);
    assert_eq!(session.output_len(), 0);
    assert_eq!(session.input_level(), 0);
    assert_eq!(session.output_level(), 0);
    assert_eq!(session.elapsed_ms(), 0);
    assert_eq!(session.waveform(), vec![0; 60]);
    session.start(None).unwrap();
    assert!(matches!(session.stop(), Ok(None)));
}

#[test]
fn the_clock_moves_only_while_recording() {
    let mut session = CaptureSession::new();
    session.tick(10);
    assert_eq!(session.elapsed_ms(), 0);
    session.start(None).unwrap();
    session.tick(1200);
    assert_eq!(session.elapsed_ms(), 1200);
    session.pause().unwrap();
    session.tick(5000);
    assert_eq!(session.elapsed_ms(), 1200);
    session.resume().unwrap();
    session.tick(7000);
    assert_eq!(session.elapsed_ms(), 7000);
}

#[test]
fn an_empty_microphone_buffer_reads_as_silence() {
    let mut session = CaptureSession::new();
    session.start(None).unwrap();
    session.on_mic_buffer(&[500_000]).unwrap();
    session.on_mic_buffer(&[]).unwrap();
    assert_eq!(session.input_level(), 0);
    assert_eq!(session.input_len(), 1);
    assert_eq!(session.waveform()[59], 0);
    assert_eq!(session.waveform()[58], FULL_SCALE);
}

#[test]
fn frames_made_outside_the_session_have_the_effect_of_buffers() {
    let format = StreamFormat::new(24000, 2).unwrap();
    let mut by_buffer = CaptureSession::new();
    let mut by_frame = CaptureSession::new();
    by_buffer.set_mic_gain(1_500_000);
    by_frame.set_mic_gain(1_500_000);
    by_buffer.start(StreamFormat::new(48000, 1)).unwrap();
    by_frame.start(StreamFormat::new(48000, 1)).unwrap();

    by_buffer.on_loopback_buffer(&[30_000, 50_000, -10_000, -30_000], format).unwrap();
    let frame = LoopbackFrame::from_buffer(&[30_000, 50_000, -10_000, -30_000], format, 48000);
    assert_eq!(frame.level(), 165_830);
    by_frame.take_loopback_frame(frame).unwrap();

    by_buffer.on_mic_buffer(&[100_000, -100_000]).unwrap();
    let frame = MicFrame::from_buffer(&[100_000, -100_000], by_frame.mic_gain());
    assert_eq!(frame.level(), 750_000);
    by_frame.take_mic_frame(frame).unwrap();

    assert_eq!(by_buffer.input_level(), by_frame.input_level());
    assert_eq!(by_buffer.output_level(), by_frame.output_level());
    assert_eq!(by_buffer.waveform(), by_frame.waveform());
    assert_eq!(by_frame.waveform()[59], 915_830);
    let a = by_buffer.stop().unwrap().unwrap();
    let b = by_frame.stop().unwrap().unwrap();
    assert_eq!(a.samples(), b.samples());
    assert_eq!(b.samples(), &vec![133_000, -77_000, -14_000, -14_000]);
}

#[test]
fn an_idle_session_refuses_frames() {
    let mut session = CaptureSession::new();
    let format = StreamFormat::new(48000, 1).unwrap();
    let mic = MicFrame::from_buffer(&[1, 2], 1_000_000);
    assert_eq!(session.take_mic_frame(mic), Err(SessionError::NotActive));
    let loopback = LoopbackFrame::from_buffer(&[1, 2], format, 48000);
    assert_eq!(session.take_loopback_frame(loopback), Err(SessionError::NotActive));
    assert_eq!(session.input_len(), 0);
    assert_eq!(session.output_len(), 0);
}
