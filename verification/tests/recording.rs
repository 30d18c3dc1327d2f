use audio_recorder::recording::Recording;
use audio_recorder::session::{CaptureSession, StreamFormat};

fn record(samples: &[i32], rate: u32) -> Recording {
    let mut session = CaptureSession::new();
    session.start(StreamFormat::new(rate, 1)).unwrap();
    session.on_mic_buffer(samples).unwrap();
    session.stop().unwrap().unwrap()
}

#[test]
fn a_recording_is_cut_into_chunks_of_one_second() {
    let samples: Vec<i32> = (1..=10).map(|i| i * 10).collect();
    let rec = record(&samples, 4);
    assert_eq!(rec.sample_rate(), 4);
    assert_eq!(rec.chunk_count(), 3);
    assert_eq!(rec.chunk_bounds(0), Some((0, 4)));
    assert_eq!(rec.chunk_bounds(1), Some((4, 8)));
    assert_eq!(rec.chunk_bounds(2), Some((8, 10)));
    assert_eq!(rec.chunk_bounds(3), None);
    assert_eq!(rec.chunk(0), Some(vec![7, 14, 21, 28]));
    assert_eq!(rec.chunk(2), Some(vec![63, 70]));
    assert_eq!(rec.chunk(3), None);
}

#[test]
fn the_chunks_in_order_make_up_the_recording() {
    for len in 1usize..40 {
        for rate in 1u32..9 {
            let samples: Vec<i32> = (0..len as i32).map(|i| i * 10).collect();
            let rec = record(&samples, rate);
            let mut joined: Vec<i32> = Vec::new();
            let count = rec.chunk_count();
            assert_eq!(count, (len + rate as usize - 1) / rate as usize);
            for i in 0..count {
                let chunk = rec.chunk(i).unwrap();
                assert!(!chunk.is_empty());
                assert!(chunk.len() <= rate as usize);
                if i + 1 < count {
                    assert_eq!(chunk.len(), rate as usize);
                }
                joined.extend_from_slice(&chunk);
            }
            assert_eq!(&joined, rec.samples());
            assert!(rec.chunk(count).is_none());
        }
    }
}

#[test]
fn a_recording_of_whole_seconds_has_no_short_chunk() {
    let rec = record(&[10; 8], 4);
    assert_eq!(rec.chunk_count(), 2);
    assert_eq!(rec.chunk(1), Some(vec![7; 4]));
}
