use audio_recorder::history::{WaveformHistory, HISTORY_LEN};

#[test]
fn a_new_history_holds_sixty_silent_entries() {
    let h = WaveformHistory::new();
    assert_eq!(HISTORY_LEN, 60);
    assert_eq!(h.len(), 60);
    assert_eq!(h.to_vec(), vec![0; 60]);
}

#[test]
fn history_keeps_sixty_entries_after_any_number_of_pushes() {
    let mut h = WaveformHistory::new();
    for i in 0..1000 {
        h.push(i);
        assert_eq!(h.len(), 60);
        assert_eq!(h.to_vec().len(), 60);
    }
}

#[test]
fn the_oldest_entry_is_evicted_first() {
    let mut h = WaveformHistory::new();
    for i in 1..=3 {
        h.push(i);
    }
    let mut expected = vec![0; 57];
    expected.extend_from_slice(&[1, 2, 3]);
    assert_eq!(h.to_vec(), expected);
    for i in 4..=100 {
        h.push(i);
    }
    let expected: Vec<i32> = (41..=100).collect();
    assert_eq!(h.to_vec(), expected);
    assert_eq!(h.get(0), 41);
    assert_eq!(h.get(59), 100);
    assert_eq!(h.latest(), 100);
}

#[test]
fn reset_silences_every_entry() {
    let mut h = WaveformHistory::new();
    for i in 0..75 {
        h.push(i + 1);
    }
    h.reset();
    assert_eq!(h.to_vec(), vec![0; 60]);
    h.push(9);
    assert_eq!(h.latest(), 9);
    assert_eq!(h.get(58), 0);
}
