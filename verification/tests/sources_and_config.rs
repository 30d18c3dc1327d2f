use audio_recorder::config::Config;
use audio_recorder::gain::UNITY_GAIN;
use audio_recorder::sources::{
    choose_loopback, choose_microphone, first_default_microphone, first_loopback,
    first_microphone, is_server_default_name, loopback_name, source_name, AudioSource,
};

fn source(name: &str, monitor: bool) -> AudioSource {
    AudioSource {
        name: name.to_string(),
        display_name: format!("{} (label)", name),
        is_monitor: monitor,
    }
}

fn catalog() -> Vec<AudioSource> {
    vec![
        source("out.monitor", true),
        source("usb-mic", false),
        source("pulse", false),
        source("hdmi.monitor", true),
        source("pipewire", false),
    ]
}

#[test]
fn the_saved_microphone_is_kept_where_it_is_still_a_microphone() {
    assert_eq!(choose_microphone(&catalog(), Some(1)), 1);
    assert_eq!(choose_microphone(&catalog(), Some(4)), 4);
}

#[test]
fn a_stale_saved_microphone_gives_way_to_a_default_by_name() {
    assert_eq!(choose_microphone(&catalog(), Some(0)), 2);
    assert_eq!(choose_microphone(&catalog(), Some(5)), 2);
    assert_eq!(choose_microphone(&catalog(), None), 2);
}

#[test]
fn without_a_default_name_the_first_microphone_is_chosen() {
    let sources = vec![source("a.monitor", true), source("mic-a", false), source("mic-b", false)];
    assert_eq!(choose_microphone(&sources, None), 1);
    assert_eq!(choose_microphone(&sources, Some(0)), 1);
    assert_eq!(choose_microphone(&sources, Some(2)), 2);
}

#[test]
fn a_monitor_named_like_a_default_is_no_microphone() {
    let sources = vec![source("pulse", true), source("mic", false)];
    assert_eq!(choose_microphone(&sources, None), 1);
    assert_eq!(first_default_microphone(&sources), None);
}

#[test]
fn without_any_microphone_position_zero_is_chosen() {
    assert_eq!(choose_microphone(&[].to_vec(), None), 0);
    assert_eq!(choose_microphone(&[].to_vec(), Some(3)), 0);
    let only_monitors = vec![source("a.monitor", true)];
    assert_eq!(choose_microphone(&only_monitors, None), 0);
}

#[test]
fn the_loopback_is_the_saved_one_or_the_first_monitor() {
    assert_eq!(choose_loopback(&catalog(), Some(3)), Some(3));
    assert_eq!(choose_loopback(&catalog(), Some(1)), Some(0));
    assert_eq!(choose_loopback(&catalog(), Some(9)), Some(0));
    assert_eq!(choose_loopback(&catalog(), None), Some(0));
    let only_mics = vec![source("mic", false)];
    assert_eq!(choose_loopback(&only_mics, None), None);
    assert_eq!(choose_loopback(&only_mics, Some(0)), None);
    assert_eq!(choose_loopback(&[].to_vec(), Some(0)), None);
}

#[test]
fn first_positions_are_found() {
    assert_eq!(first_microphone(&catalog()), Some(1));
    assert_eq!(first_default_microphone(&catalog()), Some(2));
    assert_eq!(first_loopback(&catalog()), Some(0));
    assert_eq!(first_microphone(&[].to_vec()), None);
    assert_eq!(first_loopback(&[].to_vec()), None);
}

#[test]
fn default_names_are_pulse_and_pipewire() {
    assert!(is_server_default_name(&"pulse".to_string()));
    assert!(is_server_default_name(&"pipewire".to_string()));
    assert!(!is_server_default_name(&"Pulse".to_string()));
    assert!(!is_server_default_name(&"pulse ".to_string()));
    assert!(!is_server_default_name(&"".to_string()));
}

#[test]
fn names_are_resolved_by_position() {
    assert_eq!(source_name(&catalog(), 1), Some("usb-mic".to_string()));
    assert_eq!(source_name(&catalog(), 5), None);
    assert_eq!(loopback_name(&catalog(), Some(3)), Some("hdmi.monitor".to_string()));
    assert_eq!(loopback_name(&catalog(), Some(7)), None);
    assert_eq!(loopback_name(&catalog(), None), None);
    assert_eq!(source_name(&[].to_vec(), 0), None);
}

#[test]
fn the_defaults_are_those_of_a_first_run() {
    let c = Config::defaults();
    assert_eq!(c.selected_mic_index, 0);
    assert_eq!(c.selected_loopback_index, None);
    assert_eq!(c.mic_gain, UNITY_GAIN);
    assert_eq!(c.save_directory, None);
    assert_eq!(c.n8n_endpoint, None);
    assert!(!c.n8n_enabled);
    assert!(c.save_locally);
}

#[test]
fn fitting_without_saved_preferences_picks_from_the_catalog() {
    let c = Config::fit(None, &catalog());
    assert_eq!(c.selected_mic_index, 2);
    assert_eq!(c.selected_loopback_index, Some(0));
    assert_eq!(c.mic_gain, UNITY_GAIN);
    assert_eq!(c.save_directory, None);
    assert_eq!(c.n8n_endpoint, None);
    assert!(!c.n8n_enabled);
    assert!(c.save_locally);
}

#[test]
fn fitting_keeps_what_was_saved_and_repairs_the_selections() {
    let saved = Config {
        selected_mic_index: 3,
        selected_loopback_index: Some(3),
        mic_gain: 3_162_278,
        save_directory: Some("/srv/audio".to_string()),
        n8n_endpoint: Some("https://example.org/hook".to_string()),
        n8n_enabled: true,
        save_locally: false,
    };
    let c = Config::fit(Some(saved), &catalog());
    assert_eq!(c.selected_mic_index, 2);
    assert_eq!(c.selected_loopback_index, Some(3));
    assert_eq!(c.mic_gain, 3_162_278);
    assert_eq!(c.save_directory, Some("/srv/audio".to_string()));
    assert_eq!(c.n8n_endpoint, Some("https://example.org/hook".to_string()));
    assert!(c.n8n_enabled);
    assert!(!c.save_locally);
}

#[test]
fn a_saved_choice_of_no_loopback_picks_the_first_monitor_again() {
    let mut saved = Config::defaults();
    saved.selected_mic_index = 1;
    let c = Config::fit(Some(saved), &catalog());
    assert_eq!(c.selected_mic_index, 1);
    assert_eq!(c.selected_loopback_index, Some(0));
}
