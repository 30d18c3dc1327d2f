//! The persisted preferences and how they are fitted to the current catalog.
use vstd::prelude::*;
use crate::gain::UNITY_GAIN;
use crate::sources::{
    AudioSource,
    SourceView,
    catalog_view,
    choose_loopback,
    choose_microphone,
    is_loopback_choice,
    is_mic_choice,
};

verus! {

/// The preferences that outlive one run of the recorder.
#[derive(Debug, Clone)]
pub struct Config {
    /// The catalog position of the microphone.
    pub selected_mic_index: usize,
    /// The catalog position of the loopback source, if loopback is wanted.
    pub selected_loopback_index: Option<usize>,
    /// The microphone gain, in millionths.
    pub mic_gain: i32,
    /// Where recordings are written; the working directory where unset.
    pub save_directory: Option<String>,
    /// Where finished recordings are uploaded.
    pub n8n_endpoint: Option<String>,
    /// Whether finished recordings are uploaded at all.
    pub n8n_enabled: bool,
    /// Whether an uploaded recording is also kept on disk.
    pub save_locally: bool,
}

/// A `Config` as mathematical values.
pub struct ConfigView {
    pub selected_mic_index: usize,
    pub selected_loopback_index: Option<usize>,
    pub mic_gain: i32,
    pub save_directory: Option<Seq<char>>,
    pub n8n_endpoint: Option<Seq<char>>,
    pub n8n_enabled: bool,
    pub save_locally: bool,
}

/// The text of an optional string.
pub open spec fn text_view(s: Option<String>) -> Option<Seq<char>> {
    match s {
        Some(t) => Some(t@),
        None => None,
    }
}

impl View for Config {
    type V = ConfigView;

    open spec fn view(&self) -> ConfigView {
        ConfigView {
            selected_mic_index: self.selected_mic_index,
            selected_loopback_index: self.selected_loopback_index,
            mic_gain: self.mic_gain,
            save_directory: text_view(self.save_directory),
            n8n_endpoint: text_view(self.n8n_endpoint),
            n8n_enabled: self.n8n_enabled,
            save_locally: self.save_locally,
        }
    }
}

/// The preferences of a first run: unity gain, no upload, recordings kept.
pub open spec fn default_config() -> ConfigView {
    ConfigView {
        selected_mic_index: 0,
        selected_loopback_index: None,
        mic_gain: UNITY_GAIN,
        save_directory: None,
        n8n_endpoint: None,
        n8n_enabled: false,
        save_locally: true,
    }
}

/// The saved microphone position, where there are saved preferences.
pub open spec fn saved_mic(saved: Option<ConfigView>) -> Option<usize> {
    match saved {
        Some(c) => Some(c.selected_mic_index),
        None => None,
    }
}

/// The saved loopback position, where there are saved preferences that name one.
pub open spec fn saved_loopback(saved: Option<ConfigView>) -> Option<usize> {
    match saved {
        Some(c) => c.selected_loopback_index,
        None => None,
    }
}

/// Whether `fitted` is what the saved preferences become against a catalog:
/// the two selections are chosen anew, everything else is kept, and missing
/// preferences count as the defaults.
pub open spec fn is_fitted(
    saved: Option<ConfigView>,
    sources: Seq<SourceView>,
    fitted: ConfigView,
) -> bool {
    let base = match saved {
        Some(c) => c,
        None => default_config(),
    };
    &&& is_mic_choice(sources, saved_mic(saved), fitted.selected_mic_index)
    &&& is_loopback_choice(sources, saved_loopback(saved), fitted.selected_loopback_index)
    &&& fitted.mic_gain == base.mic_gain
    &&& fitted.save_directory == base.save_directory
    &&& fitted.n8n_endpoint == base.n8n_endpoint
    &&& fitted.n8n_enabled == base.n8n_enabled
    &&& fitted.save_locally == base.save_locally
}

/// The view of an optional config.
pub open spec fn config_view(saved: Option<Config>) -> Option<ConfigView> {
    match saved {
        Some(c) => Some(c@),
        None => None,
    }
}

impl Config {
    /// The preferences of a first run.
    pub fn defaults() -> (c: Self)
        ensures
            c@ == default_config(),
    {
        Config {
            selected_mic_index: 0,
            selected_loopback_index: None,
            mic_gain: UNITY_GAIN,
            save_directory: None,
            n8n_endpoint: None,
            n8n_enabled: false,
            save_locally: true,
        }
    }

    /// Fits the saved preferences, or the defaults where nothing was saved, to
    /// the current catalog.
    pub fn fit(saved: Option<Config>, sources: &Vec<AudioSource>) -> (fitted: Self)
        ensures
            is_fitted(config_view(saved), catalog_view(sources@), fitted@),
    {
        match saved {
            Some(c) => {
                let mic: usize = choose_microphone(sources, Some(c.selected_mic_index));
                let loopback: Option<usize> = choose_loopback(sources, c.selected_loopback_index);
                Config {
                    selected_mic_index: mic,
                    selected_loopback_index: loopback,
                    mic_gain: c.mic_gain,
                    save_directory: c.save_directory,
                    n8n_endpoint: c.n8n_endpoint,
                    n8n_enabled: c.n8n_enabled,
                    save_locally: c.save_locally,
                }
            },
            None => {
                let mic: usize = choose_microphone(sources, None);
                let loopback: Option<usize> = choose_loopback(sources, None);
                Config {
                    selected_mic_index: mic,
                    selected_loopback_index: loopback,
                    mic_gain: UNITY_GAIN,
                    save_directory: None,
                    n8n_endpoint: None,
                    n8n_enabled: false,
                    save_locally: true,
                }
            },
        }
    }
}

} // verus!
