//! What the settings form offers and what applying it does to the preferences.
use vstd::prelude::*;
use vstd::string::{StrSliceExecFns, StringExecFns};
use crate::config::{Config, ConfigView, text_view};
use crate::sources::{AudioSource, SourceView, catalog_view};

verus! {

/// One entry of a source selector: a catalog position and its label.
#[derive(Debug, Clone)]
pub struct Choice {
    /// The position of the source in the catalog.
    pub index: usize,
    /// The label shown for it.
    pub label: String,
}

/// A `Choice` as mathematical values.
pub struct ChoiceView {
    pub index: usize,
    pub label: Seq<char>,
}

impl View for Choice {
    type V = ChoiceView;

    open spec fn view(&self) -> ChoiceView {
        ChoiceView { index: self.index, label: self.label@ }
    }
}

/// A list of choices as a sequence of views.
pub open spec fn choice_views(choices: Seq<Choice>) -> Seq<ChoiceView> {
    choices.map_values(|c: Choice| c@)
}

/// The entries of a selector: the loopback sources of the catalog where
/// `monitors` is set, else its microphones, in catalog order.
pub open spec fn choices_of(sources: Seq<SourceView>, monitors: bool) -> Seq<ChoiceView>
    decreases sources.len(),
{
    if sources.len() == 0 {
        Seq::empty()
    } else {
        let init = choices_of(sources.drop_last(), monitors);
        if sources.last().is_monitor == monitors {
            init.push(
                ChoiceView {
                    index: (sources.len() - 1) as usize,
                    label: sources.last().display_name,
                },
            )
        } else {
            init
        }
    }
}

/// Every entry of a selector points at a source of the right kind and shows
/// that source's label, and the entries stand in catalog order.
pub proof fn lemma_choices_point_into_catalog(sources: Seq<SourceView>, monitors: bool)
    requires
        sources.len() <= usize::MAX,
    ensures
        choices_of(sources, monitors).len() <= sources.len(),
        forall|k: int|
            0 <= k < choices_of(sources, monitors).len() ==> {
                let c = #[trigger] choices_of(sources, monitors)[k];
                &&& c.index < sources.len()
                &&& sources[c.index as int].is_monitor == monitors
                &&& sources[c.index as int].display_name == c.label
            },
        forall|j: int, k: int|
            0 <= j < k < choices_of(sources, monitors).len() ==> choices_of(
                sources,
                monitors,
            )[j].index < choices_of(sources, monitors)[k].index,
    decreases sources.len(),
{
    if sources.len() > 0 {
        lemma_choices_point_into_catalog(sources.drop_last(), monitors);
    }
}

/// Whether no entry points at catalog position `index`.
pub open spec fn is_absent(choices: Seq<ChoiceView>, index: usize) -> bool {
    forall|j: int| 0 <= j < choices.len() ==> (#[trigger] choices[j]).index != index
}

/// Whether `position` is the first entry that points at catalog position `index`.
pub open spec fn is_entry_of(choices: Seq<ChoiceView>, index: usize, position: int) -> bool {
    &&& 0 <= position < choices.len()
    &&& choices[position].index == index
    &&& forall|j: int| 0 <= j < position ==> (#[trigger] choices[j]).index != index
}

/// The entry to show as selected in the microphone selector: the one that
/// points at `index`, or the first where none does.
pub open spec fn is_mic_position(choices: Seq<ChoiceView>, index: usize, position: usize) -> bool {
    if is_absent(choices, index) {
        position == 0
    } else {
        is_entry_of(choices, index, position as int)
    }
}

/// The entry to show as selected in the loopback selector, whose first entry
/// stands for no loopback: that first entry where nothing is selected or the
/// selection is not among the entries, else one past the selection's entry.
pub open spec fn is_loopback_position(
    choices: Seq<ChoiceView>,
    selected: Option<usize>,
    position: usize,
) -> bool {
    match selected {
        None => position == 0,
        Some(index) => if is_absent(choices, index) {
            position == 0
        } else {
            position >= 1 && is_entry_of(choices, index, position - 1)
        },
    }
}

/// The catalog position behind entry `position`, where there is such an entry.
pub open spec fn picked_of(choices: Seq<ChoiceView>, position: Option<usize>) -> Option<usize> {
    match position {
        Some(p) => if p < choices.len() {
            Some(choices[p as int].index)
        } else {
            None
        },
        None => None,
    }
}

/// What entry `position` of the loopback selector asks for: `Some(None)` for
/// its first entry, which switches loopback off, `Some(Some(index))` for a
/// source, and `None` where nothing is picked.
pub open spec fn picked_loopback_of(
    choices: Seq<ChoiceView>,
    position: Option<usize>,
) -> Option<Option<usize>> {
    match position {
        Some(p) => if p == 0 {
            Some(None)
        } else if p - 1 < choices.len() {
            Some(Some(choices[p - 1].index))
        } else {
            None
        },
        None => None,
    }
}

/// The label that an empty save directory field shows.
pub open spec fn placeholder() -> Seq<char> {
    "Dossier courant"@
}

/// The path `rest` below `home`: `rest` alone where it starts at the root,
/// else `home` and `rest` with one `/` between them.
pub open spec fn under_home(home: Seq<char>, rest: Seq<char>) -> Seq<char> {
    if rest.len() > 0 && rest[0] == '/' {
        rest
    } else if home.len() == 0 || home.last() == '/' {
        home + rest
    } else {
        home + "/"@ + rest
    }
}

/// Whether a text starts with `~/`.
pub open spec fn starts_at_home(text: Seq<char>) -> bool {
    text.len() >= 2 && text[0] == '~' && text[1] == '/'
}

/// The save directory that a field's text stands for: none for an empty
/// field or the placeholder; the path below the home directory for a text
/// that starts with `~/`, where the home directory is known; else the text.
pub open spec fn save_directory_of(text: Seq<char>, home: Option<Seq<char>>) -> Option<Seq<char>> {
    if text.len() == 0 || text == placeholder() {
        None
    } else if starts_at_home(text) && home is Some {
        Some(under_home(home->0, text.skip(2)))
    } else {
        Some(text)
    }
}

/// The endpoint that a field's text stands for: none for an empty field.
pub open spec fn endpoint_of(text: Seq<char>) -> Option<Seq<char>> {
    if text.len() == 0 {
        None
    } else {
        Some(text)
    }
}

/// What the settings form holds when it is applied.
#[derive(Debug, Clone)]
pub struct SettingsForm {
    /// The picked entry of the microphone selector.
    pub mic_position: Option<usize>,
    /// The picked entry of the loopback selector; its first entry means none.
    pub loopback_position: Option<usize>,
    /// The microphone gain, in millionths.
    pub mic_gain: i32,
    /// The text of the save directory field.
    pub save_directory: String,
    /// Whether uploading is switched on.
    pub n8n_enabled: bool,
    /// The text of the endpoint field.
    pub n8n_endpoint: String,
    /// Whether uploaded recordings are kept on disk.
    pub save_locally: bool,
}

/// The preferences after a form was applied: a selector without a valid pick
/// leaves its selection as it was; everything else is taken from the form.
pub open spec fn applied(
    before: ConfigView,
    form: SettingsForm,
    mic_choices: Seq<ChoiceView>,
    loopback_choices: Seq<ChoiceView>,
    home: Option<Seq<char>>,
) -> ConfigView {
    ConfigView {
        selected_mic_index: match picked_of(mic_choices, form.mic_position) {
            Some(index) => index,
            None => before.selected_mic_index,
        },
        selected_loopback_index: match picked_loopback_of(
            loopback_choices,
            form.loopback_position,
        ) {
            Some(pick) => pick,
            None => before.selected_loopback_index,
        },
        mic_gain: form.mic_gain,
        save_directory: save_directory_of(form.save_directory@, home),
        n8n_endpoint: endpoint_of(form.n8n_endpoint@),
        n8n_enabled: form.n8n_enabled,
        save_locally: form.save_locally,
    }
}

/// Lists the entries of a selector: the loopback sources where `monitors` is
/// set, else the microphones.
pub fn source_choices(sources: &Vec<AudioSource>, monitors: bool) -> (choices: Vec<Choice>)
    ensures
        choice_views(choices@) == choices_of(catalog_view(sources@), monitors),
{
    let mut choices: Vec<Choice> = Vec::new();
    let mut i: usize = 0;
    assert(catalog_view(sources@).take(0) =~= Seq::<SourceView>::empty());
    assert(choice_views(choices@) =~= Seq::<ChoiceView>::empty());
    while i < sources.len()
        invariant
            i <= sources@.len(),
            choice_views(choices@) == choices_of(catalog_view(sources@).take(i as int), monitors),
        decreases sources@.len() - i,
    {
        let ghost upto = catalog_view(sources@).take(i as int + 1);
        assert(upto.drop_last() =~= catalog_view(sources@).take(i as int));
        assert(upto.last() == sources@[i as int]@);
        if sources[i].is_monitor == monitors {
            let choice = Choice { index: i, label: sources[i].display_name.clone() };
            let ghost earlier = choices@;
            choices.push(choice);
            assert(choice_views(choices@) =~= choice_views(earlier).push(choice@));
        }
        i = i + 1;
    }
    assert(catalog_view(sources@).take(sources@.len() as int) =~= catalog_view(sources@));
    choices
}

/// The first entry that points at catalog position `index`.
pub fn find_entry(choices: &Vec<Choice>, index: usize) -> (found: Option<usize>)
    ensures
        match found {
            Some(p) => is_entry_of(choice_views(choices@), index, p as int),
            None => is_absent(choice_views(choices@), index),
        },
{
    let mut k: usize = 0;
    while k < choices.len()
        invariant
            k <= choices@.len(),
            forall|j: int| 0 <= j < k ==> (#[trigger] choice_views(choices@)[j]).index != index,
        decreases choices@.len() - k,
    {
        if choices[k].index == index {
            return Some(k);
        }
        k = k + 1;
    }
    None
}

/// The entry of the microphone selector to show as selected.
pub fn mic_position(choices: &Vec<Choice>, selected: usize) -> (position: usize)
    ensures
        is_mic_position(choice_views(choices@), selected, position),
{
    match find_entry(choices, selected) {
        Some(p) => {
            assert(!is_absent(choice_views(choices@), selected)) by {
                assert(choice_views(choices@)[p as int].index == selected);
            }
            p
        },
        None => 0,
    }
}

/// The entry of the loopback selector to show as selected.
pub fn loopback_position(choices: &Vec<Choice>, selected: Option<usize>) -> (position: usize)
    ensures
        is_loopback_position(choice_views(choices@), selected, position),
{
    match selected {
        None => 0,
        Some(index) => match find_entry(choices, index) {
            Some(p) => {
                assert(!is_absent(choice_views(choices@), index)) by {
                    assert(choice_views(choices@)[p as int].index == index);
                }
                assert(p < choices@.len() <= usize::MAX) by {
                    vstd::std_specs::vec::axiom_spec_len(choices);
                }
                p + 1
            },
            None => 0,
        },
    }
}

/// The catalog position behind the picked entry of the microphone selector.
pub fn picked_microphone(choices: &Vec<Choice>, position: Option<usize>) -> (picked: Option<usize>)
    ensures
        picked == picked_of(choice_views(choices@), position),
{
    match position {
        Some(p) => {
            if p < choices.len() {
                Some(choices[p].index)
            } else {
                None
            }
        },
        None => None,
    }
}

/// What the picked entry of the loopback selector asks for.
pub fn picked_loopback(choices: &Vec<Choice>, position: Option<usize>) -> (picked: Option<
    Option<usize>,
>)
    ensures
        picked == picked_loopback_of(choice_views(choices@), position),
{
    match position {
        Some(p) => {
            if p == 0 {
                Some(None)
            } else if p - 1 < choices.len() {
                Some(Some(choices[p - 1].index))
            } else {
                None
            }
        },
        None => None,
    }
}

/// Asks `dirs::home_dir` for the home directory of the current user and
/// writes the path out as text. The answer depends on the variables of the
/// process, so nothing is claimed of it.
#[verifier::external_body]
fn home_directory() -> (home: Option<String>) {
    dirs::home_dir().map(|path| path.to_string_lossy().into_owned())
}

/// The path `rest` below `home`.
pub fn join_under_home(home: &str, rest: &str) -> (path: String)
    ensures
        path@ == under_home(home@, rest@),
{
    let rest_len: usize = rest.unicode_len();
    if rest_len > 0 && rest.get_char(0) == '/' {
        return String::from_str(rest);
    }
    let home_len: usize = home.unicode_len();
    let mut path: String = String::from_str(home);
    if home_len > 0 && home.get_char(home_len - 1) != '/' {
        path.append("/");
    }
    path.append(rest);
    path
}

/// The save directory that the text of the field stands for.
pub fn save_directory_from(text: &str, home: Option<&str>) -> (dir: Option<String>)
    ensures
        text_view(dir) == save_directory_of(
            text@,
            match home {
                Some(h) => Some(h@),
                None => None,
            },
        ),
{
    let len: usize = text.unicode_len();
    let owned: String = String::from_str(text);
    if len == 0 || owned.eq(&String::from_str("Dossier courant")) {
        return None;
    }
    if len >= 2 && text.get_char(0) == '~' && text.get_char(1) == '/' {
        if let Some(h) = home {
            let rest: &str = text.substring_char(2, len);
            assert(rest@ =~= text@.skip(2));
            return Some(join_under_home(h, rest));
        }
    }
    Some(owned)
}

/// The endpoint that the text of the field stands for.
pub fn endpoint_from(text: &str) -> (endpoint: Option<String>)
    ensures
        text_view(endpoint) == endpoint_of(text@),
{
    if text.unicode_len() == 0 {
        None
    } else {
        Some(String::from_str(text))
    }
}

/// Applies the form to the preferences, with the home directory given.
pub fn apply_settings_with_home(
    before: &Config,
    form: &SettingsForm,
    mic_choices: &Vec<Choice>,
    loopback_choices: &Vec<Choice>,
    home: Option<&str>,
) -> (after: Config)
    ensures
        after@ == applied(
            before@,
            *form,
            choice_views(mic_choices@),
            choice_views(loopback_choices@),
            match home {
                Some(h) => Some(h@),
                None => None,
            },
        ),
{
    let mic: usize = match picked_microphone(mic_choices, form.mic_position) {
        Some(index) => index,
        None => before.selected_mic_index,
    };
    let loopback: Option<usize> = match picked_loopback(loopback_choices, form.loopback_position) {
        Some(pick) => pick,
        None => before.selected_loopback_index,
    };
    Config {
        selected_mic_index: mic,
        selected_loopback_index: loopback,
        mic_gain: form.mic_gain,
        save_directory: save_directory_from(form.save_directory.as_str(), home),
        n8n_endpoint: endpoint_from(form.n8n_endpoint.as_str()),
        n8n_enabled: form.n8n_enabled,
        save_locally: form.save_locally,
    }
}

/// Applies the form to the preferences; `~/` in the save directory stands for
/// the home directory of the current user, where that can be found.
pub fn apply_settings(
    before: &Config,
    form: &SettingsForm,
    mic_choices: &Vec<Choice>,
    loopback_choices: &Vec<Choice>,
) -> (after: Config)
    ensures
        exists|home: Option<Seq<char>>|
            after@ == applied(
                before@,
                *form,
                choice_views(mic_choices@),
                choice_views(loopback_choices@),
                home,
            ),
{
    let home: Option<String> = home_directory();
    match home {
        Some(h) => {
            let after = apply_settings_with_home(
                before,
                form,
                mic_choices,
                loopback_choices,
                Some(h.as_str()),
            );
            assert(after@ == applied(
                before@,
                *form,
                choice_views(mic_choices@),
                choice_views(loopback_choices@),
                Some(h@),
            ));
            after
        },
        None => {
            let after = apply_settings_with_home(before, form, mic_choices, loopback_choices, None);
            assert(after@ == applied(
                before@,
                *form,
                choice_views(mic_choices@),
                choice_views(loopback_choices@),
                None,
            ));
            after
        },
    }
}

} // verus!
