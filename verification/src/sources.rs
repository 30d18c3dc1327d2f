//! The catalog of capture sources and the choice of a microphone and a loopback.
use vstd::prelude::*;
use vstd::string::StringExecFns;

verus! {

/// One capture endpoint.
#[derive(Debug, Clone)]
pub struct AudioSource {
    /// The identifier by which the audio system opens the endpoint.
    pub name: String,
    /// The label shown to the user.
    pub display_name: String,
    /// Whether the endpoint mirrors an output; all others are microphones.
    pub is_monitor: bool,
}

/// An `AudioSource` as mathematical values.
pub struct SourceView {
    pub name: Seq<char>,
    pub display_name: Seq<char>,
    pub is_monitor: bool,
}

impl View for AudioSource {
    type V = SourceView;

    open spec fn view(&self) -> SourceView {
        SourceView {
            name: self.name@,
            display_name: self.display_name@,
            is_monitor: self.is_monitor,
        }
    }
}

/// The catalog as a sequence of source views.
pub open spec fn catalog_view(sources: Seq<AudioSource>) -> Seq<SourceView> {
    sources.map_values(|s: AudioSource| s@)
}

/// Whether a source carries the name of one of the sound servers' default devices.
pub open spec fn is_server_default(s: SourceView) -> bool {
    s.name == "pulse"@ || s.name == "pipewire"@
}

/// Whether a source can serve as the microphone.
pub open spec fn is_microphone(s: SourceView) -> bool {
    !s.is_monitor
}

/// Whether a source is a microphone with a sound server's default name.
pub open spec fn is_default_microphone(s: SourceView) -> bool {
    !s.is_monitor && is_server_default(s)
}

/// Whether a source can serve as the loopback.
pub open spec fn is_loopback(s: SourceView) -> bool {
    s.is_monitor
}

/// Whether `index` is the first position in `sources` whose source satisfies `wanted`.
pub open spec fn is_first_match(
    sources: Seq<SourceView>,
    wanted: spec_fn(SourceView) -> bool,
    index: int,
) -> bool {
    &&& 0 <= index < sources.len()
    &&& wanted(sources[index])
    &&& forall|j: int| 0 <= j < index ==> !wanted(#[trigger] sources[j])
}

/// Whether no source satisfies `wanted`.
pub open spec fn no_match(sources: Seq<SourceView>, wanted: spec_fn(SourceView) -> bool) -> bool {
    forall|j: int| 0 <= j < sources.len() ==> !wanted(#[trigger] sources[j])
}

/// Whether `found` is the first position that satisfies `wanted`, or `None` where none does.
pub open spec fn is_first_match_or_none(
    sources: Seq<SourceView>,
    wanted: spec_fn(SourceView) -> bool,
    found: Option<usize>,
) -> bool {
    match found {
        Some(i) => is_first_match(sources, wanted, i as int),
        None => no_match(sources, wanted),
    }
}

/// Whether `saved` names a position in the catalog that holds a microphone.
pub open spec fn saved_mic_is_valid(sources: Seq<SourceView>, saved: Option<usize>) -> bool {
    saved matches Some(i) && i < sources.len() && !sources[i as int].is_monitor
}

/// Whether `saved` names a position in the catalog that holds a loopback source.
pub open spec fn saved_loopback_is_valid(sources: Seq<SourceView>, saved: Option<usize>) -> bool {
    saved matches Some(i) && i < sources.len() && sources[i as int].is_monitor
}

/// Whether `chosen` is the microphone to select: the saved one where it is
/// still valid; else the first microphone with a server's default name; else
/// the first microphone; else position zero.
pub open spec fn is_mic_choice(
    sources: Seq<SourceView>,
    saved: Option<usize>,
    chosen: usize,
) -> bool {
    if saved_mic_is_valid(sources, saved) {
        chosen == saved->0
    } else if !no_match(sources, |s: SourceView| is_default_microphone(s)) {
        is_first_match(sources, |s: SourceView| is_default_microphone(s), chosen as int)
    } else if !no_match(sources, |s: SourceView| is_microphone(s)) {
        is_first_match(sources, |s: SourceView| is_microphone(s), chosen as int)
    } else {
        chosen == 0
    }
}

/// Whether `chosen` is the loopback to select: the saved one where it is
/// still valid; else the first loopback source; else none.
pub open spec fn is_loopback_choice(
    sources: Seq<SourceView>,
    saved: Option<usize>,
    chosen: Option<usize>,
) -> bool {
    if saved_loopback_is_valid(sources, saved) {
        chosen == saved
    } else {
        is_first_match_or_none(sources, |s: SourceView| is_loopback(s), chosen)
    }
}

/// At most one position is the first match.
pub proof fn lemma_first_match_unique(
    sources: Seq<SourceView>,
    wanted: spec_fn(SourceView) -> bool,
    a: int,
    b: int,
)
    requires
        is_first_match(sources, wanted, a),
        is_first_match(sources, wanted, b),
    ensures
        a == b,
{
    if a < b {
        assert(!wanted(sources[a]));
    } else if b < a {
        assert(!wanted(sources[b]));
    }
}

/// The microphone choice is determined by the catalog and the saved position.
pub proof fn lemma_mic_choice_unique(
    sources: Seq<SourceView>,
    saved: Option<usize>,
    a: usize,
    b: usize,
)
    requires
        is_mic_choice(sources, saved, a),
        is_mic_choice(sources, saved, b),
    ensures
        a == b,
{
    if saved_mic_is_valid(sources, saved) {
    } else if !no_match(sources, |s: SourceView| is_default_microphone(s)) {
        lemma_first_match_unique(
            sources,
            |s: SourceView| is_default_microphone(s),
            a as int,
            b as int,
        );
    } else if !no_match(sources, |s: SourceView| is_microphone(s)) {
        lemma_first_match_unique(sources, |s: SourceView| is_microphone(s), a as int, b as int);
    }
}

/// Whether `name` is one of the sound servers' default device names.
pub fn is_server_default_name(name: &String) -> (r: bool)
    ensures
        r == (name@ == "pulse"@ || name@ == "pipewire"@),
{
    let pulse: String = String::from_str("pulse");
    let pipewire: String = String::from_str("pipewire");
    name.eq(&pulse) || name.eq(&pipewire)
}

/// The position of the first microphone, or `None` where the catalog has none.
pub fn first_microphone(sources: &Vec<AudioSource>) -> (found: Option<usize>)
    ensures
        is_first_match_or_none(catalog_view(sources@), |s: SourceView| is_microphone(s), found),
{
    let mut i: usize = 0;
    while i < sources.len()
        invariant
            i <= sources@.len(),
            forall|j: int| 0 <= j < i ==> sources@[j].is_monitor,
        decreases sources@.len() - i,
    {
        if !sources[i].is_monitor {
            return Some(i);
        }
        i = i + 1;
    }
    None
}

/// The position of the first microphone that carries a sound server's default
/// name, or `None` where the catalog has none.
pub fn first_default_microphone(sources: &Vec<AudioSource>) -> (found: Option<usize>)
    ensures
        is_first_match_or_none(
            catalog_view(sources@),
            |s: SourceView| is_default_microphone(s),
            found,
        ),
{
    let mut i: usize = 0;
    while i < sources.len()
        invariant
            i <= sources@.len(),
            forall|j: int| 0 <= j < i ==> !is_default_microphone(#[trigger] sources@[j]@),
        decreases sources@.len() - i,
    {
        if !sources[i].is_monitor && is_server_default_name(&sources[i].name) {
            return Some(i);
        }
        i = i + 1;
    }
    None
}

/// The position of the first loopback source, or `None` where the catalog has none.
pub fn first_loopback(sources: &Vec<AudioSource>) -> (found: Option<usize>)
    ensures
        is_first_match_or_none(catalog_view(sources@), |s: SourceView| is_loopback(s), found),
{
    let mut i: usize = 0;
    while i < sources.len()
        invariant
            i <= sources@.len(),
            forall|j: int| 0 <= j < i ==> !sources@[j].is_monitor,
        decreases sources@.len() - i,
    {
        if sources[i].is_monitor {
            return Some(i);
        }
        i = i + 1;
    }
    None
}

/// Picks the microphone: the saved position where it still holds a
/// microphone, else a default by name, else the first microphone, else zero.
pub fn choose_microphone(sources: &Vec<AudioSource>, saved: Option<usize>) -> (chosen: usize)
    ensures
        is_mic_choice(catalog_view(sources@), saved, chosen),
{
    if let Some(i) = saved {
        if i < sources.len() && !sources[i].is_monitor {
            return i;
        }
    }
    if let Some(i) = first_default_microphone(sources) {
        return i;
    }
    if let Some(i) = first_microphone(sources) {
        return i;
    }
    0
}

/// Picks the loopback source: the saved position where it still holds a
/// loopback source, else the first loopback source, else none.
pub fn choose_loopback(sources: &Vec<AudioSource>, saved: Option<usize>) -> (chosen: Option<usize>)
    ensures
        is_loopback_choice(catalog_view(sources@), saved, chosen),
{
    if let Some(i) = saved {
        if i < sources.len() && sources[i].is_monitor {
            return Some(i);
        }
    }
    first_loopback(sources)
}

/// The identifier of the source at `index`, or `None` where the catalog is shorter.
pub fn source_name(sources: &Vec<AudioSource>, index: usize) -> (name: Option<String>)
    ensures
        name is Some <==> index < sources@.len(),
        name matches Some(n) ==> n@ == sources@[index as int].name@,
{
    if index < sources.len() {
        Some(sources[index].name.clone())
    } else {
        None
    }
}

/// The identifier of the loopback source to open, if one is selected and the
/// catalog still has that position.
pub fn loopback_name(sources: &Vec<AudioSource>, selected: Option<usize>) -> (name: Option<String>)
    ensures
        name is Some <==> (selected matches Some(i) && i < sources@.len()),
        name matches Some(n) ==> n@ == sources@[selected->0 as int].name@,
{
    match selected {
        Some(i) => source_name(sources, i),
        None => None,
    }
}

} // verus!
