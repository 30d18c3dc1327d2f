//! What happens to a finished recording: the steps of encoding it into a
//! file, and what follows once the file is there.
use vstd::prelude::*;
use vstd::string::StringExecFns;
use crate::naming::{file_name_of, is_stamp, joined_path, lemma_stamp_has_no_slash, output_path_of};
use crate::text::{chars_of, string_of};

verus! {

/// How the attempt to save a recording ended.
#[derive(Debug, Clone, Copy, PartialEq, Eq, Structural)]
pub enum SaveOutcome {
    /// The file was written and the encoder finalized.
    Saved,
    /// The file or the encoder could not be created; nothing was written.
    NotCreated,
    /// The encoder could not be finalized; the file is left as it is.
    NotFinalized,
}

/// Where an encode job stands.
#[derive(Debug, Clone, Copy, PartialEq, Eq, Structural)]
pub enum EncodeStage {
    /// The file and the encoder are still to be created.
    Opening,
    /// The chunk with this number is the next to be fed.
    Feeding(usize),
    /// All chunks were fed; the encoder is still to be finalized.
    Finalizing,
    /// The job is over.
    Finished(SaveOutcome),
}

/// What the runner of an encode job does next.
#[derive(Debug, Clone, Copy, PartialEq, Eq, Structural)]
pub enum EncodeAction {
    /// Create the file and the encoder.
    Open,
    /// Feed the chunk with this number to the encoder.
    Feed(usize),
    /// Finalize the encoder.
    Finalize,
    /// Nothing more; the job ended this way.
    Done(SaveOutcome),
}

/// An encode job as mathematical values.
pub struct JobView {
    pub chunk_count: usize,
    pub stage: EncodeStage,
    pub skipped: usize,
}

/// The action that a stage calls for.
pub open spec fn action_of(stage: EncodeStage) -> EncodeAction {
    match stage {
        EncodeStage::Opening => EncodeAction::Open,
        EncodeStage::Feeding(i) => EncodeAction::Feed(i),
        EncodeStage::Finalizing => EncodeAction::Finalize,
        EncodeStage::Finished(outcome) => EncodeAction::Done(outcome),
    }
}

/// The job after its runner reported how the last action went.
///
/// A failed opening ends the job. A failed chunk is counted and skipped: the
/// next chunk follows all the same. A failed finalizing ends the job without
/// touching the file.
pub open spec fn after_report(job: JobView, ok: bool) -> JobView {
    match job.stage {
        EncodeStage::Opening => if ok {
            JobView { stage: EncodeStage::Feeding(0), ..job }
        } else {
            JobView { stage: EncodeStage::Finished(SaveOutcome::NotCreated), ..job }
        },
        EncodeStage::Feeding(i) => JobView {
            stage: if i + 1 < job.chunk_count {
                EncodeStage::Feeding((i + 1) as usize)
            } else {
                EncodeStage::Finalizing
            },
            skipped: if ok {
                job.skipped
            } else {
                (job.skipped + 1) as usize
            },
            ..job
        },
        EncodeStage::Finalizing => if ok {
            JobView { stage: EncodeStage::Finished(SaveOutcome::Saved), ..job }
        } else {
            JobView { stage: EncodeStage::Finished(SaveOutcome::NotFinalized), ..job }
        },
        EncodeStage::Finished(_) => job,
    }
}

/// The job after a run of reports.
pub open spec fn after_reports(job: JobView, reports: Seq<bool>) -> JobView
    decreases reports.len(),
{
    if reports.len() == 0 {
        job
    } else {
        after_report(after_reports(job, reports.drop_last()), reports.last())
    }
}

/// The number of failures among the reports.
pub open spec fn failures(reports: Seq<bool>) -> nat
    decreases reports.len(),
{
    if reports.len() == 0 {
        0
    } else {
        failures(reports.drop_last()) + if reports.last() {
            0nat
        } else {
            1nat
        }
    }
}

/// A job that has just been opened.
pub open spec fn opened(chunk_count: usize) -> JobView {
    JobView { chunk_count, stage: EncodeStage::Feeding(0), skipped: 0 }
}

/// Whatever the chunks report, each chunk is fed in turn: after `k` reports
/// the job asks for chunk `k`, and after the last one for finalizing. The
/// failures are counted, none stops the job.
pub proof fn lemma_every_chunk_is_fed(chunk_count: usize, reports: Seq<bool>)
    requires
        chunk_count > 0,
        reports.len() <= chunk_count,
    ensures
        failures(reports) <= reports.len(),
        after_reports(opened(chunk_count), reports).skipped == failures(reports),
        after_reports(opened(chunk_count), reports).chunk_count == chunk_count,
        reports.len() < chunk_count ==> after_reports(opened(chunk_count), reports).stage
            == EncodeStage::Feeding(reports.len() as usize),
        reports.len() == chunk_count ==> after_reports(opened(chunk_count), reports).stage
            == EncodeStage::Finalizing,
    decreases reports.len(),
{
    if reports.len() > 0 {
        lemma_every_chunk_is_fed(chunk_count, reports.drop_last());
    }
}

/// The steps of encoding one recording, driven by whoever owns the file and
/// the encoder.
pub struct EncodeJob {
    chunk_count: usize,
    stage: EncodeStage,
    skipped: usize,
}

impl View for EncodeJob {
    type V = JobView;

    closed spec fn view(&self) -> JobView {
        JobView { chunk_count: self.chunk_count, stage: self.stage, skipped: self.skipped }
    }
}

impl EncodeJob {
    #[verifier::type_invariant]
    spec fn well_formed(self) -> bool {
        &&& self.chunk_count > 0
        &&& match self.stage {
            EncodeStage::Opening => self.skipped == 0,
            EncodeStage::Feeding(i) => i < self.chunk_count && self.skipped <= i,
            _ => self.skipped <= self.chunk_count,
        }
    }

    /// A job for a recording of `chunk_count` chunks, or `None` for no chunks.
    pub fn new(chunk_count: usize) -> (job: Option<Self>)
        ensures
            job is Some <==> chunk_count > 0,
            job matches Some(j) ==> j@ == (JobView {
                chunk_count,
                stage: EncodeStage::Opening,
                skipped: 0,
            }),
    {
        if chunk_count == 0 {
            None
        } else {
            Some(EncodeJob { chunk_count, stage: EncodeStage::Opening, skipped: 0 })
        }
    }

    /// What to do next.
    pub fn action(&self) -> (action: EncodeAction)
        ensures
            action == action_of(self@.stage),
            action matches EncodeAction::Feed(i) ==> i < self@.chunk_count,
    {
        proof {
            use_type_invariant(self);
        }
        match self.stage {
            EncodeStage::Opening => EncodeAction::Open,
            EncodeStage::Feeding(i) => EncodeAction::Feed(i),
            EncodeStage::Finalizing => EncodeAction::Finalize,
            EncodeStage::Finished(outcome) => EncodeAction::Done(outcome),
        }
    }

    /// The number of chunks that the encoder refused so far.
    pub fn skipped(&self) -> (n: usize)
        ensures
            n == self@.skipped,
            n <= self@.chunk_count,
    {
        proof {
            use_type_invariant(self);
        }
        self.skipped
    }

    /// Takes in how the last action went and moves on.
    pub fn report(&mut self, ok: bool)
        ensures
            final(self)@ == after_report(old(self)@, ok),
    {
        proof {
            use_type_invariant(&*self);
        }
        match self.stage {
            EncodeStage::Opening => {
                if ok {
                    self.stage = EncodeStage::Feeding(0);
                } else {
                    self.stage = EncodeStage::Finished(SaveOutcome::NotCreated);
                }
            },
            EncodeStage::Feeding(i) => {
                let skipped: usize = if ok {
                    self.skipped
                } else {
                    self.skipped + 1
                };
                let stage: EncodeStage = if i + 1 < self.chunk_count {
                    EncodeStage::Feeding(i + 1)
                } else {
                    EncodeStage::Finalizing
                };
                *self = EncodeJob { chunk_count: self.chunk_count, stage, skipped };
            },
            EncodeStage::Finalizing => {
                if ok {
                    self.stage = EncodeStage::Finished(SaveOutcome::Saved);
                } else {
                    self.stage = EncodeStage::Finished(SaveOutcome::NotFinalized);
                }
            },
            EncodeStage::Finished(_) => {},
        }
    }
}

/// The text of an optional string slice.
pub open spec fn str_view(s: Option<&str>) -> Option<Seq<char>> {
    match s {
        Some(t) => Some(t@),
        None => None,
    }
}

/// Where a saved recording is uploaded: the endpoint, where uploading is
/// switched on, an endpoint is set and the recording was saved.
pub open spec fn upload_target_of(
    outcome: SaveOutcome,
    enabled: bool,
    endpoint: Option<Seq<char>>,
) -> Option<Seq<char>> {
    if outcome == SaveOutcome::Saved && enabled {
        endpoint
    } else {
        None
    }
}

/// Decides whether and where a recording is uploaded.
pub fn upload_target(outcome: SaveOutcome, enabled: bool, endpoint: Option<&str>) -> (target:
    Option<String>)
    ensures
        crate::config::text_view(target) == upload_target_of(outcome, enabled, str_view(endpoint)),
{
    match outcome {
        SaveOutcome::Saved => {
            if enabled {
                match endpoint {
                    Some(e) => Some(String::from_str(e)),
                    None => None,
                }
            } else {
                None
            }
        },
        _ => None,
    }
}

/// The part of a path after its last `/`.
pub open spec fn last_component(path: Seq<char>) -> Seq<char>
    decreases path.len(),
{
    if path.len() == 0 || path.last() == '/' {
        Seq::empty()
    } else {
        last_component(path.drop_last()).push(path.last())
    }
}

/// Whether a piece of a path names nothing: an empty piece, as between two
/// `/` or behind the last one, and the piece `.`.
pub open spec fn names_nothing(piece: Seq<char>) -> bool {
    piece.len() == 0 || piece == seq!['.']
}

/// The final name in a path whose pieces are parted by `/`.
///
/// Pieces that name nothing are passed over from the end. The last piece
/// that is left is the name, unless it is `..` or there is none.
pub open spec fn final_name(path: Seq<char>) -> Option<Seq<char>>
    decreases path.len(),
{
    let piece = last_component(path);
    if names_nothing(piece) {
        if piece.len() >= path.len() {
            None
        } else {
            final_name(path.take(path.len() - piece.len() - 1))
        }
    } else if piece == seq!['.', '.'] {
        None
    } else {
        Some(piece)
    }
}

/// The file name under which a recording is uploaded: the final name of its
/// path, or a fixed name where the path has none.
pub open spec fn upload_name_of(path: Seq<char>) -> Seq<char> {
    match final_name(path) {
        Some(name) => name,
        None => "recording.ogg"@,
    }
}

/// Behind nothing, or behind a text that ends in `/`, a name without a `/` is
/// the last component.
pub proof fn lemma_last_component_of_name(prefix: Seq<char>, name: Seq<char>)
    requires
        prefix.len() == 0 || prefix.last() == '/',
        forall|i: int| 0 <= i < name.len() ==> name[i] != '/',
    ensures
        last_component(prefix + name) == name,
    decreases name.len(),
{
    if name.len() == 0 {
        assert(prefix + name =~= prefix);
    } else {
        let shorter = name.drop_last();
        lemma_last_component_of_name(prefix, shorter);
        assert((prefix + name).drop_last() =~= prefix + shorter);
        assert((prefix + name).last() == name.last());
        assert(shorter.push(name.last()) =~= name);
    }
}

/// A recording is uploaded under the file name it was written with, wherever
/// it was written.
pub proof fn lemma_upload_name_of_recording(
    save_dir: Option<Seq<char>>,
    dir_ready: bool,
    stamp: Seq<char>,
)
    requires
        forall|i: int| 0 <= i < stamp.len() ==> stamp[i] != '/',
    ensures
        upload_name_of(output_path_of(save_dir, dir_ready, file_name_of(stamp))) == file_name_of(
            stamp,
        ),
{
    reveal_strlit("recording_");
    reveal_strlit(".ogg");
    reveal_strlit("/");
    let name = file_name_of(stamp);
    assert(name.len() == stamp.len() + 14);
    assert forall|i: int| 0 <= i < name.len() implies name[i] != '/' by {
        if i < 10 {
            assert(name[i] == "recording_"@[i]);
        } else if i < 10 + stamp.len() {
            assert(name[i] == stamp[i - 10]);
        } else {
            assert(name[i] == ".ogg"@[i - 10 - stamp.len()]);
        }
    }
    let path = output_path_of(save_dir, dir_ready, name);
    if save_dir is Some && dir_ready {
        let prefix = crate::naming::without_trailing_slashes(save_dir->0) + "/"@;
        assert(path == joined_path(save_dir->0, name));
        assert(prefix.last() == '/');
        lemma_last_component_of_name(prefix, name);
    } else {
        assert(path == name);
        lemma_last_component_of_name(Seq::empty(), name);
        assert(Seq::<char>::empty() + name =~= name);
    }
    assert(last_component(path) == name);
    assert(!names_nothing(name));
    assert(name != seq!['.', '.']);
}

/// A recording named after a time stamp is uploaded under that name.
pub proof fn lemma_upload_name_of_stamped(
    save_dir: Option<Seq<char>>,
    dir_ready: bool,
    stamp: Seq<char>,
)
    requires
        is_stamp(stamp),
    ensures
        upload_name_of(output_path_of(save_dir, dir_ready, file_name_of(stamp))) == file_name_of(
            stamp,
        ),
{
    lemma_stamp_has_no_slash(stamp);
    lemma_upload_name_of_recording(save_dir, dir_ready, stamp);
}

/// Where the piece of `chars` that ends at `end` starts: behind the last `/`
/// before `end`, or at the start of the text.
pub fn component_start(chars: &[char], end: usize) -> (start: usize)
    requires
        end <= chars@.len(),
    ensures
        start <= end,
        chars@.subrange(start as int, end as int) == last_component(chars@.take(end as int)),
{
    let ghost whole = chars@.take(end as int);
    let mut start: usize = end;
    assert(whole.take(end as int) =~= whole);
    assert(chars@.subrange(end as int, end as int) =~= Seq::<char>::empty());
    assert(last_component(whole) =~= last_component(whole.take(start as int)) + chars@.subrange(
        start as int,
        end as int,
    ));
    while start > 0 && chars[start - 1] != '/'
        invariant
            start <= end <= chars@.len(),
            whole == chars@.take(end as int),
            last_component(whole) == last_component(whole.take(start as int)) + chars@.subrange(
                start as int,
                end as int,
            ),
        decreases start,
    {
        let ghost upto = whole.take(start as int);
        assert(upto.drop_last() =~= whole.take(start as int - 1));
        assert(upto.last() == chars@[start as int - 1]);
        assert(last_component(upto) == last_component(upto.drop_last()).push(upto.last()));
        assert(last_component(upto.drop_last()).push(upto.last()) + chars@.subrange(
            start as int,
            end as int,
        ) =~= last_component(upto.drop_last()) + chars@.subrange(start as int - 1, end as int));
        start = start - 1;
    }
    assert(last_component(whole.take(start as int)) =~= Seq::<char>::empty()) by {
        if start > 0 {
            assert(whole.take(start as int).last() == chars@[start as int - 1]);
        }
    }
    assert(last_component(whole) =~= chars@.subrange(start as int, end as int));
    start
}

/// The file name under which the recording at `path` is uploaded.
pub fn upload_file_name(path: &str) -> (name: String)
    ensures
        name@ == upload_name_of(path@),
{
    let chars: Vec<char> = chars_of(path);
    let mut end: usize = chars.len();
    assert(chars@.take(end as int) =~= chars@);
    loop
        invariant
            end <= chars@.len(),
            chars@ == path@,
            final_name(path@) == final_name(chars@.take(end as int)),
        decreases end,
    {
        let ghost whole = chars@.take(end as int);
        let start: usize = component_start(chars.as_slice(), end);
        let ghost piece = chars@.subrange(start as int, end as int);
        let len: usize = end - start;
        if len == 0 || (len == 1 && chars[start] == '.') {
            assert(names_nothing(piece)) by {
                if len == 1 {
                    assert(piece =~= seq!['.']);
                }
            }
            if start == 0 {
                return String::from_str("recording.ogg");
            }
            assert(whole.take(whole.len() - piece.len() - 1) =~= chars@.take(start as int - 1));
            end = start - 1;
        } else if len == 2 && chars[start] == '.' && chars[start + 1] == '.' {
            assert(piece =~= seq!['.', '.']);
            assert(!names_nothing(piece));
            return String::from_str("recording.ogg");
        } else {
            assert(!names_nothing(piece)) by {
                if piece == seq!['.'] {
                    assert(piece.len() == 1 && piece[0] == '.');
                }
            }
            assert(piece != seq!['.', '.']) by {
                if piece == seq!['.', '.'] {
                    assert(piece.len() == 2 && piece[0] == '.' && piece[1] == '.');
                }
            }
            return string_of(chars.as_slice(), start, end);
        }
    }
}

/// Whether an HTTP status code reports success: the codes from 200 to 299.
pub fn is_success_status(code: u16) -> (ok: bool)
    ensures
        ok == (200 <= code < 300),
{
    200 <= code && code < 300
}

/// The error text for an upload that the server refused.
pub fn refusal_text(status: &str, response: &str) -> (text: String)
    ensures
        text@ == "HTTP "@ + status@ + ": "@ + response@,
{
    let mut text: String = String::from_str("HTTP ");
    text.append(status);
    text.append(": ");
    text.append(response);
    text
}

/// What follows an upload: the notification to show, and whether the local
/// file goes away.
#[derive(Debug, Clone)]
pub struct FollowUp {
    /// The title of the notification.
    pub title: String,
    /// The body of the notification.
    pub body: String,
    /// Whether the local file is deleted.
    pub delete_local: bool,
}

/// Decides what follows an upload that ended with `error`, or went well where
/// there is none. The local file is deleted only after an upload that went
/// well, and only where recordings are not kept.
pub fn after_upload(error: Option<&str>, save_locally: bool) -> (next: FollowUp)
    ensures
        match error {
            None => {
                &&& next.title@ == "Upload réussi"@
                &&& next.body@ == "Le fichier a été envoyé à N8N"@
                &&& next.delete_local == !save_locally
            },
            Some(e) => {
                &&& next.title@ == "Échec de l'upload"@
                &&& next.body@ == "Erreur: "@ + e@
                &&& !next.delete_local
            },
        },
{
    match error {
        None => FollowUp {
            title: String::from_str("Upload réussi"),
            body: String::from_str("Le fichier a été envoyé à N8N"),
            delete_local: !save_locally,
        },
        Some(e) => {
            let mut body: String = String::from_str("Erreur: ");
            body.append(e);
            FollowUp { title: String::from_str("Échec de l'upload"), body, delete_local: false }
        },
    }
}

} // verus!
