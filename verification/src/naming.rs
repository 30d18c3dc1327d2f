//! Where a finished recording is written: its file name and its path.
use vstd::prelude::*;
use vstd::string::{StrSliceExecFns, StringExecFns};

verus! {

/// A text without the `/` characters at its end.
pub open spec fn without_trailing_slashes(s: Seq<char>) -> Seq<char>
    decreases s.len(),
{
    if s.len() > 0 && s.last() == '/' {
        without_trailing_slashes(s.drop_last())
    } else {
        s
    }
}

/// Whether a character is a decimal digit.
pub open spec fn is_digit(c: char) -> bool {
    0x30 <= c as u32 <= 0x39
}

/// Whether a text has the shape of a time stamp: the year, the month and the
/// day, an underscore, then the hour, the minute and the second.
///
/// The year has at least four digits and, outside the years 0 to 9999, a
/// sign before them; each of the other five numbers has two digits. So the
/// text has at least fifteen characters, the underscore stands seventh from
/// the end, the first character is a digit or a sign and all others are
/// digits.
pub open spec fn is_stamp(s: Seq<char>) -> bool {
    &&& s.len() >= 15
    &&& s[s.len() - 7] == '_'
    &&& is_digit(s[0]) || s[0] == '+' || s[0] == '-'
    &&& forall|i: int| 0 < i < s.len() && i != s.len() - 7 ==> is_digit(#[trigger] s[i])
}

/// The file name of a recording stamped `stamp`.
pub open spec fn file_name_of(stamp: Seq<char>) -> Seq<char> {
    "recording_"@ + stamp + ".ogg"@
}

/// The path of `file_name` below `dir`, with one `/` between them.
pub open spec fn joined_path(dir: Seq<char>, file_name: Seq<char>) -> Seq<char> {
    without_trailing_slashes(dir) + "/"@ + file_name
}

/// The path a recording is written to: below the save directory where one is
/// set and ready, else the bare file name, which lands in the working directory.
pub open spec fn output_path_of(
    save_dir: Option<Seq<char>>,
    dir_ready: bool,
    file_name: Seq<char>,
) -> Seq<char> {
    match save_dir {
        Some(dir) => if dir_ready {
            joined_path(dir, file_name)
        } else {
            file_name
        },
        None => file_name,
    }
}

/// Trimming leaves a prefix that does not end in `/`.
pub proof fn lemma_without_trailing_slashes(s: Seq<char>)
    ensures
        without_trailing_slashes(s).is_prefix_of(s),
        without_trailing_slashes(s).len() > 0 ==> without_trailing_slashes(s).last() != '/',
        forall|i: int| without_trailing_slashes(s).len() <= i < s.len() ==> s[i] == '/',
    decreases s.len(),
{
    if s.len() > 0 && s.last() == '/' {
        let init = s.drop_last();
        lemma_without_trailing_slashes(init);
        assert forall|i: int| without_trailing_slashes(s).len() <= i < s.len() implies s[i]
            == '/' by {
            if i < init.len() {
                assert(s[i] == init[i]);
            }
        }
    }
}

/// A stamp holds no `/`.
pub proof fn lemma_stamp_has_no_slash(s: Seq<char>)
    requires
        is_stamp(s),
    ensures
        forall|i: int| 0 <= i < s.len() ==> s[i] != '/',
{
    assert forall|i: int| 0 <= i < s.len() implies s[i] != '/' by {
        if 0 < i && i != s.len() - 7 {
            assert(is_digit(s[i]));
        }
    }
}

/// Reads the local time through `chrono::Local::now` and writes it out with
/// `DateTime::format` under the pattern year, month, day, an underscore, hour,
/// minute, second. Which time is written depends on the clock and the time
/// zone of the machine, and nothing is claimed of it. Claimed is the shape
/// that `chrono` gives to every time under this pattern: the year zero-padded
/// to four digits, with a sign before it outside the years 0 to 9999, and two
/// digits for each of the other numbers. `chrono` gives up where the clock of
/// the machine stands before the year 1970.
#[verifier::external_body]
fn local_time_text(pattern: &str) -> (text: String)
    requires
        pattern@ == "%Y%m%d_%H%M%S"@,
    ensures
        is_stamp(text@),
{
    chrono::Local::now().format(pattern).to_string()
}

/// The file name of a recording stamped `stamp`: `recording_`, the stamp, `.ogg`.
pub fn recording_file_name(stamp: &str) -> (name: String)
    ensures
        name@ == file_name_of(stamp@),
{
    let mut name: String = String::from_str("recording_");
    name.append(stamp);
    name.append(".ogg");
    name
}

/// The file name of a recording that ends now: `recording_`, a stamp of the
/// local time, `.ogg`.
pub fn recording_file_name_now() -> (name: String)
    ensures
        exists|stamp: Seq<char>| is_stamp(stamp) && name@ == file_name_of(stamp),
{
    let stamp: String = local_time_text("%Y%m%d_%H%M%S");
    let name: String = recording_file_name(stamp.as_str());
    assert(is_stamp(stamp@) && name@ == file_name_of(stamp@));
    name
}

/// `dir` without the `/` characters at its end.
pub fn trim_trailing_slashes(dir: &str) -> (trimmed: &str)
    ensures
        trimmed@ == without_trailing_slashes(dir@),
{
    let mut end: usize = dir.unicode_len();
    assert(dir@.take(end as int) =~= dir@);
    while end > 0 && dir.get_char(end - 1) == '/'
        invariant
            end <= dir@.len(),
            without_trailing_slashes(dir@) == without_trailing_slashes(dir@.take(end as int)),
        decreases end,
    {
        assert(dir@.take(end as int).drop_last() =~= dir@.take(end as int - 1));
        end = end - 1;
    }
    dir.substring_char(0, end)
}

/// The path a recording is written to.
///
/// `dir_ready` says whether the save directory exists or could be made.
pub fn output_path(save_dir: Option<&str>, dir_ready: bool, file_name: &str) -> (path: String)
    ensures
        path@ == output_path_of(
            match save_dir {
                Some(dir) => Some(dir@),
                None => None,
            },
            dir_ready,
            file_name@,
        ),
{
    match save_dir {
        Some(dir) => {
            if dir_ready {
                let mut path: String = String::from_str(trim_trailing_slashes(dir));
                path.append("/");
                path.append(file_name);
                path
            } else {
                String::from_str(file_name)
            }
        },
        None => String::from_str(file_name),
    }
}

} // verus!
