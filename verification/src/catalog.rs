//! Reading the sound server's listing of capture sources.
//!
//! The listing is text. Each source contributes, among other lines, one line
//! that starts with `Name: ` and a later one that starts with
//! `Description: `; indentation does not count. A source whose name contains
//! `.monitor` mirrors an output.
use vstd::prelude::*;
use crate::sources::{AudioSource, SourceView, catalog_view};
use crate::text::{chars_of, string_of};

verus! {

/// Whether a character is white space: the characters with the Unicode
/// property `White_Space`.
pub open spec fn is_space(c: char) -> bool {
    let n = c as u32;
    ||| 0x09 <= n <= 0x0d
    ||| n == 0x20
    ||| n == 0x85
    ||| n == 0xa0
    ||| n == 0x1680
    ||| 0x2000 <= n <= 0x200a
    ||| n == 0x2028
    ||| n == 0x2029
    ||| n == 0x202f
    ||| n == 0x205f
    ||| n == 0x3000
}

/// A text without the white space at its start.
pub open spec fn trim_start(s: Seq<char>) -> Seq<char>
    decreases s.len(),
{
    if s.len() > 0 && is_space(s[0]) {
        trim_start(s.drop_first())
    } else {
        s
    }
}

/// A text without the white space at its end.
pub open spec fn trim_end(s: Seq<char>) -> Seq<char>
    decreases s.len(),
{
    if s.len() > 0 && is_space(s.last()) {
        trim_end(s.drop_last())
    } else {
        s
    }
}

/// A text without the white space at either end.
pub open spec fn trimmed(s: Seq<char>) -> Seq<char> {
    trim_end(trim_start(s))
}

/// Whether `part` occurs somewhere in `s`.
pub open spec fn contains_text(s: Seq<char>, part: Seq<char>) -> bool {
    exists|i: int| occurs_at(s, part, i)
}

/// Whether `part` occurs in `s` at position `i`.
pub open spec fn occurs_at(s: Seq<char>, part: Seq<char>, i: int) -> bool {
    0 <= i && i + part.len() <= s.len() && s.subrange(i, i + part.len()) == part
}

/// The lines of a text: the pieces between its line feeds. A text with `k`
/// line feeds has `k + 1` lines, some of which may be empty.
pub open spec fn lines_of(text: Seq<char>) -> Seq<Seq<char>>
    decreases text.len(),
{
    if text.len() == 0 {
        seq![Seq::empty()]
    } else {
        let init = lines_of(text.drop_last());
        if text.last() == '\n' {
            init.push(Seq::empty())
        } else {
            init.drop_last().push(init.last().push(text.last()))
        }
    }
}

/// Lines written out again with a line feed between each two.
pub open spec fn join_lines(lines: Seq<Seq<char>>) -> Seq<char>
    decreases lines.len(),
{
    if lines.len() == 0 {
        Seq::empty()
    } else if lines.len() == 1 {
        lines[0]
    } else {
        join_lines(lines.drop_last()) + seq!['\n'] + lines.last()
    }
}

/// A text has at least one line, no line holds a line feed, and the lines
/// joined by line feeds are the text.
pub proof fn lemma_lines_split_the_text(text: Seq<char>)
    ensures
        lines_of(text).len() >= 1,
        forall|k: int, j: int|
            0 <= k < lines_of(text).len() && 0 <= j < lines_of(text)[k].len() ==> lines_of(
                text,
            )[k][j] != '\n',
        join_lines(lines_of(text)) == text,
    decreases text.len(),
{
    if text.len() == 0 {
        assert(join_lines(lines_of(text)) =~= text);
    } else {
        let before = text.drop_last();
        lemma_lines_split_the_text(before);
        let init = lines_of(before);
        let all = lines_of(text);
        if text.last() == '\n' {
            assert(all.drop_last() =~= init);
            assert(all.len() >= 2);
            assert(join_lines(all) == join_lines(all.drop_last()) + seq!['\n'] + all.last());
            assert(join_lines(all) =~= text);
        } else {
            let grown = init.last().push(text.last());
            assert(all.last() == grown);
            if init.len() == 1 {
                assert(join_lines(init) == init[0]);
                assert(all.len() == 1);
                assert(join_lines(all) =~= text);
            } else {
                assert(all.drop_last() =~= init.drop_last());
                assert(join_lines(init) == join_lines(init.drop_last()) + seq!['\n']
                    + init.last());
                assert(all.len() >= 2);
                assert(join_lines(all) == join_lines(all.drop_last()) + seq!['\n'] + grown);
                assert(before + seq![text.last()] =~= text);
                assert(join_lines(all) =~= join_lines(init) + seq![text.last()]);
                assert(join_lines(all) =~= text);
            }
        }
    }
}

/// What the reader holds between two lines: the name still waiting for its
/// description, and the sources found so far.
pub struct ParseState {
    pub pending_name: Seq<char>,
    pub sources: Seq<SourceView>,
}

/// What one line does to the reader's state.
///
/// A name line replaces the waiting name. A description line, where a name
/// is waiting and the description is not empty, completes a source and
/// leaves no name waiting. Every other line changes nothing.
pub open spec fn parse_line(state: ParseState, line: Seq<char>) -> ParseState {
    let t = trimmed(line);
    if "Name: "@.is_prefix_of(t) {
        ParseState { pending_name: t.skip("Name: "@.len() as int), ..state }
    } else if "Description: "@.is_prefix_of(t) {
        let description = t.skip("Description: "@.len() as int);
        if state.pending_name.len() > 0 && description.len() > 0 {
            ParseState {
                pending_name: Seq::empty(),
                sources: state.sources.push(
                    SourceView {
                        name: state.pending_name,
                        display_name: description,
                        is_monitor: contains_text(state.pending_name, ".monitor"@),
                    },
                ),
            }
        } else {
            state
        }
    } else {
        state
    }
}

/// The reader's state after a run of lines.
pub open spec fn parse_lines(lines: Seq<Seq<char>>) -> ParseState
    decreases lines.len(),
{
    if lines.len() == 0 {
        ParseState { pending_name: Seq::empty(), sources: Seq::empty() }
    } else {
        parse_line(parse_lines(lines.drop_last()), lines.last())
    }
}

/// The sources that a listing describes, in the order of the listing.
pub open spec fn parsed_sources(listing: Seq<char>) -> Seq<SourceView> {
    parse_lines(lines_of(listing)).sources
}

/// Every source read from a listing has a name and a label, and counts as a
/// loopback exactly when its name contains `.monitor`.
pub proof fn lemma_parsed_sources_are_complete(lines: Seq<Seq<char>>)
    ensures
        forall|k: int|
            0 <= k < parse_lines(lines).sources.len() ==> {
                let s = #[trigger] parse_lines(lines).sources[k];
                &&& s.name.len() > 0
                &&& s.display_name.len() > 0
                &&& s.is_monitor == contains_text(s.name, ".monitor"@)
            },
    decreases lines.len(),
{
    if lines.len() > 0 {
        lemma_parsed_sources_are_complete(lines.drop_last());
        let earlier = parse_lines(lines.drop_last());
        let now = parse_lines(lines);
        assert(now == parse_line(earlier, lines.last()));
        assert forall|k: int| 0 <= k < now.sources.len() implies {
            let s = #[trigger] now.sources[k];
            &&& s.name.len() > 0
            &&& s.display_name.len() > 0
            &&& s.is_monitor == contains_text(s.name, ".monitor"@)
        } by {
            if k < earlier.sources.len() {
                assert(now.sources[k] == earlier.sources[k]);
            }
        }
    }
}

/// Whether a character is white space.
pub fn is_space_char(c: char) -> (r: bool)
    ensures
        r == is_space(c),
{
    let n: u32 = c as u32;
    (0x09 <= n && n <= 0x0d) || n == 0x20 || n == 0x85 || n == 0xa0 || n == 0x1680 || (0x2000 <= n
        && n <= 0x200a) || n == 0x2028 || n == 0x2029 || n == 0x202f || n == 0x205f || n == 0x3000
}

/// The bounds of the part of `chars[start..end]` that is left when the white
/// space at both ends is taken off.
pub fn trim_bounds(chars: &[char], start: usize, end: usize) -> (r: (usize, usize))
    requires
        start <= end <= chars@.len(),
    ensures
        start <= r.0 <= r.1 <= end,
        chars@.subrange(r.0 as int, r.1 as int) == trimmed(
            chars@.subrange(start as int, end as int),
        ),
{
    let mut lo: usize = start;
    while lo < end && is_space_char(chars[lo])
        invariant
            start <= lo <= end <= chars@.len(),
            trim_start(chars@.subrange(start as int, end as int)) == trim_start(
                chars@.subrange(lo as int, end as int),
            ),
        decreases end - lo,
    {
        assert(chars@.subrange(lo as int, end as int).drop_first() =~= chars@.subrange(
            lo as int + 1,
            end as int,
        ));
        lo = lo + 1;
    }
    let mut hi: usize = end;
    while hi > lo && is_space_char(chars[hi - 1])
        invariant
            lo <= hi <= end <= chars@.len(),
            trim_end(chars@.subrange(lo as int, end as int)) == trim_end(
                chars@.subrange(lo as int, hi as int),
            ),
        decreases hi,
    {
        assert(chars@.subrange(lo as int, hi as int).drop_last() =~= chars@.subrange(
            lo as int,
            hi as int - 1,
        ));
        hi = hi - 1;
    }
    (lo, hi)
}

/// Whether `part` occurs in `chars[start..end]` at offset `at`.
pub fn matches_at(chars: &[char], start: usize, end: usize, at: usize, part: &[char]) -> (r: bool)
    requires
        start <= end <= chars@.len(),
    ensures
        r == occurs_at(chars@.subrange(start as int, end as int), part@, at as int),
{
    let len: usize = end - start;
    let m: usize = part.len();
    if at > len || m > len - at {
        return false;
    }
    let ghost s = chars@.subrange(start as int, end as int);
    let mut j: usize = 0;
    while j < m
        invariant
            j <= m,
            m == part@.len(),
            at + m <= len,
            len == end - start,
            start <= end <= chars@.len(),
            s == chars@.subrange(start as int, end as int),
            forall|k: int| 0 <= k < j ==> s[at + k] == part@[k],
        decreases m - j,
    {
        if chars[start + at + j] != part[j] {
            assert(s.subrange(at as int, at + m)[j as int] != part@[j as int]);
            return false;
        }
        j = j + 1;
    }
    assert(s.subrange(at as int, at + m) =~= part@);
    true
}

/// Whether `part` occurs somewhere in `chars[start..end]`.
pub fn contains_part(chars: &[char], start: usize, end: usize, part: &[char]) -> (r: bool)
    requires
        start <= end <= chars@.len(),
    ensures
        r == contains_text(chars@.subrange(start as int, end as int), part@),
{
    let len: usize = end - start;
    let ghost s = chars@.subrange(start as int, end as int);
    let mut at: usize = 0;
    while at < len
        invariant
            at <= len,
            len == end - start,
            start <= end <= chars@.len(),
            s == chars@.subrange(start as int, end as int),
            forall|k: int| 0 <= k < at ==> !occurs_at(s, part@, k),
        decreases len - at,
    {
        if matches_at(chars, start, end, at, part) {
            return true;
        }
        at = at + 1;
    }
    if matches_at(chars, start, end, len, part) {
        return true;
    }
    assert forall|k: int| !occurs_at(s, part@, k) by {
        if 0 <= k && k + part@.len() <= s.len() {
            assert(k <= len);
        }
    }
    false
}

/// The three texts that the reader looks for.
struct Marks {
    name_prefix: Vec<char>,
    description_prefix: Vec<char>,
    monitor_mark: Vec<char>,
}

impl Marks {
    spec fn well_formed(&self) -> bool {
        &&& self.name_prefix@ == "Name: "@
        &&& self.description_prefix@ == "Description: "@
        &&& self.monitor_mark@ == ".monitor"@
    }

    fn new() -> (m: Self)
        ensures
            m.well_formed(),
    {
        Marks {
            name_prefix: chars_of("Name: "),
            description_prefix: chars_of("Description: "),
            monitor_mark: chars_of(".monitor"),
        }
    }
}

/// Takes in the line `chars[start..end]`: `pending` holds the bounds of the
/// waiting name, `sources` what was found so far.
fn read_line(
    chars: &[char],
    start: usize,
    end: usize,
    marks: &Marks,
    pending: &mut (usize, usize),
    sources: &mut Vec<AudioSource>,
)
    requires
        marks.well_formed(),
        start <= end <= chars@.len(),
        old(pending).0 <= old(pending).1 <= chars@.len(),
    ensures
        final(pending).0 <= final(pending).1 <= chars@.len(),
        (ParseState {
            pending_name: chars@.subrange(final(pending).0 as int, final(pending).1 as int),
            sources: catalog_view(final(sources)@),
        }) == parse_line(
            ParseState {
                pending_name: chars@.subrange(old(pending).0 as int, old(pending).1 as int),
                sources: catalog_view(old(sources)@),
            },
            chars@.subrange(start as int, end as int),
        ),
{
    let ghost line = chars@.subrange(start as int, end as int);
    let (lo, hi) = trim_bounds(chars, start, end);
    if matches_at(chars, lo, hi, 0, marks.name_prefix.as_slice()) {
        *pending = (lo + marks.name_prefix.len(), hi);
        assert(chars@.subrange(pending.0 as int, pending.1 as int) =~= trimmed(line).skip(
            "Name: "@.len() as int,
        ));
    } else if matches_at(chars, lo, hi, 0, marks.description_prefix.as_slice()) {
        let from: usize = lo + marks.description_prefix.len();
        assert(chars@.subrange(from as int, hi as int) =~= trimmed(line).skip(
            "Description: "@.len() as int,
        ));
        if pending.0 < pending.1 && from < hi {
            let is_monitor: bool = contains_part(
                chars,
                pending.0,
                pending.1,
                marks.monitor_mark.as_slice(),
            );
            let source = AudioSource {
                name: string_of(chars, pending.0, pending.1),
                display_name: string_of(chars, from, hi),
                is_monitor,
            };
            let ghost earlier = sources@;
            sources.push(source);
            *pending = (0, 0);
            assert(catalog_view(sources@) =~= catalog_view(earlier).push(source@));
            assert(chars@.subrange(0, 0) =~= Seq::<char>::empty());
        }
    }
}

/// Reads the sources out of the sound server's listing.
pub fn parse_sources(listing: &str) -> (sources: Vec<AudioSource>)
    ensures
        catalog_view(sources@) == parsed_sources(listing@),
{
    let chars: Vec<char> = chars_of(listing);
    let marks: Marks = Marks::new();
    let n: usize = chars.len();
    let mut sources: Vec<AudioSource> = Vec::new();
    let mut pending: (usize, usize) = (0, 0);
    let mut line_start: usize = 0;
    let mut i: usize = 0;
    assert(chars@.take(0) =~= Seq::<char>::empty());
    assert(chars@.subrange(0, 0) =~= Seq::<char>::empty());
    assert(lines_of(chars@.take(0)).drop_last() =~= Seq::<Seq<char>>::empty());
    assert(catalog_view(sources@) =~= Seq::<SourceView>::empty());
    while i < n
        invariant
            n == chars@.len(),
            marks.well_formed(),
            line_start <= i <= n,
            pending.0 <= pending.1 <= n,
            lines_of(chars@.take(i as int)).len() >= 1,
            lines_of(chars@.take(i as int)).last() == chars@.subrange(
                line_start as int,
                i as int,
            ),
            parse_lines(lines_of(chars@.take(i as int)).drop_last()) == (ParseState {
                pending_name: chars@.subrange(pending.0 as int, pending.1 as int),
                sources: catalog_view(sources@),
            }),
        decreases n - i,
    {
        let ghost upto = chars@.take(i as int + 1);
        let ghost init = lines_of(chars@.take(i as int));
        assert(upto.drop_last() =~= chars@.take(i as int));
        assert(upto.last() == chars@[i as int]);
        if chars[i] == '\n' {
            read_line(chars.as_slice(), line_start, i, &marks, &mut pending, &mut sources);
            assert(lines_of(upto) == init.push(Seq::empty()));
            assert(lines_of(upto).drop_last() =~= init);
            assert(chars@.subrange(i as int + 1, i as int + 1) =~= Seq::<char>::empty());
            line_start = i + 1;
        } else {
            assert(lines_of(upto) == init.drop_last().push(init.last().push(upto.last())));
            assert(lines_of(upto).drop_last() =~= init.drop_last());
            assert(chars@.subrange(line_start as int, i as int).push(chars@[i as int])
                =~= chars@.subrange(line_start as int, i as int + 1));
        }
        i = i + 1;
    }
    assert(chars@.take(n as int) =~= chars@);
    read_line(chars.as_slice(), line_start, n, &marks, &mut pending, &mut sources);
    sources
}

} // verus!
