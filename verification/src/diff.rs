//! Differences of files: what they say, line by line and in short.

use vstd::prelude::*;

use crate::event::{DiffHunk, DiffLine, FileChangeEntry, FileChangeKind};
use crate::number::{parse_unsigned, unsigned_value};
use crate::protocol::{FileUpdateChange, PatchChangeKind};
use crate::split::{
    cut_at, first_word, first_word_of, lines, lines_of, parts_of, slices_view, split, split_once,
    trim_matches, trim_start_matches, without_leading, without_trailing,
};
use crate::text::{begins_with, joined, starts_with, strip_prefix};

verus! {

/// A line of a difference, by its characters.
#[verifier::ext_equal]
pub enum LineView {
    /// A new line.
    Added(Seq<char>),
    /// A line that is gone.
    Removed(Seq<char>),
    /// A line that stayed.
    Context(Seq<char>),
}

impl View for DiffLine {
    type V = LineView;

    open spec fn view(&self) -> LineView {
        match *self {
            DiffLine::Added(text) => LineView::Added(text@),
            DiffLine::Removed(text) => LineView::Removed(text@),
            DiffLine::Context(text) => LineView::Context(text@),
        }
    }
}

/// A stretch of a difference, by its numbers and lines.
#[verifier::ext_equal]
pub struct HunkView {
    /// The first lines and the numbers of lines, before and after the change.
    pub numbers: (u32, u32, u32, u32),
    /// The lines.
    pub lines: Seq<LineView>,
}

/// Lines by their characters.
pub open spec fn line_views(lines: Seq<DiffLine>) -> Seq<LineView> {
    lines.map_values(|line: DiffLine| line@)
}

impl View for DiffHunk {
    type V = HunkView;

    open spec fn view(&self) -> HunkView {
        HunkView {
            numbers: (self.old_start, self.old_lines, self.new_start, self.new_lines),
            lines: line_views(self.lines@),
        }
    }
}

/// Stretches by their numbers and lines.
pub open spec fn hunk_views(hunks: Seq<DiffHunk>) -> Seq<HunkView> {
    hunks.map_values(|hunk: DiffHunk| hunk@)
}

/// A place in a file, as the head of a stretch gives it: the first line, and after a comma the
/// number of lines, which is one where it is missing.
pub open spec fn place_of(s: Seq<char>) -> Option<(u32, u32)> {
    let parts = parts_of(s, ',');
    let count = if parts.len() > 1 {
        parts[1]
    } else {
        "1"@
    };
    match (unsigned_value(parts[0], u32::MAX as nat), unsigned_value(count, u32::MAX as nat)) {
        (Some(start), Some(n)) => Some((start as u32, n as u32)),
        _ => None,
    }
}

/// What the head of a stretch is read from: its first word, without at signs around it.
pub open spec fn header_word(line: Seq<char>) -> Option<Seq<char>> {
    match first_word_of(without_leading(without_leading(line, '@'), ' ')) {
        Some(word) => Some(without_trailing(without_leading(word, '@'), '@')),
        None => None,
    }
}

/// The numbers that the head of a stretch gives: two places within its first word, with a space
/// between them.
pub open spec fn header_of(line: Seq<char>) -> Option<(u32, u32, u32, u32)> {
    match header_word(line) {
        Some(word) => match cut_at(word, ' ') {
            Some((before, after)) => if begins_with(before, "-"@) && begins_with(after, "+"@) {
                match (place_of(before.skip("-"@.len() as int)), place_of(after.skip("+"@.len() as int))) {
                    (Some(a), Some(b)) => Some((a.0, a.1, b.0, b.1)),
                    _ => None,
                }
            } else {
                None
            },
            None => None,
        },
        None => None,
    }
}

fn parse_place(s: &str) -> (place: Option<(u32, u32)>)
    ensures
        place == place_of(s@),
{
    let parts = split(s, ',');
    proof {
        assert(parts@.len() > 0) by {
            assert(parts_of(s@, ',').len() > 0);
            assert(slices_view(parts@).len() == parts@.len());
        }
        assert(slices_view(parts@)[0] == parts@[0]@);
        if parts@.len() > 1 {
            assert(slices_view(parts@)[1] == parts@[1]@);
        }
    }
    let count: &str = if parts.len() > 1 {
        parts[1]
    } else {
        "1"
    };
    match parse_unsigned(parts[0], u32::MAX as u64) {
        Some(start) => match parse_unsigned(count, u32::MAX as u64) {
            Some(n) => Some((start as u32, n as u32)),
            None => None,
        },
        None => None,
    }
}

/// The numbers that the head of a stretch gives.
pub fn parse_hunk_header(line: &str) -> (header: Option<(u32, u32, u32, u32)>)
    ensures
        header == header_of(line@),
{
    let line = trim_start_matches(trim_start_matches(line, '@'), ' ');
    let word = match first_word(line) {
        Some(word) => trim_matches(word, '@'),
        None => {
            return None;
        },
    };
    let (before, after) = match split_once(word, ' ') {
        Some(parts) => parts,
        None => {
            return None;
        },
    };
    let before = match strip_prefix(before, "-") {
        Some(rest) => rest,
        None => {
            return None;
        },
    };
    let after = match strip_prefix(after, "+") {
        Some(rest) => rest,
        None => {
            return None;
        },
    };
    match parse_place(before) {
        Some((old_start, old_lines)) => match parse_place(after) {
            Some((new_start, new_lines)) => Some((old_start, old_lines, new_start, new_lines)),
            None => None,
        },
        None => None,
    }
}

/// Where the reading of a difference stands: the stretches that are done, the numbers of the
/// current stretch, and its lines so far.
#[verifier::ext_equal]
pub struct ReadState {
    /// The stretches that are done.
    pub hunks: Seq<HunkView>,
    /// The numbers of the current stretch.
    pub numbers: (u32, u32, u32, u32),
    /// The lines of the current stretch so far.
    pub lines: Seq<LineView>,
}

impl ReadState {
    /// Nothing was read.
    pub open spec fn start() -> ReadState {
        ReadState { hunks: Seq::empty(), numbers: (0, 0, 0, 0), lines: Seq::empty() }
    }

    /// The stretches, with the current one where it has lines.
    pub open spec fn closed(self) -> Seq<HunkView> {
        if self.lines.len() == 0 {
            self.hunks
        } else {
            self.hunks.push(HunkView { numbers: self.numbers, lines: self.lines })
        }
    }

    /// Reads a line. The head of a stretch ends the stretch before it; every other line belongs to
    /// the current stretch, as its first character says.
    pub open spec fn read(self, line: Seq<char>) -> ReadState {
        if begins_with(line, "@@"@) {
            ReadState {
                hunks: self.closed(),
                numbers: match header_of(line) {
                    Some(numbers) => numbers,
                    None => self.numbers,
                },
                lines: Seq::empty(),
            }
        } else {
            ReadState { lines: self.lines.push(line_of(line)), ..self }
        }
    }
}

/// What a line of a difference says.
pub open spec fn line_of(line: Seq<char>) -> LineView {
    if begins_with(line, "+"@) {
        LineView::Added(line.skip("+"@.len() as int))
    } else if begins_with(line, "-"@) {
        LineView::Removed(line.skip("-"@.len() as int))
    } else if begins_with(line, " "@) {
        LineView::Context(line.skip(" "@.len() as int))
    } else {
        LineView::Context(line)
    }
}

/// Reads lines one after another.
pub open spec fn read_all(lines: Seq<Seq<char>>) -> ReadState
    decreases lines.len(),
{
    if lines.len() == 0 {
        ReadState::start()
    } else {
        read_all(lines.drop_last()).read(lines.last())
    }
}

/// The stretches of a difference.
pub open spec fn hunks_of(diff: Seq<char>) -> Seq<HunkView> {
    read_all(lines_of(diff)).closed()
}

fn parse_line(line: &str) -> (parsed: DiffLine)
    ensures
        parsed@ == line_of(line@),
{
    match strip_prefix(line, "+") {
        Some(rest) => {
            return DiffLine::Added(rest.to_owned());
        },
        None => {},
    }
    match strip_prefix(line, "-") {
        Some(rest) => {
            return DiffLine::Removed(rest.to_owned());
        },
        None => {},
    }
    match strip_prefix(line, " ") {
        Some(rest) => DiffLine::Context(rest.to_owned()),
        None => DiffLine::Context(line.to_owned()),
    }
}

/// The stretches of a difference.
pub fn parse_diff_hunks(diff_text: &str) -> (hunks: Vec<DiffHunk>)
    ensures
        hunk_views(hunks@) == hunks_of(diff_text@),
{
    let all = lines(diff_text);
    let mut hunks: Vec<DiffHunk> = Vec::new();
    let mut current: Vec<DiffLine> = Vec::new();
    let mut numbers: (u32, u32, u32, u32) = (0, 0, 0, 0);
    let mut i: usize = 0;
    let ghost texts = lines_of(diff_text@);
    proof {
        assert(texts.take(0) == Seq::<Seq<char>>::empty());
        assert(hunk_views(hunks@) =~= Seq::empty());
        assert(line_views(current@) =~= Seq::empty());
    }
    while i < all.len()
        invariant
            i <= all@.len(),
            texts == slices_view(all@),
            read_all(texts.take(i as int)) == (ReadState {
                hunks: hunk_views(hunks@),
                numbers,
                lines: line_views(current@),
            }),
        decreases all@.len() - i,
    {
        let line = all[i];
        let ghost before = read_all(texts.take(i as int));
        let ghost hunks_before = hunks@;
        let ghost lines_before = current@;
        proof {
            assert(texts[i as int] == line@);
            assert(texts.take(i + 1).drop_last() == texts.take(i as int));
            assert(texts.take(i + 1).last() == line@);
            assert(read_all(texts.take(i + 1)) == before.read(line@));
        }
        if starts_with(line, "@@") {
            if current.len() > 0 {
                let mut taken: Vec<DiffLine> = Vec::new();
                std::mem::swap(&mut taken, &mut current);
                hunks.push(
                    DiffHunk {
                        old_start: numbers.0,
                        old_lines: numbers.1,
                        new_start: numbers.2,
                        new_lines: numbers.3,
                        lines: taken,
                    },
                );
                proof {
                    assert(hunk_views(hunks@) =~= before.closed());
                    assert(line_views(current@) =~= Seq::empty());
                }
            }
            match parse_hunk_header(line) {
                Some(found) => {
                    numbers = found;
                },
                None => {},
            }
            proof {
                assert(hunk_views(hunks@) == before.closed());
                assert(line_views(current@) =~= Seq::<LineView>::empty());
            }
        } else {
            current.push(parse_line(line));
            proof {
                assert(line_views(current@) =~= line_views(lines_before).push(line_of(line@)));
            }
        }
        i = i + 1;
    }
    proof {
        assert(texts.take(all@.len() as int) == texts);
    }
    let ghost before = read_all(texts);
    if current.len() > 0 {
        hunks.push(
            DiffHunk {
                old_start: numbers.0,
                old_lines: numbers.1,
                new_start: numbers.2,
                new_lines: numbers.3,
                lines: current,
            },
        );
        proof {
            assert(hunk_views(hunks@) =~= before.closed());
        }
    }
    hunks
}

/// What becomes of a patched file.
pub open spec fn kind_of(kind: PatchChangeKind) -> FileChangeKind {
    match kind {
        PatchChangeKind::Add => FileChangeKind::Created,
        PatchChangeKind::Delete => FileChangeKind::Deleted,
        PatchChangeKind::Update => FileChangeKind::Modified,
    }
}

/// What becomes of a patched file.
pub fn map_patch_change_kind(kind: PatchChangeKind) -> (change: FileChangeKind)
    ensures
        change == kind_of(kind),
{
    match kind {
        PatchChangeKind::Add => FileChangeKind::Created,
        PatchChangeKind::Delete => FileChangeKind::Deleted,
        PatchChangeKind::Update => FileChangeKind::Modified,
    }
}

/// A change in one word.
pub open spec fn label_of(change: FileChangeKind) -> Seq<char> {
    match change {
        FileChangeKind::Created => "created"@,
        FileChangeKind::Modified => "modified"@,
        FileChangeKind::Deleted => "deleted"@,
    }
}

/// A change in one word.
pub fn file_change_label(change: FileChangeKind) -> (label: &'static str)
    ensures
        label@ == label_of(change),
{
    match change {
        FileChangeKind::Created => "created",
        FileChangeKind::Modified => "modified",
        FileChangeKind::Deleted => "deleted",
    }
}

/// Whether a changed file is what its patch says.
pub open spec fn entry_matches(change: FileUpdateChange, entry: FileChangeEntry) -> bool {
    &&& entry.path == change.path
    &&& entry.change == kind_of(change.kind)
    &&& entry.diff == (if change.diff@.len() == 0 {
        None
    } else {
        Some(change.diff)
    })
}

/// Whether changed files are what their patches say, one by one.
pub open spec fn entries_match(changes: Seq<FileUpdateChange>, entries: Seq<FileChangeEntry>) -> bool {
    &&& entries.len() == changes.len()
    &&& forall|i: int|
        0 <= i < changes.len() ==> entry_matches(#[trigger] changes[i], entries[i])
}

/// The changed files of patches.
pub fn map_file_changes(changes: &Vec<FileUpdateChange>) -> (entries: Vec<FileChangeEntry>)
    ensures
        entries_match(changes@, entries@),
{
    let mut entries: Vec<FileChangeEntry> = Vec::new();
    let mut i: usize = 0;
    while i < changes.len()
        invariant
            i <= changes@.len(),
            entries@.len() == i,
            forall|j: int| 0 <= j < i ==> entry_matches(#[trigger] changes@[j], entries@[j]),
        decreases changes@.len() - i,
    {
        let change = &changes[i];
        let diff = if change.diff.as_str().is_empty() {
            None
        } else {
            Some(change.diff.clone())
        };
        entries.push(
            FileChangeEntry {
                path: change.path.clone(),
                change: map_patch_change_kind(change.kind),
                diff,
            },
        );
        i = i + 1;
    }
    entries
}

/// Patches in words, one line each.
pub open spec fn summaries_of(changes: Seq<FileUpdateChange>) -> Seq<Seq<char>> {
    changes.map_values(
        |change: FileUpdateChange| label_of(kind_of(change.kind)) + " "@ + change.path@,
    )
}

/// Patches in words.
pub open spec fn summary_of(changes: Seq<FileUpdateChange>) -> Seq<char> {
    if changes.len() == 0 {
        "File changes updated."@
    } else {
        joined(summaries_of(changes), "\n"@)
    }
}

/// Patches in words.
pub fn summarize_file_changes(changes: &Vec<FileUpdateChange>) -> (summary: String)
    ensures
        summary@ == summary_of(changes@),
{
    if changes.len() == 0 {
        return "File changes updated.".to_owned();
    }
    let mut parts: Vec<String> = Vec::new();
    let mut i: usize = 0;
    while i < changes.len()
        invariant
            i <= changes@.len(),
            parts@.len() == i,
            forall|j: int| 0 <= j < i ==> #[trigger] parts@[j]@ == summaries_of(changes@)[j],
        decreases changes@.len() - i,
    {
        let change = &changes[i];
        parts.push(
            crate::text::concat3(
                file_change_label(map_patch_change_kind(change.kind)),
                " ",
                change.path.as_str(),
            ),
        );
        i = i + 1;
    }
    proof {
        assert(crate::text::views(parts@) =~= summaries_of(changes@));
    }
    crate::text::join(&parts, "\n")
}

} // verus!
