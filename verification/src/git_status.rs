//! The status summary: every change of the working tree, sorted into what is
//! staged, what is changed but not staged, and what is not tracked.
use vstd::prelude::*;
use vstd::string::*;

use crate::text::{join, joined, texts};
use crate::INVALID_UTF8;

verus! {

/// What happened to a file between two states of the repository.
#[derive(Clone, Copy, Debug, PartialEq, Eq, Structural)]
pub enum Delta {
    Unmodified,
    Added,
    Deleted,
    Modified,
    Renamed,
    Copied,
    Ignored,
    Untracked,
    Typechange,
    Unreadable,
    Conflicted,
}

impl Delta {
    /// The word that a status line opens with.
    pub open spec fn label(self) -> Seq<char> {
        match self {
            Delta::Unmodified => "unmodified"@,
            Delta::Added => "added"@,
            Delta::Deleted => "deleted"@,
            Delta::Modified => "modified"@,
            Delta::Renamed => "renamed"@,
            Delta::Copied => "copied"@,
            Delta::Ignored => "ignored"@,
            Delta::Untracked => "untracked"@,
            Delta::Typechange => "typechange"@,
            Delta::Unreadable => "unreadable"@,
            Delta::Conflicted => "conflicted"@,
        }
    }

    /// The word that a status line opens with.
    pub fn name(self) -> (r: &'static str)
        ensures
            r@ == self.label(),
    {
        match self {
            Delta::Unmodified => "unmodified",
            Delta::Added => "added",
            Delta::Deleted => "deleted",
            Delta::Modified => "modified",
            Delta::Renamed => "renamed",
            Delta::Copied => "copied",
            Delta::Ignored => "ignored",
            Delta::Untracked => "untracked",
            Delta::Typechange => "typechange",
            Delta::Unreadable => "unreadable",
            Delta::Conflicted => "conflicted",
        }
    }
}

/// One difference between two states: its kind and the file's path on either
/// side. A path is `None` where the side has no path or the path is not text.
#[derive(Clone, Debug, PartialEq, Eq)]
pub struct DiffDelta {
    pub status: Delta,
    pub old_file: Option<String>,
    pub new_file: Option<String>,
}

/// What a status query reports of one path: how the index differs from `HEAD`
/// there, and how the working tree differs from the index.
#[derive(Clone, Debug, PartialEq, Eq)]
pub struct StatusEntry {
    pub head_to_index: Option<DiffDelta>,
    pub index_to_workdir: Option<DiffDelta>,
}

/// The path to show for one side of a difference.
pub open spec fn shown_path(path: Option<String>) -> Seq<char> {
    match path {
        Some(text) => text@,
        None => INVALID_UTF8@,
    }
}

fn show_path(path: &Option<String>) -> (r: String)
    ensures
        r@ == shown_path(*path),
{
    match path {
        Some(text) => text.clone(),
        None => String::from_str(INVALID_UTF8),
    }
}

/// One line of a status summary.
#[derive(Clone, Debug, PartialEq, Eq)]
pub struct FileStatus {
    pub status: Delta,
    pub old_file: String,
    pub new_file: String,
}

/// A [`FileStatus`] as plain values.
pub struct FileStatusView {
    pub status: Delta,
    pub old_file: Seq<char>,
    pub new_file: Seq<char>,
}

impl FileStatusView {
    /// The line for a difference: its kind and both paths, each replaced by
    /// the sentinel where it cannot be shown.
    pub open spec fn of(delta: DiffDelta) -> FileStatusView {
        FileStatusView {
            status: delta.status,
            old_file: shown_path(delta.old_file),
            new_file: shown_path(delta.new_file),
        }
    }

    /// The line as text: the kind's word, a colon and the old path; for a
    /// rename the new path follows after an arrow.
    pub open spec fn text(self) -> Seq<char> {
        if self.status == Delta::Renamed {
            self.status.label() + ": "@ + self.old_file + " --> "@ + self.new_file
        } else {
            self.status.label() + ": "@ + self.old_file
        }
    }
}

impl View for FileStatus {
    type V = FileStatusView;

    open spec fn view(&self) -> FileStatusView {
        FileStatusView { status: self.status, old_file: self.old_file@, new_file: self.new_file@ }
    }
}

impl FileStatus {
    /// The line for a difference. Both paths are always produced: one that
    /// cannot be shown is replaced by the sentinel.
    pub fn from_delta(delta: &DiffDelta) -> (r: FileStatus)
        ensures
            r@ == FileStatusView::of(*delta),
    {
        FileStatus {
            status: delta.status,
            old_file: show_path(&delta.old_file),
            new_file: show_path(&delta.new_file),
        }
    }

    /// Renders the line.
    pub fn to_string(&self) -> (r: String)
        ensures
            r@ == self@.text(),
    {
        let mut line = String::from_str(self.status.name());
        line.append(": ");
        line.append(self.old_file.as_str());
        if self.status == Delta::Renamed {
            line.append(" --> ");
            line.append(self.new_file.as_str());
        }
        line
    }
}

/// The lines of a bucket as plain values, in order.
pub open spec fn views(files: Seq<FileStatus>) -> Seq<FileStatusView> {
    Seq::new(files.len(), |i: int| files[i]@)
}

/// The texts of the lines of a bucket, in order.
pub open spec fn lines(files: Seq<FileStatusView>) -> Seq<Seq<char>> {
    Seq::new(files.len(), |i: int| files[i].text())
}

/// One labelled part of the rendered summary: nothing for an empty bucket,
/// else the header and the bucket's lines, each on a line of its own after a
/// tab.
pub open spec fn section(header: Seq<char>, files: Seq<FileStatusView>) -> Seq<char> {
    if files.len() == 0 {
        Seq::empty()
    } else {
        header + joined(lines(files), "\n\t"@)
    }
}

/// The state of the working tree: the branch that `HEAD` is on and three
/// buckets of lines, each in the order in which the status query reported
/// them.
#[derive(Clone, Debug, PartialEq, Eq)]
pub struct StatusSummary {
    pub branch_name: String,
    /// Differences between `HEAD` and the index.
    pub staged: Vec<FileStatus>,
    /// Differences between the index and the working tree, but for files that
    /// the index does not know.
    pub not_staged: Vec<FileStatus>,
    /// Files of the working tree that the index does not know.
    pub untracked: Vec<FileStatus>,
}

/// A [`StatusSummary`] as plain values.
pub struct StatusSummaryView {
    pub branch_name: Seq<char>,
    pub staged: Seq<FileStatusView>,
    pub not_staged: Seq<FileStatusView>,
    pub untracked: Seq<FileStatusView>,
}

impl StatusSummaryView {
    /// The summary of a branch before any entry is added.
    pub open spec fn new(branch_name: Seq<char>) -> StatusSummaryView {
        StatusSummaryView {
            branch_name,
            staged: Seq::empty(),
            not_staged: Seq::empty(),
            untracked: Seq::empty(),
        }
    }

    /// The summary with one more entry sorted in. A difference between `HEAD`
    /// and the index goes to `staged`. A difference between the index and the
    /// working tree goes to `untracked` if its kind says so, else to
    /// `not_staged`. An entry with both goes to two buckets.
    pub open spec fn add_entry(self, entry: StatusEntry) -> StatusSummaryView {
        StatusSummaryView {
            branch_name: self.branch_name,
            staged: match entry.head_to_index {
                Some(delta) => self.staged.push(FileStatusView::of(delta)),
                None => self.staged,
            },
            not_staged: match entry.index_to_workdir {
                Some(delta) if delta.status != Delta::Untracked => self.not_staged.push(
                    FileStatusView::of(delta),
                ),
                _ => self.not_staged,
            },
            untracked: match entry.index_to_workdir {
                Some(delta) if delta.status == Delta::Untracked => self.untracked.push(
                    FileStatusView::of(delta),
                ),
                _ => self.untracked,
            },
        }
    }

    /// The line that an entry adds to `staged`, if it adds one.
    pub open spec fn staged_line(entry: StatusEntry) -> Option<FileStatusView> {
        match entry.head_to_index {
            Some(delta) => Some(FileStatusView::of(delta)),
            None => None,
        }
    }

    /// The line that an entry adds to `not_staged`, if it adds one.
    pub open spec fn not_staged_line(entry: StatusEntry) -> Option<FileStatusView> {
        match entry.index_to_workdir {
            Some(delta) if delta.status != Delta::Untracked => Some(FileStatusView::of(delta)),
            _ => None,
        }
    }

    /// The line that an entry adds to `untracked`, if it adds one.
    pub open spec fn untracked_line(entry: StatusEntry) -> Option<FileStatusView> {
        match entry.index_to_workdir {
            Some(delta) if delta.status == Delta::Untracked => Some(FileStatusView::of(delta)),
            _ => None,
        }
    }

    /// The summary of a branch and the entries of a status query: each bucket
    /// holds the lines of the entries that belong to it, in the order of the
    /// entries.
    pub open spec fn of(branch_name: Seq<char>, entries: Seq<StatusEntry>) -> StatusSummaryView {
        StatusSummaryView {
            branch_name,
            staged: entries.filter_map(|e: StatusEntry| Self::staged_line(e)),
            not_staged: entries.filter_map(|e: StatusEntry| Self::not_staged_line(e)),
            untracked: entries.filter_map(|e: StatusEntry| Self::untracked_line(e)),
        }
    }

    /// All three buckets are empty.
    pub open spec fn is_clean(self) -> bool {
        self.staged.len() == 0 && self.not_staged.len() == 0 && self.untracked.len() == 0
    }

    /// The summary as a front end shows it: the branch, then either the note
    /// that nothing is to commit or the buckets that are not empty, each under
    /// its header.
    pub open spec fn text(self) -> Seq<char> {
        if self.is_clean() {
            "on branch "@ + self.branch_name + CLEAN_NOTE@
        } else {
            "on branch "@ + self.branch_name + section(
                "\nChanges to be committed:\n\t"@,
                self.staged,
            ) + section("\nChanges not staged for commit:\n\t"@, self.not_staged) + section(
                "\nUntracked files:\n\t"@,
                self.untracked,
            )
        }
    }
}

/// A summary grows entry by entry: the summary of a query with one more
/// entry at its end is the summary of the query before, with that entry
/// sorted in. So each entry is looked at once, and earlier lines stay where
/// they are.
pub proof fn summary_grows_by_entry(
    branch_name: Seq<char>,
    entries: Seq<StatusEntry>,
    entry: StatusEntry,
)
    ensures
        StatusSummaryView::of(branch_name, entries.push(entry)) == StatusSummaryView::of(
            branch_name,
            entries,
        ).add_entry(entry),
{
    let longer = entries.push(entry);
    assert(longer.drop_last() =~= entries);
    assert(longer.last() == entry);
    let grown = StatusSummaryView::of(branch_name, longer);
    let added = StatusSummaryView::of(branch_name, entries).add_entry(entry);
    assert(grown.staged =~= added.staged);
    assert(grown.not_staged =~= added.not_staged);
    assert(grown.untracked =~= added.untracked);
}

/// The note that closes the summary of a clean working tree.
pub const CLEAN_NOTE: &'static str = "\nnothing to commit, working tree clean";

/// An entry that reports no difference on either side of the index.
pub open spec fn is_unchanged(entry: StatusEntry) -> bool {
    entry.head_to_index is None && entry.index_to_workdir is None
}

/// `text` closes with `suffix`.
pub open spec fn ends_with(text: Seq<char>, suffix: Seq<char>) -> bool {
    suffix.len() <= text.len() && text.subrange(text.len() - suffix.len(), text.len() as int)
        == suffix
}

/// A clean working tree has a clean summary. Where the status query reports
/// no difference, all three buckets are empty, and the summary reads as the
/// branch followed by the note that nothing is to commit.
pub proof fn clean_tree_has_clean_summary(branch_name: Seq<char>, entries: Seq<StatusEntry>)
    requires
        forall|i: int| 0 <= i < entries.len() ==> is_unchanged(#[trigger] entries[i]),
    ensures
        StatusSummaryView::of(branch_name, entries).is_clean(),
        StatusSummaryView::of(branch_name, entries).text() == "on branch "@ + branch_name
            + CLEAN_NOTE@,
        ends_with(StatusSummaryView::of(branch_name, entries).text(), CLEAN_NOTE@),
    decreases entries.len(),
{
    if entries.len() > 0 {
        let before = entries.drop_last();
        clean_tree_has_clean_summary(branch_name, before);
        assert(entries =~= before.push(entries.last()));
        summary_grows_by_entry(branch_name, before, entries.last());
    }
    let text = StatusSummaryView::of(branch_name, entries).text();
    assert(text.subrange(text.len() - CLEAN_NOTE@.len(), text.len() as int) =~= CLEAN_NOTE@);
}

/// Nothing shows as staged where the index holds what `HEAD` holds, as it
/// does right after a commit of the whole index: where no entry reports a
/// difference between `HEAD` and the index, `staged` is empty.
pub proof fn nothing_staged_without_index_changes(
    branch_name: Seq<char>,
    entries: Seq<StatusEntry>,
)
    requires
        forall|i: int| 0 <= i < entries.len() ==> (#[trigger] entries[i]).head_to_index is None,
    ensures
        StatusSummaryView::of(branch_name, entries).staged.len() == 0,
    decreases entries.len(),
{
    if entries.len() > 0 {
        let before = entries.drop_last();
        nothing_staged_without_index_changes(branch_name, before);
        assert(entries =~= before.push(entries.last()));
        summary_grows_by_entry(branch_name, before, entries.last());
    }
}

/// What is staged shows as staged, and what was changed again shows twice.
/// An entry whose path differs between `HEAD` and the index adds a line to
/// `staged`. If the working tree has not changed since, it adds no other
/// line. If the tracked file was changed again, it adds a line to
/// `not_staged` too.
pub proof fn staged_entry_shows(summary: StatusSummaryView, entry: StatusEntry)
    requires
        entry.head_to_index is Some,
    ensures
        summary.add_entry(entry).staged == summary.staged.push(
            FileStatusView::of(entry.head_to_index->0),
        ),
        entry.index_to_workdir is None ==> summary.add_entry(entry).not_staged
            == summary.not_staged && summary.add_entry(entry).untracked == summary.untracked,
        entry.index_to_workdir matches Some(delta) ==> delta.status != Delta::Untracked
            ==> summary.add_entry(entry).not_staged == summary.not_staged.push(
            FileStatusView::of(delta),
        ) && summary.add_entry(entry).untracked == summary.untracked,
{
}

impl View for StatusSummary {
    type V = StatusSummaryView;

    open spec fn view(&self) -> StatusSummaryView {
        StatusSummaryView {
            branch_name: self.branch_name@,
            staged: views(self.staged@),
            not_staged: views(self.not_staged@),
            untracked: views(self.untracked@),
        }
    }
}

/// Renders the lines of one bucket.
fn render_lines(files: &Vec<FileStatus>) -> (r: Vec<String>)
    ensures
        texts(r@) == lines(views(files@)),
{
    let mut rendered: Vec<String> = Vec::new();
    let mut i: usize = 0;
    while i < files.len()
        invariant
            i <= files.len(),
            rendered.len() == i,
            forall|k: int| 0 <= k < i ==> rendered[k]@ == (#[trigger] files[k])@.text(),
        decreases files.len() - i,
    {
        rendered.push(files[i].to_string());
        i += 1;
    }
    assert(texts(rendered@) =~= lines(views(files@)));
    rendered
}

/// Appends one labelled part to the rendered summary.
fn write_section(res: &mut String, header: &str, files: &Vec<FileStatus>)
    ensures
        final(res)@ == old(res)@ + section(header@, views(files@)),
{
    if files.len() != 0 {
        res.append(header);
        let rendered = render_lines(files);
        let body = join(&rendered, "\n\t");
        res.append(body.as_str());
    }
}

impl StatusSummary {
    /// The summary of a branch before any entry is added.
    pub fn new(branch_name: String) -> (r: StatusSummary)
        ensures
            r@ == StatusSummaryView::new(branch_name@),
            r.branch_name == branch_name,
    {
        let r = StatusSummary {
            branch_name,
            staged: Vec::new(),
            not_staged: Vec::new(),
            untracked: Vec::new(),
        };
        assert(r@.staged =~= Seq::empty());
        assert(r@.not_staged =~= Seq::empty());
        assert(r@.untracked =~= Seq::empty());
        r
    }

    /// Sorts one entry of the status query into the buckets.
    pub fn add_entry(&mut self, entry: &StatusEntry)
        ensures
            final(self)@ == old(self)@.add_entry(*entry),
    {
        if let Some(delta) = &entry.head_to_index {
            self.staged.push(FileStatus::from_delta(delta));
        }
        if let Some(delta) = &entry.index_to_workdir {
            let status = FileStatus::from_delta(delta);
            if status.status == Delta::Untracked {
                self.untracked.push(status);
            } else {
                self.not_staged.push(status);
            }
        }
        assert(self@.staged =~= old(self)@.add_entry(*entry).staged);
        assert(self@.not_staged =~= old(self)@.add_entry(*entry).not_staged);
        assert(self@.untracked =~= old(self)@.add_entry(*entry).untracked);
    }

    /// Sorts every entry of the status query into the buckets, in the order
    /// of the query.
    pub fn from_entries(branch_name: String, entries: &Vec<StatusEntry>) -> (r: StatusSummary)
        ensures
            r@ == StatusSummaryView::of(branch_name@, entries@),
    {
        let mut summary = StatusSummary::new(branch_name);
        let mut i: usize = 0;
        while i < entries.len()
            invariant
                i <= entries.len(),
                summary@ == StatusSummaryView::of(branch_name@, entries@.subrange(0, i as int)),
            decreases entries.len() - i,
        {
            proof {
                let done = entries@.subrange(0, i as int);
                assert(entries@.subrange(0, i + 1) =~= done.push(entries@[i as int]));
                summary_grows_by_entry(branch_name@, done, entries@[i as int]);
            }
            summary.add_entry(&entries[i]);
            i += 1;
        }
        assert(entries@.subrange(0, i as int) =~= entries@);
        summary
    }

    /// No bucket holds a line.
    pub fn is_clean(&self) -> (r: bool)
        ensures
            r == self@.is_clean(),
    {
        self.staged.len() == 0 && self.not_staged.len() == 0 && self.untracked.len() == 0
    }

    /// Renders the summary as a front end shows it.
    pub fn to_string(&self) -> (r: String)
        ensures
            r@ == self@.text(),
    {
        let mut res = String::from_str("on branch ");
        res.append(self.branch_name.as_str());
        if self.is_clean() {
            res.append(CLEAN_NOTE);
            return res;
        }
        write_section(&mut res, "\nChanges to be committed:\n\t", &self.staged);
        write_section(&mut res, "\nChanges not staged for commit:\n\t", &self.not_staged);
        write_section(&mut res, "\nUntracked files:\n\t", &self.untracked);
        res
    }
}

} // verus!
