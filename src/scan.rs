//! Aggregating, root by root, the files of one extension found under a list of
//! named directories: their count and byte total per root and overall, with a
//! progress event before each root.
//!
//! The directory walk itself happens outside: each root arrives with the entries
//! its walk produced. Every root of the list is walked, the last one included.
//! A matching file whose length could not be read is skipped and counted apart.
use vstd::prelude::*;
use crate::formats::{image_formats, is_image_format, str_equal};

verus! {

/// One entry produced by walking a root.
pub struct FileEntry {
    /// Whether the entry is a regular file.
    pub is_file: bool,
    /// The extension component of its path, if any.
    pub extension: Option<String>,
    /// Its length in bytes, or `None` where it could not be read.
    pub len: Option<u64>,
}

/// A named root, its resolved path if the host has one, and what walking it gave.
pub struct ScanRoot {
    pub name: String,
    pub path: Option<String>,
    pub entries: Vec<FileEntry>,
}

/// The matches found under one root.
pub struct PerRootTally {
    pub name: String,
    pub file_count: u64,
    pub total_bytes: u64,
}

/// The outcome of a scan, with the tallies in the order of the roots.
pub struct ScanResult {
    pub extension: String,
    pub per_root: Vec<PerRootTally>,
    pub total_files: u64,
    pub total_bytes: u64,
    /// Matching files skipped because their length could not be read.
    pub unreadable_files: u64,
}

/// What the scan reports before it walks a root.
pub struct ProgressEvent {
    /// Roots finished so far.
    pub roots_scanned: u32,
    pub roots_total: u32,
    /// Matching files found so far.
    pub matches_so_far: u64,
    /// The path about to be walked.
    pub current_root_path: String,
}

/// Why a scan could not be completed.
#[derive(Debug, PartialEq, Eq, Structural)]
pub enum ScanError {
    /// A total does not fit in 64 bits.
    TotalOverflow,
}

/// Whether `e` is a regular file with extension `ext`.
pub open spec fn has_extension(ext: Seq<char>, e: FileEntry) -> bool {
    e.is_file && e.extension is Some && e.extension->0@ == ext
}

/// Whether `e` counts as a match: a file of extension `ext` whose length is known.
pub open spec fn entry_matches(ext: Seq<char>, e: FileEntry) -> bool {
    has_extension(ext, e) && e.len is Some
}

/// Whether `e` is a file of extension `ext` whose length could not be read.
pub open spec fn entry_unreadable(ext: Seq<char>, e: FileEntry) -> bool {
    has_extension(ext, e) && e.len is None
}

/// The number of matches among `es`.
pub open spec fn count_matches(ext: Seq<char>, es: Seq<FileEntry>) -> nat
    decreases es.len(),
{
    if es.len() == 0 {
        0
    } else {
        count_matches(ext, es.drop_last()) + if entry_matches(ext, es.last()) {
            1nat
        } else {
            0nat
        }
    }
}

/// The sum of the lengths of the matches among `es`.
pub open spec fn sum_bytes(ext: Seq<char>, es: Seq<FileEntry>) -> nat
    decreases es.len(),
{
    if es.len() == 0 {
        0
    } else {
        sum_bytes(ext, es.drop_last()) + if entry_matches(ext, es.last()) {
            es.last().len->0 as nat
        } else {
            0nat
        }
    }
}

/// The number of files of extension `ext` among `es` whose length is unknown.
pub open spec fn count_unreadable(ext: Seq<char>, es: Seq<FileEntry>) -> nat
    decreases es.len(),
{
    if es.len() == 0 {
        0
    } else {
        count_unreadable(ext, es.drop_last()) + if entry_unreadable(ext, es.last()) {
            1nat
        } else {
            0nat
        }
    }
}

/// The entries that count for a root: none where its path is unresolved.
pub open spec fn root_entries(r: ScanRoot) -> Seq<FileEntry> {
    if r.path is Some {
        r.entries@
    } else {
        Seq::empty()
    }
}

pub open spec fn root_files(ext: Seq<char>, r: ScanRoot) -> nat {
    count_matches(ext, root_entries(r))
}

pub open spec fn root_bytes(ext: Seq<char>, r: ScanRoot) -> nat {
    sum_bytes(ext, root_entries(r))
}

pub open spec fn root_unreadable(ext: Seq<char>, r: ScanRoot) -> nat {
    count_unreadable(ext, root_entries(r))
}

/// Matches over all of `roots`.
pub open spec fn total_files_of(ext: Seq<char>, roots: Seq<ScanRoot>) -> nat
    decreases roots.len(),
{
    if roots.len() == 0 {
        0
    } else {
        total_files_of(ext, roots.drop_last()) + root_files(ext, roots.last())
    }
}

/// Bytes of the matches over all of `roots`.
pub open spec fn total_bytes_of(ext: Seq<char>, roots: Seq<ScanRoot>) -> nat
    decreases roots.len(),
{
    if roots.len() == 0 {
        0
    } else {
        total_bytes_of(ext, roots.drop_last()) + root_bytes(ext, roots.last())
    }
}

/// Unreadable matching files over all of `roots`.
pub open spec fn total_unreadable_of(ext: Seq<char>, roots: Seq<ScanRoot>) -> nat
    decreases roots.len(),
{
    if roots.len() == 0 {
        0
    } else {
        total_unreadable_of(ext, roots.drop_last()) + root_unreadable(ext, roots.last())
    }
}

/// Whether every total of a scan of `roots` fits in 64 bits.
pub open spec fn totals_fit(ext: Seq<char>, roots: Seq<ScanRoot>) -> bool {
    &&& total_files_of(ext, roots) <= u64::MAX
    &&& total_bytes_of(ext, roots) <= u64::MAX
    &&& total_unreadable_of(ext, roots) <= u64::MAX
}

/// The sum of the file counts of `ts`.
pub open spec fn tally_files(ts: Seq<PerRootTally>) -> nat
    decreases ts.len(),
{
    if ts.len() == 0 {
        0
    } else {
        tally_files(ts.drop_last()) + ts.last().file_count as nat
    }
}

/// The sum of the byte totals of `ts`.
pub open spec fn tally_bytes(ts: Seq<PerRootTally>) -> nat
    decreases ts.len(),
{
    if ts.len() == 0 {
        0
    } else {
        tally_bytes(ts.drop_last()) + ts.last().total_bytes as nat
    }
}

/// The text shown for a root's path: the path, or "Unknown directory".
pub open spec fn root_path_text(r: ScanRoot) -> Seq<char> {
    match r.path {
        Some(p) => p@,
        None => "Unknown directory"@,
    }
}

/// `t` is the tally of root `r` for extension `ext`.
pub open spec fn is_tally_of(ext: Seq<char>, r: ScanRoot, t: PerRootTally) -> bool {
    &&& t.name@ == r.name@
    &&& t.file_count == root_files(ext, r)
    &&& t.total_bytes == root_bytes(ext, r)
}

/// `ev` is the event reported before walking `roots[i]`.
pub open spec fn is_event_of(ext: Seq<char>, roots: Seq<ScanRoot>, i: int, ev: ProgressEvent) -> bool {
    &&& ev.roots_scanned == i
    &&& ev.roots_total == roots.len()
    &&& ev.matches_so_far == total_files_of(ext, roots.take(i))
    &&& ev.current_root_path@ == root_path_text(roots[i])
}

impl ScanResult {
    /// The totals are the sums of the tallies.
    pub open spec fn wf(&self) -> bool {
        &&& self.total_files == tally_files(self.per_root@)
        &&& self.total_bytes == tally_bytes(self.per_root@)
    }

    /// This is the result of scanning `roots` for files of extension `ext`.
    pub open spec fn is_scan_of(&self, ext: Seq<char>, roots: Seq<ScanRoot>) -> bool {
        &&& self.extension@ == ext
        &&& self.per_root@.len() == roots.len()
        &&& forall|i: int| 0 <= i < roots.len() ==> is_tally_of(ext, roots[i], #[trigger] self.per_root@[i])
        &&& self.total_files == total_files_of(ext, roots)
        &&& self.total_bytes == total_bytes_of(ext, roots)
        &&& self.unreadable_files == total_unreadable_of(ext, roots)
    }
}

/// A scan in progress: the tallies of the roots walked so far and the running totals.
pub struct ScanState {
    pub extension: String,
    pub roots_total: u32,
    pub per_root: Vec<PerRootTally>,
    pub total_files: u64,
    pub total_bytes: u64,
    pub unreadable_files: u64,
}

impl ScanState {
    /// The state after walking the roots `done` of a scan for `ext` over `roots_total` roots.
    pub open spec fn has_scanned(&self, ext: Seq<char>, done: Seq<ScanRoot>) -> bool {
        &&& self.extension@ == ext
        &&& self.per_root@.len() == done.len()
        &&& done.len() <= self.roots_total
        &&& forall|i: int| 0 <= i < done.len() ==> is_tally_of(ext, done[i], #[trigger] self.per_root@[i])
        &&& self.total_files == total_files_of(ext, done)
        &&& self.total_bytes == total_bytes_of(ext, done)
        &&& self.unreadable_files == total_unreadable_of(ext, done)
    }

    /// The running totals are the sums of the tallies.
    pub open spec fn wf(&self) -> bool {
        &&& self.per_root@.len() <= self.roots_total
        &&& self.total_files == tally_files(self.per_root@)
        &&& self.total_bytes == tally_bytes(self.per_root@)
    }

    /// A scan for `extension` over `roots_total` roots, before any root is walked.
    pub fn new(extension: &str, roots_total: u32) -> (r: ScanState)
        ensures
            r.has_scanned(extension@, Seq::empty()),
            r.roots_total == roots_total,
            r.wf(),
    {
        let r = ScanState {
            extension: String::from_str(extension),
            roots_total,
            per_root: Vec::new(),
            total_files: 0,
            total_bytes: 0,
            unreadable_files: 0,
        };
        assert(r.per_root@ =~= Seq::<PerRootTally>::empty());
        r
    }

    /// How many roots have been walked.
    pub fn roots_scanned(&self) -> (r: u32)
        requires
            self.wf(),
        ensures
            r == self.per_root@.len(),
    {
        self.per_root.len() as u32
    }

    /// The event to report before walking `root`.
    pub fn progress(&self, root: &ScanRoot) -> (ev: ProgressEvent)
        requires
            self.wf(),
        ensures
            ev.roots_scanned == self.per_root@.len(),
            ev.roots_total == self.roots_total,
            ev.matches_so_far == self.total_files,
            ev.current_root_path@ == root_path_text(*root),
    {
        let path = match &root.path {
            Some(p) => p.clone(),
            None => String::from_str("Unknown directory"),
        };
        ProgressEvent {
            roots_scanned: self.per_root.len() as u32,
            roots_total: self.roots_total,
            matches_so_far: self.total_files,
            current_root_path: path,
        }
    }

    /// Adds the tally of `root`, walked next. Fails, and changes nothing, exactly
    /// when a running total would no longer fit in 64 bits.
    pub fn add_root(&mut self, root: &ScanRoot) -> (r: Result<(), ScanError>)
        requires
            old(self).wf(),
            old(self).per_root@.len() < old(self).roots_total,
        ensures
            final(self).wf(),
            r is Err <==> (old(self).total_files + root_files(old(self).extension@, *root) > u64::MAX
                || old(self).total_bytes + root_bytes(old(self).extension@, *root) > u64::MAX
                || old(self).unreadable_files + root_unreadable(old(self).extension@, *root)
                > u64::MAX),
            r is Err ==> *final(self) == *old(self),
            r is Ok ==> {
                &&& final(self).extension == old(self).extension
                &&& final(self).roots_total == old(self).roots_total
                &&& final(self).per_root@.len() == old(self).per_root@.len() + 1
                &&& final(self).per_root@.drop_last() == old(self).per_root@
                &&& is_tally_of(old(self).extension@, *root, final(self).per_root@.last())
                &&& final(self).total_files == old(self).total_files + root_files(
                    old(self).extension@,
                    *root,
                )
                &&& final(self).total_bytes == old(self).total_bytes + root_bytes(
                    old(self).extension@,
                    *root,
                )
                &&& final(self).unreadable_files == old(self).unreadable_files + root_unreadable(
                    old(self).extension@,
                    *root,
                )
            },
    {
        let (files, bytes, unreadable) = tally_root(self.extension.as_str(), root);
        if files > u64::MAX - self.total_files || bytes > (u64::MAX - self.total_bytes) as u128
            || unreadable > u64::MAX - self.unreadable_files {
            return Err(ScanError::TotalOverflow);
        }
        let tally = PerRootTally {
            name: root.name.clone(),
            file_count: files,
            total_bytes: bytes as u64,
        };
        self.per_root.push(tally);
        self.total_files = self.total_files + files;
        self.total_bytes = self.total_bytes + bytes as u64;
        self.unreadable_files = self.unreadable_files + unreadable;
        assert(self.per_root@.drop_last() =~= old(self).per_root@);
        Ok(())
    }

    /// The result of the scan.
    pub fn finish(self) -> (r: ScanResult)
        requires
            self.wf(),
        ensures
            r.wf(),
            r.extension == self.extension,
            r.per_root == self.per_root,
            r.total_files == self.total_files,
            r.total_bytes == self.total_bytes,
            r.unreadable_files == self.unreadable_files,
    {
        ScanResult {
            extension: self.extension,
            per_root: self.per_root,
            total_files: self.total_files,
            total_bytes: self.total_bytes,
            unreadable_files: self.unreadable_files,
        }
    }
}

proof fn lemma_counts_bounded(ext: Seq<char>, es: Seq<FileEntry>)
    ensures
        count_matches(ext, es) <= es.len(),
        count_unreadable(ext, es) <= es.len(),
        sum_bytes(ext, es) <= es.len() * (u64::MAX as nat),
    decreases es.len(),
{
    if es.len() > 0 {
        lemma_counts_bounded(ext, es.drop_last());
        assert(sum_bytes(ext, es) <= es.len() * (u64::MAX as nat)) by (nonlinear_arith)
            requires
                sum_bytes(ext, es) <= sum_bytes(ext, es.drop_last()) + u64::MAX,
                sum_bytes(ext, es.drop_last()) <= es.drop_last().len() * (u64::MAX as nat),
                es.drop_last().len() + 1 == es.len(),
        ;
    }
}

/// The matches, their bytes and the unreadable matching files of one root.
fn tally_root(ext: &str, root: &ScanRoot) -> (r: (u64, u128, u64))
    ensures
        r.0 == root_files(ext@, *root),
        r.1 == root_bytes(ext@, *root),
        r.2 == root_unreadable(ext@, *root),
{
    if root.path.is_none() {
        return (0, 0, 0);
    }
    let es = &root.entries;
    let mut files: u64 = 0;
    let mut bytes: u128 = 0;
    let mut unreadable: u64 = 0;
    let mut i: usize = 0;
    while i < es.len()
        invariant
            root.path is Some,
            es == root.entries,
            i <= es@.len(),
            files == count_matches(ext@, es@.take(i as int)),
            bytes == sum_bytes(ext@, es@.take(i as int)),
            unreadable == count_unreadable(ext@, es@.take(i as int)),
        decreases es@.len() - i,
    {
        proof {
            lemma_counts_bounded(ext@, es@.take(i as int));
            assert(es@.take(i as int + 1).drop_last() =~= es@.take(i as int));
            assert(i * (u64::MAX as nat) <= (usize::MAX as nat) * (u64::MAX as nat))
                by (nonlinear_arith)
                requires i <= usize::MAX;
        }
        let e = &es[i];
        if e.is_file {
            match &e.extension {
                Some(x) => {
                    if str_equal(x.as_str(), ext) {
                        match e.len {
                            Some(n) => {
                                files = files + 1;
                                bytes = bytes + n as u128;
                            },
                            None => {
                                unreadable = unreadable + 1;
                            },
                        }
                    }
                },
                None => {},
            }
        }
        i += 1;
    }
    assert(es@.take(es@.len() as int) =~= es@);
    (files, bytes, unreadable)
}

/// How a request to size the images of one extension ended.
pub enum ScanOutcome {
    /// The extension is not an image format: no scan was made.
    UnsupportedExtension,
    /// The scan completed and found no matching file.
    NoMatchesFound(ScanResult),
    /// The scan completed and found at least one matching file.
    Found(ScanResult),
}

impl ScanOutcome {
    /// The outcome for a request on `ext` over `roots`.
    pub open spec fn is_outcome_of(&self, ext: Seq<char>, roots: Seq<ScanRoot>) -> bool {
        match self {
            ScanOutcome::UnsupportedExtension => !image_formats().contains(ext),
            ScanOutcome::NoMatchesFound(res) => image_formats().contains(ext) && res.wf()
                && res.is_scan_of(ext, roots) && res.total_files == 0,
            ScanOutcome::Found(res) => image_formats().contains(ext) && res.wf() && res.is_scan_of(
                ext,
                roots,
            ) && res.total_files > 0,
        }
    }
}

impl ScanResult {
    /// The two results hold the same values.
    pub open spec fn same_as(&self, o: &ScanResult) -> bool {
        &&& self.extension@ == o.extension@
        &&& self.per_root@.len() == o.per_root@.len()
        &&& forall|i: int|
            0 <= i < self.per_root@.len() ==> {
                &&& (#[trigger] self.per_root@[i]).name@ == o.per_root@[i].name@
                &&& self.per_root@[i].file_count == o.per_root@[i].file_count
                &&& self.per_root@[i].total_bytes == o.per_root@[i].total_bytes
            }
        &&& self.total_files == o.total_files
        &&& self.total_bytes == o.total_bytes
        &&& self.unreadable_files == o.unreadable_files
    }
}

/// Over a prefix of the roots the totals are no larger than over a longer one.
pub proof fn lemma_totals_monotone(ext: Seq<char>, roots: Seq<ScanRoot>, i: int, j: int)
    requires
        0 <= i <= j <= roots.len(),
    ensures
        total_files_of(ext, roots.take(i)) <= total_files_of(ext, roots.take(j)),
        total_bytes_of(ext, roots.take(i)) <= total_bytes_of(ext, roots.take(j)),
        total_unreadable_of(ext, roots.take(i)) <= total_unreadable_of(ext, roots.take(j)),
    decreases j - i,
{
    if i < j {
        lemma_totals_monotone(ext, roots, i, j - 1);
        assert(roots.take(j).drop_last() =~= roots.take(j - 1));
    }
}

/// Progress events report non-decreasing match counts: the count reported before
/// walking root `i` is at most the count reported before root `j`, for `i <= j`.
pub proof fn lemma_progress_monotone(
    ext: Seq<char>,
    roots: Seq<ScanRoot>,
    events: Seq<ProgressEvent>,
    i: int,
    j: int,
)
    requires
        0 <= i <= j < roots.len(),
        events.len() == roots.len(),
        forall|k: int| 0 <= k < roots.len() ==> is_event_of(ext, roots, k, #[trigger] events[k]),
    ensures
        events[i].roots_scanned <= events[j].roots_scanned,
        events[i].matches_so_far <= events[j].matches_so_far,
{
    assert(is_event_of(ext, roots, i, events[i]));
    assert(is_event_of(ext, roots, j, events[j]));
    lemma_totals_monotone(ext, roots, i, j);
}

/// A root without a resolved path contributes no file and no byte.
pub proof fn lemma_unresolved_root_is_empty(ext: Seq<char>, root: ScanRoot)
    requires
        root.path is None,
    ensures
        root_files(ext, root) == 0,
        root_bytes(ext, root) == 0,
        root_unreadable(ext, root) == 0,
{
}

/// Adding a root without a resolved path never fails: it is still counted as
/// scanned, with a zero tally, and leaves the totals as they were.
pub proof fn lemma_unresolved_root_always_added(s: ScanState, root: ScanRoot)
    requires
        root.path is None,
    ensures
        !(s.total_files + root_files(s.extension@, root) > u64::MAX || s.total_bytes
            + root_bytes(s.extension@, root) > u64::MAX || s.unreadable_files + root_unreadable(
            s.extension@,
            root,
        ) > u64::MAX),
        root_files(s.extension@, root) == 0,
        root_bytes(s.extension@, root) == 0,
{
}

/// Roots whose walks found nothing give zero files and zero bytes.
pub proof fn lemma_empty_roots_find_nothing(ext: Seq<char>, roots: Seq<ScanRoot>)
    requires
        forall|i: int| 0 <= i < roots.len() ==> (#[trigger] roots[i]).entries@.len() == 0,
    ensures
        total_files_of(ext, roots) == 0,
        total_bytes_of(ext, roots) == 0,
        total_unreadable_of(ext, roots) == 0,
    decreases roots.len(),
{
    if roots.len() > 0 {
        let init = roots.drop_last();
        assert forall|i: int| 0 <= i < init.len() implies (#[trigger] init[i]).entries@.len()
            == 0 by {
            assert(init[i] == roots[i]);
        }
        lemma_empty_roots_find_nothing(ext, init);
        assert(roots.last() == roots[roots.len() - 1]);
        assert(root_entries(roots.last()).len() == 0);
    }
}

/// Sizing an image extension over roots whose walks found nothing cannot fail,
/// and its outcome is `NoMatchesFound`: no match is not an error.
pub proof fn lemma_empty_roots_report_no_matches(
    ext: Seq<char>,
    roots: Seq<ScanRoot>,
    outcome: ScanOutcome,
)
    requires
        image_formats().contains(ext),
        forall|i: int| 0 <= i < roots.len() ==> (#[trigger] roots[i]).entries@.len() == 0,
        outcome.is_outcome_of(ext, roots),
    ensures
        totals_fit(ext, roots),
        outcome is NoMatchesFound,
{
    lemma_empty_roots_find_nothing(ext, roots);
}

/// Tallies that each belong to their root sum to the totals over the roots.
pub proof fn lemma_tallies_sum(ext: Seq<char>, roots: Seq<ScanRoot>, ts: Seq<PerRootTally>)
    requires
        ts.len() == roots.len(),
        forall|i: int| 0 <= i < roots.len() ==> is_tally_of(ext, roots[i], #[trigger] ts[i]),
    ensures
        tally_files(ts) == total_files_of(ext, roots),
        tally_bytes(ts) == total_bytes_of(ext, roots),
    decreases roots.len(),
{
    if roots.len() > 0 {
        let n = roots.len() - 1;
        assert forall|i: int| 0 <= i < n implies is_tally_of(
            ext,
            roots.drop_last()[i],
            #[trigger] ts.drop_last()[i],
        ) by {
            assert(is_tally_of(ext, roots[i], ts[i]));
        }
        lemma_tallies_sum(ext, roots.drop_last(), ts.drop_last());
        assert(is_tally_of(ext, roots[n], ts[n]));
    }
}

/// In every result of a scan, the totals are exactly the sums of the per-root tallies.
pub proof fn lemma_scan_totals_are_sums(ext: Seq<char>, roots: Seq<ScanRoot>, res: ScanResult)
    requires
        res.is_scan_of(ext, roots),
    ensures
        res.wf(),
        res.total_files == tally_files(res.per_root@),
        res.total_bytes == tally_bytes(res.per_root@),
{
    lemma_tallies_sum(ext, roots, res.per_root@);
}

/// Scanning the same roots again gives the same result.
pub proof fn lemma_scan_deterministic(
    ext: Seq<char>,
    roots: Seq<ScanRoot>,
    a: ScanResult,
    b: ScanResult,
)
    requires
        a.is_scan_of(ext, roots),
        b.is_scan_of(ext, roots),
    ensures
        a.same_as(&b),
{
    assert forall|i: int| 0 <= i < a.per_root@.len() implies {
        &&& (#[trigger] a.per_root@[i]).name@ == b.per_root@[i].name@
        &&& a.per_root@[i].file_count == b.per_root@[i].file_count
        &&& a.per_root@[i].total_bytes == b.per_root@[i].total_bytes
    } by {
        assert(is_tally_of(ext, roots[i], a.per_root@[i]));
        assert(is_tally_of(ext, roots[i], b.per_root@[i]));
    }
}

/// Scans `roots` for files of extension `extension`, root by root in order, and
/// returns the result with the event reported before each root. Fails exactly
/// when a total does not fit in 64 bits.
pub fn scan(extension: &str, roots: &Vec<ScanRoot>) -> (r: Result<
    (ScanResult, Vec<ProgressEvent>),
    ScanError,
>)
    requires
        roots@.len() <= u32::MAX,
    ensures
        r is Err <==> !totals_fit(extension@, roots@),
        r is Ok ==> {
            let (res, events) = r->Ok_0;
            &&& res.wf()
            &&& res.is_scan_of(extension@, roots@)
            &&& events@.len() == roots@.len()
            &&& forall|i: int|
                0 <= i < roots@.len() ==> is_event_of(extension@, roots@, i, #[trigger] events@[i])
        },
{
    let ghost ext = extension@;
    let mut state = ScanState::new(extension, roots.len() as u32);
    let mut events: Vec<ProgressEvent> = Vec::new();
    let mut i: usize = 0;
    assert(roots@.take(0) =~= Seq::<ScanRoot>::empty());
    while i < roots.len()
        invariant
            ext == extension@,
            i <= roots@.len(),
            roots@.len() <= u32::MAX,
            state.wf(),
            state.roots_total == roots@.len(),
            state.has_scanned(ext, roots@.take(i as int)),
            events@.len() == i,
            forall|k: int| 0 <= k < i ==> is_event_of(ext, roots@, k, #[trigger] events@[k]),
        decreases roots@.len() - i,
    {
        let root = &roots[i];
        let ev = state.progress(root);
        events.push(ev);
        let ghost before = state;
        let ghost done = roots@.take(i as int);
        let ghost next = roots@.take(i as int + 1);
        proof {
            assert(next.drop_last() =~= done);
            assert(next.last() == roots@[i as int]);
        }
        match state.add_root(root) {
            Ok(()) => {},
            Err(e) => {
                proof {
                    assert(total_files_of(ext, next) == total_files_of(ext, done) + root_files(
                        ext,
                        next.last(),
                    ));
                    assert(total_bytes_of(ext, next) == total_bytes_of(ext, done) + root_bytes(
                        ext,
                        next.last(),
                    ));
                    assert(total_unreadable_of(ext, next) == total_unreadable_of(ext, done)
                        + root_unreadable(ext, next.last()));
                    lemma_totals_monotone(ext, roots@, i as int + 1, roots@.len() as int);
                    assert(roots@.take(roots@.len() as int) =~= roots@);
                }
                return Err(e);
            },
        }
        proof {
            assert forall|k: int| 0 <= k < next.len() implies is_tally_of(
                ext,
                next[k],
                #[trigger] state.per_root@[k],
            ) by {
                if k < i {
                    assert(state.per_root@[k] == state.per_root@.drop_last()[k]);
                    assert(is_tally_of(ext, done[k], before.per_root@[k]));
                }
            }
        }
        i += 1;
    }
    assert(roots@.take(roots@.len() as int) =~= roots@);
    let res = state.finish();
    Ok((res, events))
}

/// The outcome of a completed scan: whether it found any file.
pub fn outcome_of(res: ScanResult) -> (r: ScanOutcome)
    ensures
        res.total_files == 0 ==> r == ScanOutcome::NoMatchesFound(res),
        res.total_files > 0 ==> r == ScanOutcome::Found(res),
{
    if res.total_files == 0 {
        ScanOutcome::NoMatchesFound(res)
    } else {
        ScanOutcome::Found(res)
    }
}

/// Sizes the images of extension `extension` under `roots`: no scan at all for
/// an extension that is not an image format, otherwise a scan whose outcome tells
/// a search that found nothing from one that found files.
pub fn get_images_size_with_extension(extension: &str, roots: &Vec<ScanRoot>) -> (r: Result<
    (ScanOutcome, Vec<ProgressEvent>),
    ScanError,
>)
    requires
        roots@.len() <= u32::MAX,
    ensures
        !image_formats().contains(extension@) ==> r is Ok && r->Ok_0.0 is UnsupportedExtension
            && r->Ok_0.1@.len() == 0,
        image_formats().contains(extension@) ==> (r is Err <==> !totals_fit(extension@, roots@)),
        r is Ok ==> {
            let (outcome, events) = r->Ok_0;
            &&& outcome.is_outcome_of(extension@, roots@)
            &&& image_formats().contains(extension@) ==> {
                &&& events@.len() == roots@.len()
                &&& forall|i: int|
                    0 <= i < roots@.len() ==> is_event_of(
                        extension@,
                        roots@,
                        i,
                        #[trigger] events@[i],
                    )
            }
        },
{
    if !is_image_format(extension) {
        return Ok((ScanOutcome::UnsupportedExtension, Vec::new()));
    }
    match scan(extension, roots) {
        Ok((res, events)) => Ok((outcome_of(res), events)),
        Err(e) => Err(e),
    }
}

} // verus!
