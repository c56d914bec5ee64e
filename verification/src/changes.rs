//! The change classifier: buckets the per-path status flags of the working
//! copy into eight mutually independent counters, and renders the present
//! counters as decorated glyph/count pairs.
//!
//! A path bumps at most one staged counter, by the fixed priority
//! modified > new > renamed > deleted, and independently at most one
//! unstaged counter, by the priority modified > renamed > deleted >
//! untracked. A counter that saw no path is absent rather than zero.
use crate::colors::spec_decorate;
use crate::colors::ColorName;
use crate::colors::decorate;
use crate::numbers::encode_base_10_number;
use crate::numbers::spec_encode;
use crate::repo::git_error_message;
use crate::repo::path_status_of;
use crate::repo::query_statuses;
use crate::repo::RepoError;
use crate::settings::IconListFormat;
use crate::settings::Settings;
use vstd::prelude::*;
use vstd::string::StringExecFns;

verus! {

/// The status flags of one path, as the repository reports them: what the
/// index holds relative to the last commit (staged), and what the working
/// tree holds relative to the index (unstaged). A path with no index entry
/// is working-tree new, that is untracked.
#[derive(Clone, Copy, PartialEq, Eq, Structural, Debug)]
pub struct PathStatus {
    pub index_new: bool,
    pub index_modified: bool,
    pub index_renamed: bool,
    pub index_deleted: bool,
    pub wt_new: bool,
    pub wt_modified: bool,
    pub wt_renamed: bool,
    pub wt_deleted: bool,
}

/// The eight change counters. Each is absent when its category had no
/// occurrence, and holds the positive count otherwise.
pub struct Changes {
    pub new_files: Option<usize>,
    pub modifications_staged: Option<usize>,
    pub renames_staged: Option<usize>,
    pub deletions_staged: Option<usize>,
    pub modifications: Option<usize>,
    pub renames: Option<usize>,
    pub deletions: Option<usize>,
    pub untracked: Option<usize>,
}

/// The path counts toward staged modifications.
pub open spec fn counts_staged_modified(f: PathStatus) -> bool {
    f.index_modified
}

/// The path counts toward staged new files: staged modification takes
/// priority.
pub open spec fn counts_staged_new(f: PathStatus) -> bool {
    !f.index_modified && f.index_new
}

/// The path counts toward staged renames.
pub open spec fn counts_staged_renamed(f: PathStatus) -> bool {
    !f.index_modified && !f.index_new && f.index_renamed
}

/// The path counts toward staged deletions.
pub open spec fn counts_staged_deleted(f: PathStatus) -> bool {
    !f.index_modified && !f.index_new && !f.index_renamed && f.index_deleted
}

/// The path counts toward unstaged modifications.
pub open spec fn counts_unstaged_modified(f: PathStatus) -> bool {
    f.wt_modified
}

/// The path counts toward unstaged renames.
pub open spec fn counts_unstaged_renamed(f: PathStatus) -> bool {
    !f.wt_modified && f.wt_renamed
}

/// The path counts toward unstaged deletions.
pub open spec fn counts_unstaged_deleted(f: PathStatus) -> bool {
    !f.wt_modified && !f.wt_renamed && f.wt_deleted
}

/// The path counts toward the untracked files: every unstaged category
/// takes priority.
pub open spec fn counts_untracked(f: PathStatus) -> bool {
    !f.wt_modified && !f.wt_renamed && !f.wt_deleted && f.wt_new
}

/// How many paths of `s` satisfy `p`.
pub open spec fn spec_count_where(s: Seq<PathStatus>, p: spec_fn(PathStatus) -> bool) -> nat
    decreases s.len(),
{
    if s.len() == 0 {
        0
    } else {
        spec_count_where(s.drop_last(), p) + (if p(s.last()) { 1 as nat } else { 0 as nat })
    }
}

/// An absent counter stands for zero occurrences; a present counter holds
/// the positive count.
pub open spec fn counter_matches(c: Option<usize>, n: nat) -> bool {
    if n == 0 {
        c is None
    } else {
        c == Some(n as usize)
    }
}

/// The counters of `c` are exactly the per-category counts over the path
/// statuses `s`.
pub open spec fn classified_from(c: Changes, s: Seq<PathStatus>) -> bool {
    &&& counter_matches(c.new_files, spec_count_where(s, |f: PathStatus| counts_staged_new(f)))
    &&& counter_matches(
        c.modifications_staged,
        spec_count_where(s, |f: PathStatus| counts_staged_modified(f)),
    )
    &&& counter_matches(
        c.renames_staged,
        spec_count_where(s, |f: PathStatus| counts_staged_renamed(f)),
    )
    &&& counter_matches(
        c.deletions_staged,
        spec_count_where(s, |f: PathStatus| counts_staged_deleted(f)),
    )
    &&& counter_matches(
        c.modifications,
        spec_count_where(s, |f: PathStatus| counts_unstaged_modified(f)),
    )
    &&& counter_matches(c.renames, spec_count_where(s, |f: PathStatus| counts_unstaged_renamed(f)))
    &&& counter_matches(
        c.deletions,
        spec_count_where(s, |f: PathStatus| counts_unstaged_deleted(f)),
    )
    &&& counter_matches(c.untracked, spec_count_where(s, |f: PathStatus| counts_untracked(f)))
}

/// Every counter of `c` is absent or positive.
pub open spec fn changes_well_formed(c: Changes) -> bool {
    &&& c.new_files != Some(0usize)
    &&& c.modifications_staged != Some(0usize)
    &&& c.renames_staged != Some(0usize)
    &&& c.deletions_staged != Some(0usize)
    &&& c.modifications != Some(0usize)
    &&& c.renames != Some(0usize)
    &&& c.deletions != Some(0usize)
    &&& c.untracked != Some(0usize)
}

/// A path is never double-counted: it falls in at most one staged category,
/// and in at most one unstaged category (the untracked files among them).
pub proof fn lemma_no_double_count(f: PathStatus)
    ensures
        (if counts_staged_modified(f) { 1 as int } else { 0 }) + (if counts_staged_new(f) {
            1 as int
        } else {
            0
        }) + (if counts_staged_renamed(f) { 1 as int } else { 0 }) + (if counts_staged_deleted(f) {
            1 as int
        } else {
            0
        }) <= 1,
        (if counts_unstaged_modified(f) { 1 as int } else { 0 }) + (if counts_unstaged_renamed(f) {
            1 as int
        } else {
            0
        }) + (if counts_unstaged_deleted(f) { 1 as int } else { 0 }) + (if counts_untracked(f) {
            1 as int
        } else {
            0
        }) <= 1,
{
}

/// A count never exceeds the number of paths.
proof fn lemma_count_where_le_len(s: Seq<PathStatus>, p: spec_fn(PathStatus) -> bool)
    ensures
        spec_count_where(s, p) <= s.len(),
    decreases s.len(),
{
    if s.len() > 0 {
        lemma_count_where_le_len(s.drop_last(), p);
    }
}

/// Extending the counted prefix by one path adds one to the counts whose
/// category the path falls in, and nothing to the others.
proof fn lemma_count_where_take_step(
    s: Seq<PathStatus>,
    p: spec_fn(PathStatus) -> bool,
    i: int,
)
    requires
        0 <= i < s.len(),
    ensures
        spec_count_where(s.take(i + 1), p) == spec_count_where(s.take(i), p) + (if p(s[i]) {
            1 as nat
        } else {
            0 as nat
        }),
{
    assert(s.take(i + 1).drop_last() =~= s.take(i));
    assert(s.take(i + 1).last() == s[i]);
}

/// Turns a count into a counter: absent for zero, present otherwise.
fn to_counter(n: usize) -> (c: Option<usize>)
    ensures
        counter_matches(c, n as nat),
{
    if n == 0 {
        None
    } else {
        Some(n)
    }
}

/// Buckets the per-path statuses into the eight counters, first-match
/// against the fixed priorities within the staged and within the unstaged
/// categories.
pub fn classify(flags: &Vec<PathStatus>) -> (c: Changes)
    ensures
        classified_from(c, flags@),
        changes_well_formed(c),
{
    let ghost s = flags@;
    let mut staged_new: usize = 0;
    let mut staged_modified: usize = 0;
    let mut staged_renamed: usize = 0;
    let mut staged_deleted: usize = 0;
    let mut unstaged_modified: usize = 0;
    let mut unstaged_renamed: usize = 0;
    let mut unstaged_deleted: usize = 0;
    let mut untracked: usize = 0;
    let mut i: usize = 0;
    while i < flags.len()
        invariant
            i <= flags.len(),
            s == flags@,
            staged_new as nat == spec_count_where(
                s.take(i as int),
                |f: PathStatus| counts_staged_new(f),
            ),
            staged_modified as nat == spec_count_where(
                s.take(i as int),
                |f: PathStatus| counts_staged_modified(f),
            ),
            staged_renamed as nat == spec_count_where(
                s.take(i as int),
                |f: PathStatus| counts_staged_renamed(f),
            ),
            staged_deleted as nat == spec_count_where(
                s.take(i as int),
                |f: PathStatus| counts_staged_deleted(f),
            ),
            unstaged_modified as nat == spec_count_where(
                s.take(i as int),
                |f: PathStatus| counts_unstaged_modified(f),
            ),
            unstaged_renamed as nat == spec_count_where(
                s.take(i as int),
                |f: PathStatus| counts_unstaged_renamed(f),
            ),
            unstaged_deleted as nat == spec_count_where(
                s.take(i as int),
                |f: PathStatus| counts_unstaged_deleted(f),
            ),
            untracked as nat == spec_count_where(
                s.take(i as int),
                |f: PathStatus| counts_untracked(f),
            ),
        decreases flags.len() - i,
    {
        let f = flags[i];
        proof {
            lemma_count_where_take_step(s, |g: PathStatus| counts_staged_new(g), i as int);
            lemma_count_where_take_step(s, |g: PathStatus| counts_staged_modified(g), i as int);
            lemma_count_where_take_step(s, |g: PathStatus| counts_staged_renamed(g), i as int);
            lemma_count_where_take_step(s, |g: PathStatus| counts_staged_deleted(g), i as int);
            lemma_count_where_take_step(s, |g: PathStatus| counts_unstaged_modified(g), i as int);
            lemma_count_where_take_step(s, |g: PathStatus| counts_unstaged_renamed(g), i as int);
            lemma_count_where_take_step(s, |g: PathStatus| counts_unstaged_deleted(g), i as int);
            lemma_count_where_take_step(s, |g: PathStatus| counts_untracked(g), i as int);
            lemma_count_where_le_len(s.take(i as int), |g: PathStatus| counts_staged_new(g));
            lemma_count_where_le_len(s.take(i as int), |g: PathStatus| counts_staged_modified(g));
            lemma_count_where_le_len(s.take(i as int), |g: PathStatus| counts_staged_renamed(g));
            lemma_count_where_le_len(s.take(i as int), |g: PathStatus| counts_staged_deleted(g));
            lemma_count_where_le_len(s.take(i as int), |g: PathStatus| counts_unstaged_modified(g));
            lemma_count_where_le_len(s.take(i as int), |g: PathStatus| counts_unstaged_renamed(g));
            lemma_count_where_le_len(s.take(i as int), |g: PathStatus| counts_unstaged_deleted(g));
            lemma_count_where_le_len(s.take(i as int), |g: PathStatus| counts_untracked(g));
        }
        if f.index_modified {
            staged_modified = staged_modified + 1;
        } else if f.index_new {
            staged_new = staged_new + 1;
        } else if f.index_renamed {
            staged_renamed = staged_renamed + 1;
        } else if f.index_deleted {
            staged_deleted = staged_deleted + 1;
        }
        if f.wt_modified {
            unstaged_modified = unstaged_modified + 1;
        } else if f.wt_renamed {
            unstaged_renamed = unstaged_renamed + 1;
        } else if f.wt_deleted {
            unstaged_deleted = unstaged_deleted + 1;
        } else if f.wt_new {
            untracked = untracked + 1;
        }
        i = i + 1;
    }
    proof {
        assert(s.take(flags@.len() as int) =~= s);
    }
    Changes {
        new_files: to_counter(staged_new),
        modifications_staged: to_counter(staged_modified),
        renames_staged: to_counter(staged_renamed),
        deletions_staged: to_counter(staged_deleted),
        modifications: to_counter(unstaged_modified),
        renames: to_counter(unstaged_renamed),
        deletions: to_counter(unstaged_deleted),
        untracked: to_counter(untracked),
    }
}

/// Queries the combined index and working-tree status of every path,
/// untracked paths included, and buckets the statuses into the eight
/// counters. A failing status query is fatal for the invocation and is
/// returned as the error.
pub fn analyze(repository: &git2::Repository) -> (r: Result<Changes, RepoError>)
    ensures
        r matches Ok(c) ==> exists|s: Seq<PathStatus>| classified_from(c, s),
        r matches Ok(c) ==> changes_well_formed(c),
{
    let statuses = match query_statuses(repository) {
        Ok(st) => st,
        Err(e) => {
            return Err(RepoError { message: git_error_message(&e) });
        },
    };
    let mut flags: Vec<PathStatus> = Vec::new();
    let mut i: usize = 0;
    while i < statuses.len()
        invariant
            i <= statuses.len(),
        decreases statuses.len() - i,
    {
        flags.push(path_status_of(&statuses[i]));
        i = i + 1;
    }
    let c = classify(&flags);
    proof {
        assert(classified_from(c, flags@));
    }
    Ok(c)
}

/// The rendering of one counter: nothing when absent; otherwise the
/// decorated category glyph and the encoded count, the count leading under
/// the plain digit style and trailing under the superscript and subscript
/// styles.
pub open spec fn spec_counter_segment(
    c: Option<usize>,
    color: ColorName,
    glyph: Seq<char>,
    s: Settings,
) -> Seq<char> {
    match c {
        None => Seq::<char>::empty(),
        Some(n) => {
            if s.icon_list_format == IconListFormat::Digits {
                spec_encode(s.icon_list_format, n as nat) + spec_decorate(s.shell, color, glyph)
            } else {
                spec_decorate(s.shell, color, glyph) + spec_encode(s.icon_list_format, n as nat)
            }
        },
    }
}

/// The rendering of the eight counters, staged then unstaged, in the fixed
/// order: staged new, staged modified, staged renamed, staged deleted,
/// unstaged modified, unstaged renamed, unstaged deleted, untracked.
pub open spec fn spec_changes_render(c: Changes, s: Settings) -> Seq<char> {
    spec_counter_segment(c.new_files, ColorName::Green, "N"@, s) + spec_counter_segment(
        c.modifications_staged,
        ColorName::Green,
        "M"@,
        s,
    ) + spec_counter_segment(c.renames_staged, ColorName::Green, "R"@, s) + spec_counter_segment(
        c.deletions_staged,
        ColorName::Green,
        "D"@,
        s,
    ) + spec_counter_segment(c.modifications, ColorName::Red, "M"@, s) + spec_counter_segment(
        c.renames,
        ColorName::Red,
        "R"@,
        s,
    ) + spec_counter_segment(c.deletions, ColorName::Red, "D"@, s) + spec_counter_segment(
        c.untracked,
        ColorName::Blue,
        "U"@,
        s,
    )
}

/// Renders one counter as its decorated glyph and encoded count.
fn counter_segment(c: Option<usize>, color: ColorName, glyph: &str, s: &Settings) -> (r: String)
    ensures
        r@ == spec_counter_segment(c, color, glyph@, *s),
{
    match c {
        None => String::new(),
        Some(n) => {
            let count = encode_base_10_number(n, s.icon_list_format);
            let painted = decorate(String::from_str(glyph), color, s.shell);
            match s.icon_list_format {
                IconListFormat::Digits => {
                    let mut r = count;
                    r.append(painted.as_str());
                    r
                },
                _ => {
                    let mut r = painted;
                    r.append(count.as_str());
                    r
                },
            }
        },
    }
}

impl Changes {
    /// Renders the present counters in the fixed category order under the
    /// given configuration.
    pub fn render(&self, s: &Settings) -> (r: String)
        ensures
            r@ == spec_changes_render(*self, *s),
    {
        let mut r = counter_segment(self.new_files, ColorName::Green, "N", s);
        r.append(counter_segment(self.modifications_staged, ColorName::Green, "M", s).as_str());
        r.append(counter_segment(self.renames_staged, ColorName::Green, "R", s).as_str());
        r.append(counter_segment(self.deletions_staged, ColorName::Green, "D", s).as_str());
        r.append(counter_segment(self.modifications, ColorName::Red, "M", s).as_str());
        r.append(counter_segment(self.renames, ColorName::Red, "R", s).as_str());
        r.append(counter_segment(self.deletions, ColorName::Red, "D", s).as_str());
        r.append(counter_segment(self.untracked, ColorName::Blue, "U", s).as_str());
        r
    }
}

} // verus!
