//! The divergence calculator and branch label resolver: how the current
//! branch relates to the local main-line branch and to its configured
//! upstream, and under which label the branch is shown. The two ahead/behind
//! pairs are rendered with a tie-break policy: both counts positive gives a
//! bidirectional symbol with the behind count before the ahead count, a
//! single positive count gives a one-directional symbol with that count,
//! and zero/zero renders nothing.
use crate::colors::ColorName;
use crate::colors::green;
use crate::colors::magenta;
use crate::colors::red;
use crate::colors::spec_decorate;
use crate::colors::yellow;
use crate::numbers::encode_base_10_number;
use crate::numbers::spec_encode;
use crate::repo::HeadRef;
use crate::repo::RepoError;
use crate::repo::query_ahead_behind;
use crate::repo::query_head;
use crate::repo::query_local_branch_target;
use crate::repo::query_refname_target;
use crate::repo::query_upstream_name;
use crate::settings::Settings;
use vstd::prelude::*;
use vstd::string::StringExecFns;

verus! {

/// The branch label and the two divergences. A divergence pair is
/// `(ahead, behind)`; it is absent (not zero) when the comparison ref does
/// not exist. On a detached or unborn head the comparisons are skipped
/// entirely, which is distinct from a live branch whose upstream is merely
/// not configured: only the latter renders the missing-upstream marker.
pub struct BranchStatus {
    pub name: String,
    pub detached: bool,
    pub local: Option<(usize, usize)>,
    pub upstream: Option<(usize, usize)>,
}

/// On a detached head no comparison is made at all.
pub open spec fn branch_status_wf(b: BranchStatus) -> bool {
    b.detached ==> b.local is None && b.upstream is None
}

/// Whether two strings hold the same characters.
pub fn str_equal(a: &str, b: &str) -> (r: bool)
    ensures
        r == (a@ == b@),
{
    let na = a.unicode_len();
    let nb = b.unicode_len();
    if na != nb {
        return false;
    }
    let mut i: usize = 0;
    while i < na
        invariant
            na == a@.len(),
            na == b@.len(),
            i <= na,
            forall|j: int| 0 <= j < i ==> a@[j] == b@[j],
        decreases na - i,
    {
        if a.get_char(i) != b.get_char(i) {
            return false;
        }
        i = i + 1;
    }
    proof {
        assert(a@ =~= b@);
    }
    true
}

/// The label the branch is shown under: the configured main-line label when
/// the head ref is the legacy or the modern default branch, else the
/// branch's short display name.
pub open spec fn spec_label(refname: Seq<char>, shorthand: Seq<char>, main_label: Seq<char>) -> Seq<
    char,
> {
    if refname == "refs/heads/master"@ || refname == "refs/heads/main"@ {
        main_label
    } else {
        shorthand
    }
}

/// Resolves the branch label from the head's full ref name and short name
/// under the given configuration.
pub fn resolve_label(refname: &str, shorthand: &str, settings: &Settings) -> (r: String)
    ensures
        r@ == spec_label(refname@, shorthand@, settings.master_branch_label@),
{
    if str_equal(refname, "refs/heads/master") || str_equal(refname, "refs/heads/main") {
        settings.master_branch_label.clone()
    } else {
        String::from_str(shorthand)
    }
}

/// The status of a detached or unborn head: the literal `detached` label,
/// and both divergence comparisons skipped entirely.
pub fn detached_status() -> (b: BranchStatus)
    ensures
        b.name@ == "detached"@,
        b.detached,
        b.local is None,
        b.upstream is None,
{
    BranchStatus {
        name: String::from_str("detached"),
        detached: true,
        local: None,
        upstream: None,
    }
}

/// The view of an optional rendered string.
pub open spec fn rendered_view(o: Option<String>) -> Option<Seq<char>> {
    match o {
        Some(s) => Some(s@),
        None => None,
    }
}

/// The rendering of the main-line divergence: nothing when the comparison is
/// absent or zero/zero; the bidirectional symbol with the encoded behind
/// count then the encoded ahead count when both are positive; else the
/// one-directional symbol with its encoded count.
pub open spec fn spec_local_render(d: Option<(usize, usize)>, s: Settings) -> Option<Seq<char>> {
    match d {
        None => None,
        Some(p) => {
            if p.0 > 0 && p.1 > 0 {
                Some(
                    spec_decorate(s.shell, ColorName::Magenta, "↔"@) + spec_encode(
                        s.icon_list_format,
                        p.1 as nat,
                    ) + spec_encode(s.icon_list_format, p.0 as nat),
                )
            } else if p.0 > 0 {
                Some(
                    spec_decorate(s.shell, ColorName::Magenta, "←"@) + spec_encode(
                        s.icon_list_format,
                        p.0 as nat,
                    ),
                )
            } else if p.1 > 0 {
                Some(
                    spec_decorate(s.shell, ColorName::Magenta, "→"@) + spec_encode(
                        s.icon_list_format,
                        p.1 as nat,
                    ),
                )
            } else {
                None
            }
        },
    }
}

/// For a main-line divergence with both counts positive, the render is the
/// bidirectional symbol, then the encoded behind count, then the encoded
/// ahead count: behind before ahead, in every configuration.
pub proof fn lemma_local_both_diverged(a: usize, b: usize, s: Settings)
    requires
        a > 0,
        b > 0,
    ensures
        spec_local_render(Some((a, b)), s) == Some(
            spec_decorate(s.shell, ColorName::Magenta, "↔"@) + spec_encode(
                s.icon_list_format,
                b as nat,
            ) + spec_encode(s.icon_list_format, a as nat),
        ),
{
}

/// The rendering of the upstream divergence: the bidirectional symbol with
/// the encoded behind count then the encoded ahead count when both are
/// positive; a one-directional symbol with its count when one is; nothing
/// when both are zero; a distinct marker when the branch has no upstream
/// configured; and nothing at all when the head is detached, since no
/// comparison was made.
pub open spec fn spec_upstream_render(
    d: Option<(usize, usize)>,
    detached: bool,
    s: Settings,
) -> Option<Seq<char>> {
    match d {
        None => if detached {
            None
        } else {
            Some(spec_decorate(s.shell, ColorName::Red, "✗"@))
        },
        Some(p) => {
            if p.0 > 0 && p.1 > 0 {
                Some(
                    spec_decorate(s.shell, ColorName::Red, "⇵"@) + spec_decorate(
                        s.shell,
                        ColorName::Yellow,
                        spec_encode(s.icon_list_format, p.1 as nat),
                    ) + spec_decorate(
                        s.shell,
                        ColorName::Green,
                        spec_encode(s.icon_list_format, p.0 as nat),
                    ),
                )
            } else if p.0 > 0 {
                Some(
                    spec_decorate(s.shell, ColorName::Green, "↑"@) + spec_encode(
                        s.icon_list_format,
                        p.0 as nat,
                    ),
                )
            } else if p.1 > 0 {
                Some(
                    spec_decorate(s.shell, ColorName::Yellow, "↓"@) + spec_encode(
                        s.icon_list_format,
                        p.1 as nat,
                    ),
                )
            } else {
                Some(Seq::<char>::empty())
            }
        },
    }
}

impl BranchStatus {
    /// Renders the main-line divergence.
    pub fn local(&self, settings: &Settings) -> (r: Option<String>)
        ensures
            rendered_view(r) == spec_local_render(self.local, *settings),
    {
        match self.local {
            Some(p) => {
                let a = p.0;
                let b = p.1;
                if a > 0 && b > 0 {
                    let mut r = magenta(String::from_str("↔"), settings.shell);
                    r.append(encode_base_10_number(b, settings.icon_list_format).as_str());
                    r.append(encode_base_10_number(a, settings.icon_list_format).as_str());
                    Some(r)
                } else if a > 0 {
                    let mut r = magenta(String::from_str("←"), settings.shell);
                    r.append(encode_base_10_number(a, settings.icon_list_format).as_str());
                    Some(r)
                } else if b > 0 {
                    let mut r = magenta(String::from_str("→"), settings.shell);
                    r.append(encode_base_10_number(b, settings.icon_list_format).as_str());
                    Some(r)
                } else {
                    None
                }
            },
            None => None,
        }
    }

    /// Renders the upstream divergence.
    pub fn upstream(&self, settings: &Settings) -> (r: Option<String>)
        ensures
            rendered_view(r) == spec_upstream_render(self.upstream, self.detached, *settings),
    {
        match self.upstream {
            Some(p) => {
                let a = p.0;
                let b = p.1;
                if a > 0 && b > 0 {
                    let mut r = red(String::from_str("⇵"), settings.shell);
                    let behind = encode_base_10_number(b, settings.icon_list_format);
                    let ahead = encode_base_10_number(a, settings.icon_list_format);
                    r.append(yellow(behind, settings.shell).as_str());
                    r.append(green(ahead, settings.shell).as_str());
                    Some(r)
                } else if a > 0 {
                    let mut r = green(String::from_str("↑"), settings.shell);
                    r.append(encode_base_10_number(a, settings.icon_list_format).as_str());
                    Some(r)
                } else if b > 0 {
                    let mut r = yellow(String::from_str("↓"), settings.shell);
                    r.append(encode_base_10_number(b, settings.icon_list_format).as_str());
                    Some(r)
                } else {
                    Some(String::new())
                }
            },
            None => {
                if self.detached {
                    None
                } else {
                    Some(red(String::from_str("✗"), settings.shell))
                }
            },
        }
    }
}

/// Resolves the head, the branch label and the two divergences. A detached
/// or unborn head gives the literal `detached` label with both comparisons
/// skipped; a missing comparison ref degrades that one divergence to absent;
/// no failure is fatal, so the analysis always succeeds.
pub fn analyze(repository: &git2::Repository, settings: &Settings) -> (r: Result<
    BranchStatus,
    RepoError,
>)
    ensures
        r is Ok,
        r matches Ok(b) ==> branch_status_wf(b),
        r matches Ok(b) ==> (b.detached && b.name@ == "detached"@) || (!b.detached && exists|
            rn: Seq<char>,
            sh: Seq<char>,
        | b.name@ == spec_label(rn, sh, settings.master_branch_label@)),
{
    let head: HeadRef = match query_head(repository) {
        None => {
            return Ok(detached_status());
        },
        Some(h) => h,
    };
    let name = resolve_label(head.refname.as_str(), head.shorthand.as_str(), settings);
    proof {
        assert(name@ == spec_label(
            head.refname@,
            head.shorthand@,
            settings.master_branch_label@,
        ));
    }
    let local = match query_local_branch_target(repository, "master") {
        Some(t) => query_ahead_behind(repository, &head.target, &t),
        None => match query_local_branch_target(repository, "main") {
            Some(t) => query_ahead_behind(repository, &head.target, &t),
            None => None,
        },
    };
    let upstream = match query_upstream_name(repository, head.refname.as_str()) {
        Some(upstream_ref) => match query_refname_target(repository, upstream_ref.as_str()) {
            Some(t) => query_ahead_behind(repository, &head.target, &t),
            None => None,
        },
        None => None,
    };
    Ok(BranchStatus { name, detached: false, local, upstream })
}

} // verus!
