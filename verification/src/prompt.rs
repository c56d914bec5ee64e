//! The symbolic formatter: composes the change counters, the two divergence
//! renders and the branch label into the one output line. The concatenation
//! order is fixed: counters, then main-line divergence, then upstream
//! divergence, then the label, the label preceded by a single space when any
//! earlier part produced output; the whole line is prefixed by one space.
use crate::branch::rendered_view;
use crate::branch::spec_local_render;
use crate::branch::spec_upstream_render;
use crate::branch::BranchStatus;
use crate::changes::spec_changes_render;
use crate::changes::Changes;
use crate::settings::Settings;
use vstd::prelude::*;
use vstd::string::StringExecFns;

verus! {

/// An optional rendered part, or nothing.
pub open spec fn spec_opt_part(o: Option<Seq<char>>) -> Seq<char> {
    match o {
        Some(s) => s,
        None => Seq::<char>::empty(),
    }
}

/// The full output line for one invocation: a leading space, the counters,
/// the main-line divergence, the upstream divergence, and the branch label,
/// the label preceded by one space when anything before it rendered.
pub open spec fn spec_render_prompt(s: Settings, c: Changes, b: BranchStatus) -> Seq<char> {
    let body = spec_changes_render(c, s) + spec_opt_part(spec_local_render(b.local, s))
        + spec_opt_part(spec_upstream_render(b.upstream, b.detached, s));
    if body.len() == 0 {
        " "@ + b.name@
    } else {
        " "@ + body + " "@ + b.name@
    }
}

/// Renders the one output line under the given configuration.
pub fn render_prompt(settings: &Settings, changes: &Changes, branch: &BranchStatus) -> (r: String)
    ensures
        r@ == spec_render_prompt(*settings, *changes, *branch),
{
    let mut body = changes.render(settings);
    match branch.local(settings) {
        Some(part) => body.append(part.as_str()),
        None => (),
    }
    match branch.upstream(settings) {
        Some(part) => body.append(part.as_str()),
        None => (),
    }
    proof {
        assert(body@ =~= spec_changes_render(*changes, *settings) + spec_opt_part(
            spec_local_render(branch.local, *settings),
        ) + spec_opt_part(spec_upstream_render(branch.upstream, branch.detached, *settings)));
    }
    let mut r = String::from_str(" ");
    if body.as_str().is_empty() {
        r.append(branch.name.as_str());
        proof {
            assert(r@ =~= spec_render_prompt(*settings, *changes, *branch));
        }
    } else {
        r.append(body.as_str());
        r.append(" ");
        r.append(branch.name.as_str());
        proof {
            assert(r@ =~= spec_render_prompt(*settings, *changes, *branch));
        }
    }
    r
}

/// Rendering is a pure function of its inputs: two renders of the same
/// configuration, counters, divergences and label give the same string.
pub proof fn lemma_render_deterministic(
    s: Settings,
    c: Changes,
    b: BranchStatus,
    r1: Seq<char>,
    r2: Seq<char>,
)
    requires
        r1 == spec_render_prompt(s, c, b),
        r2 == spec_render_prompt(s, c, b),
    ensures
        r1 == r2,
{
}

/// With all eight change counters absent and both divergences zero/zero,
/// the output is exactly a single space followed by the branch label, with
/// no other symbol.
pub proof fn lemma_render_quiet(s: Settings, c: Changes, b: BranchStatus)
    requires
        c.new_files is None,
        c.modifications_staged is None,
        c.renames_staged is None,
        c.deletions_staged is None,
        c.modifications is None,
        c.renames is None,
        c.deletions is None,
        c.untracked is None,
        b.local == Some((0usize, 0usize)),
        b.upstream == Some((0usize, 0usize)),
    ensures
        spec_render_prompt(s, c, b) == " "@ + b.name@,
{
    assert(spec_changes_render(c, s) =~= Seq::<char>::empty());
    assert(spec_local_render(b.local, s) is None);
    assert(spec_upstream_render(b.upstream, b.detached, s) == Some(Seq::<char>::empty()));
    let body = spec_changes_render(c, s) + spec_opt_part(spec_local_render(b.local, s))
        + spec_opt_part(spec_upstream_render(b.upstream, b.detached, s));
    assert(body.len() == 0);
}

/// On a detached head both divergence sections are entirely empty, whatever
/// the working-tree state and configuration: no comparison was made, so
/// neither a symbol nor the missing-upstream marker renders.
pub proof fn lemma_render_detached(s: Settings, b: BranchStatus)
    requires
        b.detached,
        b.local is None,
        b.upstream is None,
    ensures
        spec_opt_part(spec_local_render(b.local, s)) == Seq::<char>::empty(),
        spec_opt_part(spec_upstream_render(b.upstream, b.detached, s)) == Seq::<char>::empty(),
{
}

} // verus!
