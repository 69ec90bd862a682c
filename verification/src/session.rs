use vstd::prelude::*;

verus! {

/// The orientation of a saved split: `Horizontal` places the children side
/// by side (left | right), `Vertical` stacks them (top / bottom).
#[derive(Clone, Copy, Debug, PartialEq, Eq, Structural)]
pub enum SessionAxis {
    Horizontal,
    Vertical,
}

/// The direction a new pane is split off its anchor.
#[derive(Clone, Copy, Debug, PartialEq, Eq, Structural)]
pub enum SplitDirection {
    Right,
    Down,
    Left,
    Up,
}

/// A saved window session's split tree: each leaf is a pane with the working
/// directory its shell was in (if known); each split holds its two children
/// in first/second (left/top, then right/bottom) order. The split ratio,
/// a float, is kept by the caller alongside this tree.
pub enum SessionNode {
    Leaf { cwd: Option<String> },
    Split { axis: SessionAxis, first: Box<SessionNode>, second: Box<SessionNode> },
}

/// The working directory of the tree's leftmost leaf.
pub open spec fn spec_leftmost_cwd(node: SessionNode) -> Option<String>
    decreases node,
{
    match node {
        SessionNode::Leaf { cwd } => cwd,
        SessionNode::Split { first, .. } => spec_leftmost_cwd(*first),
    }
}

/// The working directory of a session tree's leftmost leaf — the cwd a
/// single-pane restore spawns the shell in.
pub fn leftmost_cwd(node: &SessionNode) -> (r: Option<String>)
    ensures
        r == spec_leftmost_cwd(*node),
    decreases node,
{
    match node {
        SessionNode::Leaf { cwd } => match cwd {
            Some(c) => Some(c.clone()),
            None => None,
        },
        SessionNode::Split { first, .. } => leftmost_cwd(first),
    }
}

/// The direction that keeps the anchor pane in a split's first slot and puts
/// the new pane second: right of it for a horizontal split, below it for a
/// vertical one.
pub open spec fn spec_restore_direction(axis: SessionAxis) -> SplitDirection {
    match axis {
        SessionAxis::Horizontal => SplitDirection::Right,
        SessionAxis::Vertical => SplitDirection::Down,
    }
}

/// The split direction used to rebuild a saved split of orientation `axis`.
pub fn restore_direction(axis: SessionAxis) -> (r: SplitDirection)
    ensures
        r == spec_restore_direction(axis),
{
    match axis {
        SessionAxis::Horizontal => SplitDirection::Right,
        SessionAxis::Vertical => SplitDirection::Down,
    }
}

/// The number of panes (leaves) in a session tree.
pub open spec fn leaf_count(node: SessionNode) -> nat
    decreases node,
{
    match node {
        SessionNode::Leaf { .. } => 1,
        SessionNode::Split { first, second, .. } => leaf_count(*first) + leaf_count(*second),
    }
}

/// One pane spawn of a session restore: split pane `anchor` in `direction`,
/// starting the new pane (numbered `new_pane`) in `cwd`. Panes are numbered
/// in creation order; pane 0 is the one the restored tab starts with.
pub struct SplitStep {
    pub anchor: usize,
    pub new_pane: usize,
    pub direction: SplitDirection,
    pub cwd: Option<String>,
}

/// The spawns that grow pane `anchor` (which already occupies `node`'s whole
/// slot) into the shape of `node`, numbering new panes from `next`: for a
/// split, the anchor stays in the first slot and a new pane, started in the
/// second subtree's leftmost cwd, fills the second; then the first subtree is
/// grown from the anchor and the second from the new pane.
pub open spec fn restore_plan(node: SessionNode, anchor: nat, next: nat) -> Seq<(nat, nat, SplitDirection, Option<String>)>
    decreases node,
{
    match node {
        SessionNode::Leaf { .. } => Seq::empty(),
        SessionNode::Split { axis, first, second } => {
            let step = (anchor, next, spec_restore_direction(axis), spec_leftmost_cwd(*second));
            let after_first = next + 1 + (leaf_count(*first) - 1);
            seq![step] + restore_plan(*first, anchor, next + 1) + restore_plan(*second, next, after_first as nat)
        },
    }
}

/// The plain view of a planned step.
pub open spec fn step_view(s: SplitStep) -> (nat, nat, SplitDirection, Option<String>) {
    (s.anchor as nat, s.new_pane as nat, s.direction, s.cwd)
}

proof fn lemma_leaf_count_positive(node: SessionNode)
    ensures
        leaf_count(node) >= 1,
    decreases node,
{
    match node {
        SessionNode::Leaf { .. } => {},
        SessionNode::Split { first, second, .. } => {
            lemma_leaf_count_positive(*first);
            lemma_leaf_count_positive(*second);
        },
    }
}

fn push_restore_plan(node: &SessionNode, anchor: usize, next: usize, plan: &mut Vec<SplitStep>)
    requires
        anchor < next,
        next + leaf_count(*node) <= usize::MAX,
    ensures
        final(plan)@.map_values(|s: SplitStep| step_view(s)) == old(plan)@.map_values(|s: SplitStep| step_view(s))
            + restore_plan(*node, anchor as nat, next as nat),
    decreases node,
{
    match node {
        SessionNode::Leaf { .. } => {
            assert(final(plan)@.map_values(|s: SplitStep| step_view(s)) =~= old(plan)@.map_values(|s: SplitStep| step_view(s)) + Seq::empty());
        },
        SessionNode::Split { axis, first, second } => {
            proof {
                lemma_leaf_count_positive(**first);
                lemma_leaf_count_positive(**second);
            }
            let step = SplitStep {
                anchor,
                new_pane: next,
                direction: restore_direction(*axis),
                cwd: leftmost_cwd(second),
            };
            let ghost before = plan@.map_values(|s: SplitStep| step_view(s));
            plan.push(step);
            assert(plan@.map_values(|s: SplitStep| step_view(s)) =~= before + seq![step_view(step)]);
            let first_panes = leaf_count_exec(first);
            push_restore_plan(first, anchor, next + 1, plan);
            let ghost mid = plan@.map_values(|s: SplitStep| step_view(s));
            push_restore_plan(second, next, next + first_panes, plan);
            assert(plan@.map_values(|s: SplitStep| step_view(s)) =~= before + restore_plan(*node, anchor as nat, next as nat));
        },
    }
}

fn leaf_count_exec(node: &SessionNode) -> (r: usize)
    requires
        leaf_count(*node) <= usize::MAX,
    ensures
        r == leaf_count(*node),
    decreases node,
{
    match node {
        SessionNode::Leaf { .. } => 1,
        SessionNode::Split { first, second, .. } => {
            let a = leaf_count_exec(first);
            let b = leaf_count_exec(second);
            a + b
        },
    }
}

/// The pane spawns, in order, that rebuild a saved session tree from the one
/// pane a restored tab starts with (pane 0): one step per split, each
/// naming the pane to split, the direction, the new pane's number and the
/// working directory its shell starts in.
pub fn session_restore_plan(node: &SessionNode) -> (r: Vec<SplitStep>)
    requires
        leaf_count(*node) < usize::MAX,
    ensures
        r@.map_values(|s: SplitStep| step_view(s)) == restore_plan(*node, 0, 1),
{
    let mut plan: Vec<SplitStep> = Vec::new();
    push_restore_plan(node, 0, 1, &mut plan);
    assert(plan@.map_values(|s: SplitStep| step_view(s)) =~= restore_plan(*node, 0, 1));
    plan
}

/// A session restore spawns exactly one pane per split (so the rebuilt tab
/// has as many panes as the saved tree has leaves), numbers the new panes
/// consecutively in spawn order, and only ever splits a pane that already
/// exists when its step runs.
pub proof fn lemma_restore_plan_shape(node: SessionNode, anchor: nat, next: nat)
    requires
        anchor < next,
    ensures
        restore_plan(node, anchor, next).len() == leaf_count(node) - 1,
        forall|i: int| 0 <= i < restore_plan(node, anchor, next).len() ==> {
            &&& #[trigger] restore_plan(node, anchor, next)[i].1 == next + i
            &&& restore_plan(node, anchor, next)[i].0 < restore_plan(node, anchor, next)[i].1
        },
    decreases node,
{
    lemma_leaf_count_positive(node);
    match node {
        SessionNode::Leaf { .. } => {},
        SessionNode::Split { axis, first, second } => {
            lemma_leaf_count_positive(*first);
            lemma_leaf_count_positive(*second);
            let after_first = (next + 1 + (leaf_count(*first) - 1)) as nat;
            lemma_restore_plan_shape(*first, anchor, next + 1);
            lemma_restore_plan_shape(*second, next, after_first);
            let step = (anchor, next, spec_restore_direction(axis), spec_leftmost_cwd(*second));
            let a = restore_plan(*first, anchor, next + 1);
            let b = restore_plan(*second, next, after_first);
            let p = seq![step] + a + b;
            assert(restore_plan(node, anchor, next) == p);
            assert forall|i: int| 0 <= i < p.len() implies {
                &&& #[trigger] p[i].1 == next + i
                &&& p[i].0 < p[i].1
            } by {
                if i == 0 {
                } else if i < 1 + a.len() {
                    assert(p[i] == a[i - 1]);
                } else {
                    assert(p[i] == b[i - 1 - a.len()]);
                }
            }
        },
    }
}

} // verus!
