//! Barnes-Hut octree bookkeeping: where a body goes in the tree, what an
//! insertion does at a node, and the statistics of a built tree.
//!
//! Positions, masses and centres of mass are the caller's; the tree shape is
//! decided here.

use vstd::prelude::*;

verus! {

/// Deepest level of the octree; below it coincident bodies merge into one leaf.
pub const MAX_DEPTH: usize = 32;

/// Statistics from a built octree (debug HUD).
#[derive(Debug, Clone, Copy, PartialEq, Eq, Structural)]
pub struct TreeStats {
    pub nodes: usize,
    pub max_depth: usize,
}

impl Default for TreeStats {
    fn default() -> (s: Self)
        ensures
            s == (TreeStats { nodes: 0, max_depth: 0 }),
    {
        TreeStats { nodes: 0, max_depth: 0 }
    }
}

impl TreeStats {
    /// Counts a visit of a node at `depth` during an insertion.
    pub fn record_visit(&mut self, depth: usize)
        requires
            old(self).nodes < usize::MAX,
        ensures
            final(self).nodes == old(self).nodes + 1,
            final(self).max_depth == if depth > old(self).max_depth {
                depth
            } else {
                old(self).max_depth
            },
    {
        self.nodes = self.nodes + 1;
        if depth > self.max_depth {
            self.max_depth = depth;
        }
    }

    /// Closes the statistics of a built tree: a tree has at least its root.
    pub fn finish(&mut self)
        ensures
            final(self).nodes == if old(self).nodes == 0 {
                1
            } else {
                old(self).nodes
            },
            final(self).max_depth == old(self).max_depth,
    {
        if self.nodes == 0 {
            self.nodes = 1;
        }
    }
}

/// The child octant of a position relative to a node's centre: bit 0 when
/// `x >= centre.x`, bit 1 for `y`, bit 2 for `z`.
pub open spec fn child_octant_spec(x_at_or_above: bool, y_at_or_above: bool, z_at_or_above: bool) -> int {
    (if x_at_or_above {
        1int
    } else {
        0
    }) + (if y_at_or_above {
        2int
    } else {
        0
    }) + (if z_at_or_above {
        4int
    } else {
        0
    })
}

/// The child octant of a position, from its three comparisons with the centre.
pub fn child_octant(x_at_or_above: bool, y_at_or_above: bool, z_at_or_above: bool) -> (idx: usize)
    ensures
        idx == child_octant_spec(x_at_or_above, y_at_or_above, z_at_or_above),
        idx < 8,
{
    let mut idx: usize = 0;
    if x_at_or_above {
        idx = idx + 1;
    }
    if y_at_or_above {
        idx = idx + 2;
    }
    if z_at_or_above {
        idx = idx + 4;
    }
    idx
}

/// What inserting a body does at one node.
#[derive(Debug, Clone, Copy, PartialEq, Eq, Structural)]
pub enum InsertStep {
    /// The node is empty: it becomes a leaf holding the body.
    Place,
    /// A leaf at the deepest level: the body merges into it.
    Merge,
    /// A leaf above the deepest level: split it, reinsert its body one level
    /// down, then insert the new body into its octant.
    SplitAndDescend,
    /// An inner node: insert into the body's octant one level down.
    Descend,
}

/// The insertion step at a node that is empty, a leaf, or (otherwise) an
/// inner node, at `depth`.
pub open spec fn insert_step_spec(empty: bool, leaf: bool, depth: usize) -> InsertStep {
    if empty {
        InsertStep::Place
    } else if leaf {
        if depth >= MAX_DEPTH {
            InsertStep::Merge
        } else {
            InsertStep::SplitAndDescend
        }
    } else {
        InsertStep::Descend
    }
}

/// Decides the insertion step at a node.
pub fn insert_step(empty: bool, leaf: bool, depth: usize) -> (s: InsertStep)
    ensures
        s == insert_step_spec(empty, leaf, depth),
{
    if empty {
        InsertStep::Place
    } else if leaf {
        if depth >= MAX_DEPTH {
            InsertStep::Merge
        } else {
            InsertStep::SplitAndDescend
        }
    } else {
        InsertStep::Descend
    }
}

/// Insertion descends only above the deepest level, so no path through the
/// tree is longer than `MAX_DEPTH`: a step that goes one level down starts
/// from a depth below it.
pub proof fn lemma_descent_is_bounded(empty: bool, leaf: bool, depth: usize)
    ensures
        insert_step_spec(empty, leaf, depth) == InsertStep::SplitAndDescend ==> depth + 1 <= MAX_DEPTH,
{
}

/// The eight octants are told apart by the three comparisons: distinct
/// comparisons give distinct children.
pub proof fn lemma_octants_distinct(a: (bool, bool, bool), b: (bool, bool, bool))
    ensures
        a != b ==> child_octant_spec(a.0, a.1, a.2) != child_octant_spec(b.0, b.1, b.2),
        0 <= child_octant_spec(a.0, a.1, a.2) < 8,
{
}

} // verus!
