//! Focus tracking over the scene tree.
//!
//! The host engine owns the scene graph and the focus resource; it hands
//! this module the current focus entity and the parent links as plain
//! values.  The derived focus signals a widget subscribes to are computed
//! here: whether a target entity has focus, and whether focus lies on the
//! target or one of its descendants.

use vstd::prelude::*;

verus! {

/// The parent of `child` according to a table of `(child, parent)` links:
/// the first matching entry wins, as in a scene where each entity has at
/// most one parent link.
pub open spec fn parent_of_spec(edges: Seq<(u64, u64)>, child: u64) -> Option<u64>
    decreases edges.len(),
{
    if edges.len() == 0 {
        Option::None
    } else if edges[0].0 == child {
        Option::Some(edges[0].1)
    } else {
        parent_of_spec(edges.drop_first(), child)
    }
}

/// Whether following parent links upward from `e` reaches `ancestor`
/// within `fuel` steps.
pub open spec fn reaches_spec(edges: Seq<(u64, u64)>, e: u64, ancestor: u64, fuel: nat) -> bool
    decreases fuel,
{
    if e == ancestor {
        true
    } else if fuel == 0 {
        false
    } else {
        match parent_of_spec(edges, e) {
            Option::Some(p) => reaches_spec(edges, p, ancestor, (fuel - 1) as nat),
            Option::None => false,
        }
    }
}

/// Whether `e` is `ancestor` itself or one of its descendants.  In a scene
/// tree the parent links are acyclic and each entity carries at most one,
/// so an ancestor chain takes at most one step per link: a fuel of the
/// table's length decides the question — and also guarantees that a
/// malformed, cyclic table yields false rather than an endless walk.
pub open spec fn is_descendant_spec(edges: Seq<(u64, u64)>, e: u64, ancestor: u64) -> bool {
    reaches_spec(edges, e, ancestor, edges.len())
}

proof fn lemma_parent_of_prefix(edges: Seq<(u64, u64)>, child: u64, i: int)
    requires
        0 <= i <= edges.len(),
        forall|j: int| 0 <= j < i ==> (#[trigger] edges[j]).0 != child,
    ensures
        parent_of_spec(edges, child) == parent_of_spec(edges.skip(i), child),
    decreases i,
{
    if i > 0 {
        assert(edges[0].0 != child);
        assert forall|j: int| 0 <= j < i - 1 implies (#[trigger] edges.drop_first()[j]).0
            != child by {
            assert(edges.drop_first()[j] == edges[j + 1]);
        }
        lemma_parent_of_prefix(edges.drop_first(), child, i - 1);
        assert(edges.drop_first().skip(i - 1) =~= edges.skip(i));
    } else {
        assert(edges.skip(0) =~= edges);
    }
}

/// The parent of `child`, exactly as [`parent_of_spec`] reads the table.
pub fn parent_of(edges: &Vec<(u64, u64)>, child: u64) -> (r: Option<u64>)
    ensures
        r == parent_of_spec(edges@, child),
{
    let n = edges.len();
    let mut i: usize = 0;
    while i < n
        invariant
            i <= n,
            n == edges@.len(),
            forall|j: int| 0 <= j < i ==> (#[trigger] edges@[j]).0 != child,
        decreases n - i,
    {
        if edges[i].0 == child {
            proof {
                lemma_parent_of_prefix(edges@, child, i as int);
                assert(edges@.skip(i as int)[0] == edges@[i as int]);
            }
            return Option::Some(edges[i].1);
        }
        i = i + 1;
    }
    proof {
        lemma_parent_of_prefix(edges@, child, n as int);
        assert(edges@.skip(n as int).len() == 0);
    }
    Option::None
}

/// True if `e` is `ancestor` or a descendant of it, following parent
/// links.  A cyclic table — impossible in a well-formed scene — exhausts
/// the fuel and yields false instead of hanging.
pub fn is_descendant(edges: &Vec<(u64, u64)>, e: u64, ancestor: u64) -> (r: bool)
    ensures
        r == is_descendant_spec(edges@, e, ancestor),
{
    let mut cur: u64 = e;
    let mut fuel: usize = edges.len();
    while cur != ancestor
        invariant
            fuel <= edges@.len(),
            is_descendant_spec(edges@, e, ancestor) == reaches_spec(
                edges@,
                cur,
                ancestor,
                fuel as nat,
            ),
        decreases fuel,
    {
        if fuel == 0 {
            return false;
        }
        let p = parent_of(edges, cur);
        match p {
            Option::Some(parent) => {
                cur = parent;
                fuel = fuel - 1;
            },
            Option::None => {
                return false;
            },
        }
    }
    true
}

/// The value of the focus signal for `target`: true exactly when the
/// focus, if any, is the target itself.
pub fn focus_signal_value(focus: Option<u64>, target: u64) -> (r: bool)
    ensures
        r == (focus == Option::Some(target)),
{
    match focus {
        Option::Some(f) => f == target,
        Option::None => false,
    }
}

/// The value of the focus-within signal for `target`: true exactly when
/// the focus, if any, is the target or one of its descendants.
pub fn focus_within_signal_value(edges: &Vec<(u64, u64)>, focus: Option<u64>, target: u64) -> (r:
    bool)
    ensures
        r == (match focus {
            Option::Some(f) => is_descendant_spec(edges@, f, target),
            Option::None => false,
        }),
{
    match focus {
        Option::Some(f) => is_descendant(edges, f, target),
        Option::None => false,
    }
}

} // verus!
