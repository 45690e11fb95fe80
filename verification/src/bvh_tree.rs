//! The bounding-volume hierarchy: a binary tree over the primitives' world
//! bounding boxes, held as an arena of nodes indexed by position.
//!
//! Construction sorts the working set along a randomly chosen axis, splits
//! it at the midpoint (left half rounded up) and recurses, joining child
//! boxes on the way back up. The tree is built once and read only
//! afterwards.
//!
//! The query `get_collision` promises the same `is_best` answer as a linear
//! scan over every primitive: pruning by the conservative slab test can
//! never lose a hit, because every hit a primitive reports carries an exact
//! in-box certificate and every ancestor box contains the primitive's box.

use vstd::prelude::*;

use crate::aabb::{contains_box, in_box_at, lemma_in_box_monotone, AABB};
use crate::fx::Fx;
use crate::primative::{
    all_idx, cert_in_prim_box, has_window_hit, is_best, prim_box_vals, prim_hit_raw, realizes,
    window_hit_t, Primative,
};
use crate::ray::Ray;
use crate::sampling::rnd_axis;
use crate::shapes::base::Interaction;

verus! {

/// One node of the arena: an inner node with two children, or a leaf
/// holding the index of one primitive. Boxes always cover everything below.
#[derive(Clone, Copy)]
enum Node {
    Branch { left: Option<usize>, right: Option<usize>, aabb: AABB },
    Leaf { primative: usize, aabb: AABB },
}

/// The box stored on a node.
spec fn node_aabb(n: Node) -> AABB {
    match n {
        Node::Branch { aabb, .. } => aabb,
        Node::Leaf { aabb, .. } => aabb,
    }
}

/// The box equals the given raw corner values.
spec fn box_matches_vals(bb: AABB, bv: ((int, int, int), (int, int, int))) -> bool {
    bb.minimum.x@ == bv.0.0 && bb.minimum.y@ == bv.0.1 && bb.minimum.z@ == bv.0.2
        && bb.maximum.x@ == bv.1.0 && bb.maximum.y@ == bv.1.1 && bb.maximum.z@ == bv.1.2
}

/// Well-formedness of the subtree rooted at `i`: children sit earlier in
/// the arena, a leaf's box is exactly its primitive's box, and a branch's
/// box contains both children's boxes.
spec fn node_wf(nodes: Seq<Node>, prims: Seq<Primative>, i: int) -> bool
    decreases i,
{
    0 <= i < nodes.len() && (match nodes[i] {
        Node::Leaf { primative, aabb } => (primative as int) < prims.len() && box_matches_vals(
            aabb,
            prim_box_vals(prims[primative as int]),
        ),
        Node::Branch { left, right, aabb } => left is Some && right is Some && {
            let l = left->Some_0 as int;
            let r = right->Some_0 as int;
            l < i && r < i && node_wf(nodes, prims, l) && node_wf(nodes, prims, r)
                && contains_box(aabb, node_aabb(nodes[l])) && contains_box(
                aabb,
                node_aabb(nodes[r]),
            )
        },
    })
}

/// The set of primitive indices stored in the leaves below `i`.
spec fn subtree(nodes: Seq<Node>, i: int) -> Set<int>
    decreases i,
{
    if 0 <= i < nodes.len() {
        match nodes[i] {
            Node::Leaf { primative, .. } => Set::empty().insert(primative as int),
            Node::Branch { left, right, .. } => {
                let ls = match left {
                    Some(l) => if (l as int) < i {
                        subtree(nodes, l as int)
                    } else {
                        Set::empty()
                    },
                    None => Set::empty(),
                };
                let rs = match right {
                    Some(r) => if (r as int) < i {
                        subtree(nodes, r as int)
                    } else {
                        Set::empty()
                    },
                    None => Set::empty(),
                };
                ls.union(rs)
            },
        }
    } else {
        Set::empty()
    }
}

/// Appending nodes to the arena disturbs no existing subtree.
proof fn lemma_prefix_stable(ns1: Seq<Node>, ns2: Seq<Node>, prims: Seq<Primative>, i: int)
    requires
        node_wf(ns1, prims, i),
        ns1.len() <= ns2.len(),
        forall|k: int| 0 <= k < ns1.len() ==> ns2[k] == ns1[k],
    ensures
        node_wf(ns2, prims, i),
        subtree(ns2, i) == subtree(ns1, i),
    decreases i,
{
    match ns1[i] {
        Node::Leaf { .. } => {
            assert(subtree(ns2, i) =~= subtree(ns1, i));
        },
        Node::Branch { left, right, .. } => {
            lemma_prefix_stable(ns1, ns2, prims, left->Some_0 as int);
            lemma_prefix_stable(ns1, ns2, prims, right->Some_0 as int);
            assert(subtree(ns2, i) =~= subtree(ns1, i));
        },
    }
}

/// A primitive below a well-formed node that reports a canonical hit places
/// that hit's exact point inside the node's box.
proof fn lemma_hit_in_node_box(
    nodes: Seq<Node>,
    prims: Seq<Primative>,
    i: int,
    j: int,
    r: Ray,
    t_min: int,
)
    requires
        node_wf(nodes, prims, i),
        subtree(nodes, i).contains(j),
        prim_hit_raw(prims[j], r, t_min) is Some,
    ensures
        0 <= j < prims.len(),
        in_box_at(node_aabb(nodes[i]), r, prim_hit_raw(prims[j], r, t_min)->Some_0.t),
    decreases i,
{
    let h = prim_hit_raw(prims[j], r, t_min)->Some_0;
    match nodes[i] {
        Node::Leaf { primative, aabb } => {
            assert(j == primative as int);
            assert(cert_in_prim_box(prims[j], r, h.t)) by {
                reveal(prim_hit_raw);
            }
        },
        Node::Branch { left, right, aabb } => {
            let l = left->Some_0 as int;
            let rr = right->Some_0 as int;
            if subtree(nodes, l).contains(j) {
                lemma_hit_in_node_box(nodes, prims, l, j, r, t_min);
                lemma_in_box_monotone(aabb, node_aabb(nodes[l]), r, h.t);
            } else {
                assert(subtree(nodes, rr).contains(j));
                lemma_hit_in_node_box(nodes, prims, rr, j, r, t_min);
                lemma_in_box_monotone(aabb, node_aabb(nodes[rr]), r, h.t);
            }
        },
    }
}

/// The indices carried by a working list of (index, box) pairs.
spec fn idx_set(l: Seq<(usize, AABB)>) -> Set<int> {
    Set::new(|j: int| exists|k: int| 0 <= k < l.len() && l[k].0 as int == j)
}

/// Every pair of the list points at a real primitive and carries exactly
/// that primitive's world box.
spec fn elems_wf(l: Seq<(usize, AABB)>, prims: Seq<Primative>) -> bool {
    forall|k: int|
        0 <= k < l.len() ==> (#[trigger] l[k]).0 < prims.len() && box_matches_vals(
            l[k].1,
            prim_box_vals(prims[l[k].0 as int]),
        )
}

/// The sort key: the box minimum along the chosen axis.
spec fn axis_key(e: (usize, AABB), axis: u64) -> int {
    if axis == 0 {
        e.1.minimum.x@
    } else if axis == 1 {
        e.1.minimum.y@
    } else {
        e.1.minimum.z@
    }
}

/// Non-decreasing keys along the list.
spec fn sorted_by(l: Seq<(usize, AABB)>, axis: u64) -> bool {
    forall|a: int, b: int| 0 <= a <= b < l.len() ==> axis_key(l[a], axis) <= axis_key(l[b], axis)
}

/// Inserting an element adds exactly its index to the carried set, and
/// every element of the result was there before or is the new one.
proof fn lemma_idx_set_insert(l: Seq<(usize, AABB)>, pos: int, x: (usize, AABB))
    requires
        0 <= pos <= l.len(),
    ensures
        idx_set(l.insert(pos, x)) == idx_set(l).insert(x.0 as int),
        forall|k: int|
            0 <= k < l.insert(pos, x).len() ==> (#[trigger] l.insert(pos, x)[k] == x || l.contains(
                l.insert(pos, x)[k],
            )),
{
    let l2 = l.insert(pos, x);
    assert forall|k: int| 0 <= k < l2.len() implies #[trigger] l2[k] == x || l.contains(l2[k]) by {
        if k < pos {
            assert(l2[k] == l[k]);
        } else if k > pos {
            assert(l2[k] == l[k - 1]);
        }
    }
    assert forall|j: int| idx_set(l2).contains(j) implies idx_set(l).insert(
        x.0 as int,
    ).contains(j) by {
        let k = choose|k: int| 0 <= k < l2.len() && l2[k].0 as int == j;
        if k < pos {
            assert(l[k].0 as int == j);
        } else if k > pos {
            assert(l[k - 1].0 as int == j);
        }
    }
    assert forall|j: int| idx_set(l).insert(x.0 as int).contains(j) implies idx_set(l2).contains(
        j,
    ) by {
        if j == x.0 as int {
            assert(l2[pos].0 as int == j);
        } else {
            let k = choose|k: int| 0 <= k < l.len() && l[k].0 as int == j;
            if k < pos {
                assert(l2[k].0 as int == j);
            } else {
                assert(l2[k + 1].0 as int == j);
            }
        }
    }
    assert(idx_set(l2) =~= idx_set(l).insert(x.0 as int));
}

/// Taking one more element of a list into the prefix adds its index.
proof fn lemma_idx_set_prefix(l: Seq<(usize, AABB)>, i: int)
    requires
        0 <= i < l.len(),
    ensures
        idx_set(l.subrange(0, i + 1)) == idx_set(l.subrange(0, i)).insert(l[i].0 as int),
{
    let a = l.subrange(0, i);
    let b = l.subrange(0, i + 1);
    assert forall|j: int| idx_set(b).contains(j) implies idx_set(a).insert(
        l[i].0 as int,
    ).contains(j) by {
        let k = choose|k: int| 0 <= k < b.len() && b[k].0 as int == j;
        if k < i {
            assert(a[k].0 as int == j);
        }
    }
    assert forall|j: int| idx_set(a).insert(l[i].0 as int).contains(j) implies idx_set(b).contains(
        j,
    ) by {
        if j == l[i].0 as int {
            assert(b[i].0 as int == j);
        } else {
            let k = choose|k: int| 0 <= k < a.len() && a[k].0 as int == j;
            assert(b[k].0 as int == j);
        }
    }
    assert(idx_set(b) =~= idx_set(a).insert(l[i].0 as int));
}

/// Splitting a list splits the indices it carries.
proof fn lemma_idx_set_split(l: Seq<(usize, AABB)>, mid: int)
    requires
        0 <= mid <= l.len(),
    ensures
        idx_set(l) == idx_set(l.subrange(0, mid)).union(idx_set(l.subrange(mid, l.len() as int))),
{
    let a = l.subrange(0, mid);
    let b = l.subrange(mid, l.len() as int);
    assert forall|j: int| idx_set(l).contains(j) implies idx_set(a).union(idx_set(b)).contains(
        j,
    ) by {
        let k = choose|k: int| 0 <= k < l.len() && l[k].0 as int == j;
        if k < mid {
            assert(a[k].0 as int == j);
        } else {
            assert(b[k - mid].0 as int == j);
        }
    }
    assert forall|j: int| idx_set(a).union(idx_set(b)).contains(j) implies idx_set(l).contains(
        j,
    ) by {
        if idx_set(a).contains(j) {
            let k = choose|k: int| 0 <= k < a.len() && a[k].0 as int == j;
            assert(l[k].0 as int == j);
        } else {
            let k = choose|k: int| 0 <= k < b.len() && b[k].0 as int == j;
            assert(l[k + mid].0 as int == j);
        }
    }
    assert(idx_set(l) =~= idx_set(a).union(idx_set(b)));
}

/// The key of a pair, executable.
fn key_of(e: &(usize, AABB), axis: u64) -> (r: i64)
    requires
        axis < 3,
    ensures
        r as int == axis_key(*e, axis),
{
    if axis == 0 {
        e.1.minimum.x.raw()
    } else if axis == 1 {
        e.1.minimum.y.raw()
    } else {
        e.1.minimum.z.raw()
    }
}

/// Sort the working list by the box minimum of the chosen axis (binary
/// insertion, stable enough for the builder: the result carries the same
/// index set).
fn sort_by_axis(list: &mut Vec<(usize, AABB)>, axis: u64)
    requires
        axis < 3,
    ensures
        final(list)@.len() == old(list)@.len(),
        sorted_by(final(list)@, axis),
        idx_set(final(list)@) == idx_set(old(list)@),
        forall|k: int| 0 <= k < final(list)@.len() ==> old(list)@.contains(#[trigger] final(list)@[k]),
{
    let ghost orig = list@;
    let mut out: Vec<(usize, AABB)> = Vec::new();
    let mut i: usize = 0;
    while i < list.len()
        invariant
            axis < 3,
            list@ == orig,
            i <= orig.len(),
            out@.len() == i,
            sorted_by(out@, axis),
            idx_set(out@) == idx_set(orig.subrange(0, i as int)),
            forall|k: int| 0 <= k < out@.len() ==> orig.contains(#[trigger] out@[k]),
        decreases orig.len() - i,
    {
        let e = list[i];
        let mut pos: usize = 0;
        while pos < out.len() && key_of(&out[pos], axis) <= key_of(&e, axis)
            invariant
                axis < 3,
                pos <= out@.len(),
                forall|m: int| 0 <= m < pos ==> axis_key(#[trigger] out@[m], axis) <= axis_key(e, axis),
            decreases out@.len() - pos,
        {
            pos = pos + 1;
        }
        proof {
            lemma_idx_set_insert(out@, pos as int, e);
            lemma_idx_set_prefix(orig, i as int);
            assert(orig.contains(e)) by {
                assert(orig[i as int] == e);
            }
        }
        let ghost old_out = out@;
        out.insert(pos, e);
        proof {
            assert forall|a: int, b: int| 0 <= a <= b < out@.len() implies axis_key(
                out@[a],
                axis,
            ) <= axis_key(out@[b], axis) by {
                if b < pos {
                    assert(out@[a] == old_out[a] && out@[b] == old_out[b]);
                } else if a > pos {
                    assert(out@[a] == old_out[a - 1] && out@[b] == old_out[b - 1]);
                } else if a < pos && b == pos {
                    assert(out@[a] == old_out[a]);
                } else if a < pos && b > pos {
                    assert(out@[a] == old_out[a] && out@[b] == old_out[b - 1]);
                } else if a == pos && b > pos {
                    assert(out@[b] == old_out[b - 1]);
                    if pos < old_out.len() {
                        assert(axis_key(old_out[pos as int], axis) > axis_key(e, axis));
                        assert(axis_key(old_out[b - 1], axis) >= axis_key(old_out[pos as int], axis));
                    }
                }
            }
        }
        i = i + 1;
    }
    proof {
        assert(orig.subrange(0, orig.len() as int) =~= orig);
    }
    *list = out;
}

impl Node {
    /// The box stored on this node.
    fn get_aabb(&self) -> (r: AABB)
        ensures
            r == node_aabb(*self),
    {
        match self {
            Node::Branch { aabb, .. } => *aabb,
            Node::Leaf { aabb, .. } => *aabb,
        }
    }
}

/// Build the subtree for the given working list, pushing its nodes onto the
/// arena bottom-up, and hand back the root's index. One entry becomes a
/// leaf; more are sorted along a random axis and split at the midpoint,
/// left half rounded up.
fn new_branch(
    nodes: &mut Vec<Node>,
    mut primative_subsection: Vec<(usize, AABB)>,
    Ghost(prims): Ghost<Seq<Primative>>,
) -> (idx: usize)
    requires
        primative_subsection@.len() >= 1,
        elems_wf(primative_subsection@, prims),
    ensures
        final(nodes)@.len() > old(nodes)@.len(),
        idx as int == final(nodes)@.len() - 1,
        forall|k: int| 0 <= k < old(nodes)@.len() ==> final(nodes)@[k] == old(nodes)@[k],
        node_wf(final(nodes)@, prims, idx as int),
        subtree(final(nodes)@, idx as int) == idx_set(primative_subsection@),
    decreases primative_subsection@.len(),
{
    let ghost entry_list = primative_subsection@;
    if primative_subsection.len() == 1 {
        let e = primative_subsection[0];
        let node = Node::Leaf { primative: e.0, aabb: e.1 };
        nodes.push(node);
        let idx = nodes.len() - 1;
        proof {
            assert(nodes@[idx as int] == node);
            assert(node_wf(nodes@, prims, idx as int));
            assert forall|j: int| idx_set(entry_list).contains(j) implies subtree(
                nodes@,
                idx as int,
            ).contains(j) by {
                let k = choose|k: int| 0 <= k < entry_list.len() && entry_list[k].0 as int == j;
                assert(k == 0);
            }
            assert forall|j: int| subtree(nodes@, idx as int).contains(j) implies idx_set(
                entry_list,
            ).contains(j) by {
                assert(entry_list[0].0 as int == j);
            }
            assert(subtree(nodes@, idx as int) =~= idx_set(entry_list));
        }
        idx
    } else {
        let axis = rnd_axis();
        sort_by_axis(&mut primative_subsection, axis);
        let ghost sorted_list = primative_subsection@;
        proof {
            assert forall|k: int| 0 <= k < sorted_list.len() implies (#[trigger] sorted_list[k]).0
                < prims.len() && box_matches_vals(
                sorted_list[k].1,
                prim_box_vals(prims[sorted_list[k].0 as int]),
            ) by {
                assert(entry_list.contains(sorted_list[k]));
                let m = choose|m: int|
                    0 <= m < entry_list.len() && entry_list[m] == sorted_list[k];
                assert(elems_wf(entry_list, prims));
                assert(entry_list[m].0 < prims.len());
            }
        }
        let n = primative_subsection.len();
        let chunk_size = n / 2 + n % 2;
        let mut left_chunk: Vec<(usize, AABB)> = Vec::new();
        let mut k: usize = 0;
        while k < chunk_size
            invariant
                chunk_size <= n,
                n == sorted_list.len(),
                primative_subsection@ == sorted_list,
                k <= chunk_size,
                left_chunk@ == sorted_list.subrange(0, k as int),
            decreases chunk_size - k,
        {
            left_chunk.push(primative_subsection[k]);
            proof {
                assert(left_chunk@ =~= sorted_list.subrange(0, k + 1));
            }
            k = k + 1;
        }
        let mut right_chunk: Vec<(usize, AABB)> = Vec::new();
        let mut m: usize = chunk_size;
        while m < n
            invariant
                chunk_size <= m <= n,
                n == sorted_list.len(),
                primative_subsection@ == sorted_list,
                right_chunk@ == sorted_list.subrange(chunk_size as int, m as int),
            decreases n - m,
        {
            right_chunk.push(primative_subsection[m]);
            proof {
                assert(right_chunk@ =~= sorted_list.subrange(chunk_size as int, m + 1));
            }
            m = m + 1;
        }
        let ghost left_list = left_chunk@;
        let ghost right_list = right_chunk@;
        proof {
            assert(1 <= chunk_size < n);
            assert(left_list.len() >= 1);
            assert(right_list.len() >= 1);
        }
        let left_index = new_branch(nodes, left_chunk, Ghost(prims));
        let ghost ns1 = nodes@;
        let right_index = new_branch(nodes, right_chunk, Ghost(prims));
        let ghost ns2 = nodes@;
        proof {
            lemma_prefix_stable(ns1, ns2, prims, left_index as int);
        }
        let node = Node::Branch {
            left: Some(left_index),
            right: Some(right_index),
            aabb: AABB::join(&nodes[left_index].get_aabb(), &nodes[right_index].get_aabb()),
        };
        nodes.push(node);
        let idx = nodes.len() - 1;
        proof {
            let ns3 = nodes@;
            lemma_prefix_stable(ns2, ns3, prims, left_index as int);
            lemma_prefix_stable(ns2, ns3, prims, right_index as int);
            assert(ns3[idx as int] == node);
            assert(node_wf(ns3, prims, idx as int));
            assert(subtree(ns3, idx as int) =~= subtree(ns3, left_index as int).union(
                subtree(ns3, right_index as int),
            ));
            lemma_idx_set_split(sorted_list, chunk_size as int);
            assert(sorted_list.subrange(chunk_size as int, sorted_list.len() as int)
                =~= right_list);
            assert(subtree(ns3, idx as int) =~= idx_set(entry_list));
        }
        idx
    }
}

/// The hierarchy: the primitives, the node arena, and the root index.
pub struct BVHTree {
    primatives: Vec<Primative>,
    nodes: Vec<Node>,
    root: Option<usize>,
}

impl BVHTree {
    #[verifier::type_invariant]
    spec fn wf(self) -> bool {
        match self.root {
            Some(r) => node_wf(self.nodes@, self.primatives@, r as int) && subtree(
                self.nodes@,
                r as int,
            ) == all_idx(self.primatives@.len() as int),
            None => self.primatives@.len() == 0,
        }
    }

    /// The primitives the tree answers queries about, in insertion order.
    pub closed spec fn prims(self) -> Seq<Primative> {
        self.primatives@
    }

    /// An empty hierarchy.
    pub fn blank() -> (t: Self)
        ensures
            t.prims().len() == 0,
    {
        BVHTree { primatives: Vec::new(), nodes: Vec::new(), root: None }
    }

    /// Build the hierarchy over the given primitives: collect each
    /// primitive's world box, then partition recursively.
    pub fn new(primatives: Vec<Primative>, time_0: Fx, time_1: Fx) -> (t: Self)
        ensures
            t.prims() == primatives@,
    {
        let mut nodes: Vec<Node> = Vec::new();
        let mut prim_list: Vec<(usize, AABB)> = Vec::new();
        let mut i: usize = 0;
        while i < primatives.len()
            invariant
                i <= primatives@.len(),
                prim_list@.len() == i as int,
                forall|k: int|
                    0 <= k < i ==> (#[trigger] prim_list@[k]).0 as int == k && box_matches_vals(
                        prim_list@[k].1,
                        prim_box_vals(primatives@[k]),
                    ),
            decreases primatives@.len() - i,
        {
            match primatives[i].bounding_box(time_0, time_1) {
                Some(aabb) => {
                    prim_list.push((i, aabb));
                },
                None => {},
            }
            i = i + 1;
        }
        if prim_list.len() == 0 {
            proof {
                assert(primatives@.len() == 0);
            }
            BVHTree { primatives, nodes: Vec::new(), root: None }
        } else {
            let ghost full_list = prim_list@;
            proof {
                assert(elems_wf(full_list, primatives@));
            }
            let root = new_branch(&mut nodes, prim_list, Ghost(primatives@));
            proof {
                assert forall|j: int| idx_set(full_list).contains(j) implies all_idx(
                    primatives@.len() as int,
                ).contains(j) by {
                    let k = choose|k: int| 0 <= k < full_list.len() && full_list[k].0 as int == j;
                }
                assert forall|j: int| all_idx(primatives@.len() as int).contains(j) implies idx_set(
                    full_list,
                ).contains(j) by {
                    assert(full_list[j].0 as int == j);
                }
                assert(idx_set(full_list) =~= all_idx(primatives@.len() as int));
            }
            BVHTree { primatives, nodes, root: Some(root) }
        }
    }

    /// Nearest-hit query: the same answer, primitive for primitive, as a
    /// linear scan of every primitive over the window `(t_min, t_max)`.
    pub fn get_collision(&self, ray: &Ray, t_min: Fx, t_max: Fx) -> (res: Option<Interaction>)
        ensures
            is_best(self.prims(), all_idx(self.prims().len() as int), *ray, t_min@, t_max@, res),
    {
        proof {
            use_type_invariant(self);
        }
        match self.root {
            Some(root_n) => self.get_collision_on(root_n, ray, t_min, t_max),
            None => None,
        }
    }

    /// Query one subtree; its answer is best over the primitive indices in
    /// that subtree's leaves.
    #[verifier::rlimit(100)]
    fn get_collision_on(&self, index: usize, ray: &Ray, t_min: Fx, t_max: Fx) -> (res: Option<
        Interaction,
    >)
        requires
            node_wf(self.nodes@, self.primatives@, index as int),
        ensures
            is_best(
                self.primatives@,
                subtree(self.nodes@, index as int),
                *ray,
                t_min@,
                t_max@,
                res,
            ),
        decreases index,
    {
        let ghost ns = self.nodes@;
        let ghost ps = self.primatives@;
        let ghost s = subtree(ns, index as int);
        let current_node = self.nodes[index];
        match current_node {
            Node::Branch { left, right, aabb } => {
                let li = match left {
                    Some(l) => l,
                    None => {
                        return None;
                    },
                };
                let ri = match right {
                    Some(rr) => rr,
                    None => {
                        return None;
                    },
                };
                proof {
                    assert(s =~= subtree(ns, li as int).union(subtree(ns, ri as int)));
                }
                let ghost sl = subtree(ns, li as int);
                let ghost sr = subtree(ns, ri as int);
                if aabb.hit(ray, t_min, t_max) {
                    let left_collision = self.get_collision_on(li, ray, t_min, t_max);
                    match left_collision {
                        Some(left_col) => {
                            let right_col = self.get_collision_on(ri, ray, t_min, left_col.t);
                            match right_col {
                                Some(right_hit) => {
                                    proof {
                                        let j = choose|j: int|
                                            sr.contains(j) && 0 <= j < ps.len() && realizes(
                                                right_hit,
                                                ps[j],
                                                *ray,
                                                t_min@,
                                            );
                                        assert(s.contains(j));
                                        assert forall|m: int|
                                            s.contains(m) && 0 <= m < ps.len() && has_window_hit(
                                                ps[m],
                                                *ray,
                                                t_min@,
                                                t_max@,
                                            ) implies right_hit.t@ <= window_hit_t(
                                            ps[m],
                                            *ray,
                                            t_min@,
                                        ) by {
                                            if sl.contains(m) {
                                                assert(left_col.t@ <= window_hit_t(
                                                    ps[m],
                                                    *ray,
                                                    t_min@,
                                                ));
                                            } else {
                                                assert(sr.contains(m));
                                                if window_hit_t(ps[m], *ray, t_min@)
                                                    < left_col.t@ {
                                                    assert(has_window_hit(
                                                        ps[m],
                                                        *ray,
                                                        t_min@,
                                                        left_col.t@,
                                                    ));
                                                }
                                            }
                                        }
                                    }
                                    right_col
                                },
                                None => {
                                    proof {
                                        assert forall|m: int|
                                            s.contains(m) && 0 <= m < ps.len() && has_window_hit(
                                                ps[m],
                                                *ray,
                                                t_min@,
                                                t_max@,
                                            ) implies left_col.t@ <= window_hit_t(
                                            ps[m],
                                            *ray,
                                            t_min@,
                                        ) by {
                                            if sr.contains(m) {
                                                if window_hit_t(ps[m], *ray, t_min@)
                                                    < left_col.t@ {
                                                    assert(has_window_hit(
                                                        ps[m],
                                                        *ray,
                                                        t_min@,
                                                        left_col.t@,
                                                    ));
                                                }
                                            }
                                        }
                                        let j = choose|j: int|
                                            sl.contains(j) && 0 <= j < ps.len() && realizes(
                                                left_col,
                                                ps[j],
                                                *ray,
                                                t_min@,
                                            );
                                        assert(s.contains(j));
                                    }
                                    left_collision
                                },
                            }
                        },
                        None => {
                            let r2 = self.get_collision_on(ri, ray, t_min, t_max);
                            proof {
                                if r2 is Some {
                                    let it = r2->Some_0;
                                    let j = choose|j: int|
                                        sr.contains(j) && 0 <= j < ps.len() && realizes(
                                            it,
                                            ps[j],
                                            *ray,
                                            t_min@,
                                        );
                                    assert(s.contains(j));
                                }
                            }
                            r2
                        },
                    }
                } else {
                    proof {
                        assert forall|j: int|
                            s.contains(j) && 0 <= j < ps.len() implies !has_window_hit(
                            ps[j],
                            *ray,
                            t_min@,
                            t_max@,
                        ) by {
                            if has_window_hit(ps[j], *ray, t_min@, t_max@) {
                                lemma_hit_in_node_box(ns, ps, index as int, j, *ray, t_min@);
                                crate::primative::lemma_prim_hit_above(ps[j], *ray, t_min@);
                                let h = prim_hit_raw(ps[j], *ray, t_min@)->Some_0;
                                assert(in_box_at(aabb, *ray, h.t));
                            }
                        }
                    }
                    None
                }
            },
            Node::Leaf { primative, aabb } => {
                proof {
                    assert(s =~= Set::empty().insert(primative as int));
                }
                if aabb.hit(ray, t_min, t_max) {
                    let prima_clone = self.primatives[primative].clone();
                    let res = prima_clone.collide(ray, t_min, t_max);
                    proof {
                        assert(s.contains(primative as int));
                        if res is Some {
                            crate::primative::lemma_prim_hit_above(
                                ps[primative as int],
                                *ray,
                                t_min@,
                            );
                        }
                    }
                    res
                } else {
                    proof {
                        assert forall|j: int|
                            s.contains(j) && 0 <= j < ps.len() implies !has_window_hit(
                            ps[j],
                            *ray,
                            t_min@,
                            t_max@,
                        ) by {
                            if has_window_hit(ps[j], *ray, t_min@, t_max@) {
                                lemma_hit_in_node_box(ns, ps, index as int, j, *ray, t_min@);
                                crate::primative::lemma_prim_hit_above(ps[j], *ray, t_min@);
                                let h = prim_hit_raw(ps[j], *ray, t_min@)->Some_0;
                                assert(in_box_at(aabb, *ray, h.t));
                            }
                        }
                    }
                    None
                }
            },
        }
    }
}

} // verus!
