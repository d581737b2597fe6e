//! The entity tree: the system of record for committed UI values.
//!
//! Every constructor commits its finished value here.  The tree only ever
//! appends: committed entities are never removed or edited, except that a
//! parent's child list grows when a child is committed under it.  The handle
//! a commit returns is the entity's position, so handles are opaque,
//! comparable and stable.

use vstd::prelude::*;

use crate::style::{ImageProps, Style, TextProps};

verus! {

/// The opaque, comparable handle of one committed entity.
#[derive(Clone, Copy, Debug, PartialEq, Eq, Hash, Structural)]
pub struct EntityId(pub usize);

/// One committed UI value, tagged with its kind.
#[derive(Clone, Debug, PartialEq, Eq)]
pub enum UiValue {
    /// A plain container.
    Node(Style),
    /// A button.
    Button(Style),
    /// An image element.
    Image(ImageProps),
    /// A text element.
    Text(TextProps),
}

/// One entity of the tree: its committed value, the auxiliary data attached
/// to it, its parent, and its children in creation order.
#[derive(Clone, Debug, PartialEq, Eq)]
pub struct UiNode {
    pub value: UiValue,
    pub extras: Vec<u64>,
    pub parent: Option<EntityId>,
    pub children: Vec<EntityId>,
}

/// The entity tree.  Index `i` of `nodes` is the entity with handle
/// `EntityId(i)`.
#[derive(Clone, Debug, PartialEq, Eq)]
pub struct UiTree {
    pub nodes: Vec<UiNode>,
}

impl UiTree {
    /// Handle `id` names a committed entity.
    pub open spec fn contains(self, id: EntityId) -> bool {
        (id.0 as int) < self.nodes@.len()
    }

    /// The parent and child links agree: a parent is always committed before
    /// its children, every child link stays inside the tree, and an entity
    /// listed as a child points back at the parent that lists it.
    pub open spec fn wf(self) -> bool {
        forall|i: int| 0 <= i < self.nodes@.len() ==> #[trigger] self.node_ok(i)
    }

    /// The link conditions for the entity at index `i`.
    pub open spec fn node_ok(self, i: int) -> bool {
        let n = self.nodes@[i];
        &&& (n.parent matches Some(p) ==> (p.0 as int) < i)
        &&& (forall|j: int|
            0 <= j < n.children@.len() ==> {
                let c = #[trigger] n.children@[j];
                &&& i < (c.0 as int) < self.nodes@.len()
                &&& self.nodes@[c.0 as int].parent == Some(EntityId(i as usize))
            })
    }

    /// An empty tree, with nothing committed.
    pub fn new() -> (r: UiTree)
        ensures
            r.wf(),
            r.nodes@.len() == 0,
    {
        UiTree { nodes: Vec::new() }
    }

    /// Commits `value` with its attached `extras` as a new entity, under
    /// `parent` if one is given, and returns the new entity's handle.
    pub fn spawn(&mut self, parent: Option<EntityId>, value: UiValue, extras: Vec<u64>) -> (r:
        EntityId)
        requires
            old(self).wf(),
            parent matches Some(p) ==> old(self).contains(p),
        ensures
            final(self).wf(),
            spawned(*old(self), *final(self), parent, r),
            final(self).nodes@[r.0 as int].value == value,
            final(self).nodes@[r.0 as int].extras == extras,
    {
        let id = self.nodes.len();
        let node = UiNode { value, extras, parent, children: Vec::new() };
        self.nodes.push(node);
        match parent {
            Some(p) => {
                let ghost pre_nodes = self.nodes@;
                let mut pn = self.nodes.remove(p.0);
                pn.children.push(EntityId(id));
                self.nodes.insert(p.0, pn);
                proof {
                    assert forall|j: int|
                        0 <= j < self.nodes@.len() && j != p.0 implies self.nodes@[j]
                        == pre_nodes[j] by {
                        if j < p.0 {
                            assert(self.nodes@[j] == pre_nodes.remove(p.0 as int).insert(
                                p.0 as int,
                                pn,
                            )[j]);
                        }
                    }
                    assert(self.nodes@[p.0 as int] == pn);
                    assert(self.nodes@.len() == pre_nodes.len());
                }
            },
            None => {},
        }
        proof {
            let pre = *old(self);
            let post = *self;
            assert(spawned(pre, post, parent, EntityId(id)));
            assert forall|i: int| 0 <= i < post.nodes@.len() implies #[trigger] post.node_ok(
                i,
            ) by {
                lemma_spawn_node_ok(pre, post, parent, EntityId(id), i);
            }
        }
        EntityId(id)
    }

    /// Attaches further auxiliary data to the already committed entity `id`.
    pub fn insert(&mut self, id: EntityId, extras: &Vec<u64>)
        requires
            old(self).wf(),
            old(self).contains(id),
        ensures
            final(self).wf(),
            final(self).nodes@.len() == old(self).nodes@.len(),
            final(self).nodes@[id.0 as int].extras@ == old(self).nodes@[id.0 as int].extras@
                + extras@,
            final(self).nodes@[id.0 as int].value == old(self).nodes@[id.0 as int].value,
            final(self).nodes@[id.0 as int].parent == old(self).nodes@[id.0 as int].parent,
            final(self).nodes@[id.0 as int].children == old(self).nodes@[id.0 as int].children,
            forall|j: int|
                0 <= j < old(self).nodes@.len() && j != id.0 ==> final(self).nodes@[j] == old(
                    self,
                ).nodes@[j],
    {
        let ghost pre_nodes = self.nodes@;
        let mut pn = self.nodes.remove(id.0);
        pn.extras.extend_from_slice(extras.as_slice());
        self.nodes.insert(id.0, pn);
        proof {
            assert forall|j: int|
                0 <= j < self.nodes@.len() && j != id.0 implies self.nodes@[j] == pre_nodes[j] by {
                if j < id.0 {
                    assert(self.nodes@[j] == pre_nodes.remove(id.0 as int).insert(
                        id.0 as int,
                        pn,
                    )[j]);
                }
            }
            assert(self.nodes@[id.0 as int] == pn);
            assert forall|i: int|
                0 <= i < self.nodes@.len() implies #[trigger] self.node_ok(i) by {
                assert(old(self).node_ok(i));
            }
        }
    }

    /// The children of entity `id`, in creation order.
    pub fn children_of(&self, id: EntityId) -> (r: Vec<EntityId>)
        requires
            self.contains(id),
        ensures
            r@ == self.nodes@[id.0 as int].children@,
    {
        let mut r: Vec<EntityId> = Vec::new();
        let node = &self.nodes[id.0];
        let n = node.children.len();
        let mut i: usize = 0;
        while i < n
            invariant
                i <= n,
                n == node.children@.len(),
                node == self.nodes@[id.0 as int],
                (id.0 as int) < self.nodes@.len(),
                r@ == node.children@.take(i as int),
            decreases n - i,
        {
            r.push(node.children[i]);
            proof {
                assert(node.children@.take(i as int + 1) =~= node.children@.take(i as int).push(
                    node.children@[i as int],
                ));
            }
            i = i + 1;
        }
        proof {
            assert(node.children@.take(n as int) =~= node.children@);
        }
        r
    }

    /// How many entities have been committed.
    pub fn len(&self) -> (r: usize)
        ensures
            r == self.nodes@.len(),
    {
        self.nodes.len()
    }
}

/// Exactly what one commit changes: the new entity sits at the old length
/// with no children; when a parent is given, the new handle is appended to
/// that parent's child list and nothing else of the parent changes; every
/// other entity is untouched.  A caller building under one insertion point
/// therefore never sees, and never disturbs, entities built under a sibling.
pub open spec fn spawned(pre: UiTree, post: UiTree, parent: Option<EntityId>, id: EntityId) -> bool {
    &&& id.0 == pre.nodes@.len()
    &&& post.nodes@.len() == pre.nodes@.len() + 1
    &&& post.nodes@[id.0 as int].parent == parent
    &&& post.nodes@[id.0 as int].children@ == Seq::<EntityId>::empty()
    &&& match parent {
        Some(p) => {
            &&& post.nodes@[p.0 as int].children@ == pre.nodes@[p.0 as int].children@.push(id)
            &&& post.nodes@[p.0 as int].value == pre.nodes@[p.0 as int].value
            &&& post.nodes@[p.0 as int].extras == pre.nodes@[p.0 as int].extras
            &&& post.nodes@[p.0 as int].parent == pre.nodes@[p.0 as int].parent
            &&& forall|j: int|
                0 <= j < pre.nodes@.len() && j != p.0 ==> post.nodes@[j] == pre.nodes@[j]
        },
        None => forall|j: int| 0 <= j < pre.nodes@.len() ==> post.nodes@[j] == pre.nodes@[j],
    }
}

/// Scoping law: a commit under one insertion point is invisible to every
/// other insertion point.  After committing `x` under `a` and then `y` under
/// `b`, each parent's child list has gained exactly its own new entity —
/// `b`'s list never sees `x`, `a`'s list never sees `y`, and the two new
/// entities are distinct.
pub proof fn lemma_sibling_isolation(
    pre: UiTree,
    mid: UiTree,
    post: UiTree,
    a: EntityId,
    b: EntityId,
    x: EntityId,
    y: EntityId,
)
    requires
        pre.wf(),
        pre.contains(a),
        pre.contains(b),
        a != b,
        spawned(pre, mid, Some(a), x),
        spawned(mid, post, Some(b), y),
    ensures
        x != y,
        post.nodes@[a.0 as int].children@ == pre.nodes@[a.0 as int].children@.push(x),
        post.nodes@[b.0 as int].children@ == pre.nodes@[b.0 as int].children@.push(y),
        !pre.nodes@[a.0 as int].children@.contains(y),
        !pre.nodes@[b.0 as int].children@.contains(x),
{
    assert(a.0 != b.0);
    assert(mid.nodes@[b.0 as int] == pre.nodes@[b.0 as int]);
    assert(post.nodes@[a.0 as int] == mid.nodes@[a.0 as int]);
    assert(!pre.nodes@[a.0 as int].children@.contains(y)) by {
        if pre.nodes@[a.0 as int].children@.contains(y) {
            let ch = pre.nodes@[a.0 as int].children@;
            let j = choose|j: int| 0 <= j < ch.len() && ch[j] == y;
            assert(pre.node_ok(a.0 as int));
            assert((ch[j].0 as int) < pre.nodes@.len());
        }
    }
    assert(!pre.nodes@[b.0 as int].children@.contains(x)) by {
        if pre.nodes@[b.0 as int].children@.contains(x) {
            let ch = pre.nodes@[b.0 as int].children@;
            let j = choose|j: int| 0 <= j < ch.len() && ch[j] == x;
            assert(pre.node_ok(b.0 as int));
            assert((ch[j].0 as int) < pre.nodes@.len());
        }
    }
}

/// A commit preserves the link conditions at every index.
proof fn lemma_spawn_node_ok(
    pre: UiTree,
    post: UiTree,
    parent: Option<EntityId>,
    id: EntityId,
    i: int,
)
    requires
        pre.wf(),
        parent matches Some(p) ==> pre.contains(p),
        spawned(pre, post, parent, id),
        0 <= i < post.nodes@.len(),
    ensures
        post.node_ok(i),
{
    if i < pre.nodes@.len() {
        assert(pre.node_ok(i));
        match parent {
            Some(p) => {
                if i == p.0 {
                    assert forall|j: int|
                        0 <= j < post.nodes@[i].children@.len() implies {
                        let c = #[trigger] post.nodes@[i].children@[j];
                        &&& i < (c.0 as int) < post.nodes@.len()
                        &&& post.nodes@[c.0 as int].parent == Some(EntityId(i as usize))
                    } by {
                        if j < pre.nodes@[i].children@.len() {
                            assert(pre.nodes@[i].children@[j]
                                == post.nodes@[i].children@[j]);
                        } else {
                            assert(post.nodes@[i].children@[j] == id);
                        }
                    }
                } else {
                    assert(post.nodes@[i] == pre.nodes@[i]);
                    assert forall|j: int|
                        0 <= j < post.nodes@[i].children@.len() implies {
                        let c = #[trigger] post.nodes@[i].children@[j];
                        &&& i < (c.0 as int) < post.nodes@.len()
                        &&& post.nodes@[c.0 as int].parent == Some(EntityId(i as usize))
                    } by {
                        let c = post.nodes@[i].children@[j];
                        assert((c.0 as int) < pre.nodes@.len());
                        let ci = c.0 as int;
                        assert(ci != p.0 ==> post.nodes@[ci] == pre.nodes@[ci]);
                    }
                }
            },
            None => {
                assert(post.nodes@[i] == pre.nodes@[i]);
                assert forall|j: int|
                    0 <= j < post.nodes@[i].children@.len() implies {
                    let c = #[trigger] post.nodes@[i].children@[j];
                    &&& i < (c.0 as int) < post.nodes@.len()
                    &&& post.nodes@[c.0 as int].parent == Some(EntityId(i as usize))
                } by {
                    let c = post.nodes@[i].children@[j];
                    assert((c.0 as int) < pre.nodes@.len());
                }
            },
        }
    } else {
        assert(i == id.0);
    }
}

} // verus!
