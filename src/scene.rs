use vstd::prelude::*;

verus! {

/// One node of a loaded scene, as the setup of a spawned model sees it.
pub struct SceneNode {
    pub id: u64,
    pub name: Option<String>,
    pub has_mesh: bool,
    pub scene_root: bool,
}

/// `p` is a prefix of `s`.
pub open spec fn is_prefix(p: Seq<char>, s: Seq<char>) -> bool {
    p.len() <= s.len() && s.subrange(0, p.len() as int) == p
}

/// The node has a name, and the name starts with `prefix`.
pub open spec fn named(n: SceneNode, prefix: Seq<char>) -> bool {
    n.name is Some && is_prefix(prefix, n.name->0@)
}

pub open spec fn is_scene_root() -> spec_fn(SceneNode) -> bool {
    |n: SceneNode| n.scene_root
}

pub open spec fn is_mesh() -> spec_fn(SceneNode) -> bool {
    |n: SceneNode| n.has_mesh
}

/// Ids of the nodes that satisfy `f`, in scene order.
pub open spec fn ids_where(nodes: Seq<SceneNode>, f: spec_fn(SceneNode) -> bool) -> Seq<u64>
    decreases nodes.len(),
{
    if nodes.len() == 0 {
        Seq::empty()
    } else {
        let prev = ids_where(nodes.drop_last(), f);
        if f(nodes.last()) {
            prev.push(nodes.last().id)
        } else {
            prev
        }
    }
}

/// Id of the last node that satisfies `f`.
pub open spec fn last_where(nodes: Seq<SceneNode>, f: spec_fn(SceneNode) -> bool) -> Option<u64>
    decreases nodes.len(),
{
    if nodes.len() == 0 {
        None
    } else if f(nodes.last()) {
        Some(nodes.last().id)
    } else {
        last_where(nodes.drop_last(), f)
    }
}

/// Id of the first node that satisfies `f`.
pub open spec fn first_where(nodes: Seq<SceneNode>, f: spec_fn(SceneNode) -> bool) -> Option<u64>
    decreases nodes.len(),
{
    if nodes.len() == 0 {
        None
    } else if first_where(nodes.drop_last(), f) is Some {
        first_where(nodes.drop_last(), f)
    } else if f(nodes.last()) {
        Some(nodes.last().id)
    } else {
        None
    }
}

/// Relies on str::starts_with: true when `prefix` is a prefix of `s`.
#[verifier::external_body]
pub(crate) fn starts_with(s: &str, prefix: &str) -> (r: bool)
    ensures
        r == is_prefix(prefix@, s@),
{
    s.starts_with(prefix)
}

/// Whether the node's name starts with `prefix`.
pub fn is_named(n: &SceneNode, prefix: &str) -> (r: bool)
    ensures
        r == named(*n, prefix@),
{
    match &n.name {
        Some(name) => starts_with(name.as_str(), prefix),
        None => false,
    }
}

} // verus!
