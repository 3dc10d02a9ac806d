use vstd::prelude::*;
use crate::scene::{SceneNode, named, ids_where, first_where, is_named, is_scene_root};

verus! {

#[derive(Clone, Copy, PartialEq, Eq, Structural, Debug)]
pub enum Drone {
    /// Drone with 3 guns
    Praetor,
    /// Drone with 2 guns
    Infiltrator,
}

/// Number of drone kinds, the length of a table indexed by `Drone::slot`.
pub const DRONE_KINDS: usize = 2;

impl Drone {
    pub open spec fn slot_spec(self) -> nat {
        match self {
            Drone::Praetor => 0,
            Drone::Infiltrator => 1,
        }
    }

    /// Position of this kind in a table with one entry per kind.
    pub fn slot(self) -> (r: usize)
        ensures
            r == self.slot_spec(),
            r < DRONE_KINDS,
    {
        match self {
            Drone::Praetor => 0,
            Drone::Infiltrator => 1,
        }
    }
}

pub open spec fn is_drone_body() -> spec_fn(SceneNode) -> bool {
    |n: SceneNode| !n.has_mesh && named(n, "body"@)
}

pub open spec fn is_drone_barrel() -> spec_fn(SceneNode) -> bool {
    |n: SceneNode| !n.has_mesh && named(n, "barrel"@)
}

/// How the nodes of a loaded drone model are put to use.
pub struct DroneLayout {
    /// The node that holds the scene instance: it gets the collider and the guns.
    pub root: Option<u64>,
    pub collider_parts: Vec<u64>,
    pub guns: Vec<u64>,
}

/// Finds the scene root, and among the nodes without a mesh of their own
/// those named "body..." (collider parts) and "barrel..." (guns), in scene order.
pub fn drone_layout(nodes: &Vec<SceneNode>) -> (r: DroneLayout)
    ensures
        r.root == first_where(nodes@, is_scene_root()),
        r.collider_parts@ == ids_where(nodes@, is_drone_body()),
        r.guns@ == ids_where(nodes@, is_drone_barrel()),
{
    let mut r = DroneLayout { root: None, collider_parts: Vec::new(), guns: Vec::new() };
    let mut i: usize = 0;
    assert(nodes@.subrange(0, 0) =~= Seq::<SceneNode>::empty());
    while i < nodes.len()
        invariant
            i <= nodes.len(),
            r.root == first_where(nodes@.subrange(0, i as int), is_scene_root()),
            r.collider_parts@ == ids_where(nodes@.subrange(0, i as int), is_drone_body()),
            r.guns@ == ids_where(nodes@.subrange(0, i as int), is_drone_barrel()),
        decreases nodes.len() - i,
    {
        let ghost before = nodes@.subrange(0, i as int);
        let ghost after = nodes@.subrange(0, i + 1);
        assert(after.drop_last() =~= before);
        assert(after.last() == nodes@[i as int]);
        let n = &nodes[i];
        if r.root.is_none() && n.scene_root {
            r.root = Some(n.id);
        }
        if !n.has_mesh {
            if is_named(n, "body") {
                r.collider_parts.push(n.id);
            }
            if is_named(n, "barrel") {
                r.guns.push(n.id);
            }
        }
        i += 1;
    }
    assert(nodes@.subrange(0, nodes.len() as int) =~= nodes@);
    r
}

} // verus!
