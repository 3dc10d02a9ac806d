use vstd::prelude::*;
use crate::scene::{SceneNode, named, ids_where, last_where, is_named, is_scene_root, is_mesh};

verus! {

pub open spec fn is_sphere() -> spec_fn(SceneNode) -> bool {
    |n: SceneNode| named(n, "Sphere"@)
}

/// Nodes of the spaceship model that its setup uses.
pub struct SpaceshipLayout {
    /// Gets the collider.
    pub root: Option<u64>,
    /// Carries the mesh that the collider is decomposed from.
    pub mesh_source: Option<u64>,
}

/// The last scene root and the last node with a mesh.
pub fn spaceship_layout(nodes: &Vec<SceneNode>) -> (r: SpaceshipLayout)
    ensures
        r.root == last_where(nodes@, is_scene_root()),
        r.mesh_source == last_where(nodes@, is_mesh()),
{
    let mut r = SpaceshipLayout { root: None, mesh_source: None };
    let mut i: usize = 0;
    assert(nodes@.subrange(0, 0) =~= Seq::<SceneNode>::empty());
    while i < nodes.len()
        invariant
            i <= nodes.len(),
            r.root == last_where(nodes@.subrange(0, i as int), is_scene_root()),
            r.mesh_source == last_where(nodes@.subrange(0, i as int), is_mesh()),
        decreases nodes.len() - i,
    {
        let ghost before = nodes@.subrange(0, i as int);
        let ghost after = nodes@.subrange(0, i + 1);
        assert(after.drop_last() =~= before);
        assert(after.last() == nodes@[i as int]);
        let n = &nodes[i];
        if n.scene_root {
            r.root = Some(n.id);
        }
        if n.has_mesh {
            r.mesh_source = Some(n.id);
        }
        i += 1;
    }
    assert(nodes@.subrange(0, nodes.len() as int) =~= nodes@);
    r
}

/// Nodes of the artillery platform model that its setup uses.
pub struct PlatformLayout {
    /// Gets the collider.
    pub root: Option<u64>,
    /// Nodes whose meshes the collider's convex hull covers.
    pub collider_parts: Vec<u64>,
    /// Gets the platform's light.
    pub sphere: Option<u64>,
}

/// The nodes with a mesh in scene order, the last scene root and the last
/// node named "Sphere...".
pub fn platform_layout(nodes: &Vec<SceneNode>) -> (r: PlatformLayout)
    ensures
        r.root == last_where(nodes@, is_scene_root()),
        r.collider_parts@ == ids_where(nodes@, is_mesh()),
        r.sphere == last_where(nodes@, is_sphere()),
{
    let mut r = PlatformLayout { root: None, collider_parts: Vec::new(), sphere: None };
    let mut i: usize = 0;
    assert(nodes@.subrange(0, 0) =~= Seq::<SceneNode>::empty());
    while i < nodes.len()
        invariant
            i <= nodes.len(),
            r.root == last_where(nodes@.subrange(0, i as int), is_scene_root()),
            r.collider_parts@ == ids_where(nodes@.subrange(0, i as int), is_mesh()),
            r.sphere == last_where(nodes@.subrange(0, i as int), is_sphere()),
        decreases nodes.len() - i,
    {
        let ghost before = nodes@.subrange(0, i as int);
        let ghost after = nodes@.subrange(0, i + 1);
        assert(after.drop_last() =~= before);
        assert(after.last() == nodes@[i as int]);
        let n = &nodes[i];
        if n.has_mesh {
            r.collider_parts.push(n.id);
        }
        if n.scene_root {
            r.root = Some(n.id);
        }
        if is_named(n, "Sphere") {
            r.sphere = Some(n.id);
        }
        i += 1;
    }
    assert(nodes@.subrange(0, nodes.len() as int) =~= nodes@);
    r
}

} // verus!
