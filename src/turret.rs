use vstd::prelude::*;
use crate::scene::{SceneNode, named, ids_where, last_where, is_named};

verus! {

/// Role of a node of the turret model, told by the start of its name.
#[derive(Clone, Copy, PartialEq, Eq, Structural, Debug)]
pub enum TurretPart {
    /// A muzzle that bullets leave from.
    Barrel,
    /// The base: a joint, and the part that collides.
    Body,
    /// The head: a joint that carries the guns.
    Head,
    Other,
}

pub open spec fn turret_part(n: SceneNode) -> TurretPart {
    if named(n, "Muzzle"@) {
        TurretPart::Barrel
    } else if named(n, "Body"@) {
        TurretPart::Body
    } else if named(n, "Head"@) {
        TurretPart::Head
    } else {
        TurretPart::Other
    }
}

pub open spec fn part_is(p: TurretPart) -> spec_fn(SceneNode) -> bool {
    |n: SceneNode| turret_part(n) == p
}

pub open spec fn is_joint() -> spec_fn(SceneNode) -> bool {
    |n: SceneNode| turret_part(n) == TurretPart::Body || turret_part(n) == TurretPart::Head
}

/// How the nodes of a loaded turret model are put to use.
pub struct TurretLayout {
    pub barrels: Vec<u64>,
    pub joints: Vec<u64>,
    pub collider_parts: Vec<u64>,
    pub body: Option<u64>,
    pub head: Option<u64>,
}

pub fn turret_part_of(n: &SceneNode) -> (r: TurretPart)
    ensures
        r == turret_part(*n),
{
    if is_named(n, "Muzzle") {
        TurretPart::Barrel
    } else if is_named(n, "Body") {
        TurretPart::Body
    } else if is_named(n, "Head") {
        TurretPart::Head
    } else {
        TurretPart::Other
    }
}

/// Sorts the nodes of a turret model into barrels, joints and collider
/// parts, in scene order; body and head are the last nodes of their kind.
pub fn turret_layout(nodes: &Vec<SceneNode>) -> (r: TurretLayout)
    ensures
        r.barrels@ == ids_where(nodes@, part_is(TurretPart::Barrel)),
        r.joints@ == ids_where(nodes@, is_joint()),
        r.collider_parts@ == ids_where(nodes@, part_is(TurretPart::Body)),
        r.body == last_where(nodes@, part_is(TurretPart::Body)),
        r.head == last_where(nodes@, part_is(TurretPart::Head)),
{
    let mut r = TurretLayout {
        barrels: Vec::new(),
        joints: Vec::new(),
        collider_parts: Vec::new(),
        body: None,
        head: None,
    };
    let mut i: usize = 0;
    assert(nodes@.subrange(0, 0) =~= Seq::<SceneNode>::empty());
    while i < nodes.len()
        invariant
            i <= nodes.len(),
            r.barrels@ == ids_where(nodes@.subrange(0, i as int), part_is(TurretPart::Barrel)),
            r.joints@ == ids_where(nodes@.subrange(0, i as int), is_joint()),
            r.collider_parts@ == ids_where(nodes@.subrange(0, i as int), part_is(TurretPart::Body)),
            r.body == last_where(nodes@.subrange(0, i as int), part_is(TurretPart::Body)),
            r.head == last_where(nodes@.subrange(0, i as int), part_is(TurretPart::Head)),
        decreases nodes.len() - i,
    {
        let ghost before = nodes@.subrange(0, i as int);
        let ghost after = nodes@.subrange(0, i + 1);
        assert(after.drop_last() =~= before);
        assert(after.last() == nodes@[i as int]);
        let n = &nodes[i];
        match turret_part_of(n) {
            TurretPart::Barrel => {
                r.barrels.push(n.id);
            },
            TurretPart::Body => {
                r.joints.push(n.id);
                r.collider_parts.push(n.id);
                r.body = Some(n.id);
            },
            TurretPart::Head => {
                r.joints.push(n.id);
                r.head = Some(n.id);
            },
            TurretPart::Other => {},
        }
        i += 1;
    }
    assert(nodes@.subrange(0, nodes.len() as int) =~= nodes@);
    r
}

} // verus!
