use space_gunnery::collider::triangles;
use space_gunnery::display::toggle_msaa;
use space_gunnery::environment::{platform_layout, spaceship_layout};
use space_gunnery::drone::{drone_layout, Drone, DRONE_KINDS};
use space_gunnery::player::next_lock;
use space_gunnery::scene::{is_named, SceneNode};
use space_gunnery::turret::{turret_layout, turret_part_of, TurretPart};

fn node(id: u64, name: &str) -> SceneNode {
    SceneNode {
        id,
        name: Some(name.to_string()),
        has_mesh: false,
        scene_root: false,
    }
}

#[test]
fn name_prefixes() {
    assert!(is_named(&node(1, "Muzzle.001"), "Muzzle"));
    assert!(!is_named(&node(1, "Mu"), "Muzzle"));
    assert!(!is_named(&node(1, "muzzle"), "Muzzle"));
    let unnamed = SceneNode {
        id: 1,
        name: None,
        has_mesh: false,
        scene_root: false,
    };
    assert!(!is_named(&unnamed, "Muzzle"));
}

#[test]
fn turret_parts_by_name() {
    assert_eq!(turret_part_of(&node(1, "Muzzle2")), TurretPart::Barrel);
    assert_eq!(turret_part_of(&node(1, "Body")), TurretPart::Body);
    assert_eq!(turret_part_of(&node(1, "Head.joint")), TurretPart::Head);
    assert_eq!(turret_part_of(&node(1, "Base")), TurretPart::Other);
}

#[test]
fn turret_layout_sorts_nodes() {
    let nodes = vec![
        node(1, "Turret"),
        node(2, "Body"),
        node(3, "Head"),
        node(4, "Muzzle.L"),
        node(5, "Muzzle.R"),
        node(6, "Body.002"),
    ];
    let l = turret_layout(&nodes);
    assert_eq!(l.barrels, vec![4, 5]);
    assert_eq!(l.joints, vec![2, 3, 6]);
    assert_eq!(l.collider_parts, vec![2, 6]);
    assert_eq!(l.body, Some(6));
    assert_eq!(l.head, Some(3));
}

#[test]
fn turret_layout_of_empty_scene() {
    let l = turret_layout(&Vec::new());
    assert!(l.barrels.is_empty() && l.joints.is_empty() && l.collider_parts.is_empty());
    assert_eq!(l.body, None);
    assert_eq!(l.head, None);
}

#[test]
fn drone_layout_skips_meshes() {
    let mut root = node(1, "Praetor");
    root.scene_root = true;
    let mut mesh_body = node(3, "body_mesh");
    mesh_body.has_mesh = true;
    let nodes = vec![
        root,
        node(2, "body.main"),
        mesh_body,
        node(4, "barrel.0"),
        node(5, "barrel.1"),
        node(6, "wing"),
    ];
    let l = drone_layout(&nodes);
    assert_eq!(l.root, Some(1));
    assert_eq!(l.collider_parts, vec![2]);
    assert_eq!(l.guns, vec![4, 5]);
}

#[test]
fn drone_layout_takes_first_root() {
    let mut a = node(7, "a");
    a.scene_root = true;
    let mut b = node(8, "b");
    b.scene_root = true;
    let l = drone_layout(&vec![node(6, "x"), a, b]);
    assert_eq!(l.root, Some(7));
}

#[test]
fn drone_slots_are_distinct() {
    assert_eq!(Drone::Praetor.slot(), 0);
    assert_eq!(Drone::Infiltrator.slot(), 1);
    assert_eq!(DRONE_KINDS, 2);
}

#[test]
fn triangles_group_by_three() {
    let t = triangles(&vec![0, 1, 2, 2, 3, 0, 9]);
    assert_eq!(t, vec![[0, 1, 2], [2, 3, 0]]);
    assert!(triangles(&vec![5, 6]).is_empty());
}

#[test]
fn lock_toggles() {
    assert_eq!(next_lock(&vec![], 5), Some(5));
    assert_eq!(next_lock(&vec![3], 5), Some(5));
    assert_eq!(next_lock(&vec![3, 5], 5), None);
}

#[test]
fn msaa_toggles() {
    assert_eq!(toggle_msaa(4), 1);
    assert_eq!(toggle_msaa(1), 4);
}

#[test]
fn spaceship_layout_takes_last_root_and_mesh() {
    let mut root = node(1, "Spaceship");
    root.scene_root = true;
    let mut hull = node(2, "Hull");
    hull.has_mesh = true;
    let mut engine = node(3, "Engine");
    engine.has_mesh = true;
    let l = spaceship_layout(&vec![root, hull, engine, node(4, "Bridge")]);
    assert_eq!(l.root, Some(1));
    assert_eq!(l.mesh_source, Some(3));
    let empty = spaceship_layout(&Vec::new());
    assert_eq!(empty.root, None);
    assert_eq!(empty.mesh_source, None);
}

#[test]
fn platform_layout_collects_meshes_and_sphere() {
    let mut root = node(1, "Platform");
    root.scene_root = true;
    let mut deck = node(2, "Deck");
    deck.has_mesh = true;
    let mut mast = node(4, "Mast");
    mast.has_mesh = true;
    let l = platform_layout(&vec![root, deck, node(3, "Sphere.001"), mast, node(5, "sphere")]);
    assert_eq!(l.root, Some(1));
    assert_eq!(l.collider_parts, vec![2, 4]);
    assert_eq!(l.sphere, Some(3));
}
