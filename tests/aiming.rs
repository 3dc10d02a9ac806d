use space_gunnery::aiming::{best_candidate, is_eligible, select_target, Candidate, Fraction};

fn target(id: u64, rank: i64) -> Candidate {
    Candidate {
        id,
        fraction: None,
        collidable: true,
        sensor: false,
        reachable: true,
        rank,
    }
}

#[test]
fn selects_highest_rank() {
    let cands = vec![target(1, 10), target(2, 90), target(3, -50)];
    assert_eq!(select_target(None, None, &cands), Some(2));
    assert_eq!(best_candidate(None, &cands), Some(1));
}

#[test]
fn no_candidates_selects_none() {
    assert_eq!(select_target(None, Some(Fraction::Drones), &Vec::new()), None);
    assert_eq!(select_target(Some(7), None, &Vec::new()), None);
}

#[test]
fn equal_ranks_take_the_last() {
    let cands = vec![target(1, 5), target(2, 5), target(3, 4)];
    assert_eq!(select_target(None, None, &cands), Some(2));
}

#[test]
fn valid_lock_is_kept() {
    let cands = vec![target(1, 10), target(2, 90)];
    assert_eq!(select_target(Some(1), None, &cands), Some(1));
}

#[test]
fn selection_is_sticky_on_reselect() {
    let mut cands = vec![target(1, 50), target(2, 10)];
    let first = select_target(None, None, &cands);
    assert_eq!(first, Some(1));
    // the other candidate now ranks higher, but the lock stays
    cands[1].rank = 100;
    assert_eq!(select_target(first, None, &cands), Some(1));
}

#[test]
fn dangling_lock_is_replaced() {
    let cands = vec![target(1, 10), target(2, 90)];
    assert_eq!(select_target(Some(42), None, &cands), Some(2));
}

#[test]
fn lock_on_sensor_is_dropped() {
    let mut cands = vec![target(1, 10), target(2, 90)];
    cands[0].sensor = true;
    assert_eq!(select_target(Some(1), None, &cands), Some(2));
    cands[1].collidable = false;
    assert_eq!(select_target(Some(1), None, &cands), None);
}

#[test]
fn unreachable_candidate_is_skipped() {
    let mut cands = vec![target(1, 10), target(2, 90)];
    cands[1].reachable = false;
    assert_eq!(select_target(None, None, &cands), Some(1));
}

#[test]
fn same_fraction_is_never_selected() {
    let mut cands = vec![target(1, 10), target(2, 90), target(3, 0)];
    cands[1].fraction = Some(Fraction::Drones);
    cands[2].fraction = Some(Fraction::Turrets);
    assert_eq!(select_target(None, Some(Fraction::Drones), &cands), Some(1));
    assert_eq!(select_target(Some(2), Some(Fraction::Drones), &cands), Some(1));
    assert_eq!(select_target(None, Some(Fraction::Turrets), &cands), Some(2));
}

#[test]
fn untagged_sides_are_not_filtered() {
    let mut cands = vec![target(1, 10)];
    cands[0].fraction = Some(Fraction::Drones);
    assert_eq!(select_target(None, None, &cands), Some(1));
    cands[0].fraction = None;
    assert_eq!(select_target(None, Some(Fraction::Drones), &cands), Some(1));
}

#[test]
fn ahead_beats_off_axis() {
    // actor at the origin facing +Z: a target dead ahead has cosine 1,
    // a target on the +X axis has cosine 0
    let ahead = 1.0f32;
    let off_axis = 0.0f32;
    let cands = vec![
        target(10, (off_axis * 1000.0) as i64),
        target(20, (ahead * 1000.0) as i64),
    ];
    assert_eq!(select_target(None, None, &cands), Some(20));
}

#[test]
fn eligibility_filter() {
    let mut c = target(1, 0);
    assert!(is_eligible(None, &c));
    assert!(is_eligible(Some(Fraction::Turrets), &c));
    c.fraction = Some(Fraction::Turrets);
    assert!(!is_eligible(Some(Fraction::Turrets), &c));
    assert!(is_eligible(Some(Fraction::Drones), &c));
    assert!(is_eligible(None, &c));
    c.fraction = None;
    c.reachable = false;
    assert!(!is_eligible(None, &c));
}
