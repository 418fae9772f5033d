use poltergeist::docking::{resolve, CandidateDistance, MAX_ACCEPT_DISTANCE};

fn cand(id: &str, d: Option<i64>) -> CandidateDistance {
    CandidateDistance { id: id.to_string(), distance: d }
}

#[test]
fn nearest_within_threshold_selected() {
    // 0.02 and 0.10 meters against a 0.05 threshold: exactly one capture,
    // of the nearer receptacle.
    let cs = vec![cand("x", Some(20_000)), cand("y", Some(100_000))];
    let r = resolve(&cs, MAX_ACCEPT_DISTANCE);
    assert_eq!(r, Some(0));
    assert_eq!(cs[r.unwrap()].id, "x");
}

#[test]
fn absent_and_far_candidates_yield_no_capture() {
    // One query failed, the other is 0.20 meters away: no capture at all.
    let cs = vec![cand("x", None), cand("y", Some(200_000))];
    assert_eq!(resolve(&cs, MAX_ACCEPT_DISTANCE), None);
}

#[test]
fn failed_query_removes_only_that_candidate() {
    let cs = vec![cand("x", None), cand("y", Some(30_000))];
    assert_eq!(resolve(&cs, MAX_ACCEPT_DISTANCE), Some(1));
}

#[test]
fn tie_broken_by_first_encountered() {
    let cs = vec![cand("x", Some(30_000)), cand("y", Some(30_000))];
    assert_eq!(resolve(&cs, MAX_ACCEPT_DISTANCE), Some(0));
}

#[test]
fn signed_distances_compare_by_absolute_value() {
    let cs = vec![cand("x", Some(-20_000)), cand("y", Some(30_000))];
    assert_eq!(resolve(&cs, MAX_ACCEPT_DISTANCE), Some(0));
    let cs = vec![cand("x", Some(-60_000))];
    assert_eq!(resolve(&cs, MAX_ACCEPT_DISTANCE), None);
}

#[test]
fn threshold_is_strict() {
    let cs = vec![cand("x", Some(50_000))];
    assert_eq!(resolve(&cs, MAX_ACCEPT_DISTANCE), None);
    let cs = vec![cand("x", Some(49_999))];
    assert_eq!(resolve(&cs, MAX_ACCEPT_DISTANCE), Some(0));
}

#[test]
fn empty_snapshot_yields_no_capture() {
    let cs: Vec<CandidateDistance> = Vec::new();
    assert_eq!(resolve(&cs, MAX_ACCEPT_DISTANCE), None);
}
