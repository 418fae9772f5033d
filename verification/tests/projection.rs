use poltergeist::geom::{project, InputSample, Projection, Vec3Fx};

fn ray(ox: i64, oy: i64, oz: i64, dx: i64, dy: i64, dz: i64) -> InputSample {
    InputSample::Ray {
        origin: Vec3Fx { x: ox, y: oy, z: oz },
        direction: Vec3Fx { x: dx, y: dy, z: dz },
    }
}

fn point(x: i64, y: i64, z: i64) -> InputSample {
    InputSample::Point { position: Vec3Fx { x, y, z } }
}

#[test]
fn parallel_ray_returns_none() {
    // |direction.z| <= 100 counts as parallel, the boundary included.
    assert!(project(&ray(0, 0, 100_000, 1_000_000, 0, 0)).is_none());
    assert!(project(&ray(5_000, -3_000, 100_000, 0, 1_000_000, 100)).is_none());
    assert!(project(&ray(5_000, -3_000, 100_000, 0, 1_000_000, -100)).is_none());
}

#[test]
fn barely_non_parallel_ray_hits() {
    // direction.z = -101 is just past the parallel threshold.
    assert!(project(&ray(0, 0, 1_000, 0, 0, -101)).is_some());
}

#[test]
fn behind_origin_ray_returns_none() {
    // Origin in front of the plane, direction pointing further away: t < 0.
    assert!(project(&ray(0, 0, 100_000, 0, 0, 500_000)).is_none());
    // Origin behind the plane, direction pointing further behind.
    assert!(project(&ray(0, 0, -100_000, 0, 0, -500_000)).is_none());
}

#[test]
fn straight_ray_hits_at_its_origin_coordinates() {
    let r = ray(10_000, 20_000, 100_000, 0, 0, -1_000_000);
    assert_eq!(project(&r), Some(Projection { x: 10_000, y: 20_000, depth: 0 }));
}

#[test]
fn slanted_ray_hits_at_offset() {
    // t = 0.2, so the hit point sits 0.2 * 0.5 = 0.1 to the right.
    let r = ray(0, 0, 200_000, 500_000, 0, -1_000_000);
    assert_eq!(project(&r), Some(Projection { x: 100_000, y: 0, depth: 0 }));
}

#[test]
fn ray_starting_on_plane_hits_immediately() {
    let r = ray(7_000, -9_000, 0, 250_000, 0, -1_000_000);
    assert_eq!(project(&r), Some(Projection { x: 7_000, y: -9_000, depth: 0 }));
}

#[test]
fn point_sample_projects_to_own_coordinates() {
    // Depth counts along the negative normal: z = -0.003 means depth 0.003.
    assert_eq!(
        project(&point(5_000, -7_000, -3_000)),
        Some(Projection { x: 5_000, y: -7_000, depth: 3_000 })
    );
    // A point in front of the plane has negative depth.
    assert_eq!(
        project(&point(0, 0, 4_000)),
        Some(Projection { x: 0, y: 0, depth: -4_000 })
    );
}
