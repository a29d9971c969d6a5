use voxel_picker::error::PickError;
use voxel_picker::fraction::Fraction;
use voxel_picker::geometry::{AxisAlignedBox, Ray};
use voxel_picker::intersect::intersect;
use voxel_picker::vector::{Vector3, UNIT, WORLD_LIMIT};

fn unit_box() -> AxisAlignedBox {
    AxisAlignedBox::new(Vector3::new(-5_000, -5_000, -5_000), Vector3::new(5_000, 5_000, 5_000))
        .unwrap()
}

fn ray(origin: (i64, i64, i64), direction: (i64, i64, i64)) -> Ray {
    Ray::new(
        Vector3::new(origin.0, origin.1, origin.2),
        Vector3::new(direction.0, direction.1, direction.2),
    )
    .unwrap()
}

fn frac(num: i64, den: i64) -> Fraction {
    Fraction::new(num, den).unwrap()
}

#[test]
fn ray_down_the_z_axis_hits_the_top_z_face() {
    let hit = intersect(&ray((0, 0, 50_000), (0, 0, -10_000)), &unit_box()).unwrap();
    assert!(hit.t.equals(&frac(9, 2)));
    assert_eq!((hit.t.num(), hit.t.den()), (45_000, 10_000));
    assert_eq!(hit.normal, Vector3::new(0, 0, UNIT));
}

#[test]
fn ray_down_the_x_axis_hits_the_top_x_face() {
    let hit = intersect(&ray((50_000, 0, 0), (-10_000, 0, 0)), &unit_box()).unwrap();
    assert!(hit.t.equals(&frac(9, 2)));
    assert_eq!(hit.normal, Vector3::new(UNIT, 0, 0));
}

#[test]
fn orthogonal_rays_hit_each_of_the_six_faces() {
    let cases: [((i64, i64, i64), (i64, i64, i64), (i64, i64, i64)); 6] = [
        ((70_000, 1_000, -2_000), (-10_000, 0, 0), (UNIT, 0, 0)),
        ((-70_000, 1_000, -2_000), (10_000, 0, 0), (-UNIT, 0, 0)),
        ((1_000, 70_000, -2_000), (0, -10_000, 0), (0, UNIT, 0)),
        ((1_000, -70_000, -2_000), (0, 10_000, 0), (0, -UNIT, 0)),
        ((1_000, -2_000, 70_000), (0, 0, -10_000), (0, 0, UNIT)),
        ((1_000, -2_000, -70_000), (0, 0, 10_000), (0, 0, -UNIT)),
    ];
    for (origin, direction, normal) in cases {
        let hit = intersect(&ray(origin, direction), &unit_box()).unwrap();
        assert!(hit.t.is_positive());
        assert!(hit.t.equals(&frac(13, 2)));
        assert_eq!(hit.normal, Vector3::new(normal.0, normal.1, normal.2));
    }
}

#[test]
fn ray_from_strictly_inside_the_box_has_no_hit() {
    let directions: [(i64, i64, i64); 7] = [
        (10_000, 0, 0),
        (-10_000, 0, 0),
        (0, 10_000, 0),
        (0, 0, -10_000),
        (5_774, 5_774, 5_774),
        (-7_071, 0, 7_071),
        (1, -1, 1),
    ];
    for direction in directions {
        assert!(intersect(&ray((0, 0, 0), direction), &unit_box()).is_none());
        assert!(intersect(&ray((4_999, -4_999, 1), direction), &unit_box()).is_none());
    }
}

#[test]
fn ray_offset_from_the_box_misses_it() {
    assert!(intersect(&ray((50_000, 0, 50_000), (0, 0, -10_000)), &unit_box()).is_none());
    assert!(intersect(&ray((0, 50_000, 50_000), (0, 0, -10_000)), &unit_box()).is_none());
    assert!(intersect(&ray((50_000, 50_000, 0), (-10_000, 0, 0)), &unit_box()).is_none());
    assert!(intersect(&ray((0, -50_000, 50_000), (10_000, 0, 0)), &unit_box()).is_none());
}

#[test]
fn box_behind_the_origin_is_not_hit() {
    assert!(intersect(&ray((0, 0, 50_000), (0, 0, 10_000)), &unit_box()).is_none());
    assert!(intersect(&ray((-30_000, -30_000, -30_000), (-1, -1, -1)), &unit_box()).is_none());
}

#[test]
fn ray_starting_on_a_face_hits_at_zero() {
    let hit = intersect(&ray((0, 0, 5_000), (0, 0, -10_000)), &unit_box()).unwrap();
    assert_eq!(hit.t.num(), 0);
    assert_eq!(hit.normal, Vector3::new(0, 0, UNIT));
}

#[test]
fn slanted_ray_enters_through_the_face_it_reaches_last() {
    // From (3, 0.8, 0.25) units along (-1, -0.1, 0): the x slab is entered at
    // 2.5, the y slab at 3.
    let hit = intersect(&ray((30_000, 8_000, 2_500), (-10_000, -1_000, 0)), &unit_box()).unwrap();
    assert!(hit.t.equals(&frac(3, 1)));
    assert_eq!((hit.t.num(), hit.t.den()), (3_000, 1_000));
    assert_eq!(hit.normal, Vector3::new(0, UNIT, 0));
}

#[test]
fn negative_direction_components_enter_through_upper_faces() {
    let hit = intersect(&ray((20_000, 30_000, 40_000), (-2, -3, -4)), &unit_box()).unwrap();
    // The slabs are entered at 7500, 8333 1/3 and 8750: the z slab is last.
    assert!(hit.t.equals(&frac(8_750, 1)));
    assert_eq!((hit.t.num(), hit.t.den()), (35_000, 4));
    assert_eq!(hit.normal, Vector3::new(0, 0, UNIT));
}

#[test]
fn corner_hit_resolves_to_the_x_face() {
    let hit = intersect(&ray((15_000, 15_000, 15_000), (-1, -1, -1)), &unit_box()).unwrap();
    assert!(hit.t.equals(&frac(10_000, 1)));
    assert_eq!(hit.normal, Vector3::new(UNIT, 0, 0));
    let hit = intersect(&ray((-15_000, -15_000, -15_000), (1, 1, 1)), &unit_box()).unwrap();
    assert_eq!(hit.normal, Vector3::new(-UNIT, 0, 0));
}

#[test]
fn edge_hit_resolves_to_the_earlier_axis() {
    // Aimed at the z face, on the edge it shares with the upper x face.
    let hit = intersect(&ray((5_000, 0, 50_000), (0, 0, -10_000)), &unit_box()).unwrap();
    assert!(hit.t.equals(&frac(9, 2)));
    assert_eq!(hit.normal, Vector3::new(UNIT, 0, 0));
    // On the edge that the z face shares with the lower y face.
    let hit = intersect(&ray((0, -5_000, 50_000), (0, 0, -10_000)), &unit_box()).unwrap();
    assert_eq!(hit.normal, Vector3::new(0, -UNIT, 0));
    // One tick inside the edge, the z face is hit.
    let hit = intersect(&ray((4_999, 0, 50_000), (0, 0, -10_000)), &unit_box()).unwrap();
    assert_eq!(hit.normal, Vector3::new(0, 0, UNIT));
}

#[test]
fn ray_parallel_to_a_slab_is_unconstrained_inside_it() {
    let hit = intersect(&ray((-50_000, 4_000, -4_000), (10_000, 0, 0)), &unit_box()).unwrap();
    assert!(hit.t.equals(&frac(9, 2)));
    assert_eq!(hit.normal, Vector3::new(-UNIT, 0, 0));
}

#[test]
fn ray_parallel_to_a_slab_outside_it_misses() {
    assert!(intersect(&ray((-50_000, 5_001, 0), (10_000, 0, 0)), &unit_box()).is_none());
    assert!(intersect(&ray((-50_000, 0, -5_001), (10_000, 0, 0)), &unit_box()).is_none());
}

#[test]
fn ray_sliding_along_a_face_grazes_the_box() {
    let hit = intersect(&ray((-50_000, 5_000, 0), (10_000, 0, 0)), &unit_box()).unwrap();
    assert!(hit.t.equals(&frac(9, 2)));
    assert_eq!(hit.normal, Vector3::new(-UNIT, 0, 0));
}

#[test]
fn ray_touching_an_edge_from_outside_grazes_the_box() {
    // Crosses the line x = 0.5, z = 0.5 units and nothing else of the box.
    let hit = intersect(&ray((15_000, 0, -5_000), (-10_000, 0, 10_000)), &unit_box()).unwrap();
    assert!(hit.t.equals(&frac(1, 1)));
    assert_eq!(hit.normal, Vector3::new(UNIT, 0, 0));
}

#[test]
fn direction_need_not_have_unit_length() {
    let hit = intersect(&ray((0, 0, 50_000), (0, 0, -1)), &unit_box()).unwrap();
    assert!(hit.t.equals(&frac(45_000, 1)));
    assert_eq!(hit.normal, Vector3::new(0, 0, UNIT));
}

#[test]
fn flat_box_is_hit_on_its_only_face() {
    let flat =
        AxisAlignedBox::new(Vector3::new(-5_000, 0, -5_000), Vector3::new(5_000, 0, 5_000)).unwrap();
    let hit = intersect(&ray((0, 30_000, 0), (0, -10_000, 0)), &flat).unwrap();
    assert!(hit.t.equals(&frac(3, 1)));
    // Level with the centre, the normal points down the axis.
    assert_eq!(hit.normal, Vector3::new(0, -UNIT, 0));
}

#[test]
fn zero_direction_is_refused() {
    let r = Ray::new(Vector3::new(1, 2, 3), Vector3::new(0, 0, 0));
    assert_eq!(r.err(), Some(PickError::ZeroDirection));
    let r = Ray::new(Vector3::new(WORLD_LIMIT + 1, 2, 3), Vector3::new(0, 0, 0));
    assert_eq!(r.err(), Some(PickError::ZeroDirection));
}

#[test]
fn ray_outside_the_world_is_refused() {
    let r = Ray::new(Vector3::new(WORLD_LIMIT + 1, 0, 0), Vector3::new(0, 0, 1));
    assert_eq!(r.err(), Some(PickError::OutOfWorld));
    let r = Ray::new(Vector3::new(0, 0, 0), Vector3::new(0, -WORLD_LIMIT - 1, 0));
    assert_eq!(r.err(), Some(PickError::OutOfWorld));
    assert!(Ray::new(Vector3::new(WORLD_LIMIT, 0, 0), Vector3::new(0, 0, -WORLD_LIMIT)).is_ok());
}

#[test]
fn ray_keeps_its_origin_and_direction() {
    let r = ray((1, 2, 3), (4, 5, 6));
    assert_eq!(r.origin(), Vector3::new(1, 2, 3));
    assert_eq!(r.direction(), Vector3::new(4, 5, 6));
}

#[test]
fn inverted_box_is_refused() {
    let b = AxisAlignedBox::new(Vector3::new(0, 1, 0), Vector3::new(0, 0, 0));
    assert_eq!(b.err(), Some(PickError::InvertedBox));
    let b = AxisAlignedBox::new(Vector3::new(0, 0, 0), Vector3::new(0, 0, 0));
    assert!(b.is_ok());
}

#[test]
fn box_outside_the_world_is_refused() {
    let b = AxisAlignedBox::new(Vector3::new(0, 0, 0), Vector3::new(0, 0, WORLD_LIMIT + 1));
    assert_eq!(b.err(), Some(PickError::OutOfWorld));
    let b = AxisAlignedBox::new(Vector3::new(1, 0, 0), Vector3::new(0, 0, WORLD_LIMIT + 1));
    assert_eq!(b.err(), Some(PickError::OutOfWorld));
    let b = AxisAlignedBox::unit_cube(Vector3::new(WORLD_LIMIT - 4_999, 0, 0));
    assert_eq!(b.err(), Some(PickError::OutOfWorld));
    let b = AxisAlignedBox::unit_cube(Vector3::new(i64::MAX, 0, 0));
    assert_eq!(b.err(), Some(PickError::OutOfWorld));
}

#[test]
fn unit_cube_reaches_half_a_unit_each_way() {
    let b = AxisAlignedBox::unit_cube(Vector3::new(10_000, -20_000, 5_000)).unwrap();
    assert_eq!(b.min(), Vector3::new(5_000, -25_000, 0));
    assert_eq!(b.max(), Vector3::new(15_000, -15_000, 10_000));
    let b = AxisAlignedBox::unit_cube(Vector3::new(WORLD_LIMIT - 5_000, 0, 0)).unwrap();
    assert_eq!(b.max().x, WORLD_LIMIT);
}

#[test]
fn hit_at_the_edge_of_the_world_is_exact() {
    let far = AxisAlignedBox::unit_cube(Vector3::new(
        WORLD_LIMIT - 5_000,
        WORLD_LIMIT - 5_000,
        WORLD_LIMIT - 5_000,
    ))
    .unwrap();
    let r = ray(
        (-WORLD_LIMIT, -WORLD_LIMIT, -WORLD_LIMIT),
        (WORLD_LIMIT, WORLD_LIMIT, WORLD_LIMIT - 1),
    );
    let hit = intersect(&r, &far).unwrap();
    // The z slab is reached last: at (2 * limit - 10000) / (limit - 1).
    assert_eq!(hit.t.num(), 2 * WORLD_LIMIT - 10_000);
    assert_eq!(hit.t.den(), WORLD_LIMIT - 1);
    assert_eq!(hit.normal, Vector3::new(0, 0, -UNIT));
}
