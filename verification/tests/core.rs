use raytrace::SCALE;
use raytrace::colour::{INTENSITY_MAX, encode_channel_byte};
use raytrace::interval::Interval;
use raytrace::ray::Ray;
use raytrace::sampler::Sampler;
use raytrace::utils::degrees_to_radians;
use raytrace::vec3::Vec3;

#[test]
fn test_dot() {
    let v1 = Vec3::new(SCALE, SCALE, SCALE);
    let v2 = Vec3::new(SCALE, SCALE, SCALE);

    assert_eq!(v1.dot(&v2), 3 * SCALE);
}

#[test]
fn test_at() {
    let origin = Vec3::new(0, 0, 0);
    let direction = Vec3::new(SCALE, SCALE, SCALE);

    let at = Ray::new(origin, direction).at(3 * SCALE);
    assert_eq!(at, Vec3::new(3 * SCALE, 3 * SCALE, 3 * SCALE));
}

#[test]
fn ray_at_zero_is_origin() {
    let origin = Vec3::new(7 * SCALE, -2 * SCALE, 13);
    let direction = Vec3::new(5 * SCALE, 11, -3 * SCALE);
    let r = Ray::new(origin, direction);
    assert_eq!(r.at(0), origin);
}

#[test]
fn ray_at_one_is_origin_plus_direction() {
    let origin = Vec3::new(7 * SCALE, -2 * SCALE, 13);
    let direction = Vec3::new(5 * SCALE, 11, -3 * SCALE);
    let r = Ray::new(origin, direction);
    assert_eq!(r.at(SCALE), origin.add(direction));
}

#[test]
fn vector_arithmetic_is_exact() {
    let a = Vec3::new(3 * SCALE, -2 * SCALE, SCALE / 2);
    let b = Vec3::new(SCALE, SCALE, SCALE);
    assert_eq!(a.add(b), Vec3::new(4 * SCALE, -SCALE, 3 * SCALE / 2));
    assert_eq!(a.sub(b), Vec3::new(2 * SCALE, -3 * SCALE, -SCALE / 2));
    assert_eq!(a.neg(), Vec3::new(-3 * SCALE, 2 * SCALE, -SCALE / 2));
    assert_eq!(a.scale(2 * SCALE), Vec3::new(6 * SCALE, -4 * SCALE, SCALE));
    assert_eq!(a.div(2 * SCALE), Vec3::new(3 * SCALE / 2, -SCALE, SCALE / 4));
    assert_eq!(a.mul_vec(b), a);
}

#[test]
fn cross_of_axes_is_third_axis() {
    let x = Vec3::new(SCALE, 0, 0);
    let y = Vec3::new(0, SCALE, 0);
    assert_eq!(x.cross(&y), Vec3::new(0, 0, SCALE));
    assert_eq!(y.cross(&x), Vec3::new(0, 0, -SCALE));
}

#[test]
fn length_of_three_four_zero_is_five() {
    let v = Vec3::new(3 * SCALE, 4 * SCALE, 0);
    assert_eq!(v.length_squared(), 25 * SCALE);
    assert_eq!(v.length(), 5 * SCALE);
    assert_eq!(v.unit(), Vec3::new(3 * SCALE / 5, 4 * SCALE / 5, 0));
}

#[test]
fn unit_of_axis_vector_is_axis() {
    let v = Vec3::new(0, 0, 5 * SCALE);
    assert_eq!(v.unit(), Vec3::new(0, 0, SCALE));
}

#[test]
fn interval_contains_and_surrounds() {
    let i = Interval::new(2, 7);
    assert!(i.contains(2));
    assert!(i.contains(7));
    assert!(!i.contains(8));
    assert!(!i.surrounds(2));
    assert!(i.surrounds(3));
    assert!(!i.surrounds(7));
    assert_eq!(i.size(), 5);
}

#[test]
fn interval_clamp_is_idempotent() {
    let i = Interval::new(-3 * SCALE, 5 * SCALE);
    for x in [i64::MIN, -4 * SCALE, -3 * SCALE, 0, 5 * SCALE, 6 * SCALE, i64::MAX] {
        let once = i.clamp(x);
        assert_eq!(i.clamp(once), once);
        assert!(once >= -3 * SCALE && once <= 5 * SCALE);
    }
}

#[test]
fn empty_interval_contains_nothing() {
    let e = Interval::empty();
    for x in [i64::MIN, -1, 0, 1, SCALE, i64::MAX] {
        assert!(!e.contains(x));
        assert!(!e.surrounds(x));
    }
    let d: Interval = Default::default();
    assert_eq!(d, e);
    let u = Interval::universe();
    assert!(u.contains(0) && u.contains(i64::MIN) && u.contains(i64::MAX));
}

#[test]
fn channel_encoding_endpoints() {
    // 0.0 encodes to 0; 1.0 encodes to 255 through the 0.999 ceiling.
    assert_eq!(encode_channel_byte(0), 0);
    assert_eq!(encode_channel_byte(SCALE), 255);
    assert_eq!(encode_channel_byte(-SCALE), 0);
    assert_eq!(encode_channel_byte(INTENSITY_MAX), 255);
    assert_eq!(encode_channel_byte(SCALE / 2), 128);
    assert_eq!(encode_channel_byte(i64::MAX), 255);
}

#[test]
fn channel_encoding_is_monotonic() {
    let mut last = 0u8;
    let mut c: i64 = -10000;
    while c <= SCALE + 10000 {
        let e = encode_channel_byte(c);
        assert!(e >= last);
        last = e;
        c += 997;
    }
}

#[test]
fn degrees_to_radians_half_turn_is_pi() {
    assert_eq!(degrees_to_radians(188743680), 3294198);
    assert_eq!(degrees_to_radians(0), 0);
}

#[test]
fn fixed_sampler_replays_its_values() {
    let mut s = Sampler::fixed(vec![1, 2, 3]);
    assert_eq!(s.next_unit(), 1);
    assert_eq!(s.next_unit(), 2);
    assert_eq!(s.next_unit(), 3);
    assert_eq!(s.next_unit(), 1);
    // out-of-range values are projected into [0, SCALE)
    let mut t = Sampler::fixed(vec![-5, SCALE + 7]);
    assert_eq!(t.next_unit(), 0);
    assert_eq!(t.next_unit(), SCALE - 1);
    // an empty sequence yields zeroes
    let mut e = Sampler::fixed(vec![]);
    assert_eq!(e.next_unit(), 0);
}

#[test]
fn seeded_sampler_draws_in_unit_range_and_reproducibly() {
    let mut a = Sampler::seeded(42);
    let mut b = Sampler::seeded(42);
    let mut saw_distinct = false;
    let mut prev: i64 = -1;
    for _ in 0..200 {
        let x = a.next_unit();
        let y = b.next_unit();
        assert_eq!(x, y);
        assert!(0 <= x && x < SCALE);
        if prev >= 0 && x != prev {
            saw_distinct = true;
        }
        prev = x;
    }
    assert!(saw_distinct);
}

#[test]
fn random_vectors_respect_their_ranges() {
    let mut s = Sampler::seeded(7);
    for _ in 0..50 {
        let v = Vec3::random(&mut s);
        assert!(0 <= v.x && v.x < SCALE);
        assert!(0 <= v.y && v.y < SCALE);
        assert!(0 <= v.z && v.z < SCALE);
        let w = Vec3::random_range(&mut s, -SCALE, SCALE);
        assert!(-SCALE <= w.x && w.x <= SCALE);
        assert!(-SCALE <= w.y && w.y <= SCALE);
        assert!(-SCALE <= w.z && w.z <= SCALE);
        let u = Vec3::random_unit_vector(&mut s);
        assert!(u.x.abs() <= 2 * SCALE && u.y.abs() <= 2 * SCALE && u.z.abs() <= 2 * SCALE);
    }
}

#[test]
fn hemisphere_vector_agrees_with_normal() {
    let mut s = Sampler::seeded(11);
    let normal = Vec3::new(0, 0, SCALE);
    for _ in 0..50 {
        let v = Vec3::random_on_hemisphere(&mut s, &normal);
        let d = (v.x as i128) * (normal.x as i128) + (v.y as i128) * (normal.y as i128)
            + (v.z as i128) * (normal.z as i128);
        assert!(d >= 0);
    }
}
