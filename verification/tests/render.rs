use raytrace::SCALE;
use raytrace::camera::Camera;
use raytrace::hit::{HitRecord, Hittable};
use raytrace::hittable_list::HittableList;
use raytrace::interval::Interval;
use raytrace::ray::Ray;
use raytrace::sampler::Sampler;
use raytrace::sphere::Sphere;
use raytrace::vec3::Vec3;

fn blank() -> HitRecord {
    HitRecord::default()
}

#[test]
fn ray_through_centre_hits_with_unit_radial_normal() {
    // Sphere of radius one, centre two units ahead; the ray runs straight
    // through the centre.
    let s = Sphere::new(Vec3::new(0, 0, -2 * SCALE), SCALE);
    let r = Ray::new(Vec3::new(0, 0, 0), Vec3::new(0, 0, -SCALE));
    let mut rec = blank();
    let hit = s.hit(&r, &Interval::new(0, i64::MAX), &mut rec);
    assert!(hit);
    assert_eq!(rec.t, SCALE);
    assert_eq!(rec.p, Vec3::new(0, 0, -SCALE));
    // The normal is parallel to (hit point - centre) and has unit length.
    assert_eq!(rec.norm, rec.p.sub(s.centre));
    assert_eq!(rec.norm, Vec3::new(0, 0, SCALE));
    assert_eq!(rec.norm.length(), SCALE);
    assert!(rec.front_face);
}

#[test]
fn sphere_miss_leaves_record_untouched() {
    let s = Sphere::new(Vec3::new(0, 0, -2 * SCALE), SCALE);
    let up = Ray::new(Vec3::new(0, 0, 0), Vec3::new(0, SCALE, 0));
    let mut rec = blank();
    rec.t = 77;
    let hit = s.hit(&up, &Interval::new(0, i64::MAX), &mut rec);
    assert!(!hit);
    assert_eq!(rec.t, 77);
}

#[test]
fn sphere_behind_ray_is_not_hit() {
    let s = Sphere::new(Vec3::new(0, 0, 2 * SCALE), SCALE);
    let r = Ray::new(Vec3::new(0, 0, 0), Vec3::new(0, 0, -SCALE));
    let mut rec = blank();
    assert!(!s.hit(&r, &Interval::new(0, i64::MAX), &mut rec));
}

#[test]
fn back_face_hit_flips_the_normal() {
    // Ray starting inside the sphere strikes the back face.
    let s = Sphere::new(Vec3::new(0, 0, 0), SCALE);
    let r = Ray::new(Vec3::new(0, 0, 0), Vec3::new(0, 0, -SCALE));
    let mut rec = blank();
    assert!(s.hit(&r, &Interval::new(0, i64::MAX), &mut rec));
    assert_eq!(rec.t, SCALE);
    assert!(!rec.front_face);
    // Outward normal is (0,0,-1); stored normal points back against the ray.
    assert_eq!(rec.norm, Vec3::new(0, 0, SCALE));
}

#[test]
fn aggregate_reports_the_nearest_of_two_hits() {
    // Two spheres along one ray with analytic roots 1.5 and 3.
    let near = Sphere::new(Vec3::new(0, 0, -2 * SCALE), SCALE / 2);
    let far = Sphere::new(Vec3::new(0, 0, -4 * SCALE), SCALE);
    let r = Ray::new(Vec3::new(0, 0, 0), Vec3::new(0, 0, -SCALE));

    let mut world = HittableList::new(near);
    world.add(far);
    let mut rec = blank();
    assert!(world.hit(&r, &Interval::new(0, i64::MAX), &mut rec));
    assert_eq!(rec.t, 3 * SCALE / 2);

    // Insertion order does not change the nearest hit.
    let mut reversed = HittableList::new(far);
    reversed.add(near);
    let mut rec2 = blank();
    assert!(reversed.hit(&r, &Interval::new(0, i64::MAX), &mut rec2));
    assert_eq!(rec2.t, 3 * SCALE / 2);
    assert_eq!(rec, rec2);
}

#[test]
fn cleared_aggregate_hits_nothing() {
    let s = Sphere::new(Vec3::new(0, 0, -2 * SCALE), SCALE);
    let mut world = HittableList::new(s);
    world.clear();
    let r = Ray::new(Vec3::new(0, 0, 0), Vec3::new(0, 0, -SCALE));
    let mut rec = blank();
    rec.t = 5;
    assert!(!world.hit(&r, &Interval::new(0, i64::MAX), &mut rec));
    assert_eq!(rec.t, 5);
}

#[test]
fn ray_colour_at_zero_depth_is_black() {
    let s = Sphere::new(Vec3::new(0, 0, -2 * SCALE), SCALE);
    let world = HittableList::new(s);
    let r = Ray::new(Vec3::new(0, 0, 0), Vec3::new(0, 0, -SCALE));
    let mut sampler = Sampler::seeded(1);
    let c = Camera::ray_colour(&r, &world, 0, &mut sampler);
    assert_eq!(c, Vec3::new(0, 0, 0));
}

#[test]
fn background_up_is_skyblue_and_down_is_white() {
    // A sphere well off the ray so both rays miss.
    let s = Sphere::new(Vec3::new(0, 0, -8 * SCALE), SCALE);
    let world = HittableList::new(s);
    let mut sampler = Sampler::seeded(1);

    let up = Ray::new(Vec3::new(0, 0, 0), Vec3::new(0, SCALE, 0));
    let c_up = Camera::ray_colour(&up, &world, 5, &mut sampler);
    assert_eq!(c_up, Vec3::new(SCALE / 2, 734003, SCALE));

    let down = Ray::new(Vec3::new(0, 0, 0), Vec3::new(0, -SCALE, 0));
    let c_down = Camera::ray_colour(&down, &world, 5, &mut sampler);
    assert_eq!(c_down, Vec3::new(SCALE, SCALE, SCALE));
}

#[test]
fn camera_derives_its_geometry_exactly() {
    let cam = Camera::new(2 * SCALE, 200, 4, 10);
    assert_eq!(cam.image_height, 100);
    assert_eq!(cam.pixel_samples_scale, SCALE / 4);
    assert_eq!(cam.centre, Vec3::new(0, 0, 0));
    assert_eq!(cam.pixel_delta_u, Vec3::new(20971, 0, 0));
    assert_eq!(cam.pixel_delta_v, Vec3::new(0, -20971, 0));
    assert_eq!(cam.pixel00_loc.z, -SCALE);
}

#[test]
fn camera_height_is_at_least_one() {
    // An extreme aspect ratio still yields one pixel row.
    let cam = Camera::new(128 * SCALE, 2, 1, 1);
    assert_eq!(cam.image_height, 1);
}

#[test]
fn one_pixel_background_render_matches_reference_bytes() {
    // One pixel, square aspect, one centred sample, one bounce; the only
    // sphere misses, so the pixel is the background of direction
    // (0, 0, -1): a = 0.5, colour (0.75, ~0.85, 1.0).
    let cam = Camera::new(SCALE, 1, 1, 1);
    assert_eq!(cam.image_height, 1);
    let world = HittableList::new(Sphere::new(Vec3::new(0, 8 * SCALE, 0), SCALE));
    let mut sampler = Sampler::fixed(vec![SCALE / 2, SCALE / 2]);
    let out = cam.render(&world, &mut sampler);
    assert_eq!(out, b"P3\n1 1\n255\n192 217 255\n".to_vec());
}

#[test]
fn one_pixel_hit_render_is_black() {
    // The centred ray (0,0,-1) hits the sphere three units ahead; with a
    // bounce budget of one the bounce returns black, halved to black.
    let cam = Camera::new(SCALE, 1, 1, 1);
    let world = HittableList::new(Sphere::new(Vec3::new(0, 0, -4 * SCALE), SCALE));
    let mut sampler = Sampler::fixed(vec![SCALE / 2, SCALE / 2]);
    let out = cam.render(&world, &mut sampler);
    assert_eq!(out, b"P3\n1 1\n255\n0 0 0\n".to_vec());
}

#[test]
fn render_is_reproducible_under_a_fixed_sampler() {
    // The reference scene at a reduced size: the small sphere and the
    // ground sphere, rendered twice with identical fixed samplers.
    let mut world = HittableList::new(Sphere::new(Vec3::new(0, 0, -SCALE), SCALE / 2));
    world.add(Sphere::new(Vec3::new(0, -105381888, -SCALE), 100 * SCALE));
    let cam = Camera::new(1864135, 40, 4, 5);
    assert_eq!(cam.image_height, 23);

    let jitter: Vec<i64> = (0..97i64).map(|k| (k * 10861) % SCALE).collect();
    let mut s1 = Sampler::fixed(jitter.clone());
    let mut s2 = Sampler::fixed(jitter);
    let a = cam.render(&world, &mut s1);
    let b = cam.render(&world, &mut s2);
    assert_eq!(a, b);

    // Structure: header then width * height pixel lines of three decimal
    // values in [0, 255].
    let text = String::from_utf8(a).unwrap();
    let lines: Vec<&str> = text.lines().collect();
    assert_eq!(lines.len(), 3 + 40 * 23);
    assert_eq!(lines[0], "P3");
    assert_eq!(lines[1], "40 23");
    assert_eq!(lines[2], "255");
    for line in &lines[3..] {
        let parts: Vec<&str> = line.split(' ').collect();
        assert_eq!(parts.len(), 3);
        for p in parts {
            let v: i64 = p.parse().unwrap();
            assert!((0..=255).contains(&v));
        }
    }
}
