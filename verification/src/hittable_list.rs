//! The scene aggregate: an ordered, owning collection of primitives that
//! is itself intersectable, reporting the nearest hit among its members.

use vstd::prelude::*;

verus! {

use crate::hit::{HitRecord, Hittable};
use crate::interval::Interval;
use crate::ray::Ray;
use crate::vec3::Vec3;

/// The record value the scan carries before any member has hit.
pub open spec fn blank_rec() -> HitRecord {
    HitRecord {
        p: Vec3 { x: 0, y: 0, z: 0 },
        norm: Vec3 { x: 0, y: 0, z: 0 },
        t: 0,
        front_face: false,
    }
}

/// The left-to-right scan of the first `n` members with a shrinking upper
/// bound: whether any member hit, the record of the latest accepted hit,
/// and the current bound (initially `tmax0`, then the parameter of each
/// accepted hit). A later member is accepted only strictly inside the
/// shrunk interval, so acceptance means a strictly nearer hit; ties keep
/// the earlier member.
pub open spec fn scan_spec<T: Hittable>(
    objs: Seq<T>,
    r: Ray,
    tmin: int,
    tmax0: int,
    n: int,
) -> (bool, HitRecord, int)
    decreases n,
{
    if n <= 0 {
        (false, blank_rec(), tmax0)
    } else {
        let prev = scan_spec(objs, r, tmin, tmax0, n - 1);
        if objs[n - 1].spec_hit(r, tmin, prev.2) {
            let rec = objs[n - 1].spec_rec(r, tmin, prev.2);
            (true, rec, rec.t as int)
        } else {
            prev
        }
    }
}

/// After scanning `n` members, the bound is the latest accepted parameter,
/// strictly inside `(tmin, tmax0)`, or still `tmax0` when nothing hit.
pub proof fn lemma_scan_range<T: Hittable>(objs: Seq<T>, r: Ray, tmin: int, tmax0: int, n: int)
    requires
        0 <= n <= objs.len(),
    ensures
        ({
            let sc = scan_spec(objs, r, tmin, tmax0, n);
            &&& sc.0 ==> tmin < sc.1.t < tmax0 && sc.2 == sc.1.t
            &&& !sc.0 ==> sc.2 == tmax0
        }),
    decreases n,
{
    if n > 0 {
        lemma_scan_range(objs, r, tmin, tmax0, n - 1);
        let prev = scan_spec(objs, r, tmin, tmax0, n - 1);
        if objs[n - 1].spec_hit(r, tmin, prev.2) {
            objs[n - 1].lemma_hit_in_range(r, tmin, prev.2);
        }
    }
}

use crate::sphere::{
    Sphere, sphere_hit_spec, sphere_rec_spec, chosen_root, root_near, root_far,
    lemma_roots_ordered,
};

/// The nearest hit wins: with two spheres both hit by the ray strictly
/// inside `(tmin, tmax)` and the first one's reported parameter the
/// nearer, the aggregate of the two reports exactly the first parameter.
pub proof fn lemma_two_spheres_nearest(
    l: HittableList<Sphere>,
    s1: Sphere,
    s2: Sphere,
    r: Ray,
    tmin: int,
    tmax: int,
)
    requires
        l.objects@ =~= seq![s1, s2],
        sphere_hit_spec(s1, r, tmin, tmax),
        sphere_hit_spec(s2, r, tmin, tmax),
        chosen_root(s1, r, tmin, tmax) < chosen_root(s2, r, tmin, tmax),
    ensures
        l.spec_hit(r, tmin, tmax),
        l.spec_rec(r, tmin, tmax).t == chosen_root(s1, r, tmin, tmax),
{
    let objs = l.objects@;
    let t1 = chosen_root(s1, r, tmin, tmax);
    let t2 = chosen_root(s2, r, tmin, tmax);
    assert(tmin < t1 < tmax);
    let sc0 = scan_spec(objs, r, tmin, tmax, 0);
    assert(sc0 == (false, blank_rec(), tmax));
    let sc1 = scan_spec(objs, r, tmin, tmax, 1);
    assert(objs[0] == s1);
    assert(sc1.0 && sc1.1 == sphere_rec_spec(s1, r, tmin, tmax) && sc1.2 == t1);
    lemma_roots_ordered(s2, r);
    assert(!sphere_hit_spec(s2, r, tmin, t1)) by {
        if tmin < root_near(s2, r) < tmax {
            assert(t2 == root_near(s2, r));
            assert(!(tmin < root_near(s2, r) < t1));
            assert(!(tmin < root_far(s2, r) < t1));
        } else {
            assert(t2 == root_far(s2, r));
            assert(!(tmin < root_near(s2, r) < t1));
            assert(!(tmin < root_far(s2, r) < t1));
        }
    }
    let sc2 = scan_spec(objs, r, tmin, tmax, 2);
    assert(objs[1] == s2);
    assert(sc2 == sc1);
    assert(objs.len() == 2);
}

/// An ordered collection of primitives, searched as one composite.
pub struct HittableList<T: Hittable> {
    pub objects: Vec<T>,
}

impl<T: Hittable> HittableList<T> {
    /// A list holding the one given object.
    pub fn new(object: T) -> (l: Self)
        ensures
            l.objects@ =~= seq![object],
    {
        let mut objects: Vec<T> = Vec::new();
        objects.push(object);
        HittableList { objects }
    }

    /// Appends an object, keeping insertion order.
    pub fn add(&mut self, object: T)
        ensures
            final(self).objects@ == old(self).objects@.push(object),
    {
        self.objects.push(object);
    }

    /// Removes every object.
    pub fn clear(&mut self)
        ensures
            final(self).objects@ =~= Seq::<T>::empty(),
    {
        self.objects.clear();
    }
}

impl<T: Hittable> Hittable for HittableList<T> {
    open spec fn spec_hit(&self, r: Ray, tmin: int, tmax: int) -> bool {
        scan_spec(self.objects@, r, tmin, tmax, self.objects@.len() as int).0
    }

    open spec fn spec_rec(&self, r: Ray, tmin: int, tmax: int) -> HitRecord {
        scan_spec(self.objects@, r, tmin, tmax, self.objects@.len() as int).1
    }

    proof fn lemma_hit_in_range(&self, r: Ray, tmin: int, tmax: int) {
        lemma_scan_range(self.objects@, r, tmin, tmax, self.objects@.len() as int);
    }

    fn hit(&self, r: &Ray, ray_t: &Interval, rec: &mut HitRecord) -> (b: bool) {
        let mut temp = HitRecord::default();
        let mut best = HitRecord::default();
        let mut hit_anything = false;
        let mut closest = ray_t.max;
        let mut i: usize = 0;
        let n = self.objects.len();
        while i < n
            invariant
                i <= n,
                n == self.objects@.len(),
                ({
                    let sc = scan_spec(
                        self.objects@,
                        *r,
                        ray_t.min as int,
                        ray_t.max as int,
                        i as int,
                    );
                    &&& sc.0 == hit_anything
                    &&& hit_anything ==> sc.1 == best
                    &&& sc.2 == closest as int
                }),
            decreases n - i,
        {
            let obj = &self.objects[i];
            let sub = Interval::new(ray_t.min, closest);
            if obj.hit(r, &sub, &mut temp) {
                hit_anything = true;
                closest = temp.t;
                best = temp;
            }
            i = i + 1;
        }
        if hit_anything {
            *rec = best;
        }
        hit_anything
    }
}

} // verus!
