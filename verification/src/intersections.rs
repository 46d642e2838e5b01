//! Intersections: `(t, object)` pairs kept sorted by `t`, hit selection,
//! and the shading context derived for a hit.
//!
//! An intersection refers to its shape by index into the scene's shape
//! list, so that the refraction bookkeeping can compare object identity by
//! a stable index.

use vstd::prelude::*;

use crate::fx::{fx_near, Fx};

verus! {

/// A single crossing of a ray with a shape: the ray parameter and the
/// index of the shape in the scene's list.
#[derive(Clone, Copy, Debug)]
pub struct Intersection {
    pub t: Fx,
    pub object: usize,
}

impl Intersection {
    pub fn new(t: Fx, object: usize) -> (r: Intersection)
        ensures
            r == (Intersection { t, object }),
    {
        Intersection { t, object }
    }
}

impl PartialEq for Intersection {
    /// Epsilon-tolerant on `t`; exact on the object index.
    fn eq(&self, other: &Self) -> (r: bool) {
        self.t.approx_eq(other.t) && self.object == other.object
    }
}

impl vstd::std_specs::cmp::PartialEqSpecImpl for Intersection {
    open spec fn obeys_eq_spec() -> bool {
        true
    }

    open spec fn eq_spec(&self, other: &Intersection) -> bool {
        fx_near(self.t, other.t) && self.object == other.object
    }
}

/// Nondecreasing in `t`.
pub open spec fn sorted_by_t(s: Seq<Intersection>) -> bool {
    forall|i: int, j: int| 0 <= i < j < s.len() ==> s[i].t.raw <= s[j].t.raw
}

/// Stable insertion: `x` goes after every element with `t` at most its own.
pub open spec fn insert_sorted(s: Seq<Intersection>, x: Intersection) -> Seq<Intersection>
    decreases s.len(),
{
    if s.len() == 0 {
        seq![x]
    } else if s[0].t.raw <= x.t.raw {
        seq![s[0]] + insert_sorted(s.skip(1), x)
    } else {
        seq![x] + s
    }
}

/// Stable insertion sort by `t`.
pub open spec fn sort_by_t(s: Seq<Intersection>) -> Seq<Intersection>
    decreases s.len(),
{
    if s.len() == 0 {
        Seq::<Intersection>::empty()
    } else {
        insert_sorted(sort_by_t(s.drop_last()), s.last())
    }
}

/// Inserting at the boundary position reproduces the recursive definition.
proof fn lemma_insert_at(s: Seq<Intersection>, x: Intersection, p: int)
    requires
        0 <= p <= s.len(),
        forall|j: int| 0 <= j < p ==> s[j].t.raw <= x.t.raw,
        p < s.len() ==> s[p].t.raw > x.t.raw,
    ensures
        insert_sorted(s, x) == s.take(p) + seq![x] + s.skip(p),
    decreases p,
{
    if p == 0 {
        if s.len() == 0 {
            assert(insert_sorted(s, x) =~= s.take(0) + seq![x] + s.skip(0));
        } else {
            assert(s[0].t.raw > x.t.raw);
            assert(insert_sorted(s, x) =~= s.take(0) + seq![x] + s.skip(0));
        }
    } else {
        assert(s[0].t.raw <= x.t.raw);
        lemma_insert_at(s.skip(1), x, p - 1);
        assert(s.skip(1).take(p - 1) =~= s.take(p).skip(1));
        assert(s.skip(1).skip(p - 1) =~= s.skip(p));
        assert(insert_sorted(s, x) =~= s.take(p) + seq![x] + s.skip(p));
    }
}

/// Inserting into a sorted sequence keeps it sorted.
proof fn lemma_insert_at_sorted(s: Seq<Intersection>, x: Intersection, p: int)
    requires
        0 <= p <= s.len(),
        forall|j: int| 0 <= j < p ==> s[j].t.raw <= x.t.raw,
        p < s.len() ==> s[p].t.raw > x.t.raw,
        sorted_by_t(s),
    ensures
        sorted_by_t(s.take(p) + seq![x] + s.skip(p)),
{
    let r = s.take(p) + seq![x] + s.skip(p);
    assert forall|i: int, j: int| 0 <= i < j < r.len() implies r[i].t.raw <= r[j].t.raw by {
        if i < p {
            assert(r[i] == s[i]);
        } else if i == p {
            assert(r[i] == x);
        } else {
            assert(r[i] == s[i - 1]);
        }
        if j < p {
            assert(r[j] == s[j]);
        } else if j == p {
            assert(r[j] == x);
        } else {
            assert(r[j] == s[j - 1]);
        }
    }
}

/// A list of intersections sorted ascending by `t`.
#[derive(Clone, Debug, PartialEq)]
pub struct Intersections {
    pub vec: Vec<Intersection>,
}

impl Intersections {
    /// Sorts the given crossings by `t` (stably) and wraps them.
    pub fn new(vec: Vec<Intersection>) -> (r: Intersections)
        ensures
            r.vec@ == sort_by_t(vec@),
            sorted_by_t(r.vec@),
    {
        let n = vec.len();
        let mut out: Vec<Intersection> = Vec::new();
        let mut i: usize = 0;
        while i < n
            invariant
                i <= n,
                n == vec@.len(),
                out@ == sort_by_t(vec@.take(i as int)),
                sorted_by_t(out@),
            decreases n - i,
        {
            let x = vec[i];
            let mut p: usize = 0;
            while p < out.len() && out[p].t.raw <= x.t.raw
                invariant
                    p <= out@.len(),
                    forall|j: int| 0 <= j < p ==> out@[j].t.raw <= x.t.raw,
                decreases out@.len() - p,
            {
                p = p + 1;
            }
            proof {
                lemma_insert_at(out@, x, p as int);
                lemma_insert_at_sorted(out@, x, p as int);
                assert(vec@.take(i + 1).drop_last() =~= vec@.take(i as int));
                assert(vec@.take(i + 1).last() == x);
            }
            out.insert(p, x);
            proof {
                assert(out@ =~= sort_by_t(vec@.take(i as int)).take(p as int) + seq![x]
                    + sort_by_t(vec@.take(i as int)).skip(p as int));
            }
            i = i + 1;
        }
        proof {
            assert(vec@.take(n as int) =~= vec@);
        }
        Intersections { vec: out }
    }

    pub fn len(&self) -> (r: usize)
        ensures
            r == self.vec@.len(),
    {
        self.vec.len()
    }

    pub fn get(&self, i: usize) -> (r: Intersection)
        requires
            i < self.vec@.len(),
        ensures
            r == self.vec@[i as int],
    {
        self.vec[i]
    }

    /// The hit: the index of the first intersection with `t >= 0`, which by
    /// sortedness carries the smallest non-negative `t`. Found by binary
    /// search, since every negative `t` precedes every non-negative one.
    pub fn hit(&self) -> (r: Option<usize>)
        requires
            sorted_by_t(self.vec@),
        ensures
            match r {
                Some(i) => i < self.vec@.len() && self.vec@[i as int].t.raw >= 0 && (forall|j: int|
                    0 <= j < i ==> self.vec@[j].t.raw < 0) && (forall|j: int|
                    0 <= j < self.vec@.len() && self.vec@[j].t.raw >= 0 ==> self.vec@[
                        i as int
                    ].t.raw <= self.vec@[j].t.raw),
                None => forall|j: int| 0 <= j < self.vec@.len() ==> self.vec@[j].t.raw < 0,
            },
    {
        let n = self.vec.len();
        let mut lo: usize = 0;
        let mut hi: usize = n;
        while lo < hi
            invariant
                lo <= hi <= n,
                n == self.vec@.len(),
                sorted_by_t(self.vec@),
                forall|j: int| 0 <= j < lo ==> self.vec@[j].t.raw < 0,
                forall|j: int| hi <= j < n ==> self.vec@[j].t.raw >= 0,
            decreases hi - lo,
        {
            let mid = lo + (hi - lo) / 2;
            if self.vec[mid].t.raw < 0 {
                lo = mid + 1;
            } else {
                hi = mid;
            }
        }
        if lo < n {
            Some(lo)
        } else {
            None
        }
    }
}


/// Raised when a normal cannot be carried back to world space.
#[derive(Clone, Copy, Debug, PartialEq, Eq, Structural, Default)]
pub struct NormalTransformationError;

/// The first occurrence of a value removed from a sequence; the sequence
/// itself when the value does not occur.
pub open spec fn remove_first(s: Seq<usize>, v: usize) -> Seq<usize>
    decreases s.len(),
{
    if s.len() == 0 {
        s
    } else if s[0] == v {
        s.skip(1)
    } else {
        seq![s[0]] + remove_first(s.skip(1), v)
    }
}

/// One step of the containment walk: meeting an object already entered
/// leaves it; meeting a new one enters it at the end.
pub open spec fn containers_step(prev: Seq<usize>, obj: usize) -> Seq<usize> {
    if prev.contains(obj) {
        remove_first(prev, obj)
    } else {
        prev.push(obj)
    }
}

/// The objects the ray is inside of after the first `k` intersections of
/// the sorted list have been crossed, in order of entry.
pub open spec fn containers_after(xs: Seq<Intersection>, k: int) -> Seq<usize>
    decreases k,
{
    if k <= 0 {
        Seq::<usize>::empty()
    } else {
        containers_step(containers_after(xs, k - 1), xs[k - 1].object)
    }
}

proof fn lemma_remove_first_at(s: Seq<usize>, v: usize, p: int)
    requires
        0 <= p < s.len(),
        s[p] == v,
        forall|j: int| 0 <= j < p ==> s[j] != v,
    ensures
        remove_first(s, v) == s.remove(p),
    decreases p,
{
    if p == 0 {
        assert(remove_first(s, v) =~= s.remove(0));
    } else {
        lemma_remove_first_at(s.skip(1), v, p - 1);
        assert(s.skip(1).remove(p - 1) =~= s.remove(p).skip(1));
        assert(remove_first(s, v) =~= s.remove(p));
    }
}

/// The refractive index of the innermost active medium: vacuum when the
/// stack is empty.
pub open spec fn refractive_at(shapes: Seq<crate::shapes::Shape>, stack: Seq<usize>) -> Fx {
    if stack.len() == 0 {
        crate::fx::fx(crate::fx::SCALE as int)
    } else {
        shapes[stack.last() as int].material.refractive_index
    }
}

/// Everything the shader needs to know about one hit.
#[derive(Clone, Debug)]
pub struct HitInfo {
    pub t: Fx,
    pub object: usize,
    pub point: crate::tuples::Point,
    pub eyev: crate::tuples::Vector,
    pub normal: crate::tuples::Vector,
    pub inside: bool,
    pub over_point: crate::tuples::Point,
    pub reflectv: crate::tuples::Vector,
    pub n1: Fx,
    pub n2: Fx,
    pub under_point: crate::tuples::Point,
}

/// The hit index is in range and every intersection up to it names a shape
/// of the scene.
pub open spec fn prepare_valid(
    shapes: Seq<crate::shapes::Shape>,
    xs: Seq<Intersection>,
    hit_index: int,
) -> bool {
    0 <= hit_index < xs.len() && forall|k: int|
        0 <= k <= hit_index ==> (#[trigger] xs[k].object) < shapes.len()
}

/// The shading context for the hit at `hit_index`: the surface point, the
/// eye and (possibly flipped) normal directions, the nudged over- and
/// under-points, the reflection direction, and the refractive indices of
/// the media being left and entered, read from the containment walk just
/// before and just after the hit is crossed.
pub open spec fn hit_info_spec(
    shapes: Seq<crate::shapes::Shape>,
    xs: Seq<Intersection>,
    ray: crate::rays::Ray,
    hit_index: int,
) -> HitInfo {
    let t = xs[hit_index].t;
    let object = xs[hit_index].object;
    let point = crate::rays::position_spec(ray, t);
    let eyev = crate::tuples::vector_neg(ray.direction);
    let naive_normal = crate::shapes::shape_normal_spec(shapes[object as int], point);
    let inside = crate::tuples::dot_spec(naive_normal, eyev).raw < 0;
    let normal = if inside {
        crate::tuples::vector_neg(naive_normal)
    } else {
        naive_normal
    };
    let nudge = crate::tuples::vector_scale(normal, crate::fx::fx(crate::fx::EPSILON_RAW as int));
    HitInfo {
        t,
        object,
        point,
        eyev,
        normal,
        inside,
        over_point: crate::tuples::point_add_vector(point, nudge),
        reflectv: crate::tuples::reflect_spec(ray.direction, normal),
        n1: refractive_at(shapes, containers_after(xs, hit_index)),
        n2: refractive_at(shapes, containers_after(xs, hit_index + 1)),
        under_point: crate::tuples::point_sub_vector(point, nudge),
    }
}

impl HitInfo {
    /// Derives the shading context for the hit at `hit_index` of a sorted
    /// intersection list. Returns nothing when the index is out of range or
    /// an intersection up to it names no shape of the scene.
    pub fn prepare(
        shapes: &Vec<crate::shapes::Shape>,
        intersections: &Intersections,
        ray: &crate::rays::Ray,
        hit_index: usize,
    ) -> (r: Option<HitInfo>)
        ensures
            prepare_valid(shapes@, intersections.vec@, hit_index as int) ==> r == Some(
                hit_info_spec(shapes@, intersections.vec@, *ray, hit_index as int),
            ),
            !prepare_valid(shapes@, intersections.vec@, hit_index as int) ==> r is None,
    {
        let n = intersections.vec.len();
        if hit_index >= n {
            return None;
        }
        let mut k: usize = 0;
        while k <= hit_index
            invariant
                k <= hit_index + 1,
                hit_index < n,
                n == intersections.vec@.len(),
                forall|j: int|
                    0 <= j < k ==> (#[trigger] intersections.vec@[j].object) < shapes@.len(),
            decreases hit_index + 1 - k,
        {
            if intersections.vec[k].object >= shapes.len() {
                return None;
            }
            k = k + 1;
        }
        let intersection = intersections.vec[hit_index];
        let t = intersection.t;
        let object = intersection.object;
        let point = ray.position(t);
        let eyev = ray.direction.neg();
        let naive_normal = shapes[object].normal_at(point);
        let inside = crate::tuples::Vector::dot(naive_normal, eyev).raw < 0;
        let normal = if inside {
            naive_normal.neg()
        } else {
            naive_normal
        };
        let nudge = normal.scale(Fx::from_raw(crate::fx::EPSILON_RAW));
        let over_point = point.add(nudge);
        let under_point = point.sub_vector(nudge);
        let reflectv = ray.direction.reflect(normal);

        let mut n1 = Fx::one();
        let mut n2 = Fx::one();
        let mut containers: Vec<usize> = Vec::new();
        let mut i: usize = 0;
        while i <= hit_index
            invariant
                i <= hit_index + 1,
                hit_index < n,
                n == intersections.vec@.len(),
                containers@ == containers_after(intersections.vec@, i as int),
                forall|j: int|
                    0 <= j <= hit_index ==> (#[trigger] intersections.vec@[j].object)
                        < shapes@.len(),
                forall|j: int| 0 <= j < containers@.len() ==> (#[trigger] containers@[j]) < shapes@.len(),
                i <= hit_index ==> n1 == (Fx { raw: crate::fx::SCALE }),
                i == hit_index + 1 ==> n1 == refractive_at(
                    shapes@,
                    containers_after(intersections.vec@, hit_index as int),
                ),
                i == hit_index + 1 ==> n2 == refractive_at(
                    shapes@,
                    containers_after(intersections.vec@, hit_index + 1),
                ),
            decreases hit_index + 1 - i,
        {
            let obj = intersections.vec[i].object;
            if i == hit_index {
                if containers.len() > 0 {
                    n1 = shapes[containers[containers.len() - 1]].material.refractive_index;
                } else {
                    n1 = Fx::one();
                }
            }
            let cn = containers.len();
            let mut p: usize = 0;
            while p < cn && containers[p] != obj
                invariant
                    p <= cn,
                    cn == containers@.len(),
                    forall|j: int| 0 <= j < p ==> containers@[j] != obj,
                decreases cn - p,
            {
                p = p + 1;
            }
            if p < cn {
                proof {
                    lemma_remove_first_at(containers@, obj, p as int);
                }
                containers.remove(p);
            } else {
                proof {
                    assert(!containers@.contains(obj));
                }
                containers.push(obj);
            }
            if i == hit_index {
                if containers.len() > 0 {
                    n2 = shapes[containers[containers.len() - 1]].material.refractive_index;
                } else {
                    n2 = Fx::one();
                }
            }
            i = i + 1;
        }
        Some(
            HitInfo {
                t,
                object,
                point,
                eyev,
                normal,
                inside,
                over_point,
                reflectv,
                n1,
                n2,
                under_point,
            },
        )
    }
}


/// Insertion keeps every object index below a bound.
pub proof fn lemma_insert_sorted_objects(s: Seq<Intersection>, x: Intersection, bound: int)
    requires
        forall|k: int| 0 <= k < s.len() ==> (#[trigger] s[k].object) < bound,
        x.object < bound,
    ensures
        forall|k: int|
            0 <= k < insert_sorted(s, x).len() ==> (#[trigger] insert_sorted(s, x)[k].object)
                < bound,
    decreases s.len(),
{
    if s.len() == 0 {
    } else if s[0].t.raw <= x.t.raw {
        assert(forall|k: int|
            0 <= k < s.skip(1).len() ==> (#[trigger] s.skip(1)[k].object) < bound);
        lemma_insert_sorted_objects(s.skip(1), x, bound);
        let r = insert_sorted(s, x);
        assert forall|k: int| 0 <= k < r.len() implies (#[trigger] r[k].object) < bound by {
            if k > 0 {
                assert(r[k] == insert_sorted(s.skip(1), x)[k - 1]);
            }
        }
    } else {
        let r = insert_sorted(s, x);
        assert forall|k: int| 0 <= k < r.len() implies (#[trigger] r[k].object) < bound by {
            if k > 0 {
                assert(r[k] == s[k - 1]);
            }
        }
    }
}

/// The sort keeps every object index below a bound.
pub proof fn lemma_sort_by_t_objects(s: Seq<Intersection>, bound: int)
    requires
        forall|k: int| 0 <= k < s.len() ==> (#[trigger] s[k].object) < bound,
    ensures
        forall|k: int|
            0 <= k < sort_by_t(s).len() ==> (#[trigger] sort_by_t(s)[k].object) < bound,
    decreases s.len(),
{
    if s.len() > 0 {
        assert(forall|k: int|
            0 <= k < s.drop_last().len() ==> (#[trigger] s.drop_last()[k].object) < bound);
        lemma_sort_by_t_objects(s.drop_last(), bound);
        lemma_insert_sorted_objects(sort_by_t(s.drop_last()), s.last(), bound);
    }
}

/// The first index carrying a non-negative `t`, from position `k` on; `-1`
/// when there is none.
pub open spec fn first_nonneg(s: Seq<Intersection>, k: int) -> int
    decreases s.len() - k,
    when 0 <= k <= s.len()
{
    if k >= s.len() {
        -1
    } else if s[k].t.raw >= 0 {
        k
    } else {
        first_nonneg(s, k + 1)
    }
}

proof fn lemma_first_nonneg_from(s: Seq<Intersection>, i: int, k: int)
    requires
        0 <= k <= i < s.len(),
        s[i].t.raw >= 0,
        forall|j: int| 0 <= j < i ==> s[j].t.raw < 0,
    ensures
        first_nonneg(s, k) == i,
    decreases i - k,
{
    if k < i {
        lemma_first_nonneg_from(s, i, k + 1);
    }
}

/// The hit index returned by search is the first non-negative position.
pub proof fn lemma_first_nonneg_eq(s: Seq<Intersection>, i: int)
    requires
        0 <= i < s.len(),
        s[i].t.raw >= 0,
        forall|j: int| 0 <= j < i ==> s[j].t.raw < 0,
    ensures
        first_nonneg(s, 0) == i,
{
    lemma_first_nonneg_from(s, i, 0);
}

proof fn lemma_first_nonneg_none_from(s: Seq<Intersection>, k: int)
    requires
        0 <= k <= s.len(),
        forall|j: int| 0 <= j < s.len() ==> s[j].t.raw < 0,
    ensures
        first_nonneg(s, k) == -1,
    decreases s.len() - k,
{
    if k < s.len() {
        lemma_first_nonneg_none_from(s, k + 1);
    }
}

/// With only negative `t` values there is no hit.
pub proof fn lemma_first_nonneg_none(s: Seq<Intersection>)
    requires
        forall|j: int| 0 <= j < s.len() ==> s[j].t.raw < 0,
    ensures
        first_nonneg(s, 0) == -1,
{
    lemma_first_nonneg_none_from(s, 0);
}

} // verus!
