use crate::bitmap::Color;
use crate::matrix::Matrix;
use crate::matrix_3d::{ray_hit, ray_intersects_triangle, Model, RaycastHit, Triangle};
use crate::scalar::{less_is_an_order, one, zero, Scalar};
use crate::vector::{inner4, minus4, over4, plus4, times4, Point};
use vstd::prelude::*;

verus! {

/// The deepest level of reflection: a ray at this depth is not reflected
/// any further.
pub const MAX_DEPTH: u32 = 2;

/// The nearer of the hit found so far and a new one on model `k`: the new
/// one only where its distance is less than that of the one found so far.
pub open spec fn nearer<T: Scalar>(
    best: Option<(RaycastHit<T>, int)>,
    found: Option<RaycastHit<T>>,
    k: int,
) -> Option<(RaycastHit<T>, int)> {
    match found {
        None => best,
        Some(hit) => match best {
            None => Some((hit, k)),
            Some((b, _)) => if hit.t.less_spec(b.t) {
                Some((hit, k))
            } else {
                best
            },
        },
    }
}

/// The nearest hit after the first `n` triangles of `mesh`, which belongs
/// to model `k`, given the nearest hit `best` on what came before it.
pub open spec fn nearest_in_mesh<T: Scalar>(
    origin: Point<T>,
    direction: Point<T>,
    mesh: Seq<Triangle<T>>,
    k: int,
    best: Option<(RaycastHit<T>, int)>,
    n: nat,
) -> Option<(RaycastHit<T>, int)>
    decreases n,
{
    if n == 0 {
        best
    } else {
        nearer(
            nearest_in_mesh(origin, direction, mesh, k, best, (n - 1) as nat),
            ray_hit(origin, direction, mesh[n - 1]),
            k,
        )
    }
}

/// The nearest hit of the ray on the first `n` models, with the index of
/// the model that it is on. Of hits at the same distance the first counts:
/// models in their order, and the triangles of a model in theirs.
pub open spec fn nearest_in_scene<T: Scalar>(
    origin: Point<T>,
    direction: Point<T>,
    models: Seq<Model<T>>,
    n: nat,
) -> Option<(RaycastHit<T>, int)>
    decreases n,
{
    if n == 0 {
        None
    } else {
        nearest_in_mesh(
            origin,
            direction,
            models[n - 1].mesh@,
            n - 1,
            nearest_in_scene(origin, direction, models, (n - 1) as nat),
            models[n - 1].mesh@.len(),
        )
    }
}

/// The nearest hit of the ray on the scene.
pub open spec fn nearest<T: Scalar>(
    origin: Point<T>,
    direction: Point<T>,
    models: Seq<Model<T>>,
) -> Option<(RaycastHit<T>, int)> {
    nearest_in_scene(origin, direction, models, models.len())
}

/// The ray misses every triangle of every model.
pub open spec fn misses_all<T: Scalar>(
    origin: Point<T>,
    direction: Point<T>,
    models: Seq<Model<T>>,
) -> bool {
    forall|k: int, i: int|
        0 <= k < models.len() && 0 <= i < models[k].mesh@.len() ==> (#[trigger] ray_hit(
            origin,
            direction,
            models[k].mesh@[i],
        )) is None
}

/// The colour that a model shows by itself: its colour times its
/// reflectivity.
pub open spec fn surface<T: Scalar>(model: Model<T>) -> Matrix<T, 1, 4> {
    times4(model.color, model.reflect)
}

/// The direction of the ray after it is reflected at `hit`: the direction
/// less twice its part along the normal.
pub open spec fn reflected_direction<T: Scalar>(direction: Point<T>, hit: RaycastHit<T>) -> Point<
    T,
> {
    let along = inner4(direction, hit.normal);
    minus4(direction, times4(hit.normal, T::from_int_spec(2).mul_spec(along)))
}

/// The origin of the reflected ray: the point of the hit, set back by a
/// thousandth of the normal so that the ray does not meet its own surface.
pub open spec fn reflected_origin<T: Scalar>(
    origin: Point<T>,
    direction: Point<T>,
    hit: RaycastHit<T>,
) -> Point<T> {
    minus4(plus4(origin, times4(direction, hit.t)), over4(hit.normal, T::from_int_spec(1000)))
}

/// Whether the ray, seen at `depth`, is followed further: it hits a model
/// whose own colour has an alpha below one, and `depth` is below the cap.
pub open spec fn reflects<T: Scalar>(
    origin: Point<T>,
    direction: Point<T>,
    models: Seq<Model<T>>,
    depth: u32,
) -> bool {
    match nearest(origin, direction, models) {
        None => false,
        Some((_, k)) => surface(models[k]).at(0, 3).less_spec(one::<T>()) && depth < MAX_DEPTH,
    }
}

/// The colour that the ray from `origin` along `direction` brings back,
/// seen at `depth`: the background where it hits nothing; else the colour
/// of the model that it hits first, to which, where the ray is followed
/// further, the colour that the reflected ray brings back is added.
pub open spec fn shade<T: Scalar>(
    origin: Point<T>,
    direction: Point<T>,
    background: Matrix<T, 1, 4>,
    models: Seq<Model<T>>,
    depth: u32,
) -> Matrix<T, 1, 4>
    decreases MAX_DEPTH - depth,
{
    match nearest(origin, direction, models) {
        None => background,
        Some((hit, k)) => {
            let out = surface(models[k]);
            if out.at(0, 3).less_spec(one::<T>()) && depth < MAX_DEPTH {
                plus4(
                    out,
                    shade(
                        reflected_origin(origin, direction, hit),
                        reflected_direction(direction, hit),
                        background,
                        models,
                        (depth + 1) as u32,
                    ),
                )
            } else {
                out
            }
        },
    }
}

/// The greatest depth at which a ray is cast when the ray from `origin`
/// along `direction` is shaded at `depth`.
pub open spec fn deepest<T: Scalar>(
    origin: Point<T>,
    direction: Point<T>,
    models: Seq<Model<T>>,
    depth: u32,
) -> nat
    decreases MAX_DEPTH - depth,
{
    match nearest(origin, direction, models) {
        None => depth as nat,
        Some((hit, k)) => {
            if surface(models[k]).at(0, 3).less_spec(one::<T>()) && depth < MAX_DEPTH {
                deepest(
                    reflected_origin(origin, direction, hit),
                    reflected_direction(direction, hit),
                    models,
                    (depth + 1) as u32,
                )
            } else {
                depth as nat
            }
        },
    }
}

/// The channel that stands for `v`: `v` times 255, cut to a whole number
/// from 0 to 255.
pub open spec fn channel<T: Scalar>(v: T) -> u8 {
    let n = v.mul_spec(T::from_int_spec(255)).to_int_spec();
    if n > 255 {
        255u8
    } else {
        n as u8
    }
}

proof fn lemma_miss_in_mesh<T: Scalar>(
    origin: Point<T>,
    direction: Point<T>,
    mesh: Seq<Triangle<T>>,
    k: int,
    n: nat,
)
    requires
        n <= mesh.len(),
        forall|i: int| 0 <= i < mesh.len() ==> (#[trigger] ray_hit(origin, direction, mesh[i])) is None,
    ensures
        nearest_in_mesh(origin, direction, mesh, k, None, n) is None,
    decreases n,
{
    if n > 0 {
        lemma_miss_in_mesh(origin, direction, mesh, k, (n - 1) as nat);
        assert(ray_hit(origin, direction, mesh[n - 1]) is None);
    }
}

proof fn lemma_miss_in_scene<T: Scalar>(
    origin: Point<T>,
    direction: Point<T>,
    models: Seq<Model<T>>,
    n: nat,
)
    requires
        n <= models.len(),
        misses_all(origin, direction, models),
    ensures
        nearest_in_scene(origin, direction, models, n) is None,
    decreases n,
{
    if n > 0 {
        lemma_miss_in_scene(origin, direction, models, (n - 1) as nat);
        let mesh = models[n - 1].mesh@;
        assert forall|i: int| 0 <= i < mesh.len() implies (#[trigger] ray_hit(
            origin,
            direction,
            mesh[i],
        )) is None by {
            assert(ray_hit(origin, direction, models[n - 1].mesh@[i]) is None);
        }
        lemma_miss_in_mesh(origin, direction, mesh, n - 1, mesh.len());
    }
}

/// No hit of the ray on the first `n` triangles of `mesh` is nearer than
/// `best`.
spec fn is_least_in_mesh<T: Scalar>(
    origin: Point<T>,
    direction: Point<T>,
    mesh: Seq<Triangle<T>>,
    n: nat,
    best: RaycastHit<T>,
) -> bool {
    forall|i: int|
        0 <= i < n ==> match #[trigger] ray_hit(origin, direction, mesh[i]) {
            None => true,
            Some(h) => !h.t.less_spec(best.t),
        }
}

/// No hit of the ray on the first `n` models is nearer than `best`.
spec fn is_least_in_scene<T: Scalar>(
    origin: Point<T>,
    direction: Point<T>,
    models: Seq<Model<T>>,
    n: nat,
    best: RaycastHit<T>,
) -> bool {
    forall|k: int, i: int|
        0 <= k < n && 0 <= i < models[k].mesh@.len() ==> match #[trigger] ray_hit(
            origin,
            direction,
            models[k].mesh@[i],
        ) {
            None => true,
            Some(h) => !h.t.less_spec(best.t),
        }
}

proof fn lemma_least_in_mesh<T: Scalar>(
    origin: Point<T>,
    direction: Point<T>,
    models: Seq<Model<T>>,
    k: int,
    before: Option<(RaycastHit<T>, int)>,
    n: nat,
)
    requires
        less_is_an_order::<T>(),
        0 <= k < models.len(),
        n <= models[k].mesh@.len(),
        match before {
            None => forall|j: int, i: int|
                0 <= j < k && 0 <= i < models[j].mesh@.len() ==> (#[trigger] ray_hit(
                    origin,
                    direction,
                    models[j].mesh@[i],
                )) is None,
            Some((b, j)) => is_least_in_scene(origin, direction, models, k as nat, b) && 0 <= j < k
                && exists|i: int|
                0 <= i < models[j].mesh@.len() && ray_hit(origin, direction, models[j].mesh@[i])
                    == Some(b),
        },
    ensures
        match nearest_in_mesh(origin, direction, models[k].mesh@, k, before, n) {
            None => before is None && forall|i: int|
                0 <= i < n ==> (#[trigger] ray_hit(origin, direction, models[k].mesh@[i])) is None,
            Some((b, j)) => {
                &&& is_least_in_scene(origin, direction, models, k as nat, b)
                &&& is_least_in_mesh(origin, direction, models[k].mesh@, n, b)
                &&& 0 <= j <= k
                &&& exists|i: int|
                    0 <= i < models[j].mesh@.len() && ray_hit(
                        origin,
                        direction,
                        models[j].mesh@[i],
                    ) == Some(b)
            },
        },
    decreases n,
{
    let mesh = models[k].mesh@;
    if n > 0 {
        lemma_least_in_mesh(origin, direction, models, k, before, (n - 1) as nat);
        let prev = nearest_in_mesh(origin, direction, mesh, k, before, (n - 1) as nat);
        let found = ray_hit(origin, direction, mesh[n - 1]);
        let next = nearest_in_mesh(origin, direction, mesh, k, before, n);
        assert(next == nearer(prev, found, k));
        match found {
            None => {},
            Some(h) => {
                match prev {
                    None => {
                        assert(ray_hit(origin, direction, models[k].mesh@[n - 1]) == Some(h));
                    },
                    Some((b, j)) => {
                        if h.t.less_spec(b.t) {
                            assert(ray_hit(origin, direction, models[k].mesh@[n - 1]) == Some(h));
                            assert(is_least_in_scene(origin, direction, models, k as nat, h));
                            assert(is_least_in_mesh(origin, direction, mesh, n, h));
                        } else {
                            assert(is_least_in_mesh(origin, direction, mesh, n, b));
                        }
                    },
                }
            },
        }
    }
}

proof fn lemma_least_in_scene<T: Scalar>(
    origin: Point<T>,
    direction: Point<T>,
    models: Seq<Model<T>>,
    n: nat,
)
    requires
        less_is_an_order::<T>(),
        n <= models.len(),
    ensures
        match nearest_in_scene(origin, direction, models, n) {
            None => forall|k: int, i: int|
                0 <= k < n && 0 <= i < models[k].mesh@.len() ==> (#[trigger] ray_hit(
                    origin,
                    direction,
                    models[k].mesh@[i],
                )) is None,
            Some((b, j)) => {
                &&& is_least_in_scene(origin, direction, models, n, b)
                &&& 0 <= j < n
                &&& exists|i: int|
                    0 <= i < models[j].mesh@.len() && ray_hit(
                        origin,
                        direction,
                        models[j].mesh@[i],
                    ) == Some(b)
            },
        },
    decreases n,
{
    if n > 0 {
        lemma_least_in_scene(origin, direction, models, (n - 1) as nat);
        let before = nearest_in_scene(origin, direction, models, (n - 1) as nat);
        lemma_least_in_mesh(
            origin,
            direction,
            models,
            n - 1,
            before,
            models[n - 1].mesh@.len(),
        );
    }
}

/// Where the numbers' order is strict, the nearest hit is a hit of the
/// ray on a triangle of the model that it names, and no triangle of the
/// scene is hit at a lesser distance.
pub proof fn lemma_nearest_is_least<T: Scalar>(
    origin: Point<T>,
    direction: Point<T>,
    models: Seq<Model<T>>,
)
    requires
        less_is_an_order::<T>(),
    ensures
        match nearest(origin, direction, models) {
            None => misses_all(origin, direction, models),
            Some((best, j)) => {
                &&& 0 <= j < models.len()
                &&& exists|i: int|
                    0 <= i < models[j].mesh@.len() && ray_hit(
                        origin,
                        direction,
                        models[j].mesh@[i],
                    ) == Some(best)
                &&& forall|k: int, i: int|
                    0 <= k < models.len() && 0 <= i < models[k].mesh@.len() ==> match #[trigger] ray_hit(
                        origin,
                        direction,
                        models[k].mesh@[i],
                    ) {
                        None => true,
                        Some(h) => !h.t.less_spec(best.t),
                    }
            },
        },
{
    lemma_least_in_scene(origin, direction, models, models.len());
}

/// A ray that misses every triangle of the scene brings back exactly the
/// background, at whatever depth it is seen, and no further ray is cast.
pub proof fn lemma_miss_is_background<T: Scalar>(
    origin: Point<T>,
    direction: Point<T>,
    background: Matrix<T, 1, 4>,
    models: Seq<Model<T>>,
    depth: u32,
)
    requires
        misses_all(origin, direction, models),
    ensures
        nearest(origin, direction, models) is None,
        shade(origin, direction, background, models, depth) == background,
        deepest(origin, direction, models, depth) == depth,
{
    lemma_miss_in_scene(origin, direction, models, models.len());
}

/// Where a ray hits a model whose own colour has an alpha below one, below
/// the deepest level, and the reflected ray misses every triangle, the
/// colour is the model's own plus the background, and the reflected ray is
/// the last one cast.
pub proof fn lemma_single_reflection<T: Scalar>(
    origin: Point<T>,
    direction: Point<T>,
    background: Matrix<T, 1, 4>,
    models: Seq<Model<T>>,
    depth: u32,
)
    requires
        reflects(origin, direction, models, depth),
        misses_all(
            reflected_origin(origin, direction, nearest(origin, direction, models).unwrap().0),
            reflected_direction(direction, nearest(origin, direction, models).unwrap().0),
            models,
        ),
    ensures
        shade(origin, direction, background, models, depth) == plus4(
            surface(models[nearest(origin, direction, models).unwrap().1]),
            background,
        ),
        deepest(origin, direction, models, depth) == depth + 1,
{
    let hit = nearest(origin, direction, models).unwrap().0;
    lemma_miss_is_background(
        reflected_origin(origin, direction, hit),
        reflected_direction(direction, hit),
        background,
        models,
        (depth + 1) as u32,
    );
}

/// Where, besides, adding the background changes no channel of the model's
/// own colour (a background of zeros, where zero is neutral), the colour
/// is the model's own alone.
pub proof fn lemma_single_reflection_into_nothing<T: Scalar>(
    origin: Point<T>,
    direction: Point<T>,
    background: Matrix<T, 1, 4>,
    models: Seq<Model<T>>,
    depth: u32,
)
    requires
        reflects(origin, direction, models, depth),
        misses_all(
            reflected_origin(origin, direction, nearest(origin, direction, models).unwrap().0),
            reflected_direction(direction, nearest(origin, direction, models).unwrap().0),
            models,
        ),
        forall|i: int|
            0 <= i < 4 ==> (#[trigger] surface(
                models[nearest(origin, direction, models).unwrap().1],
            ).at(0, i)).add_spec(background.at(0, i)) == surface(
                models[nearest(origin, direction, models).unwrap().1],
            ).at(0, i),
    ensures
        shade(origin, direction, background, models, depth) == surface(
            models[nearest(origin, direction, models).unwrap().1],
        ),
{
    let base = surface(models[nearest(origin, direction, models).unwrap().1]);
    lemma_single_reflection(origin, direction, background, models, depth);
    assert(base.at(0, 0).add_spec(background.at(0, 0)) == base.at(0, 0));
    assert(base.at(0, 1).add_spec(background.at(0, 1)) == base.at(0, 1));
    assert(base.at(0, 2).add_spec(background.at(0, 2)) == base.at(0, 2));
    assert(base.at(0, 3).add_spec(background.at(0, 3)) == base.at(0, 3));
    plus4(base, background).lemma_equal_by_entries(base);
}

/// No ray is cast deeper than the deepest level: shading a ray at a depth
/// up to that level never reaches beyond it, however many reflecting
/// surfaces lie along the way.
pub proof fn lemma_depth_is_bounded<T: Scalar>(
    origin: Point<T>,
    direction: Point<T>,
    models: Seq<Model<T>>,
    depth: u32,
)
    requires
        depth <= MAX_DEPTH,
    ensures
        depth <= deepest(origin, direction, models, depth) <= MAX_DEPTH,
    decreases MAX_DEPTH - depth,
{
    if reflects(origin, direction, models, depth) {
        let hit = nearest(origin, direction, models).unwrap().0;
        lemma_depth_is_bounded(
            reflected_origin(origin, direction, hit),
            reflected_direction(direction, hit),
            models,
            (depth + 1) as u32,
        );
    }
}

/// A ray seen at the deepest level or beyond is not reflected: it brings
/// back the background or the own colour of the model that it hits.
pub proof fn lemma_no_reflection_at_cap<T: Scalar>(
    origin: Point<T>,
    direction: Point<T>,
    background: Matrix<T, 1, 4>,
    models: Seq<Model<T>>,
    depth: u32,
)
    requires
        depth >= MAX_DEPTH,
    ensures
        !reflects(origin, direction, models, depth),
        deepest(origin, direction, models, depth) == depth,
        shade(origin, direction, background, models, depth) == (match nearest(
            origin,
            direction,
            models,
        ) {
            None => background,
            Some((_, k)) => surface(models[k]),
        }),
{
}

impl<T: Scalar> Matrix<T, 1, 4> {
    /// The colour of eight bits a channel that stands for this colour of
    /// four numbers. The numbers are not cut to the range from zero to one
    /// first: a channel below zero gives 0, one above one gives 255.
    pub fn to_color(&self) -> (c: Color)
        ensures
            c@ == (
                channel(self.at(0, 0)),
                channel(self.at(0, 1)),
                channel(self.at(0, 2)),
                channel(self.at(0, 3)),
            ),
    {
        Color::new(
            to_channel(self.x()),
            to_channel(self.y()),
            to_channel(self.z()),
            to_channel(self.w()),
        )
    }
}

fn to_channel<T: Scalar>(v: T) -> (r: u8)
    ensures
        r == channel(v),
{
    let n = v.mul(T::from_int(255)).to_int();
    if n > 255 {
        255
    } else {
        n as u8
    }
}

/// The nearest hit of the ray on the scene, with the index of the model
/// that it is on.
pub fn nearest_hit<T: Scalar>(origin: Point<T>, direction: Point<T>, models: &Vec<Model<T>>) -> (r:
    Option<(RaycastHit<T>, usize)>)
    ensures
        match r {
            None => nearest(origin, direction, models@) is None,
            Some((hit, k)) => k < models@.len() && nearest(origin, direction, models@) == Some(
                (hit, k as int),
            ),
        },
        misses_all(origin, direction, models@) ==> r is None,
{
    let mut best: Option<(RaycastHit<T>, usize)> = None;
    let ghost mut found: Option<(RaycastHit<T>, int)> = None;
    let mut k: usize = 0;
    while k < models.len()
        invariant
            k <= models@.len(),
            found == nearest_in_scene(origin, direction, models@, k as nat),
            match best {
                None => found is None,
                Some((hit, j)) => j < k && found == Some((hit, j as int)),
            },
            misses_all(origin, direction, models@) ==> found is None,
        decreases models@.len() - k,
    {
        let mesh = &models[k].mesh;
        let ghost before = found;
        let mut i: usize = 0;
        while i < mesh.0.len()
            invariant
                k < models@.len(),
                mesh == &models@[k as int].mesh,
                i <= mesh@.len(),
                found == nearest_in_mesh(origin, direction, mesh@, k as int, before, i as nat),
                match best {
                    None => found is None,
                    Some((hit, j)) => j <= k && found == Some((hit, j as int)),
                },
                misses_all(origin, direction, models@) ==> found is None,
            decreases mesh@.len() - i,
        {
            let hit = ray_intersects_triangle(origin, direction, mesh.0[i]);
            proof {
                found = nearer(found, hit, k as int);
            }
            match hit {
                Some(h) => {
                    match best {
                        Some((b, _)) => {
                            if h.t.less(b.t) {
                                best = Some((h, k));
                            }
                        },
                        None => {
                            best = Some((h, k));
                        },
                    }
                },
                None => {},
            }
            i += 1;
        }
        k += 1;
    }
    best
}

/// Casts the ray from `origin` along `direction` and follows its
/// reflections. Returns the colour that it brings back (see `shade`) and
/// the greatest depth at which a ray was cast on the way (see `deepest`).
pub fn raycast<T: Scalar>(
    origin: Matrix<T, 1, 4>,
    direction: Matrix<T, 1, 4>,
    background_color: Matrix<T, 1, 4>,
    models: &Vec<Model<T>>,
    depth: u32,
) -> (r: (Matrix<T, 1, 4>, u32))
    ensures
        r.0 == shade(origin, direction, background_color, models@, depth),
        r.1 == deepest(origin, direction, models@, depth),
        misses_all(origin, direction, models@) ==> r.0 == background_color && r.1 == depth,
    decreases MAX_DEPTH - depth,
{
    match nearest_hit(origin, direction, models) {
        Some((hit, k)) => {
            let model = &models[k];
            let out = model.color.times(model.reflect);
            if out.w().less(T::from_int(1)) && depth < MAX_DEPTH {
                let dot = direction.inner(hit.normal);
                let direction_reflected = direction.minus(hit.normal.times(T::from_int(2).mul(dot)));
                let origin_reflected = origin.plus(direction.times(hit.t)).minus(
                    hit.normal.over(T::from_int(1000)),
                );
                let other = raycast(
                    origin_reflected,
                    direction_reflected,
                    background_color,
                    models,
                    depth + 1,
                );
                (out.plus(other.0), other.1)
            } else {
                (out, depth)
            }
        },
        None => (background_color, depth),
    }
}

/// The colour that the ray from `origin` along `direction` brings back:
/// see `shade`. A ray that hits nothing brings back the background
/// unchanged; a ray seen at the deepest level brings back what it hits and
/// is not followed.
pub fn raycast_color<T: Scalar>(
    origin: Matrix<T, 1, 4>,
    direction: Matrix<T, 1, 4>,
    background_color: Matrix<T, 1, 4>,
    models: &Vec<Model<T>>,
    depth: u32,
) -> (c: Matrix<T, 1, 4>)
    ensures
        c == shade(origin, direction, background_color, models@, depth),
        misses_all(origin, direction, models@) ==> c == background_color,
{
    raycast(origin, direction, background_color, models, depth).0
}

} // verus!
