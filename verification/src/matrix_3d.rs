use crate::matrix::Matrix;
use crate::scalar::{one, quarter_turn, zero, Angle, Scalar};
use crate::vector::{cross, inner, minus, normalized, xyz, Point, Point2D};
use vstd::prelude::*;

verus! {

/// Three corners, in order.
#[derive(Clone, Copy, Debug, PartialEq)]
pub struct Triangle<T>(pub Point<T>, pub Point<T>, pub Point<T>);

/// Triangles, in order.
#[derive(Debug)]
pub struct Mesh<T>(pub Vec<Triangle<T>>);

/// A mesh with the colour of its surface and the share of it that shows.
#[derive(Debug)]
pub struct Model<T> {
    pub mesh: Mesh<T>,
    pub color: Matrix<T, 1, 4>,
    pub reflect: T,
}

/// Where a ray meets a triangle: the distance `t` along the ray, the place
/// `u`, `v` within the triangle, and the triangle's unit normal as a
/// direction.
#[derive(Clone, Copy, Debug, PartialEq)]
pub struct RaycastHit<T> {
    pub t: T,
    pub u: T,
    pub v: T,
    pub normal: Matrix<T, 1, 4>,
}

/// One half.
pub open spec fn half<T: Scalar>() -> T {
    one::<T>().div_spec(T::from_int_spec(2))
}

/// The angle whose tangent is the focal factor of a field of view of `fov`:
/// pi times one half, less one half of `fov`.
pub open spec fn focal_angle<T: Angle>(fov: T) -> T {
    T::pi_spec().mul_spec(half::<T>()).sub_spec(half::<T>().mul_spec(fov))
}

/// The perspective projection with focal factor `f`.
pub open spec fn projection<T: Scalar>(f: T, aspect: T, near: T, far: T) -> Matrix<T, 4, 4> {
    let range_inv = one::<T>().div_spec(near.sub_spec(far));
    Matrix(
        [
            [f.div_spec(aspect), zero::<T>(), zero::<T>(), zero::<T>()],
            [zero::<T>(), f, zero::<T>(), zero::<T>()],
            [zero::<T>(), zero::<T>(), near.add_spec(far).mul_spec(range_inv), one::<T>().neg_spec()],
            [
                zero::<T>(),
                zero::<T>(),
                near.mul_spec(far).mul_spec(range_inv).mul_spec(T::from_int_spec(2)),
                zero::<T>(),
            ],
        ],
    )
}

/// The rotation about the X axis by the angle with cosine `c` and sine `s`.
pub open spec fn x_rotation<T: Scalar>(c: T, s: T) -> Matrix<T, 4, 4> {
    Matrix(
        [
            [one::<T>(), zero::<T>(), zero::<T>(), zero::<T>()],
            [zero::<T>(), c, s.neg_spec(), zero::<T>()],
            [zero::<T>(), s, c, zero::<T>()],
            [zero::<T>(), zero::<T>(), zero::<T>(), one::<T>()],
        ],
    )
}

/// The rotation about the Y axis by the angle with cosine `c` and sine `s`.
pub open spec fn y_rotation<T: Scalar>(c: T, s: T) -> Matrix<T, 4, 4> {
    Matrix(
        [
            [c, zero::<T>(), s, zero::<T>()],
            [zero::<T>(), one::<T>(), zero::<T>(), zero::<T>()],
            [s.neg_spec(), zero::<T>(), c, zero::<T>()],
            [zero::<T>(), zero::<T>(), zero::<T>(), one::<T>()],
        ],
    )
}

/// The rotation about the Z axis by the angle with cosine `c` and sine `s`.
pub open spec fn z_rotation<T: Scalar>(c: T, s: T) -> Matrix<T, 4, 4> {
    Matrix(
        [
            [c, s.neg_spec(), zero::<T>(), zero::<T>()],
            [s, c, zero::<T>(), zero::<T>()],
            [zero::<T>(), zero::<T>(), one::<T>(), zero::<T>()],
            [zero::<T>(), zero::<T>(), zero::<T>(), one::<T>()],
        ],
    )
}

/// `m` is a rotation about the X axis by `radians`: by a cosine and a sine
/// that `radians` can have.
pub open spec fn is_turn_x<T: Angle>(m: Matrix<T, 4, 4>, radians: T) -> bool {
    exists|c: T, s: T| radians.is_cosine(c) && radians.is_sine(s) && m == x_rotation(c, s)
}

/// `m` is a rotation about the Y axis by `radians`: by a cosine and a sine
/// that `radians` can have.
pub open spec fn is_turn_y<T: Angle>(m: Matrix<T, 4, 4>, radians: T) -> bool {
    exists|c: T, s: T| radians.is_cosine(c) && radians.is_sine(s) && m == y_rotation(c, s)
}

/// `m` is a rotation about the Z axis by `radians`: by a cosine and a sine
/// that `radians` can have.
pub open spec fn is_turn_z<T: Angle>(m: Matrix<T, 4, 4>, radians: T) -> bool {
    exists|c: T, s: T| radians.is_cosine(c) && radians.is_sine(s) && m == z_rotation(c, s)
}

/// The shift by `x`, `y`, `z`.
pub open spec fn displacement<T: Scalar>(x: T, y: T, z: T) -> Matrix<T, 4, 4> {
    Matrix(
        [
            [one::<T>(), zero::<T>(), zero::<T>(), zero::<T>()],
            [zero::<T>(), one::<T>(), zero::<T>(), zero::<T>()],
            [zero::<T>(), zero::<T>(), one::<T>(), zero::<T>()],
            [x, y, z, one::<T>()],
        ],
    )
}

/// The stretch by `x`, `y`, `z` along the axes.
pub open spec fn scaling<T: Scalar>(x: T, y: T, z: T) -> Matrix<T, 4, 4> {
    Matrix(
        [
            [x, zero::<T>(), zero::<T>(), zero::<T>()],
            [zero::<T>(), y, zero::<T>(), zero::<T>()],
            [zero::<T>(), zero::<T>(), z, zero::<T>()],
            [zero::<T>(), zero::<T>(), zero::<T>(), one::<T>()],
        ],
    )
}

/// `p` as a row vector times `m`.
pub open spec fn transformed<T: Scalar>(p: Point<T>, m: Matrix<T, 4, 4>) -> Point<T> {
    Matrix(
        [
            [
                p.dot_sum(m, 0, 0, 4),
                p.dot_sum(m, 0, 1, 4),
                p.dot_sum(m, 0, 2, 4),
                p.dot_sum(m, 0, 3, 4),
            ],
        ],
    )
}

/// The matrix product `a` times `b`: the transform `a` followed by `b`.
pub open spec fn composed<T: Scalar>(a: Matrix<T, 4, 4>, b: Matrix<T, 4, 4>) -> Matrix<T, 4, 4> {
    Matrix(
        [
            [a.dot_sum(b, 0, 0, 4), a.dot_sum(b, 0, 1, 4), a.dot_sum(b, 0, 2, 4), a.dot_sum(b, 0, 3, 4)],
            [a.dot_sum(b, 1, 0, 4), a.dot_sum(b, 1, 1, 4), a.dot_sum(b, 1, 2, 4), a.dot_sum(b, 1, 3, 4)],
            [a.dot_sum(b, 2, 0, 4), a.dot_sum(b, 2, 1, 4), a.dot_sum(b, 2, 2, 4), a.dot_sum(b, 2, 3, 4)],
            [a.dot_sum(b, 3, 0, 4), a.dot_sum(b, 3, 1, 4), a.dot_sum(b, 3, 2, 4), a.dot_sum(b, 3, 3, 4)],
        ],
    )
}

/// The meshes that `cube` can return: `cube_faces` of a half turn about
/// the Y axis for the back, no turn for the front, a quarter turn about the
/// Y axis for the sides and a quarter turn about the X axis for the top and
/// the bottom.
pub open spec fn is_cube<T: Angle>(s: Seq<Triangle<T>>) -> bool {
    exists|back: Matrix<T, 4, 4>, front: Matrix<T, 4, 4>, side: Matrix<T, 4, 4>, top: Matrix<T, 4, 4>|
        {
            &&& is_turn_y(back, T::pi_spec())
            &&& is_turn_y(front, zero::<T>())
            &&& is_turn_y(side, quarter_turn::<T>())
            &&& is_turn_x(top, quarter_turn::<T>())
            &&& s == #[trigger] cube_faces(back, front, side, top)
        }
}

/// `t` with each corner transformed by `m`.
pub open spec fn moved<T: Scalar>(t: Triangle<T>, m: Matrix<T, 4, 4>) -> Triangle<T> {
    Triangle(transformed(t.0, m), transformed(t.1, m), transformed(t.2, m))
}

/// Every triangle of `s` moved by `m`, in the same order.
pub open spec fn moved_all<T: Scalar>(s: Seq<Triangle<T>>, m: Matrix<T, 4, 4>) -> Seq<Triangle<T>> {
    Seq::new(s.len(), |i: int| moved(s[i], m))
}

/// The point `x`, `y`, `z` given by integers.
pub open spec fn corner<T: Scalar>(x: u32, y: u32, z: u32) -> Point<T> {
    Matrix([[T::from_int_spec(x), T::from_int_spec(y), T::from_int_spec(z), one::<T>()]])
}

/// The two triangles of the unit square in the plane z = 0.
pub open spec fn quad_faces<T: Scalar>() -> Seq<Triangle<T>> {
    seq![
        Triangle(corner(0, 0, 0), corner(1, 0, 0), corner(0, 1, 0)),
        Triangle(corner(1, 1, 0), corner(0, 1, 0), corner(1, 0, 0)),
    ]
}

/// The twelve triangles of a cube: the unit square moved to be centred on
/// the Z axis half a unit behind the origin, with its copy under `back`;
/// that pair under `front`, under `side` and under `top`.
pub open spec fn cube_faces<T: Scalar>(
    back: Matrix<T, 4, 4>,
    front: Matrix<T, 4, 4>,
    side: Matrix<T, 4, 4>,
    top: Matrix<T, 4, 4>,
) -> Seq<Triangle<T>> {
    let h = half::<T>().neg_spec();
    let face = moved_all(quad_faces::<T>(), displacement(h, h, h));
    let pair = face + moved_all(face, back);
    moved_all(pair, front) + moved_all(pair, side) + moved_all(pair, top)
}

/// Where the point `pos` falls on a screen of the given size: the
/// perspective divide by z, then from the square [-1, 1] to pixels, with y
/// downwards.
pub open spec fn projected<T: Scalar>(pos: Point<T>, width: T, height: T) -> Point2D<T> {
    Matrix(
        [
            [
                pos.at(0, 0).div_spec(pos.at(0, 2)).add_spec(one::<T>()).mul_spec(width).div_spec(
                    T::from_int_spec(2),
                ),
                one::<T>().sub_spec(pos.at(0, 1).div_spec(pos.at(0, 2))).mul_spec(
                    height,
                ).div_spec(T::from_int_spec(2)),
            ],
        ],
    )
}

/// The point of the square [-1, 1] at depth zero that the pixel position
/// `pos` stands for.
pub open spec fn unprojected<T: Scalar>(pos: Point2D<T>, width: T, height: T) -> Point<T> {
    Matrix(
        [
            [
                pos.at(0, 0).mul_spec(T::from_int_spec(2)).div_spec(width).sub_spec(one::<T>()),
                one::<T>().sub_spec(pos.at(0, 1).mul_spec(T::from_int_spec(2)).div_spec(height)),
                zero::<T>(),
                one::<T>(),
            ],
        ],
    )
}

/// The least distance at which a ray counts as meeting a triangle, and the
/// least size of the determinant below which the ray counts as parallel to
/// it: one hundred-millionth.
pub open spec fn epsilon<T: Scalar>() -> T {
    one::<T>().div_spec(T::from_int_spec(100_000_000))
}

/// Where the ray from `origin` along `direction` meets `trig`, if it does.
///
/// The ray misses when it is parallel to the triangle's plane (the
/// determinant `a` is within `epsilon` of zero), when either coordinate `u`
/// or `v` within the triangle is below zero or above one, or when the
/// meeting point is not farther than `epsilon` along the ray. The two
/// coordinates are tested one by one; their sum is not. The normal is that
/// of the triangle's corners in their order, whichever side the ray comes
/// from.
pub open spec fn ray_hit<T: Scalar>(origin: Point<T>, direction: Point<T>, trig: Triangle<T>) -> Option<
    RaycastHit<T>,
> {
    let o = xyz(origin);
    let d = xyz(direction);
    let p0 = xyz(trig.0);
    let edge1 = minus(xyz(trig.1), p0);
    let edge2 = minus(xyz(trig.2), p0);
    let h = cross(d, edge2);
    let a = inner(edge1, h);
    let f = one::<T>().div_spec(a);
    let s = minus(o, p0);
    let u = f.mul_spec(inner(s, h));
    let q = cross(s, edge1);
    let v = f.mul_spec(inner(d, q));
    let t = f.mul_spec(inner(edge2, q));
    let n = normalized(cross(edge1, edge2));
    if a.abs_spec().less_spec(epsilon::<T>()) {
        None
    } else if u.less_spec(zero::<T>()) || one::<T>().less_spec(u) {
        None
    } else if v.less_spec(zero::<T>()) || one::<T>().less_spec(v) {
        None
    } else if epsilon::<T>().less_spec(t) {
        Some(RaycastHit { t, u, v, normal: Matrix([[n.at(0, 0), n.at(0, 1), n.at(0, 2), zero::<T>()]]) })
    } else {
        None
    }
}

/// The perspective projection with focal factor `f`, that is the cotangent
/// of half the field of view. Equal clip distances are not an error: the
/// entries that divide by their difference are whatever the number type
/// gives.
pub fn perspective_by<T: Scalar>(f: T, aspect: T, near: T, far: T) -> (r: Matrix<T, 4, 4>)
    ensures
        r == projection(f, aspect, near, far),
{
    let o = T::from_int(0);
    let range_inv = T::from_int(1).div(near.sub(far));
    Matrix(
        [
            [f.div(aspect), o, o, o],
            [o, f, o, o],
            [o, o, near.add(far).mul(range_inv), T::from_int(1).neg()],
            [o, o, near.mul(far).mul(range_inv).mul(T::from_int(2)), o],
        ],
    )
}

/// The perspective projection for the vertical field of view `fov`, in
/// radians. The focal factor is a tangent of a quarter turn less half of
/// `fov`, as the number type computes it.
pub fn perspective<T: Angle>(fov: T, aspect: T, near: T, far: T) -> (r: Matrix<T, 4, 4>)
    ensures
        exists|f: T| focal_angle(fov).is_tangent(f) && r == projection(f, aspect, near, far),
{
    let h = T::from_int(1).div(T::from_int(2));
    let f = T::pi().mul(h).sub(h.mul(fov)).tan();
    perspective_by(f, aspect, near, far)
}

/// The rotation about the X axis by the angle with cosine `c` and sine `s`.
pub fn rotate_x_by<T: Scalar>(c: T, s: T) -> (r: Matrix<T, 4, 4>)
    ensures
        r == x_rotation(c, s),
{
    let o = T::from_int(0);
    let i = T::from_int(1);
    Matrix([[i, o, o, o], [o, c, s.neg(), o], [o, s, c, o], [o, o, o, i]])
}

/// The rotation about the Y axis by the angle with cosine `c` and sine `s`.
pub fn rotate_y_by<T: Scalar>(c: T, s: T) -> (r: Matrix<T, 4, 4>)
    ensures
        r == y_rotation(c, s),
{
    let o = T::from_int(0);
    let i = T::from_int(1);
    Matrix([[c, o, s, o], [o, i, o, o], [s.neg(), o, c, o], [o, o, o, i]])
}

/// The rotation about the Z axis by the angle with cosine `c` and sine `s`.
pub fn rotate_z_by<T: Scalar>(c: T, s: T) -> (r: Matrix<T, 4, 4>)
    ensures
        r == z_rotation(c, s),
{
    let o = T::from_int(0);
    let i = T::from_int(1);
    Matrix([[c, s.neg(), o, o], [s, c, o, o], [o, o, i, o], [o, o, o, i]])
}

/// The rotation about the X axis by `radians`, with a cosine and a sine
/// of `radians` as the number type computes them.
pub fn rotate_x<T: Angle>(radians: T) -> (r: Matrix<T, 4, 4>)
    ensures
        is_turn_x(r, radians),
{
    rotate_x_by(radians.cos(), radians.sin())
}

/// The rotation about the Y axis by `radians`, with a cosine and a sine
/// of `radians` as the number type computes them.
pub fn rotate_y<T: Angle>(radians: T) -> (r: Matrix<T, 4, 4>)
    ensures
        is_turn_y(r, radians),
{
    rotate_y_by(radians.cos(), radians.sin())
}

/// The rotation about the Z axis by `radians`, with a cosine and a sine
/// of `radians` as the number type computes them.
pub fn rotate_z<T: Angle>(radians: T) -> (r: Matrix<T, 4, 4>)
    ensures
        is_turn_z(r, radians),
{
    rotate_z_by(radians.cos(), radians.sin())
}

/// The shift by `x`, `y`, `z`: applied to a point it moves the point, and
/// it leaves a direction as it is.
pub fn translate<T: Scalar>(x: T, y: T, z: T) -> (r: Matrix<T, 4, 4>)
    ensures
        r == displacement(x, y, z),
{
    let o = T::from_int(0);
    let i = T::from_int(1);
    Matrix([[i, o, o, o], [o, i, o, o], [o, o, i, o], [x, y, z, i]])
}

/// The stretch by `x`, `y`, `z` along the axes.
pub fn scale<T: Scalar>(x: T, y: T, z: T) -> (r: Matrix<T, 4, 4>)
    ensures
        r == scaling(x, y, z),
{
    let o = T::from_int(0);
    let i = T::from_int(1);
    Matrix([[x, o, o, o], [o, y, o, o], [o, o, z, o], [o, o, o, i]])
}

/// Where `pos` falls on the screen. A point at depth zero is not an error:
/// its position is whatever the number type gives for the division.
pub fn screen<T: Scalar>(pos: Point<T>, screen_width: T, screen_height: T) -> (r: Point2D<T>)
    ensures
        r == projected(pos, screen_width, screen_height),
{
    let two = T::from_int(2);
    let i = T::from_int(1);
    Matrix(
        [
            [
                pos.x().div(pos.z()).add(i).mul(screen_width).div(two),
                i.sub(pos.y().div(pos.z())).mul(screen_height).div(two),
            ],
        ],
    )
}

/// The point that the pixel position `screen_pos` stands for.
pub fn from_screen<T: Scalar>(screen_pos: Point2D<T>, screen_width: T, screen_height: T) -> (r:
    Point<T>)
    ensures
        r == unprojected(screen_pos, screen_width, screen_height),
{
    let two = T::from_int(2);
    let i = T::from_int(1);
    let x = screen_pos.x().mul(two).div(screen_width).sub(i);
    let y = i.sub(screen_pos.y().mul(two).div(screen_height));
    Matrix([[x, y, T::from_int(0), i]])
}

impl<T: Scalar> Matrix<T, 1, 4> {
    /// The point as a row vector times `m`.
    pub fn transform(self, m: Matrix<T, 4, 4>) -> (r: Self)
        ensures
            r == transformed(self, m),
    {
        let r = self.dot(m);
        proof {
            r.lemma_equal_by_entries(transformed(self, m));
        }
        r
    }
}

impl<T: Scalar> Matrix<T, 4, 4> {
    /// The transform `self` followed by `then`.
    pub fn compose(self, then: Self) -> (r: Self)
        ensures
            r == composed(self, then),
    {
        let r = self.dot(then);
        proof {
            r.lemma_equal_by_entries(composed(self, then));
        }
        r
    }
}

impl<T: Scalar> Triangle<T> {
    /// The triangle with each corner transformed by `m`.
    pub fn apply(self, m: Matrix<T, 4, 4>) -> (r: Self)
        ensures
            r == moved(self, m),
    {
        Triangle(self.0.transform(m), self.1.transform(m), self.2.transform(m))
    }
}

impl<T: Scalar> View for Mesh<T> {
    type V = Seq<Triangle<T>>;

    open spec fn view(&self) -> Seq<Triangle<T>> {
        self.0@
    }
}

impl<T: Scalar> Mesh<T> {
    /// The mesh with every corner transformed by `mat`.
    pub fn apply(&self, mat: Matrix<T, 4, 4>) -> (r: Self)
        ensures
            r@ == moved_all(self@, mat),
    {
        let mut array: Vec<Triangle<T>> = Vec::new();
        let mut k: usize = 0;
        while k < self.0.len()
            invariant
                k <= self.0.len(),
                array@.len() == k,
                forall|i: int| 0 <= i < k ==> #[trigger] array@[i] == moved(self@[i], mat),
            decreases self.0.len() - k,
        {
            array.push(self.0[k].apply(mat));
            k += 1;
        }
        assert(array@ =~= moved_all(self@, mat));
        Mesh(array)
    }

    /// Puts the triangles of `other` behind those of `self`.
    pub fn join(&mut self, other: Mesh<T>)
        ensures
            final(self)@ == old(self)@ + other@,
    {
        let mut other = other;
        self.0.append(&mut other.0);
    }
}

/// The unit square in the plane z = 0, from the origin to (1, 1), as two
/// triangles.
pub fn quad<T: Scalar>() -> (r: Mesh<T>)
    ensures
        r@ == quad_faces::<T>(),
{
    let o = T::from_int(0);
    let i = T::from_int(1);
    let mut array: Vec<Triangle<T>> = Vec::new();
    array.push(Triangle(Matrix([[o, o, o, i]]), Matrix([[i, o, o, i]]), Matrix([[o, i, o, i]])));
    array.push(Triangle(Matrix([[i, i, o, i]]), Matrix([[o, i, o, i]]), Matrix([[i, o, o, i]])));
    assert(array@ =~= quad_faces::<T>());
    Mesh(array)
}

/// The cube of twelve triangles that the four given turns make of the unit
/// square: see `cube_faces`.
pub fn cube_by<T: Scalar>(
    back: Matrix<T, 4, 4>,
    front: Matrix<T, 4, 4>,
    side: Matrix<T, 4, 4>,
    top: Matrix<T, 4, 4>,
) -> (r: Mesh<T>)
    ensures
        r@ == cube_faces(back, front, side, top),
        r@.len() == 12,
{
    let h = T::from_int(1).div(T::from_int(2)).neg();
    let mut pair = quad().apply(translate(h, h, h));
    let second = pair.apply(back);
    pair.join(second);
    let mut mesh: Mesh<T> = Mesh(Vec::new());
    mesh.join(pair.apply(front));
    mesh.join(pair.apply(side));
    mesh.join(pair.apply(top));
    mesh
}

/// The unit cube centred on the origin: the unit square moved half a unit
/// back, its copy turned half way round the Y axis, and that pair as it
/// is, a quarter turn round the Y axis and a quarter turn round the X axis.
/// The turns are made with the cosines and sines that the number type
/// computes for those angles.
pub fn cube<T: Angle>() -> (r: Mesh<T>)
    ensures
        r@.len() == 12,
        is_cube(r@),
{
    let quarter = T::pi().div(T::from_int(2));
    let back = rotate_y::<T>(T::pi());
    let front = rotate_y::<T>(T::from_int(0));
    let side = rotate_y::<T>(quarter);
    let top = rotate_x::<T>(quarter);
    let r = cube_by(back, front, side, top);
    assert(r@ == cube_faces(back, front, side, top));
    r
}

/// Tests whether the ray from `origin` along `direction` meets `trig`, and
/// where. Only the first three coordinates of the points count.
pub fn ray_intersects_triangle<T: Scalar>(
    origin: Matrix<T, 1, 4>,
    direction: Matrix<T, 1, 4>,
    trig: Triangle<T>,
) -> (r: Option<RaycastHit<T>>)
    ensures
        r == ray_hit(origin, direction, trig),
{
    let epsilon = T::from_int(1).div(T::from_int(100_000_000));
    let origin = origin.xyz();
    let direction = direction.xyz();
    let p0 = trig.0.xyz();
    let p1 = trig.1.xyz();
    let p2 = trig.2.xyz();
    let edge1 = p1.minus(p0);
    let edge2 = p2.minus(p0);
    let h = direction.cross(edge2);
    let a = edge1.inner(h);
    if a.abs().less(epsilon) {
        return None;
    }
    let f = T::from_int(1).div(a);
    let s = origin.minus(p0);
    let u = f.mul(s.inner(h));
    if u.less(T::from_int(0)) || T::from_int(1).less(u) {
        return None;
    }
    let q = s.cross(edge1);
    let v = f.mul(direction.inner(q));
    if v.less(T::from_int(0)) || T::from_int(1).less(v) {
        return None;
    }
    let t = f.mul(edge2.inner(q));
    if epsilon.less(t) {
        let normal = edge1.cross(edge2).normalize();
        let normal = Matrix([[normal.x(), normal.y(), normal.z(), T::from_int(0)]]);
        Some(RaycastHit { t, u, v, normal })
    } else {
        None
    }
}

} // verus!
