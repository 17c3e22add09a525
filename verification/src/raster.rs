use crate::bitmap::{Bitmap, Color};
use crate::matrix::Matrix;
use crate::matrix_3d::{half, projected, screen, transformed, Triangle};
use crate::scalar::{zero, Scalar};
use crate::vector::Point2D;
use vstd::prelude::*;

verus! {

/// Twice the signed area of the triangle `a`, `b`, `c` on the screen: the
/// cross product of the sides from `a` to `b` and from `a` to `c`.
pub open spec fn edge<T: Scalar>(a: Point2D<T>, b: Point2D<T>, c: Point2D<T>) -> T {
    b.at(0, 0).sub_spec(a.at(0, 0)).mul_spec(c.at(0, 1).sub_spec(a.at(0, 1))).sub_spec(
        b.at(0, 1).sub_spec(a.at(0, 1)).mul_spec(c.at(0, 0).sub_spec(a.at(0, 0))),
    )
}

/// `p` lies inside the triangle `s0`, `s1`, `s2` or on its border: on the
/// inner side of each of its three sides.
pub open spec fn covers<T: Scalar>(
    s0: Point2D<T>,
    s1: Point2D<T>,
    s2: Point2D<T>,
    p: Point2D<T>,
) -> bool {
    &&& edge(s1, s0, p).at_least_spec(zero::<T>())
    &&& edge(s0, s2, p).at_least_spec(zero::<T>())
    &&& edge(s2, s1, p).at_least_spec(zero::<T>())
}

/// The lesser of `a` and `b`: `b` where it is less than `a`, else `a`.
pub open spec fn lesser<T: Scalar>(a: T, b: T) -> T {
    if b.less_spec(a) {
        b
    } else {
        a
    }
}

/// The greater of `a` and `b`: `b` where `a` is less than it, else `a`.
pub open spec fn greater<T: Scalar>(a: T, b: T) -> T {
    if a.less_spec(b) {
        b
    } else {
        a
    }
}

/// The centre of the pixel in column `x` of row `y`.
pub open spec fn centre<T: Scalar>(x: u32, y: u32) -> Point2D<T> {
    Matrix([[T::from_int_spec(x).add_spec(half::<T>()), T::from_int_spec(y).add_spec(half::<T>())]])
}

/// The three corners of a triangle on the screen, and the box of pixels
/// round them.
pub struct Footprint<T> {
    pub s0: Point2D<T>,
    pub s1: Point2D<T>,
    pub s2: Point2D<T>,
    pub min_x: u32,
    pub max_x: u32,
    pub min_y: u32,
    pub max_y: u32,
}

impl<T: Scalar> Footprint<T> {
    /// The pixel in column `x` of row `y` is painted: it lies in the box,
    /// the upper bounds left out, and its centre is covered.
    pub open spec fn paints(self, x: int, y: int) -> bool {
        &&& self.min_x <= x < self.max_x
        &&& self.min_y <= y < self.max_y
        &&& covers(self.s0, self.s1, self.s2, centre(x as u32, y as u32))
    }
}

/// Where `trig`, as `view_projection` shows it, falls on a screen of
/// `width` by `height` pixels: its corners after the projection and the
/// perspective divide, and the whole parts of the least and greatest of
/// their coordinates. A coordinate that is not a number is less than
/// nothing, so it counts as the least or greatest where it comes first.
pub open spec fn footprint<T: Scalar>(
    trig: Triangle<T>,
    view_projection: Matrix<T, 4, 4>,
    width: u32,
    height: u32,
) -> Footprint<T> {
    let w = T::from_int_spec(width);
    let h = T::from_int_spec(height);
    let s0 = projected(transformed(trig.0, view_projection), w, h);
    let s1 = projected(transformed(trig.1, view_projection), w, h);
    let s2 = projected(transformed(trig.2, view_projection), w, h);
    Footprint {
        s0,
        s1,
        s2,
        min_x: lesser(lesser(s0.at(0, 0), s1.at(0, 0)), s2.at(0, 0)).to_int_spec(),
        max_x: greater(greater(s0.at(0, 0), s1.at(0, 0)), s2.at(0, 0)).to_int_spec(),
        min_y: lesser(lesser(s0.at(0, 1), s1.at(0, 1)), s2.at(0, 1)).to_int_spec(),
        max_y: greater(greater(s0.at(0, 1), s1.at(0, 1)), s2.at(0, 1)).to_int_spec(),
    }
}

fn min<T: Scalar>(a: T, b: T) -> (r: T)
    ensures
        r == lesser(a, b),
{
    if b.less(a) {
        b
    } else {
        a
    }
}

fn max<T: Scalar>(a: T, b: T) -> (r: T)
    ensures
        r == greater(a, b),
{
    if a.less(b) {
        b
    } else {
        a
    }
}

/// Twice the signed area of the triangle `a`, `b`, `c`.
pub fn cross_product<T: Scalar>(a: Point2D<T>, b: Point2D<T>, c: Point2D<T>) -> (r: T)
    ensures
        r == edge(a, b, c),
{
    b.x().sub(a.x()).mul(c.y().sub(a.y())).sub(b.y().sub(a.y()).mul(c.x().sub(a.x())))
}

/// Whether `p` lies inside the triangle `screen_0`, `screen_1`, `screen_2`
/// or on its border.
pub fn inside_triangle<T: Scalar>(
    screen_0: Point2D<T>,
    screen_1: Point2D<T>,
    screen_2: Point2D<T>,
    p: Point2D<T>,
) -> (r: bool)
    ensures
        r == covers(screen_0, screen_1, screen_2, p),
{
    let ab = cross_product(screen_1, screen_0, p).at_least(T::from_int(0));
    if !ab {
        return false;
    }
    let ac = cross_product(screen_0, screen_2, p).at_least(T::from_int(0));
    if !ac {
        return false;
    }
    let bc = cross_product(screen_2, screen_1, p).at_least(T::from_int(0));
    if !bc {
        return false;
    }
    true
}

impl Bitmap {
    /// Gives `color` to every pixel that `trig` paints as `view_projection`
    /// shows it on this bitmap (see `footprint`), and leaves the other
    /// pixels as they are. Every pixel that is painted must lie on the
    /// bitmap.
    pub fn render_trig<T: Scalar>(
        &mut self,
        trig: Triangle<T>,
        view_projection: Matrix<T, 4, 4>,
        color: Color,
    )
        requires
            old(self).wf(),
            forall|x: int, y: int|
                #[trigger] footprint(trig, view_projection, old(self).width, old(self).height).paints(
                    x,
                    y,
                ) ==> x < old(self).width && y < old(self).height,
        ensures
            final(self).wf(),
            final(self).width == old(self).width,
            final(self).height == old(self).height,
            forall|x: int, y: int|
                0 <= x < old(self).width && 0 <= y < old(self).height
                    ==> #[trigger] final(self).pixel(x, y) == (if footprint(
                    trig,
                    view_projection,
                    old(self).width,
                    old(self).height,
                ).paints(x, y) {
                    color
                } else {
                    old(self).pixel(x, y)
                }),
    {
        let ghost print = footprint(trig, view_projection, self.width, self.height);
        let width = T::from_int(self.width);
        let height = T::from_int(self.height);
        let s0 = screen(trig.0.transform(view_projection), width, height);
        let s1 = screen(trig.1.transform(view_projection), width, height);
        let s2 = screen(trig.2.transform(view_projection), width, height);
        let min_x = min(min(s0.x(), s1.x()), s2.x()).to_int();
        let max_x = max(max(s0.x(), s1.x()), s2.x()).to_int();
        let min_y = min(min(s0.y(), s1.y()), s2.y()).to_int();
        let max_y = max(max(s0.y(), s1.y()), s2.y()).to_int();
        let h = T::from_int(1).div(T::from_int(2));
        let mut x = min_x;
        while x < max_x
            invariant
                self.wf(),
                self.width == old(self).width,
                self.height == old(self).height,
                print == footprint(trig, view_projection, self.width, self.height),
                print == (Footprint { s0, s1, s2, min_x, max_x, min_y, max_y }),
                h == half::<T>(),
                min_x <= x,
                forall|i: int, j: int| #[trigger]
                    print.paints(i, j) ==> i < self.width && j < self.height,
                forall|i: int, j: int|
                    0 <= i < self.width && 0 <= j < self.height ==> #[trigger] self.pixel(i, j) == (
                    if print.paints(i, j) && i < x {
                        color
                    } else {
                        old(self).pixel(i, j)
                    }),
            decreases max_x - x,
        {
            let mut y = min_y;
            while y < max_y
                invariant
                    self.wf(),
                    self.width == old(self).width,
                    self.height == old(self).height,
                    print == (Footprint { s0, s1, s2, min_x, max_x, min_y, max_y }),
                    h == half::<T>(),
                    min_x <= x < max_x,
                    min_y <= y,
                    forall|i: int, j: int| #[trigger]
                        print.paints(i, j) ==> i < self.width && j < self.height,
                    forall|i: int, j: int|
                        0 <= i < self.width && 0 <= j < self.height ==> #[trigger] self.pixel(i, j)
                            == (if print.paints(i, j) && (i < x || (i == x && j < y)) {
                            color
                        } else {
                            old(self).pixel(i, j)
                        }),
                decreases max_y - y,
            {
                let p = Matrix([[T::from_int(x).add(h), T::from_int(y).add(h)]]);
                if inside_triangle(s0, s1, s2, p) {
                    assert(print.paints(x as int, y as int));
                    self.set(x, y, color);
                }
                y += 1;
            }
            x += 1;
        }
    }
}

} // verus!
