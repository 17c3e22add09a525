use crate::bitmap::{Bitmap, Color};
use crate::matrix::Matrix;
use crate::matrix_3d::{
    composed, cube, displacement, half, is_cube, is_turn_x, is_turn_y, moved_all, rotate_x,
    rotate_y, transformed, translate, Model, Triangle,
};
use crate::raycast::{channel, raycast_color, shade};
use crate::scalar::{one, quarter_turn, zero, Angle, Scalar};
use crate::vector::Point;
use vstd::prelude::*;

verus! {

/// The direction in which the camera looks: along the Z axis.
pub open spec fn forward<T: Scalar>() -> Point<T> {
    Matrix([[zero::<T>(), zero::<T>(), one::<T>(), zero::<T>()]])
}

/// The origin of the world.
pub open spec fn world_origin<T: Scalar>() -> Point<T> {
    Matrix([[zero::<T>(), zero::<T>(), zero::<T>(), one::<T>()]])
}

/// The angle by which the ray through pixel row `y` is pitched: the row's
/// share of the height, less one half, times the field of view.
pub open spec fn pitch_of<T: Scalar>(y: u32, height: T, fov: T) -> T {
    T::from_int_spec(y).div_spec(height).sub_spec(half::<T>()).mul_spec(fov)
}

/// The angle by which the ray through pixel column `x` is yawed: the
/// column's share of the width, less one half, times the field of view,
/// times the aspect ratio.
pub open spec fn yaw_of<T: Scalar>(x: u32, width: T, fov: T, aspect: T) -> T {
    T::from_int_spec(x).div_spec(width).sub_spec(half::<T>()).mul_spec(fov).mul_spec(aspect)
}

/// The forward direction turned by `yaw` about the Y axis and then by
/// `pitch` about the X axis.
pub open spec fn turned<T: Scalar>(yaw: Matrix<T, 4, 4>, pitch: Matrix<T, 4, 4>) -> Point<T> {
    transformed(forward::<T>(), composed(yaw, pitch))
}

/// The eight-bit channels of the colour `c`.
pub open spec fn channels<T: Scalar>(c: Matrix<T, 1, 4>) -> (u8, u8, u8, u8) {
    (channel(c.at(0, 0)), channel(c.at(0, 1)), channel(c.at(0, 2)), channel(c.at(0, 3)))
}

/// The colours that the pixel in column `x` of row `y` can have once the
/// scene is traced on a screen of `width` by `height`: those that the ray
/// from the camera's position brings back whose direction is the forward
/// direction turned about the Y axis by the pixel's yaw and then about the
/// X axis by its pitch.
pub open spec fn is_pixel<T: Angle>(
    color: (u8, u8, u8, u8),
    x: int,
    y: int,
    width: T,
    height: T,
    fov: T,
    camera: Matrix<T, 4, 4>,
    background: Matrix<T, 1, 4>,
    models: Seq<Model<T>>,
) -> bool {
    exists|yaw: Matrix<T, 4, 4>, pitch: Matrix<T, 4, 4>|
        {
            &&& is_turn_y(yaw, yaw_of(x as u32, width, fov, width.div_spec(height)))
            &&& is_turn_x(pitch, pitch_of(y as u32, height, fov))
            &&& color == channels(
                shade(
                    transformed(world_origin::<T>(), camera),
                    #[trigger] turned(yaw, pitch),
                    background,
                    models,
                    0,
                ),
            )
        }
}

/// The pitch and the yaw of the ray through the pixel in column `x` of
/// row `y`.
pub fn view_angles<T: Scalar>(x: u32, y: u32, width: T, height: T, fov: T, aspect: T) -> (r: (T, T))
    ensures
        r.0 == pitch_of(y, height, fov),
        r.1 == yaw_of(x, width, fov, aspect),
{
    let h = T::from_int(1).div(T::from_int(2));
    let pitch = T::from_int(y).div(height).sub(h).mul(fov);
    let yaw = T::from_int(x).div(width).sub(h).mul(fov).mul(aspect);
    (pitch, yaw)
}

/// The forward direction turned by `yaw` and then by `pitch`.
pub fn view_ray<T: Scalar>(yaw: Matrix<T, 4, 4>, pitch: Matrix<T, 4, 4>) -> (d: Point<T>)
    ensures
        d == turned(yaw, pitch),
{
    let o = T::from_int(0);
    let forward: Point<T> = Matrix([[o, o, T::from_int(1), o]]);
    forward.transform(yaw.compose(pitch))
}

/// The colour of the pixel whose ray is the forward direction turned by
/// `yaw` and then by `pitch`: what the ray from `origin` brings back, in
/// eight bits a channel.
pub fn pixel_color<T: Scalar>(
    origin: Point<T>,
    yaw: Matrix<T, 4, 4>,
    pitch: Matrix<T, 4, 4>,
    background: Matrix<T, 1, 4>,
    models: &Vec<Model<T>>,
) -> (c: Color)
    ensures
        c@ == channels(shade(origin, turned(yaw, pitch), background, models@, 0)),
{
    let direction = view_ray(yaw, pitch);
    raycast_color(origin, direction, background, models, 0).to_color()
}

/// Casts one ray through each pixel of a screen of `width` by `height`
/// pixels and gives the pixel the colour that the ray brings back.
///
/// The bitmap has the whole parts of `width` and `height` as its sides.
/// The ray through a pixel starts where `camera` puts the origin of the
/// world; its direction is the forward direction turned by the pixel's yaw
/// and pitch, with cosines and sines of those angles as the number type
/// computes them.
pub fn trace<T: Angle>(
    width: T,
    height: T,
    fov: T,
    camera: Matrix<T, 4, 4>,
    background: Matrix<T, 1, 4>,
    models: &Vec<Model<T>>,
) -> (bmp: Bitmap)
    ensures
        bmp.wf(),
        bmp.width == width.to_int_spec(),
        bmp.height == height.to_int_spec(),
        forall|x: int, y: int|
            0 <= x < bmp.width && 0 <= y < bmp.height ==> is_pixel(
                (#[trigger] bmp.pixel(x, y))@,
                x,
                y,
                width,
                height,
                fov,
                camera,
                background,
                models@,
            ),
{
    let columns = width.to_int();
    let rows = height.to_int();
    let mut bmp = Bitmap::new(columns, rows);
    let aspect = width.div(height);
    let o = T::from_int(0);
    let origin: Point<T> = Matrix([[o, o, o, T::from_int(1)]]).transform(camera);
    let mut x: u32 = 0;
    while x < columns
        invariant
            x <= columns,
            bmp.wf(),
            bmp.width == columns,
            bmp.height == rows,
            aspect == width.div_spec(height),
            origin == transformed(world_origin::<T>(), camera),
            forall|i: int, j: int|
                0 <= i < x && 0 <= j < rows ==> is_pixel(
                    (#[trigger] bmp.pixel(i, j))@,
                    i,
                    j,
                    width,
                    height,
                    fov,
                    camera,
                    background,
                    models@,
                ),
        decreases columns - x,
    {
        let mut y: u32 = 0;
        while y < rows
            invariant
                x < columns,
                y <= rows,
                bmp.wf(),
                bmp.width == columns,
                bmp.height == rows,
                aspect == width.div_spec(height),
                origin == transformed(world_origin::<T>(), camera),
                forall|i: int, j: int|
                    0 <= i < columns && 0 <= j < rows && (i < x || (i == x && j < y)) ==> is_pixel(
                        (#[trigger] bmp.pixel(i, j))@,
                        i,
                        j,
                        width,
                        height,
                        fov,
                        camera,
                        background,
                        models@,
                    ),
            decreases rows - y,
        {
            let (pitch, yaw) = view_angles(x, y, width, height, fov, aspect);
            let yaw_turn = rotate_y(yaw);
            let pitch_turn = rotate_x(pitch);
            let color = pixel_color(origin, yaw_turn, pitch_turn, background, models);
            proof {
                assert(is_pixel(
                    color@,
                    x as int,
                    y as int,
                    width,
                    height,
                    fov,
                    camera,
                    background,
                    models@,
                ));
            }
            bmp.set(x, y, color);
            y += 1;
        }
        x += 1;
    }
    bmp
}

/// The colour with the given whole-number channels.
pub open spec fn rgba<T: Scalar>(r: u32, g: u32, b: u32, a: u32) -> Matrix<T, 1, 4> {
    Matrix([[T::from_int_spec(r), T::from_int_spec(g), T::from_int_spec(b), T::from_int_spec(a)]])
}

/// Model `k` is a cube moved by `m`, of the colour `color`, that shows
/// half of its colour.
pub open spec fn is_cube_model<T: Angle>(
    model: Model<T>,
    m: Matrix<T, 4, 4>,
    color: Matrix<T, 1, 4>,
) -> bool {
    &&& model.color == color
    &&& model.reflect == half::<T>()
    &&& exists|c: Seq<Triangle<T>>| is_cube(c) && model.mesh@ == moved_all(c, m)
}

/// The scenes that `scene` can return at time `t`: a red cube three units
/// to the right, a green cube turned about the Y axis by a ten-thousandth
/// of `t`, in radians, and a blue cube three units to the left.
pub open spec fn is_scene<T: Angle>(models: Seq<Model<T>>, t: T) -> bool {
    &&& models.len() == 3
    &&& is_cube_model(
        models[0],
        displacement(T::from_int_spec(3), zero::<T>(), zero::<T>()),
        rgba(1, 0, 0, 1),
    )
    &&& exists|turn: Matrix<T, 4, 4>|
        is_turn_y(turn, t.div_spec(T::from_int_spec(10000))) && #[trigger] is_cube_model(
            models[1],
            turn,
            rgba(0, 1, 0, 1),
        )
    &&& is_cube_model(
        models[2],
        displacement(T::from_int_spec(3).neg_spec(), zero::<T>(), zero::<T>()),
        rgba(0, 0, 1, 1),
    )
}

/// The camera of a frame: five units in front of the scene.
pub open spec fn frame_camera<T: Scalar>() -> Matrix<T, 4, 4> {
    displacement(zero::<T>(), zero::<T>(), T::from_int_spec(5).neg_spec())
}

fn cube_model<T: Angle>(m: Matrix<T, 4, 4>, r: u32, g: u32, b: u32) -> (model: Model<T>)
    ensures
        is_cube_model(model, m, rgba(r, g, b, 1)),
{
    let c = cube::<T>();
    let mesh = c.apply(m);
    let color = Matrix([[T::from_int(r), T::from_int(g), T::from_int(b), T::from_int(1)]]);
    let model = Model { mesh, color, reflect: T::from_int(1).div(T::from_int(2)) };
    assert(is_cube(c@) && model.mesh@ == moved_all(c@, m));
    model
}

/// The three cubes at time `t`: the one in the middle is turned about the
/// Y axis by a ten-thousandth of `t`, in radians.
pub fn scene<T: Angle>(t: T) -> (models: Vec<Model<T>>)
    ensures
        is_scene(models@, t),
{
    let o = T::from_int(0);
    let three = T::from_int(3);
    let turn = rotate_y(t.div(T::from_int(10000)));
    let mut models: Vec<Model<T>> = Vec::new();
    models.push(cube_model(translate(three, o, o), 1, 0, 0));
    models.push(cube_model(turn, 0, 1, 0));
    models.push(cube_model(translate(three.neg(), o, o), 0, 0, 1));
    assert(is_cube_model(models@[1], turn, rgba(0, 1, 0, 1)));
    models
}

/// The picture of the three cubes at time `t`, on a screen of `width` by
/// `height` pixels, before an opaque black background, through a field of
/// view of a quarter turn, from five units in front of the scene.
pub fn frame<T: Angle>(width: T, height: T, t: T) -> (bmp: Bitmap)
    ensures
        bmp.wf(),
        bmp.width == width.to_int_spec(),
        bmp.height == height.to_int_spec(),
        exists|models: Seq<Model<T>>|
            #[trigger] is_scene(models, t) && forall|x: int, y: int|
                0 <= x < bmp.width && 0 <= y < bmp.height ==> is_pixel(
                    (#[trigger] bmp.pixel(x, y))@,
                    x,
                    y,
                    width,
                    height,
                    quarter_turn::<T>(),
                    frame_camera::<T>(),
                    rgba(0, 0, 0, 1),
                    models,
                ),
{
    let o = T::from_int(0);
    let fov = T::pi().div(T::from_int(2));
    let camera = translate(o, o, T::from_int(5).neg());
    let background = Matrix([[o, o, o, T::from_int(1)]]);
    let models = scene(t);
    let bmp = trace(width, height, fov, camera, background, &models);
    assert(is_scene(models@, t) && forall|x: int, y: int|
        0 <= x < bmp.width && 0 <= y < bmp.height ==> is_pixel(
            (#[trigger] bmp.pixel(x, y))@,
            x,
            y,
            width,
            height,
            quarter_turn::<T>(),
            frame_camera::<T>(),
            rgba(0, 0, 0, 1),
            models@,
        ));
    bmp
}

} // verus!
