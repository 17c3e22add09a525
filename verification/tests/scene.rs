use softrender::bitmap::{Bitmap, Color};
use softrender::matrix::Matrix;
use softrender::matrix_3d::{
    cube, cube_by, from_screen, perspective, perspective_by, quad, ray_intersects_triangle,
    rotate_x, rotate_x_by, rotate_y, rotate_y_by, rotate_z, rotate_z_by, scale, screen, translate,
    Mesh, Model, RaycastHit, Triangle,
};
use softrender::raster::{cross_product, inside_triangle};
use softrender::raycast::{nearest_hit, raycast, raycast_color, MAX_DEPTH};
use softrender::scalar::{Angle, Scalar};
use softrender::scene::{frame, pixel_color, scene, trace, view_angles, view_ray};

/// Single-precision floating point as the matrices' number type.
#[derive(Clone, Copy, Debug, PartialEq)]
struct Real(f32);

impl Scalar for Real {
    fn from_int_spec(n: u32) -> Self {
        Real(n as f32)
    }

    fn add_spec(self, rhs: Self) -> Self {
        Real(self.0 + rhs.0)
    }

    fn sub_spec(self, rhs: Self) -> Self {
        Real(self.0 - rhs.0)
    }

    fn mul_spec(self, rhs: Self) -> Self {
        Real(self.0 * rhs.0)
    }

    fn div_spec(self, rhs: Self) -> Self {
        Real(self.0 / rhs.0)
    }

    fn neg_spec(self) -> Self {
        Real(-self.0)
    }

    fn abs_spec(self) -> Self {
        Real(self.0.abs())
    }

    fn sqrt_spec(self) -> Self {
        Real(self.0.sqrt())
    }

    fn round_spec(self) -> Self {
        Real(self.0.round())
    }

    fn less_spec(self, rhs: Self) -> bool {
        self.0 < rhs.0
    }

    fn at_least_spec(self, rhs: Self) -> bool {
        self.0 >= rhs.0
    }

    fn to_int_spec(self) -> u32 {
        self.0 as u32
    }

    fn from_int(n: u32) -> Self {
        Real(n as f32)
    }

    fn add(self, rhs: Self) -> Self {
        Real(self.0 + rhs.0)
    }

    fn sub(self, rhs: Self) -> Self {
        Real(self.0 - rhs.0)
    }

    fn mul(self, rhs: Self) -> Self {
        Real(self.0 * rhs.0)
    }

    fn div(self, rhs: Self) -> Self {
        Real(self.0 / rhs.0)
    }

    fn neg(self) -> Self {
        Real(-self.0)
    }

    fn abs(self) -> Self {
        Real(self.0.abs())
    }

    fn sqrt(self) -> Self {
        Real(self.0.sqrt())
    }

    fn round(self) -> Self {
        Real(self.0.round())
    }

    fn less(self, rhs: Self) -> bool {
        self.0 < rhs.0
    }

    fn at_least(self, rhs: Self) -> bool {
        self.0 >= rhs.0
    }

    fn to_int(self) -> u32 {
        self.0 as u32
    }
}

/// Whether `r` can be an outcome of a circular function whose nearest
/// value is `exact`: the precision of these functions is not fixed, so an
/// outcome counts that lies within a few units in the last place.
fn is_outcome(exact: f32, r: f32) -> bool {
    (exact.is_nan() && r.is_nan())
        || exact == r
        || (exact - r).abs() <= 4. * f32::EPSILON * exact.abs().max(1.)
}

impl Angle for Real {
    fn is_sine(self, r: Self) -> bool {
        is_outcome(self.0.sin(), r.0)
    }

    fn is_cosine(self, r: Self) -> bool {
        is_outcome(self.0.cos(), r.0)
    }

    fn is_tangent(self, r: Self) -> bool {
        is_outcome(self.0.tan(), r.0)
    }

    fn pi_spec() -> Self {
        Real(std::f32::consts::PI)
    }

    fn sin(self) -> Self {
        Real(self.0.sin())
    }

    fn cos(self) -> Self {
        Real(self.0.cos())
    }

    fn tan(self) -> Self {
        Real(self.0.tan())
    }

    fn pi() -> Self {
        Real(std::f32::consts::PI)
    }
}

fn m<const H: usize, const W: usize>(rows: [[f32; W]; H]) -> Matrix<Real, H, W> {
    Matrix(rows.map(|row| row.map(Real)))
}

fn p(x: f32, y: f32, z: f32, w: f32) -> Matrix<Real, 1, 4> {
    m([[x, y, z, w]])
}

fn close(a: Real, b: f32) -> bool {
    (a.0 - b).abs() < 1e-5
}

/// A square in the plane z = `z` that spans from -1 to 1 in x and y, as two
/// triangles.
fn wall(z: f32) -> Mesh<Real> {
    Mesh(vec![
        Triangle(p(-1., -1., z, 1.), p(1., -1., z, 1.), p(-1., 1., z, 1.)),
        Triangle(p(1., 1., z, 1.), p(-1., 1., z, 1.), p(1., -1., z, 1.)),
    ])
}

#[test]
fn test_raycast() {
    let ray_origin = m([[0., 0., 0., 1.]]);
    let ray_direction = m([[0., 0.2, 1., 0.]]);

    let triangle = Triangle(
        m([[-1., -1., 5., 1.]]),
        m([[1., -1.0, 5., 1.]]),
        m([[0.0, 1., 5., 1.]]),
    );

    let hit = ray_intersects_triangle(ray_origin, ray_direction, triangle).unwrap();
    assert!(close(hit.t, 5.));
    assert!(close(hit.u, 0.));
    assert!(close(hit.v, 1.));
    assert_eq!(hit.normal, m([[0., 0., 1., 0.]]));
}

#[test]
fn test_render() {
    let width: f32 = 100.;
    let height: f32 = 100.;

    let mut bmp = Bitmap::new(width as u32, height as u32);

    let aspect_ratio = width / height;
    let fov = std::f32::consts::PI / 2.;

    let camera = translate(Real(0.), Real(0.), Real(-5.));

    let background_color = m([[0., 0., 0., 1.]]);

    let t = 0.;

    let models: Vec<Model<Real>> = vec![
        Model {
            color: m([[1., 0., 0., 1.]]),
            reflect: Real(0.3),
            mesh: cube::<Real>().apply(translate(Real(3.), Real(0.), Real(0.))),
        },
        Model {
            color: m([[0., 1., 0., 1.]]),
            reflect: Real(0.3),
            mesh: cube::<Real>().apply(rotate_y(Real(t / 1000.)).dot(rotate_x(Real(t / 2000.)))),
        },
        Model {
            color: m([[0., 0., 1., 1.]]),
            reflect: Real(0.3),
            mesh: cube::<Real>().apply(translate(Real(-3.), Real(0.), Real(0.))),
        },
    ];

    fn raycast_color(
        origin: Matrix<Real, 1, 4>,
        direction: Matrix<Real, 1, 4>,
        background_color: Matrix<Real, 1, 4>,
        models: &Vec<Model<Real>>,
        depth: u32,
    ) -> Matrix<Real, 1, 4> {
        let mut hits: Vec<(RaycastHit<Real>, &Model<Real>)> = Vec::new();

        for model in models.iter() {
            for trig in model.mesh.0.iter() {
                match ray_intersects_triangle(origin, direction, *trig) {
                    Some(hit) => {
                        hits.push((hit, model));
                    }
                    None => {}
                }
            }
        }

        let nearest = hits
            .iter()
            .min_by(|a, b| a.0.t.0.partial_cmp(&b.0.t.0).unwrap());

        match nearest {
            Some((hit, model)) => {
                let out = model.color.mul_scalar(model.reflect);

                if out.w().0 < 1. && depth < 2 {
                    let dot = direction.dot(hit.normal.transpose()).x();
                    let direction_reflected =
                        direction.sub(hit.normal.mul_scalar(Real(2.0 * dot.0)));
                    let origin_reflected = origin.add(direction.mul_scalar(hit.t));

                    out.add(Matrix::scalar_mul(
                        Real(1. - out.w().0),
                        raycast_color(
                            origin_reflected,
                            direction_reflected,
                            background_color,
                            models,
                            depth + 1,
                        ),
                    ))
                } else {
                    out
                }
            }
            None => background_color,
        }
    }

    for screen_x in 0..(width as usize) {
        let x = screen_x as f32;
        for screen_y in 0..(height as usize) {
            let y = screen_y as f32;
            let forward = m([[0., 0., 1., 0.]]);

            let pitch = ((y / height) - 0.5) * fov;
            let yaw = ((x / width) - 0.5) * fov * aspect_ratio;

            let origin = m([[0., 0., 0., 1.]]).dot(camera);
            let direction = forward.dot(rotate_y(Real(yaw)).dot(rotate_x(Real(pitch))));

            bmp.rows[screen_y][screen_x] =
                raycast_color(origin, direction, background_color, &models, 0).to_color();
        }
    }

    // The ray through the middle of the screen meets the front of the green
    // cube, which shows three tenths of its colour and of its alpha; the
    // corner of the screen shows the background.
    assert_eq!(bmp.rows[50][50].rgba().1, 76);
    assert_eq!(bmp.rows[0][0].rgba(), (0, 0, 0, 255));
}

#[test]
fn transforms_have_the_stated_entries() {
    let (a, b, c) = (Real(2.), Real(3.), Real(4.));
    assert_eq!(
        translate(a, b, c),
        m([[1., 0., 0., 0.], [0., 1., 0., 0.], [0., 0., 1., 0.], [2., 3., 4., 1.]])
    );
    assert_eq!(
        scale(a, b, c),
        m([[2., 0., 0., 0.], [0., 3., 0., 0.], [0., 0., 4., 0.], [0., 0., 0., 1.]])
    );
    let (cos, sin) = (Real(0.6), Real(0.8));
    assert_eq!(
        rotate_x_by(cos, sin),
        m([[1., 0., 0., 0.], [0., 0.6, -0.8, 0.], [0., 0.8, 0.6, 0.], [0., 0., 0., 1.]])
    );
    assert_eq!(
        rotate_y_by(cos, sin),
        m([[0.6, 0., 0.8, 0.], [0., 1., 0., 0.], [-0.8, 0., 0.6, 0.], [0., 0., 0., 1.]])
    );
    assert_eq!(
        rotate_z_by(cos, sin),
        m([[0.6, -0.8, 0., 0.], [0.8, 0.6, 0., 0.], [0., 0., 1., 0.], [0., 0., 0., 1.]])
    );
}

#[test]
fn rotations_use_the_cosine_and_sine_of_the_angle() {
    let angle = Real(0.75);
    assert_eq!(rotate_x(angle), rotate_x_by(Real(0.75f32.cos()), Real(0.75f32.sin())));
    assert_eq!(rotate_y(angle), rotate_y_by(Real(0.75f32.cos()), Real(0.75f32.sin())));
    assert_eq!(rotate_z(angle), rotate_z_by(Real(0.75f32.cos()), Real(0.75f32.sin())));
}

#[test]
fn a_point_is_moved_and_a_direction_is_not() {
    let moved = p(1., 2., 3., 1.).transform(translate(Real(10.), Real(20.), Real(30.)));
    assert_eq!(moved, p(11., 22., 33., 1.));
    let direction = p(1., 2., 3., 0.).transform(translate(Real(10.), Real(20.), Real(30.)));
    assert_eq!(direction, p(1., 2., 3., 0.));
}

#[test]
fn perspective_has_the_stated_entries() {
    let by = perspective_by(Real(2.), Real(4.), Real(1.), Real(3.));
    assert_eq!(
        by,
        m([[0.5, 0., 0., 0.], [0., 2., 0., 0.], [0., 0., -2., -1.], [0., 0., -3., 0.]])
    );
    let fov = std::f32::consts::PI / 2.;
    let f = (std::f32::consts::PI * 0.5 - 0.5 * fov).tan();
    assert_eq!(
        perspective(Real(fov), Real(4.), Real(1.), Real(3.)),
        perspective_by(Real(f), Real(4.), Real(1.), Real(3.))
    );
    assert!(close(Real(f), 1.));
}

#[test]
fn perspective_with_equal_clip_distances_divides_by_zero() {
    let by = perspective_by(Real(1.), Real(1.), Real(2.), Real(2.));
    assert!(by.0[2][2].0.is_infinite());
    assert!(by.0[3][2].0.is_infinite());
}

#[test]
fn screen_maps_to_pixels_with_y_downwards() {
    let s = screen(p(1., 1., 2., 1.), Real(200.), Real(100.));
    assert_eq!(s, m([[150., 25.]]));
    let centre = screen(p(0., 0., 1., 1.), Real(200.), Real(100.));
    assert_eq!(centre, m([[100., 50.]]));
}

#[test]
fn from_screen_maps_pixels_back() {
    let d = from_screen(m([[150., 25.]]), Real(200.), Real(100.));
    assert_eq!(d, p(0.5, 0.5, 0., 1.));
    let corner = from_screen(m([[0., 0.]]), Real(200.), Real(100.));
    assert_eq!(corner, p(-1., 1., 0., 1.));
}

#[test]
fn quad_is_the_unit_square() {
    let q = quad::<Real>();
    assert_eq!(q.0.len(), 2);
    assert_eq!(q.0[0], Triangle(p(0., 0., 0., 1.), p(1., 0., 0., 1.), p(0., 1., 0., 1.)));
    assert_eq!(q.0[1], Triangle(p(1., 1., 0., 1.), p(0., 1., 0., 1.), p(1., 0., 0., 1.)));
}

#[test]
fn mesh_apply_moves_every_corner_and_join_appends() {
    let shift = translate(Real(1.), Real(0.), Real(0.));
    let moved = quad::<Real>().apply(shift);
    assert_eq!(moved.0.len(), 2);
    assert_eq!(moved.0[0], Triangle(p(1., 0., 0., 1.), p(2., 0., 0., 1.), p(1., 1., 0., 1.)));
    assert_eq!(moved.0[1], Triangle(p(2., 1., 0., 1.), p(1., 1., 0., 1.), p(2., 0., 0., 1.)));

    let mut both = quad::<Real>();
    both.join(moved);
    assert_eq!(both.0.len(), 4);
    assert_eq!(both.0[0], quad::<Real>().0[0]);
    assert_eq!(both.0[2], Triangle(p(1., 0., 0., 1.), p(2., 0., 0., 1.), p(1., 1., 0., 1.)));
}

#[test]
fn cube_has_twelve_triangles_with_corners_on_the_unit_cube() {
    let c = cube::<Real>();
    assert_eq!(c.0.len(), 12);
    for trig in c.0.iter() {
        for corner in [trig.0, trig.1, trig.2] {
            for k in 0..3 {
                let v = corner.0[0][k].0;
                assert!((v.abs() - 0.5).abs() < 1e-6, "{v}");
            }
            assert_eq!(corner.0[0][3], Real(1.));
        }
    }
}

#[test]
fn cube_has_two_triangles_on_each_face() {
    let c = cube::<Real>();
    for axis in 0..3 {
        for side in [-0.5f32, 0.5] {
            let on_face = c
                .0
                .iter()
                .filter(|t| [t.0, t.1, t.2].iter().all(|v| (v.0[0][axis].0 - side).abs() < 1e-6))
                .count();
            assert_eq!(on_face, 2, "axis {axis}, side {side}");
        }
    }
}

#[test]
fn cube_by_assembles_the_given_turns() {
    let id: Matrix<Real, 4, 4> = Matrix::identity();
    let c = cube_by(id, id, id, id);
    assert_eq!(c.0.len(), 12);
    let first = Triangle(p(-0.5, -0.5, -0.5, 1.), p(0.5, -0.5, -0.5, 1.), p(-0.5, 0.5, -0.5, 1.));
    for k in [0, 2, 4, 6, 8, 10] {
        assert_eq!(c.0[k], first);
    }
}

#[test]
fn ray_along_z_hits_a_triangle_in_the_plane_z_5() {
    let origin = p(0., 0., 0., 1.);
    let direction = p(0., 0., 1., 0.);
    let triangle = Triangle(p(-1., -1., 5., 1.), p(1., -1., 5., 1.), p(-1., 1., 5., 1.));
    let hit = ray_intersects_triangle(origin, direction, triangle).unwrap();
    assert_eq!(hit.t, Real(5.));
    assert_eq!(hit.u, Real(0.5));
    assert_eq!(hit.v, Real(0.5));
    assert_eq!(hit.normal, p(0., 0., 1., 0.));
}

#[test]
fn ray_misses_a_triangle_behind_it_beside_it_and_parallel_to_it() {
    let triangle = Triangle(p(-1., -1., 5., 1.), p(1., -1., 5., 1.), p(-1., 1., 5., 1.));
    let origin = p(0., 0., 0., 1.);
    assert!(ray_intersects_triangle(origin, p(0., 0., -1., 0.), triangle).is_none());
    assert!(ray_intersects_triangle(p(5., 0., 0., 1.), p(0., 0., 1., 0.), triangle).is_none());
    assert!(ray_intersects_triangle(origin, p(1., 0., 0., 0.), triangle).is_none());
    assert!(ray_intersects_triangle(p(0., 0., 5., 1.), p(0., 0., 1., 0.), triangle).is_none());
}

#[test]
fn ray_is_accepted_where_each_coordinate_is_in_range_though_their_sum_is_not() {
    let triangle = Triangle(p(-1., -1., 5., 1.), p(1., -1., 5., 1.), p(-1., 1., 5., 1.));
    let hit = ray_intersects_triangle(p(0.5, 0.5, 0., 1.), p(0., 0., 1., 0.), triangle).unwrap();
    assert_eq!(hit.u, Real(0.75));
    assert_eq!(hit.v, Real(0.75));
    assert_eq!(hit.t, Real(5.));
}

#[test]
fn the_normal_does_not_turn_towards_the_ray() {
    let triangle = Triangle(p(-1., -1., 5., 1.), p(1., -1., 5., 1.), p(-1., 1., 5., 1.));
    let from_front = ray_intersects_triangle(p(0., 0., 0., 1.), p(0., 0., 1., 0.), triangle);
    let from_behind = ray_intersects_triangle(p(0., 0., 10., 1.), p(0., 0., -1., 0.), triangle);
    assert_eq!(from_front.unwrap().normal, p(0., 0., 1., 0.));
    assert_eq!(from_behind.unwrap().normal, p(0., 0., 1., 0.));
}

#[test]
fn a_ray_that_misses_everything_brings_back_the_background() {
    let models = vec![Model { mesh: wall(5.), color: p(1., 0., 0., 1.), reflect: Real(0.5) }];
    let background = p(0.1, 0.2, 0.3, 1.);
    let (color, depth) =
        raycast(p(0., 0., 0., 1.), p(0., 0., -1., 0.), background, &models, 0);
    assert_eq!(color, background);
    assert_eq!(depth, 0);
    assert_eq!(
        raycast_color(p(0., 0., 0., 1.), p(0., 0., -1., 0.), background, &models, 0),
        background
    );
    let empty: Vec<Model<Real>> = Vec::new();
    assert_eq!(
        raycast(p(0., 0., 0., 1.), p(0., 0., 1., 0.), background, &empty, 0),
        (background, 0)
    );
}

#[test]
fn one_reflecting_model_adds_the_background_once() {
    let models = vec![Model { mesh: wall(5.), color: p(1., 0., 0., 1.), reflect: Real(0.5) }];
    let background = p(0., 0., 0., 1.);
    let (color, depth) = raycast(p(0., 0., 0., 1.), p(0., 0., 1., 0.), background, &models, 0);
    assert_eq!(color, p(0.5, 0., 0., 1.5));
    assert_eq!(depth, 1);

    let dark = p(0., 0., 0., 0.);
    let color = raycast_color(p(0., 0., 0., 1.), p(0., 0., 1., 0.), dark, &models, 0);
    assert_eq!(color, p(0.5, 0., 0., 0.5));
}

#[test]
fn an_opaque_model_is_not_reflected() {
    let models = vec![Model { mesh: wall(5.), color: p(1., 0., 0., 1.), reflect: Real(1.) }];
    let background = p(0., 0., 0., 1.);
    let (color, depth) = raycast(p(0., 0., 0., 1.), p(0., 0., 1., 0.), background, &models, 0);
    assert_eq!(color, p(1., 0., 0., 1.));
    assert_eq!(depth, 0);
}

#[test]
fn facing_mirrors_stop_at_the_deepest_level() {
    let models = vec![
        Model { mesh: wall(5.), color: p(1., 0., 0., 1.), reflect: Real(0.25) },
        Model { mesh: wall(-5.), color: p(0., 1., 0., 1.), reflect: Real(0.25) },
    ];
    let background = p(0., 0., 0., 1.);
    let (color, depth) = raycast(p(0., 0., 0., 1.), p(0., 0., 1., 0.), background, &models, 0);
    // The wall in front is hit, then the wall behind, and that one once more
    // from just beyond it, where the set-back along its normal has put the ray.
    assert_eq!(depth, MAX_DEPTH);
    assert_eq!(depth, 2);
    assert_eq!(color, p(0.25, 0.5, 0., 0.75));

    let (color, depth) = raycast(p(0., 0., 0., 1.), p(0., 0., 1., 0.), background, &models, 2);
    assert_eq!(depth, 2);
    assert_eq!(color, p(0.25, 0., 0., 0.25));

    let (color, depth) = raycast(p(0., 0., 0., 1.), p(0., 0., 1., 0.), background, &models, 7);
    assert_eq!(depth, 7);
    assert_eq!(color, p(0.25, 0., 0., 0.25));
}

#[test]
fn the_nearest_hit_wins_and_the_first_of_equals() {
    let models = vec![
        Model { mesh: wall(9.), color: p(1., 0., 0., 1.), reflect: Real(1.) },
        Model { mesh: wall(5.), color: p(0., 1., 0., 1.), reflect: Real(1.) },
        Model { mesh: wall(5.), color: p(0., 0., 1., 1.), reflect: Real(1.) },
        Model { mesh: wall(7.), color: p(1., 1., 1., 1.), reflect: Real(1.) },
    ];
    let (hit, k) = nearest_hit(p(0., 0., 0., 1.), p(0., 0., 1., 0.), &models).unwrap();
    assert_eq!(k, 1);
    assert_eq!(hit.t, Real(5.));
    assert!(nearest_hit(p(0., 0., 0., 1.), p(0., 0., -1., 0.), &models).is_none());
    let color = raycast_color(p(0., 0., 0., 1.), p(0., 0., 1., 0.), p(0., 0., 0., 1.), &models, 0);
    assert_eq!(color, p(0., 1., 0., 1.));
}

#[test]
fn colours_are_cut_to_eight_bits() {
    assert_eq!(p(0., 0.5, 1., 1.5).to_color(), Color::new(0, 127, 255, 255));
    assert_eq!(p(-1., 0.2, 0.999, 1000.).to_color(), Color::new(0, 51, 254, 255));
    assert_eq!(p(f32::NAN, f32::INFINITY, f32::NEG_INFINITY, 0.).to_color(), Color::new(0, 255, 0, 0));
}

#[test]
fn view_angles_follow_the_pixel() {
    let (pitch, yaw) = view_angles(25, 75, Real(100.), Real(100.), Real(2.), Real(1.5));
    assert_eq!(pitch, Real(0.5));
    assert_eq!(yaw, Real(-0.75));
    let (pitch, yaw) = view_angles(50, 50, Real(100.), Real(100.), Real(2.), Real(1.5));
    assert_eq!(pitch, Real(0.));
    assert_eq!(yaw, Real(0.));
}

#[test]
fn view_ray_turns_the_forward_direction() {
    let id: Matrix<Real, 4, 4> = Matrix::identity();
    assert_eq!(view_ray(id, id), p(0., 0., 1., 0.));
    let quarter = rotate_y_by(Real(0.), Real(1.));
    assert_eq!(view_ray(quarter, id), p(-1., 0., 0., 0.));
    let down = rotate_x_by(Real(0.), Real(1.));
    assert_eq!(view_ray(id, down), p(0., 1., 0., 0.));
}

#[test]
fn trace_paints_every_pixel() {
    let models = vec![Model { mesh: wall(5.), color: p(1., 0., 0., 1.), reflect: Real(1.) }];
    let camera: Matrix<Real, 4, 4> = Matrix::identity();
    let background = p(0., 0., 1., 1.);
    let bmp = trace(Real(8.9), Real(4.2), Real(std::f32::consts::PI / 2.), camera, background, &models);
    assert_eq!(bmp.width, 8);
    assert_eq!(bmp.height, 4);
    assert_eq!(bmp.rows.len(), 4);
    assert!(bmp.rows.iter().all(|row| row.len() == 8));
    assert_eq!(bmp.get(4, 2), Color::new(255, 0, 0, 255));
    assert_eq!(bmp.get(0, 0), Color::new(0, 0, 255, 255));
    for row in bmp.rows.iter() {
        for c in row.iter() {
            assert!(*c == Color::new(255, 0, 0, 255) || *c == Color::new(0, 0, 255, 255));
        }
    }
}

#[test]
fn scene_has_three_cubes() {
    let models = scene(Real(0.));
    assert_eq!(models.len(), 3);
    assert_eq!(models[0].color, p(1., 0., 0., 1.));
    assert_eq!(models[1].color, p(0., 1., 0., 1.));
    assert_eq!(models[2].color, p(0., 0., 1., 1.));
    for model in models.iter() {
        assert_eq!(model.reflect, Real(0.5));
        assert_eq!(model.mesh.0.len(), 12);
    }
    let unit = cube::<Real>();
    for k in 0..12 {
        assert_eq!(models[0].mesh.0[k].0.x().0, unit.0[k].0.x().0 + 3.);
        assert_eq!(models[2].mesh.0[k].0.x().0, unit.0[k].0.x().0 - 3.);
        assert_eq!(models[1].mesh.0[k], unit.0[k].apply(rotate_y(Real(0.))));
    }
}

#[test]
fn frame_shows_the_green_cube_in_the_middle() {
    let bmp = frame(Real(40.), Real(30.), Real(0.));
    assert_eq!(bmp.width, 40);
    assert_eq!(bmp.height, 30);
    assert_eq!(bmp.to_bytes().len(), 40 * 30 * 4);
    let (r, g, b, _) = bmp.get(20, 15).rgba();
    assert_eq!(r, 0);
    assert!(g >= 127);
    assert_eq!(b, 0);
    assert_eq!(bmp.get(20, 0).rgba(), (0, 0, 0, 255));
}

#[test]
fn the_edge_function_is_twice_the_signed_area() {
    let a = m([[0., 0.]]);
    let b = m([[4., 0.]]);
    let c = m([[0., 4.]]);
    assert_eq!(cross_product(a, b, c), Real(16.));
    assert_eq!(cross_product(a, c, b), Real(-16.));
    assert_eq!(cross_product(a, b, m([[2., 0.]])), Real(0.));
    assert_eq!(cross_product(m([[1., 2.]]), m([[4., 6.]]), m([[2., 9.]])), Real(17.));
}

#[test]
fn a_point_is_inside_a_triangle_or_on_its_border() {
    let s0 = m([[0., 0.]]);
    let s1 = m([[0., 4.]]);
    let s2 = m([[4., 0.]]);
    assert!(inside_triangle(s0, s1, s2, m([[1., 1.]])));
    assert!(inside_triangle(s0, s1, s2, m([[0., 0.]])));
    assert!(inside_triangle(s0, s1, s2, m([[2., 2.]])));
    assert!(!inside_triangle(s0, s1, s2, m([[3., 3.]])));
    assert!(!inside_triangle(s0, s1, s2, m([[-1., 1.]])));
    assert!(!inside_triangle(s0, s1, s2, m([[1., -1.]])));
    assert!(!inside_triangle(s0, s2, s1, m([[1., 1.]])));
    assert!(!inside_triangle(s0, s1, s2, m([[f32::NAN, 1.]])));
}

#[test]
fn render_trig_paints_the_pixels_whose_centres_are_covered() {
    let mut bmp = Bitmap::new(4, 4);
    let trig = Triangle(p(-1., 1., 1., 1.), p(-1., -1., 1., 1.), p(1., 1., 1., 1.));
    let red = Color::new(255, 0, 0, 255);
    bmp.render_trig(trig, Matrix::<Real, 4, 4>::identity(), red);
    for y in 0..4 {
        for x in 0..4 {
            let expected = if x + y <= 3 { red } else { Color::new(0, 0, 0, 0) };
            assert_eq!(bmp.get(x, y), expected, "{x}, {y}");
        }
    }
}

#[test]
fn render_trig_leaves_out_the_last_row_and_column_of_its_box() {
    let mut bmp = Bitmap::new(8, 8);
    let trig = Triangle(p(-0.5, 0.5, 1., 1.), p(-0.5, -0.5, 1., 1.), p(0.5, 0.5, 1., 1.));
    let blue = Color::new(0, 0, 255, 255);
    bmp.render_trig(trig, Matrix::<Real, 4, 4>::identity(), blue);
    let painted: Vec<(u32, u32)> = (0..8)
        .flat_map(|y| (0..8).map(move |x| (x, y)))
        .filter(|&(x, y)| bmp.get(x, y) == blue)
        .collect();
    assert_eq!(
        painted,
        vec![(2, 2), (3, 2), (4, 2), (5, 2), (2, 3), (3, 3), (4, 3), (2, 4), (3, 4), (2, 5)]
    );
}

#[test]
fn render_trig_with_the_other_winding_paints_nothing() {
    let mut bmp = Bitmap::new(4, 4);
    let trig = Triangle(p(-1., 1., 1., 1.), p(1., 1., 1., 1.), p(-1., -1., 1., 1.));
    bmp.render_trig(trig, Matrix::<Real, 4, 4>::identity(), Color::new(255, 0, 0, 255));
    assert_eq!(bmp.to_bytes(), vec![0u8; 64]);
}

#[test]
fn render_trig_with_a_corner_at_depth_zero_paints_nothing() {
    let mut bmp = Bitmap::new(4, 4);
    let trig = Triangle(p(0., 0., 0., 1.), p(-1., -1., 1., 1.), p(1., 1., 1., 1.));
    bmp.render_trig(trig, Matrix::<Real, 4, 4>::identity(), Color::new(255, 0, 0, 255));
    assert_eq!(bmp.to_bytes(), vec![0u8; 64]);
}

#[test]
fn render_trig_keeps_what_it_does_not_paint() {
    let mut bmp = Bitmap::new(4, 4);
    let green = Color::new(0, 255, 0, 255);
    let red = Color::new(255, 0, 0, 255);
    bmp.set(3, 3, green);
    bmp.set(0, 0, green);
    let trig = Triangle(p(-1., 1., 1., 1.), p(-1., -1., 1., 1.), p(1., 1., 1., 1.));
    bmp.render_trig(trig, scale(Real(1.), Real(1.), Real(1.)), red);
    assert_eq!(bmp.get(3, 3), green);
    assert_eq!(bmp.get(0, 0), red);
    assert_eq!(bmp.get(3, 0), red);
    assert_eq!(bmp.get(3, 1), Color::new(0, 0, 0, 0));
}

#[test]
fn pixel_color_is_what_the_turned_ray_brings_back() {
    let models = vec![Model { mesh: wall(5.), color: p(0.2, 0.4, 0.6, 1.), reflect: Real(1.) }];
    let id: Matrix<Real, 4, 4> = Matrix::identity();
    let background = p(1., 1., 1., 1.);
    let origin = p(0., 0., 0., 1.);
    assert_eq!(pixel_color(origin, id, id, background, &models), Color::new(51, 102, 153, 255));
    let away = rotate_y_by(Real(-1.), Real(0.));
    assert_eq!(pixel_color(origin, away, id, background, &models), Color::new(255, 255, 255, 255));
}

#[test]
fn the_circular_functions_meet_their_relations() {
    for x in [-7.5f32, -1., 0., 0.3, 1., 2.5, 100.] {
        assert!(Real(x).is_sine(Real(x).sin()));
        assert!(Real(x).is_cosine(Real(x).cos()));
        assert!(Real(x).is_tangent(Real(x).tan()));
        assert!(!Real(x).is_sine(Real(2.)));
        assert!(!Real(x).is_cosine(Real(-2.)));
    }
    assert_eq!(Real::pi(), Real::pi_spec());
    assert_eq!(Real::pi(), Real(3.1415927));
}

#[test]
fn a_rotation_about_y_turns_with_its_angle() {
    let id: Matrix<Real, 4, 4> = Matrix::identity();
    assert_eq!(rotate_y(Real(0.)), id);
    for theta in [0.5f32, 1., -2.25, 3.] {
        let r = rotate_y(Real(theta));
        assert_ne!(r, id);
        assert_eq!(r.0[0][0], Real(theta.cos()));
        assert_eq!(r.0[2][2], Real(theta.cos()));
        assert_eq!(r.0[0][2], Real(theta.sin()));
        assert_eq!(r.0[2][0], Real(-theta.sin()));
        assert_eq!(r.0[1], [Real(0.), Real(1.), Real(0.), Real(0.)]);
        assert_eq!(r.0[3], [Real(0.), Real(0.), Real(0.), Real(1.)]);
        let q = p(3., 7., -4., 1.).transform(r);
        assert_eq!(q.y(), Real(7.));
        assert_eq!(q.w(), Real(1.));
        assert!(close(Real(q.x().0 * q.x().0 + q.z().0 * q.z().0), 25.));
    }
}

#[test]
fn the_focal_factor_follows_the_field_of_view() {
    for fov in [0.5f32, 1., 2.] {
        let f = 1. / (fov / 2.).tan();
        let r = perspective(Real(fov), Real(2.), Real(1.), Real(3.));
        assert!(close(r.0[1][1], f), "{fov}");
        assert!(close(r.0[0][0], f / 2.), "{fov}");
        assert_eq!(r.0[2], [Real(0.), Real(0.), Real(-2.), Real(-1.)]);
        assert_eq!(r.0[3], [Real(0.), Real(0.), Real(-3.), Real(0.)]);
    }
}

#[test]
fn the_cube_is_made_of_a_half_turn_and_quarter_turns() {
    let pi = std::f32::consts::PI;
    let made = cube_by(
        rotate_y(Real(pi)),
        rotate_y(Real(0.)),
        rotate_y(Real(pi / 2.)),
        rotate_x(Real(pi / 2.)),
    );
    assert_eq!(cube::<Real>().0, made.0);
}

#[test]
fn the_middle_cube_turns_with_time() {
    let unit = cube::<Real>();
    for t in [0.0f32, 2500., 7500., -10000.] {
        let models = scene(Real(t));
        let turn = rotate_y(Real(t / 10000.));
        for k in 0..12 {
            assert_eq!(models[1].mesh.0[k], unit.0[k].apply(turn), "{t}");
        }
    }
    let early = scene(Real(0.));
    let late = scene(Real(7500.));
    assert_ne!(early[1].mesh.0[0], late[1].mesh.0[0]);
    assert_eq!(early[0].mesh.0, late[0].mesh.0);
    assert_eq!(early[2].mesh.0, late[2].mesh.0);
}

#[test]
fn trace_casts_the_ray_of_each_pixel() {
    let models = vec![
        Model { mesh: wall(5.), color: p(1., 0., 0., 1.), reflect: Real(1.) },
        Model {
            mesh: wall(5.).apply(translate(Real(2.), Real(2.), Real(0.))),
            color: p(0., 1., 0., 1.),
            reflect: Real(1.),
        },
    ];
    let camera = translate(Real(0.), Real(0.), Real(-1.));
    let background = p(0., 0., 1., 1.);
    let (width, height, fov) = (Real(9.), Real(6.), Real(1.2));
    let bmp = trace(width, height, fov, camera, background, &models);
    let origin = p(0., 0., 0., 1.).transform(camera);
    let mut seen = Vec::new();
    for y in 0..6 {
        for x in 0..9 {
            let (pitch, yaw) = view_angles(x, y, width, height, fov, Real(9. / 6.));
            let expected = pixel_color(origin, rotate_y(yaw), rotate_x(pitch), background, &models);
            assert_eq!(bmp.get(x, y), expected, "{x}, {y}");
            if !seen.contains(&expected) {
                seen.push(expected);
            }
        }
    }
    assert_eq!(seen.len(), 3);
}
