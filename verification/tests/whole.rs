use softrender::matrix::Matrix;
use softrender::matrix_3d::{
    cube, cube_by, perspective, quad, ray_intersects_triangle, rotate_x, rotate_y, rotate_z, scale,
    translate, Triangle,
};
use softrender::scalar::{Angle, Scalar};
use softrender::scene::{frame, scene};
use softrender::whole::Whole;

fn m<const H: usize, const W: usize>(rows: [[i64; W]; H]) -> Matrix<Whole, H, W> {
    Matrix(rows.map(|row| row.map(Whole)))
}

#[test]
fn whole_numbers_wrap_round() {
    assert_eq!(Whole(i64::MAX).add(Whole(1)), Whole(i64::MIN));
    assert_eq!(Whole(i64::MIN).sub(Whole(1)), Whole(i64::MAX));
    assert_eq!(Whole(i64::MIN).neg(), Whole(i64::MIN));
    assert_eq!(Whole(i64::MIN).abs(), Whole(i64::MIN));
    assert_eq!(Whole(1 << 62).mul(Whole(4)), Whole(0));
    assert_eq!(Whole(3_037_000_500).mul(Whole(3_037_000_500)), Whole(-9_223_372_036_709_301_616));
    assert_eq!(Whole(7).add(Whole(-9)), Whole(-2));
    assert_eq!(Whole(7).sub(Whole(-9)), Whole(16));
    assert_eq!(Whole(7).mul(Whole(-9)), Whole(-63));
    assert_eq!(Whole(7).neg(), Whole(-7));
    assert_eq!(Whole(-7).abs(), Whole(7));
}

#[test]
fn whole_division_cuts_off_the_fraction() {
    assert_eq!(Whole(7).div(Whole(2)), Whole(3));
    assert_eq!(Whole(-7).div(Whole(2)), Whole(-3));
    assert_eq!(Whole(7).div(Whole(-2)), Whole(-3));
    assert_eq!(Whole(-7).div(Whole(-2)), Whole(3));
    assert_eq!(Whole(7).div(Whole(0)), Whole(0));
    assert_eq!(Whole(i64::MIN).div(Whole(-1)), Whole(i64::MIN));
    assert_eq!(Whole(i64::MIN).div(Whole(1)), Whole(i64::MIN));
    assert_eq!(Whole(i64::MIN).div(Whole(2)), Whole(i64::MIN / 2));
    assert_eq!(Whole(i64::MIN).div(Whole(i64::MIN)), Whole(1));
    assert_eq!(Whole(i64::MAX).div(Whole(i64::MIN)), Whole(0));
}

#[test]
fn whole_square_roots_are_cut_off() {
    assert_eq!(Whole(0).sqrt(), Whole(0));
    assert_eq!(Whole(1).sqrt(), Whole(1));
    assert_eq!(Whole(15).sqrt(), Whole(3));
    assert_eq!(Whole(16).sqrt(), Whole(4));
    assert_eq!(Whole(17).sqrt(), Whole(4));
    assert_eq!(Whole(-4).sqrt(), Whole(0));
    assert_eq!(Whole(i64::MAX).sqrt(), Whole(3_037_000_499));
}

#[test]
fn whole_numbers_convert_and_compare() {
    assert_eq!(Whole::from_int(0), Whole(0));
    assert_eq!(Whole::from_int(u32::MAX), Whole(4_294_967_295));
    assert_eq!(Whole(-1).to_int(), 0);
    assert_eq!(Whole(77).to_int(), 77);
    assert_eq!(Whole(1 << 40).to_int(), u32::MAX);
    assert_eq!(Whole(5).round(), Whole(5));
    assert!(Whole(2).at_least(Whole(2)));
    assert!(Whole(3).at_least(Whole(2)));
    assert!(!Whole(1).at_least(Whole(2)));
    assert!(Whole(-3).less(Whole(2)));
    assert!(!Whole(2).less(Whole(2)));
    assert!(!Whole(3).less(Whole(2)));
}

#[test]
fn determinants_of_whole_matrices_are_exact() {
    assert_eq!(m([[5]]).det(), Whole(5));
    assert_eq!(m([[3, 8], [4, 6]]).det(), Whole(-14));
    assert_eq!(m([[6, 1, 1], [4, -2, 5], [2, 8, 7]]).det(), Whole(-306));
    assert_eq!(
        m([[1, 3, 5, 9], [1, 3, 1, 7], [4, 3, 9, 7], [5, 2, 0, 9]]).det(),
        Whole(-376)
    );
}

#[test]
fn minors_leave_out_a_row_and_a_column() {
    let x = m([[1, 2, 3, 4], [5, 6, 7, 8], [9, 10, 11, 12], [13, 14, 15, 16]]);
    assert_eq!(x.minor(0, 0), m([[6, 7, 8], [10, 11, 12], [14, 15, 16]]));
    assert_eq!(x.minor(1, 2), m([[1, 2, 4], [9, 10, 12], [13, 14, 16]]));
    assert_eq!(x.minor(3, 3), m([[1, 2, 3], [5, 6, 7], [9, 10, 11]]));
    let y = m([[1, 2, 3], [4, 5, 6], [7, 8, 9]]);
    assert_eq!(y.minor(2, 0), m([[2, 3], [5, 6]]));
    assert_eq!(y.minor(0, 2), m([[4, 5], [7, 8]]));
}

#[test]
fn inverses_of_whole_matrices_with_determinant_one() {
    assert_eq!(m([[1]]).inv(), m([[1]]));
    assert_eq!(m([[2, 1], [1, 1]]).inv(), m([[1, -1], [-1, 2]]));
    let a = m([[1, 2, 3], [0, 1, 4], [5, 6, 0]]);
    assert_eq!(a.det(), Whole(1));
    let inv = a.inv();
    assert_eq!(inv, m([[-24, 18, 5], [20, -15, -4], [-5, 4, 1]]));
    assert_eq!(inv.dot(a), Matrix::<Whole, 3, 3>::identity());
    let b = m([[1, 0, 0, 0], [2, 1, 0, 0], [3, 4, 1, 0], [5, 6, 7, 1]]);
    assert_eq!(b.inv().dot(b), Matrix::<Whole, 4, 4>::identity());
    assert_eq!(b.dot(b.inv()), Matrix::<Whole, 4, 4>::identity());
}

#[test]
fn an_inverse_divides_by_the_determinant() {
    assert_eq!(m([[4]]).inv(), m([[0]]));
    assert_eq!(m([[2, 0], [0, 2]]).inv(), m([[0, 0], [0, 0]]));
    assert_eq!(m([[8, 0], [0, 1]]).inv(), m([[0, 0], [0, 1]]));
    assert_eq!(m([[1, 2], [2, 4]]).inv(), m([[0, 0], [0, 0]]));
}

#[test]
fn the_laws_of_sums_and_products_hold() {
    let a = m([[1, -2], [i64::MAX, 4], [5, 6]]);
    let b = m([[7, 8], [9, i64::MIN], [-11, 12]]);
    let c = m([[3, 3], [-1, 1 << 40], [0, 1 << 62]]);
    let zeros: Matrix<Whole, 3, 2> = Matrix::default();
    let ones: Matrix<Whole, 3, 2> = Matrix::filled(Whole(1));

    assert_eq!(a.add(b), b.add(a));
    assert_eq!(a.add(b).add(c), a.add(b.add(c)));
    assert_eq!(a.add(zeros), a);
    assert_eq!(zeros.add(a), a);
    assert_eq!(a.add(a.neg()), zeros);
    assert_eq!(a.sub(a), zeros);
    assert_eq!(a.mul(ones), a);
    assert_eq!(ones.mul(a), a);
    assert_eq!(a.mul(b), b.mul(a));
    assert_eq!(a.mul(b).mul(c), a.mul(b.mul(c)));
    assert_eq!(a.mul(b.add(c)), a.mul(b).add(a.mul(c)));
}

#[test]
fn transposing_twice_gives_the_matrix_back() {
    let a = m([[1, 2, 3], [4, 5, 6]]);
    assert_eq!(a.transpose(), m([[1, 4], [2, 5], [3, 6]]));
    assert_eq!(a.transpose().transpose(), a);
}

#[test]
fn the_transpose_of_a_product_is_the_product_of_the_transposes() {
    let a = m([[1, 2], [0, 1], [2, 3]]);
    let b = m([[2, 5, 1, 1], [6, 7, 1, 1]]);
    assert_eq!(a.dot(b), m([[14, 19, 3, 3], [6, 7, 1, 1], [22, 31, 5, 5]]));
    assert_eq!(a.dot(b).transpose(), b.transpose().dot(a.transpose()));
}

#[test]
fn the_identity_is_neutral_for_the_matrix_product() {
    let a = m([[1, 2, 3], [4, 5, 6]]);
    assert_eq!(a.dot(Matrix::<Whole, 3, 3>::identity()), a);
    assert_eq!(Matrix::<Whole, 2, 2>::identity().dot(a), a);
    assert_eq!(Matrix::<Whole, 2, 2>::identity(), m([[1, 0], [0, 1]]));
}

#[test]
fn a_matrix_and_a_number_combine_entry_by_entry() {
    let a = m([[1, 2], [3, 4]]);
    assert_eq!(a.add_scalar(Whole(10)), m([[11, 12], [13, 14]]));
    assert_eq!(a.sub_scalar(Whole(10)), m([[-9, -8], [-7, -6]]));
    assert_eq!(a.mul_scalar(Whole(10)), m([[10, 20], [30, 40]]));
    assert_eq!(a.div_scalar(Whole(2)), m([[0, 1], [1, 2]]));
    assert_eq!(Matrix::scalar_add(Whole(10), a), m([[11, 12], [13, 14]]));
    assert_eq!(Matrix::scalar_sub(Whole(10), a), m([[9, 8], [7, 6]]));
    assert_eq!(Matrix::scalar_mul(Whole(10), a), m([[10, 20], [30, 40]]));
    assert_eq!(Matrix::scalar_div(Whole(12), a), m([[12, 6], [4, 3]]));
    assert_eq!(a.div(m([[1, 2], [0, 3]])), m([[1, 1], [0, 1]]));
}

#[test]
fn entries_are_read_and_written_one_by_one() {
    let mut a = m([[1, 2, 3, 4], [5, 6, 7, 8]]);
    assert_eq!(a.get(1, 2), Whole(7));
    a.set(1, 2, Whole(70));
    assert_eq!(a, m([[1, 2, 3, 4], [5, 6, 70, 8]]));
    assert_eq!(a.x(), Whole(1));
    assert_eq!(a.y(), Whole(2));
    assert_eq!(a.z(), Whole(3));
    assert_eq!(a.w(), Whole(4));
    assert_eq!(Matrix::<Whole, 2, 3>::filled(Whole(9)), m([[9, 9, 9], [9, 9, 9]]));
    assert_eq!(Matrix::<Whole, 2, 3>::default(), m([[0, 0, 0], [0, 0, 0]]));
}

#[test]
fn vectors_have_cross_and_inner_products() {
    let a = m([[1, 0, 0]]);
    let b = m([[0, 1, 0]]);
    assert_eq!(a.cross(b), m([[0, 0, 1]]));
    assert_eq!(b.cross(a), m([[0, 0, -1]]));
    assert_eq!(m([[1, 2, 3]]).cross(m([[4, 5, 6]])), m([[-3, 6, -3]]));
    assert_eq!(m([[1, 2, 3]]).inner(m([[4, 5, 6]])), Whole(32));
    assert_eq!(m([[1, 2, 3]]).minus(m([[4, 6, 8]])), m([[-3, -4, -5]]));
    assert_eq!(m([[0, 3, 4]]).normalize(), m([[0, 0, 0]]));
    assert_eq!(m([[0, 0, 4]]).normalize(), m([[0, 0, 1]]));
    assert_eq!(m([[1, 2, 3, 4]]).xyz(), m([[1, 2, 3]]));
    assert_eq!(m([[1, 2, 3, 4]]).inner(m([[5, 6, 7, 8]])), Whole(70));
}

#[test]
fn rounding_whole_numbers_scales_and_divides_back() {
    let a = m([[1, -2], [3, 4]]);
    assert_eq!(a.round(0), a);
    assert_eq!(a.round(9), a);
}

#[test]
fn a_whole_mesh_is_moved_exactly() {
    let q = quad::<Whole>().apply(scale(Whole(2), Whole(3), Whole(1)));
    assert_eq!(
        q.0[1],
        Triangle(m([[2, 3, 0, 1]]), m([[0, 3, 0, 1]]), m([[2, 0, 0, 1]]))
    );
    let id: Matrix<Whole, 4, 4> = Matrix::identity();
    let c = cube_by(id, id, translate(Whole(5), Whole(0), Whole(0)), id);
    assert_eq!(c.0.len(), 12);
    assert_eq!(c.0[4].0, m([[5, 0, 0, 1]]));
}

#[test]
fn a_whole_ray_hits_a_triangle_at_a_corner() {
    let trig = Triangle(m([[0, 0, 5, 1]]), m([[1, 0, 5, 1]]), m([[0, 1, 5, 1]]));
    let hit = ray_intersects_triangle(m([[0, 0, 0, 1]]), m([[0, 0, 1, 0]]), trig).unwrap();
    assert_eq!(hit.t, Whole(5));
    assert_eq!(hit.u, Whole(0));
    assert_eq!(hit.v, Whole(0));
    assert_eq!(hit.normal, m([[0, 0, 1, 0]]));
    assert!(ray_intersects_triangle(m([[0, 0, 0, 1]]), m([[0, 0, -1, 0]]), trig).is_none());
}

#[test]
fn whole_circular_functions_are_cut_to_whole_numbers() {
    for x in [-100, -1, 1, 2, 3, 11, i64::MAX, i64::MIN] {
        assert_eq!(Whole(x).sin(), Whole(0));
        assert_eq!(Whole(x).cos(), Whole(0));
        assert_eq!(Whole(x).tan(), Whole(0));
    }
    assert_eq!(Whole(0).sin(), Whole(0));
    assert_eq!(Whole(0).cos(), Whole(1));
    assert_eq!(Whole(0).tan(), Whole(0));
    assert_eq!(Whole::pi(), Whole(3));
}

#[test]
fn whole_rotations_are_the_identity_at_zero_only() {
    let id: Matrix<Whole, 4, 4> = Matrix::identity();
    assert_eq!(rotate_x(Whole(0)), id);
    assert_eq!(rotate_y(Whole(0)), id);
    assert_eq!(rotate_z(Whole(0)), id);
    assert_eq!(
        rotate_x(Whole(2)),
        m([[1, 0, 0, 0], [0, 0, 0, 0], [0, 0, 0, 0], [0, 0, 0, 1]])
    );
    assert_eq!(
        rotate_y(Whole(2)),
        m([[0, 0, 0, 0], [0, 1, 0, 0], [0, 0, 0, 0], [0, 0, 0, 1]])
    );
    assert_eq!(
        rotate_z(Whole(2)),
        m([[0, 0, 0, 0], [0, 0, 0, 0], [0, 0, 1, 0], [0, 0, 0, 1]])
    );
}

#[test]
fn whole_perspective_has_a_focal_factor_of_zero() {
    assert_eq!(
        perspective(Whole(1), Whole(2), Whole(1), Whole(3)),
        m([[0, 0, 0, 0], [0, 0, 0, 0], [0, 0, 0, -1], [0, 0, 0, 0]])
    );
}

#[test]
fn a_whole_scene_has_its_cubes_and_its_frame_its_pixels() {
    assert_eq!(cube::<Whole>().0.len(), 12);
    let models = scene(Whole(0));
    assert_eq!(models.len(), 3);
    assert_eq!(models[0].mesh.0.len(), 12);
    assert_eq!(models[1].color, m([[0, 1, 0, 1]]));
    let bmp = frame(Whole(4), Whole(3), Whole(0));
    assert_eq!(bmp.width, 4);
    assert_eq!(bmp.height, 3);
    assert_eq!(bmp.to_bytes().len(), 48);
}

#[test]
fn the_inverse_of_a_whole_matrix_with_determinant_minus_one() {
    let a = m([[0, 1], [1, 0]]);
    assert_eq!(a.det(), Whole(-1));
    assert_eq!(a.inv().dot(a), Matrix::<Whole, 2, 2>::identity());
    let b = m([[2, 3, 1], [1, 2, 1], [1, 1, 1]]);
    assert_eq!(b.det(), Whole(1));
    assert_eq!(b.inv().dot(b), Matrix::<Whole, 3, 3>::identity());
    let c = m([[0, 1, 0], [1, 0, 0], [0, 0, 1]]);
    assert_eq!(c.det(), Whole(-1));
    assert_eq!(c.inv(), c);
    assert_eq!(c.inv().dot(c), Matrix::<Whole, 3, 3>::identity());
    assert_eq!(m([[-1]]).inv().dot(m([[-1]])), m([[1]]));
    let wide = m([[i64::MAX, 1], [-1, 0]]);
    assert_eq!(wide.det(), Whole(1));
    assert_eq!(wide.inv().dot(wide), Matrix::<Whole, 2, 2>::identity());
}

#[test]
fn the_inverse_of_a_four_by_four_whole_matrix_with_a_unit_determinant() {
    let a = m([[1, 2, 0, 3], [0, 1, 4, -2], [0, 0, 1, 5], [1, 2, 0, 4]]);
    assert_eq!(a.det(), Whole(1));
    assert_eq!(a.inv().dot(a), Matrix::<Whole, 4, 4>::identity());
    let b = m([[0, 1, 0, 0], [1, 0, 0, 0], [7, -3, 1, 0], [2, 9, -4, 1]]);
    assert_eq!(b.det(), Whole(-1));
    assert_eq!(b.inv().dot(b), Matrix::<Whole, 4, 4>::identity());
    let c = m([[2, 0, 0, 0], [0, 1, 0, 0], [0, 0, 1, 0], [0, 0, 0, 1]]);
    assert_eq!(c.det(), Whole(2));
    assert_ne!(c.inv().dot(c), Matrix::<Whole, 4, 4>::identity());
}
