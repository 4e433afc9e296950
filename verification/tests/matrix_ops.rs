use std::f64::consts::PI;
use tracer::fuzzy_eq::FuzzyEq;
use tracer::matrix::Matrix;
use tracer::tuple::Tuple;

fn fx(v: f64) -> i64 {
    (v * 4294967296.0).round() as i64
}

fn feq(a: i64, b: f64) -> bool {
    (a - fx(b)).abs() < 42950
}

fn teq(a: &Tuple, x: f64, y: f64, z: f64, w: f64) -> bool {
    feq(a.x, x) && feq(a.y, y) && feq(a.z, z) && feq(a.w, w)
}

fn pt(x: f64, y: f64, z: f64) -> Tuple {
    Tuple::point(fx(x), fx(y), fx(z))
}

fn vc(x: f64, y: f64, z: f64) -> Tuple {
    Tuple::vector(fx(x), fx(y), fx(z))
}

fn m2(e: [f64; 4]) -> Matrix<2> {
    Matrix::<2>::from_entries(e.iter().map(|v| fx(*v)).collect())
}

fn m3(e: [f64; 9]) -> Matrix<3> {
    Matrix::<3>::from_entries(e.iter().map(|v| fx(*v)).collect())
}

fn m4(e: [f64; 16]) -> Matrix<4> {
    Matrix::<4>::from_entries(e.iter().map(|v| fx(*v)).collect())
}

#[test]
fn constructing_a_4fmatrix() {
    let matrix1 = m4([
        1.0, 2.0, 3.0, 4.0,
        5.5, 6.5, 7.5, 8.5,
        9.0, 10.0, 11.0, 12.0,
        13.5, 14.5, 15.5, 16.5,
    ]);
    assert!(feq(matrix1.at(0, 0), 1.0));
    assert!(feq(matrix1.at(0, 3), 4.0));
    assert!(feq(matrix1.at(1, 0), 5.5));
    assert!(feq(matrix1.at(1, 2), 7.5));
    assert!(feq(matrix1.at(2, 2), 11.0));
    assert!(feq(matrix1.at(3, 0), 13.5));
    assert!(feq(matrix1.at(3, 2), 15.5));
}

#[test]
fn constructing_a_2fmatrix() {
    let matrix1 = m2([-3.0, 5.0, 1.0, -2.0]);
    assert!(feq(matrix1.at(0, 0), -3.0));
    assert!(feq(matrix1.at(0, 1), 5.0));
    assert!(feq(matrix1.at(1, 0), 1.0));
    assert!(feq(matrix1.at(1, 1), -2.0));
}

#[test]
fn constructing_a_3fmatrix() {
    let matrix1 = m3([-3.0, 5.0, 0.0, 1.0, -2.0, -7.0, 0.0, 1.0, 1.0]);
    assert!(feq(matrix1.at(0, 0), -3.0));
    assert!(feq(matrix1.at(1, 1), -2.0));
    assert!(feq(matrix1.at(2, 2), 1.0));
}

#[test]
fn comparing_4fmatrixes_true() {
    let matrix1 = m4([
        1.0, 2.0, 3.0, 4.0,
        5.5, 6.5, 7.5, 8.5,
        9.0, 10.0, 11.0, 12.0,
        13.5, 14.5, 15.5, 16.5,
    ]);
    let matrix2 = m4([
        1.0, 2.0, 3.0, 4.0,
        5.5, 6.5, 7.5, 8.5,
        9.0, 10.0, 11.0, 12.0,
        13.5, 14.5, 15.5, 16.5,
    ]);
    assert!(matrix1.fuzzy_eq(&matrix2));
}

#[test]
fn comparing_4fmatrixes_false() {
    let matrix1 = m4([
        1.0, 2.0, 3.0, 4.0,
        5.5, 6.5, 7.5, 8.5,
        9.0, 10.0, 11.0, 12.0,
        13.5, 14.5, 15.5, 16.5,
    ]);
    let matrix2 = m4([
        1.0, 2.0, 3.0, 4.0,
        5.5, 6.5, 7.5, 8.5,
        9.0, 10.0, 11.0, 12.0,
        13.5, 14.5, 15.5, 1.5,
    ]);
    assert!(!matrix1.fuzzy_eq(&matrix2));
}

#[test]
fn comparing_3fmatrixes_true() {
    let matrix1 = m3([-3.0, 5.0, 0.0, 1.0, -2.0, -7.0, 0.0, 1.0, 1.0]);
    let matrix2 = m3([-3.0, 5.0, 0.0, 1.0, -2.0, -7.0, 0.0, 1.0, 1.0]);
    assert!(matrix1.fuzzy_eq(&matrix2));
}

#[test]
fn comparing_2fmatrixes_true() {
    let matrix1 = m2([-3.0, 5.0, 1.0, -2.0]);
    let matrix2 = m2([-3.0, 5.0, 1.0, -2.0]);
    assert!(matrix1.fuzzy_eq(&matrix2));
}

#[test]
fn multiplying_4f_matrixes() {
    let matrix1 = m4([
        1.0, 2.0, 3.0, 4.0,
        5.0, 6.0, 7.0, 8.0,
        9.0, 8.0, 7.0, 6.0,
        5.0, 4.0, 3.0, 2.0,
    ]);
    let matrix2 = m4([
        -2.0, 1.0, 2.0, 3.0,
        3.0, 2.0, 1.0, -1.0,
        4.0, 3.0, 6.0, 5.0,
        1.0, 2.0, 7.0, 8.0,
    ]);
    let expected = m4([
        20.0, 22.0, 50.0, 48.0,
        44.0, 54.0, 114.0, 108.0,
        40.0, 58.0, 110.0, 102.0,
        16.0, 26.0, 46.0, 42.0,
    ]);
    assert!(matrix1.mul(&matrix2).fuzzy_eq(&expected));
}

#[test]
fn multiplying_4f_matrixes_by_identity_matrix() {
    let matrix1 = m4([
        1.0, 2.0, 3.0, 4.0,
        5.0, 6.0, 7.0, 8.0,
        9.0, 8.0, 7.0, 6.0,
        5.0, 4.0, 3.0, 2.0,
    ]);
    let identitym = Matrix::<4>::identity();
    assert!(matrix1.mul(&identitym).fuzzy_eq(&matrix1));
}

#[test]
fn multiplying_4f_matrixes_by_tuple() {
    let matrix1 = m4([
        1.0, 2.0, 3.0, 4.0,
        2.0, 4.0, 4.0, 2.0,
        8.0, 6.0, 4.0, 1.0,
        0.0, 0.0, 0.0, 1.0,
    ]);
    let tuplearg = pt(1.0, 2.0, 3.0);
    assert!(teq(&matrix1.mul_tuple(&tuplearg), 18.0, 24.0, 33.0, 1.0));
}

#[test]
fn transposing_4f_matrix() {
    let matrix1 = m4([
        0.0, 9.0, 3.0, 0.0,
        9.0, 8.0, 0.0, 8.0,
        1.0, 8.0, 5.0, 3.0,
        0.0, 0.0, 5.0, 8.0,
    ]);
    let expected = m4([
        0.0, 9.0, 1.0, 0.0,
        9.0, 8.0, 8.0, 0.0,
        3.0, 0.0, 5.0, 5.0,
        0.0, 8.0, 3.0, 8.0,
    ]);
    assert!(matrix1.transpose().fuzzy_eq(&expected));
}

#[test]
fn determinant_of_a_2f_matrix() {
    let mat1 = m2([1.0, 5.0, -3.0, 2.0]);
    assert!(feq(mat1.determinant(), 17.0));
}

#[test]
fn submatrix_of_matrix3f() {
    let matrix1 = m3([1.0, 5.0, 0.0, -3.0, 2.0, 7.0, 0.0, 6.0, -3.0]);
    let expected = m2([-3.0, 2.0, 0.0, 6.0]);
    assert!(matrix1.submatrix(0, 2).fuzzy_eq(&expected));
}

#[test]
fn submatrix_of_matrix4f() {
    let matrix1 = m4([
        -6.0, 1.0, 1.0, 6.0,
        -8.0, 5.0, 8.0, 6.0,
        -1.0, 0.0, 8.0, 2.0,
        -7.0, 1.0, -1.0, 1.0,
    ]);
    let expected = m3([-6.0, 1.0, 6.0, -8.0, 8.0, 6.0, -7.0, -1.0, 1.0]);
    assert!(matrix1.submatrix(2, 1).fuzzy_eq(&expected));
}

#[test]
fn minor_of_matrix3f() {
    let matrix1 = m3([3.0, 5.0, 0.0, 2.0, -1.0, -7.0, 6.0, -1.0, 5.0]);
    assert!(feq(matrix1.minor(1, 0), 25.0));
}

#[test]
fn cofactor_of_matrix3f() {
    let matrix1 = m3([3.0, 5.0, 0.0, 2.0, -1.0, -7.0, 6.0, -1.0, 5.0]);
    assert!(feq(matrix1.minor(0, 0), -12.0));
    assert!(feq(matrix1.cofactor(0, 0), -12.0));
    assert!(feq(matrix1.minor(1, 0), 25.0));
    assert!(feq(matrix1.cofactor(1, 0), -25.0));
}

#[test]
fn determinant_of_matrix43() {
    let matrix1 = m3([1.0, 2.0, 6.0, -5.0, 8.0, -4.0, 2.0, 6.0, 4.0]);
    assert!(feq(matrix1.cofactor(0, 0), 56.0));
    assert!(feq(matrix1.cofactor(0, 1), 12.0));
    assert!(feq(matrix1.cofactor(0, 2), -46.0));
    assert!(feq(matrix1.determinant(), -196.0));
}

#[test]
fn determinant_of_matrix4f() {
    let matrix1 = m4([
        -2.0, -8.0, 3.0, 5.0,
        -3.0, 1.0, 7.0, 3.0,
        1.0, 2.0, -9.0, 6.0,
        -6.0, 7.0, 7.0, -9.0,
    ]);
    assert!(feq(matrix1.cofactor(0, 0), 690.0));
    assert!(feq(matrix1.cofactor(0, 1), 447.0));
    assert!(feq(matrix1.cofactor(0, 2), 210.0));
    assert!(feq(matrix1.cofactor(0, 3), 51.0));
}

#[test]
fn matrix4f_invertibility() {
    let matrix1 = m4([
        6.0, 4.0, 4.0, 4.0,
        5.0, 5.0, 7.0, 6.0,
        4.0, -9.0, 3.0, -7.0,
        9.0, 1.0, 7.0, -6.0,
    ]);
    let matrix2 = m4([
        -4.0, 2.0, -2.0, -3.0,
        9.0, 6.0, 2.0, 6.0,
        0.0, -5.0, 1.0, -5.0,
        0.0, 0.0, 0.0, 0.0,
    ]);
    assert!(matrix1.invertible());
    assert!(!matrix2.invertible());
}

#[test]
fn matrix4f_inversion() {
    let matrix1 = m4([
        -5.0, 2.0, 6.0, -8.0,
        1.0, -5.0, 1.0, 8.0,
        7.0, 7.0, -6.0, -7.0,
        1.0, -3.0, 7.0, 4.0,
    ]);
    let expected = m4([
        0.21805, 0.45113, 0.24060, -0.04511,
        -0.80827, -1.45677, -0.44361, 0.52068,
        -0.07895, -0.22368, -0.05263, 0.19737,
        -0.52256, -0.81391, -0.30075, 0.30639,
    ]);
    assert!(feq(matrix1.cofactor(2, 3), -160.0));
    assert!(feq(matrix1.cofactor(3, 2), 105.0));
    assert!(feq(matrix1.determinant(), 532.0));
    assert!(matrix1.inverse().fuzzy_eq(&expected));
}

#[test]
fn matrix4f_inversion2() {
    let matrix1 = m4([
        8.0, -5.0, 9.0, 2.0,
        7.0, 5.0, 6.0, 1.0,
        -6.0, 0.0, 9.0, 6.0,
        -3.0, 0.0, -9.0, -4.0,
    ]);
    let expected = m4([
        -0.15385, -0.15385, -0.28205, -0.53846,
        -0.07692, 0.12308, 0.02564, 0.03077,
        0.35897, 0.35897, 0.43590, 0.92308,
        -0.69231, -0.69231, -0.76923, -1.92308,
    ]);
    assert!(matrix1.inverse().fuzzy_eq(&expected));
}

#[test]
fn matrix4f_inversion3() {
    let matrix1 = m4([
        9.0, 3.0, 0.0, 9.0,
        -5.0, -2.0, -6.0, -3.0,
        -4.0, 9.0, 6.0, 4.0,
        -7.0, 6.0, 6.0, 2.0,
    ]);
    let expected = m4([
        -0.04074, -0.07778, 0.14444, -0.22222,
        -0.07778, 0.03333, 0.36667, -0.33333,
        -0.02901, -0.14630, -0.10926, 0.12963,
        0.17778, 0.06667, -0.26667, 0.33333,
    ]);
    assert!(matrix1.inverse().fuzzy_eq(&expected));
}

#[test]
fn matrix4f_inversion4() {
    let matrix1 = m4([
        3.0, -9.0, 7.0, 3.0,
        3.0, -8.0, 2.0, -9.0,
        -4.0, 4.0, 4.0, 1.0,
        -6.0, 5.0, -1.0, 1.0,
    ]);
    let matrix2 = m4([
        8.0, 2.0, 2.0, 2.0,
        3.0, -1.0, 7.0, 0.0,
        7.0, 0.0, 5.0, 4.0,
        6.0, -2.0, 0.0, 5.0,
    ]);
    let actual_res = matrix1.mul(&matrix2);
    let expected_res = actual_res.mul(&matrix2.inverse());
    assert!(expected_res.fuzzy_eq(&matrix1));
}

#[test]
fn applying_translation_matrix_to_point() {
    let matrix_translate = Matrix::<4>::translation(fx(5.0), fx(-3.0), fx(2.0));
    let p = pt(-3.0, 4.0, 5.0);
    assert!(teq(&matrix_translate.mul_tuple(&p), 2.0, 1.0, 7.0, 1.0));
}

#[test]
fn applying_inverse_translation_matrix_to_point() {
    let matrix_translate = Matrix::<4>::translation(fx(5.0), fx(-3.0), fx(2.0));
    let p = pt(-3.0, 4.0, 5.0);
    assert!(teq(&matrix_translate.inverse().mul_tuple(&p), -8.0, 7.0, 3.0, 1.0));
}

#[test]
fn translation_doesnt_work_on_vectors() {
    let matrix_translate = Matrix::<4>::translation(fx(5.0), fx(-3.0), fx(2.0));
    let p = vc(-3.0, 4.0, 5.0);
    assert!(teq(&matrix_translate.mul_tuple(&p), -3.0, 4.0, 5.0, 0.0));
}

#[test]
fn scaling_a_point() {
    let matrix_translate = Matrix::<4>::scaling(fx(2.0), fx(3.0), fx(4.0));
    let p = pt(-4.0, 6.0, 8.0);
    assert!(teq(&matrix_translate.mul_tuple(&p), -8.0, 18.0, 32.0, 1.0));
}

#[test]
fn scaling_a_vector() {
    let matrix_translate = Matrix::<4>::scaling(fx(2.0), fx(3.0), fx(4.0));
    let p = vc(-4.0, 6.0, 8.0);
    assert!(teq(&matrix_translate.mul_tuple(&p), -8.0, 18.0, 32.0, 0.0));
}

#[test]
fn applying_inverse_scaling_matrix_to_vector() {
    let matrix_translate = Matrix::<4>::scaling(fx(2.0), fx(3.0), fx(4.0));
    let p = vc(-4.0, 6.0, 8.0);
    assert!(teq(&matrix_translate.inverse().mul_tuple(&p), -2.0, 2.0, 2.0, 0.0));
}

#[test]
fn reflection_is_scaling_by_negative() {
    let matrix_translate = Matrix::<4>::scaling(fx(-1.0), fx(1.0), fx(1.0));
    let p = pt(2.0, 3.0, 4.0);
    assert!(teq(&matrix_translate.mul_tuple(&p), -2.0, 3.0, 4.0, 1.0));
}

#[test]
fn rotating_a_point_around_x_axis() {
    let half_quarter_matrix = Matrix::<4>::rotation_x(fx(PI / 4.0));
    let full_quarter_matrix = Matrix::<4>::rotation_x(fx(PI / 2.0));
    let p = pt(0.0, 1.0, 0.0);
    let s = (2.0f64).sqrt() / 2.0;
    assert!(teq(&half_quarter_matrix.mul_tuple(&p), 0.0, s, s, 1.0));
    assert!(teq(&full_quarter_matrix.mul_tuple(&p), 0.0, 0.0, 1.0, 1.0));
}

#[test]
fn rotating_a_point_around_y_axis() {
    let half_quarter_matrix = Matrix::<4>::rotation_y(fx(PI / 4.0));
    let full_quarter_matrix = Matrix::<4>::rotation_y(fx(PI / 2.0));
    let p = pt(0.0, 0.0, 1.0);
    let s = (2.0f64).sqrt() / 2.0;
    assert!(teq(&half_quarter_matrix.mul_tuple(&p), s, 0.0, s, 1.0));
    assert!(teq(&full_quarter_matrix.mul_tuple(&p), 1.0, 0.0, 0.0, 1.0));
}

#[test]
fn rotating_a_point_around_z_axis() {
    let half_quarter_matrix = Matrix::<4>::rotation_z(fx(PI / 4.0));
    let full_quarter_matrix = Matrix::<4>::rotation_z(fx(PI / 2.0));
    let p = pt(0.0, 1.0, 0.0);
    let s = (2.0f64).sqrt() / 2.0;
    assert!(teq(&half_quarter_matrix.mul_tuple(&p), -s, s, 0.0, 1.0));
    assert!(teq(&full_quarter_matrix.mul_tuple(&p), -1.0, 0.0, 0.0, 1.0));
}

#[test]
fn shearing_x_in_proportion_of_y() {
    let m = Matrix::<4>::shearing(fx(1.0), 0, 0, 0, 0, 0);
    assert!(teq(&m.mul_tuple(&pt(2.0, 3.0, 4.0)), 5.0, 3.0, 4.0, 1.0));
}

#[test]
fn shearing_x_in_proportion_of_z() {
    let m = Matrix::<4>::shearing(0, fx(1.0), 0, 0, 0, 0);
    assert!(teq(&m.mul_tuple(&pt(2.0, 3.0, 4.0)), 6.0, 3.0, 4.0, 1.0));
}

#[test]
fn shearing_y_in_proportion_of_x() {
    let m = Matrix::<4>::shearing(0, 0, fx(1.0), 0, 0, 0);
    assert!(teq(&m.mul_tuple(&pt(2.0, 3.0, 4.0)), 2.0, 5.0, 4.0, 1.0));
}

#[test]
fn shearing_y_in_proportion_of_z() {
    let m = Matrix::<4>::shearing(0, 0, 0, fx(1.0), 0, 0);
    assert!(teq(&m.mul_tuple(&pt(2.0, 3.0, 4.0)), 2.0, 7.0, 4.0, 1.0));
}

#[test]
fn shearing_z_in_proportion_of_x() {
    let m = Matrix::<4>::shearing(0, 0, 0, 0, fx(1.0), 0);
    assert!(teq(&m.mul_tuple(&pt(2.0, 3.0, 4.0)), 2.0, 3.0, 6.0, 1.0));
}

#[test]
fn shearing_z_in_proportion_of_y() {
    let m = Matrix::<4>::shearing(0, 0, 0, 0, 0, fx(1.0));
    assert!(teq(&m.mul_tuple(&pt(2.0, 3.0, 4.0)), 2.0, 3.0, 7.0, 1.0));
}

#[test]
fn chaining_successives_transformations() {
    let a = Matrix::<4>::rotation_x(fx(PI / 2.0));
    let b = Matrix::<4>::scaling(fx(5.0), fx(5.0), fx(5.0));
    let c = Matrix::<4>::translation(fx(10.0), fx(5.0), fx(7.0));
    let p = pt(1.0, 0.0, 1.0);
    let p2 = a.mul_tuple(&p);
    assert!(teq(&p2, 1.0, -1.0, 0.0, 1.0));
    let p3 = b.mul_tuple(&p2);
    assert!(teq(&p3, 5.0, -5.0, 0.0, 1.0));
    let p4 = c.mul_tuple(&p3);
    assert!(teq(&p4, 15.0, 0.0, 7.0, 1.0));
}

#[test]
fn chaining_multiple_transformations_in_reverse_order() {
    let a = Matrix::<4>::rotation_x(fx(PI / 2.0));
    let b = Matrix::<4>::scaling(fx(5.0), fx(5.0), fx(5.0));
    let c = Matrix::<4>::translation(fx(10.0), fx(5.0), fx(7.0));
    let p = pt(1.0, 0.0, 1.0);
    let chain = c.mul(&b).mul(&a);
    assert!(teq(&chain.mul_tuple(&p), 15.0, 0.0, 7.0, 1.0));
}

#[test]
fn inverse_undoes_a_transform_on_tuples() {
    let m = m4([
        3.0, -9.0, 7.0, 3.0,
        3.0, -8.0, 2.0, -9.0,
        -4.0, 4.0, 4.0, 1.0,
        -6.0, 5.0, -1.0, 1.0,
    ]);
    assert!(m.invertible());
    let t = pt(1.5, -2.25, 3.0);
    let back = m.inverse().mul_tuple(&m.mul_tuple(&t));
    assert!(teq(&back, 1.5, -2.25, 3.0, 1.0));
}

#[test]
fn transposing_twice_restores_the_matrix() {
    let m = m4([
        0.0, 9.0, 3.0, 0.0,
        9.0, 8.0, 0.0, 8.0,
        1.0, 8.0, 5.0, 3.0,
        0.0, 0.0, 5.0, 8.0,
    ]);
    assert!(m.transpose().transpose().fuzzy_eq(&m));
}
