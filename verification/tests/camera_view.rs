use std::f64::consts::PI;
use tracer::camera::Camera;
use tracer::fuzzy_eq::FuzzyEq;
use tracer::matrix::Matrix;
use tracer::tuple::Tuple;

fn fx(v: f64) -> i64 {
    (v * 4294967296.0).round() as i64
}

fn feq(a: i64, b: f64) -> bool {
    (a - fx(b)).abs() < 42950
}

fn teq(a: &Tuple, x: f64, y: f64, z: f64, w: f64) -> bool {
    feq(a.x, x) && feq(a.y, y) && feq(a.z, z) && feq(a.w, w)
}

fn pt(x: f64, y: f64, z: f64) -> Tuple {
    Tuple::point(fx(x), fx(y), fx(z))
}

fn vc(x: f64, y: f64, z: f64) -> Tuple {
    Tuple::vector(fx(x), fx(y), fx(z))
}

#[test]
fn constructing_a_camera() {
    let camera = Camera::new(160, 120, fx(PI / 2.0));
    assert!(camera.vsize == 120);
    assert!(camera.hsize == 160);
    assert!(feq(camera.field_of_view, PI / 2.0));
}

#[test]
fn constructed_a_camera_has_an_identity_transform() {
    let camera = Camera::new(160, 120, fx(PI / 2.0));
    assert!(camera.transform.fuzzy_eq(&Matrix::<4>::identity()));
}

#[test]
fn constructing_a_camera_with_a_transform() {
    let transform = Matrix::<4>::translation(fx(1.2), fx(3.4), fx(-20.6));
    let camera = Camera::new(160, 120, fx(PI / 2.0)).with_transform(transform);
    assert!(camera.vsize == 120);
    assert!(camera.hsize == 160);
    assert!(feq(camera.field_of_view, PI / 2.0));
    assert!(camera.transform.fuzzy_eq(&transform));
}

#[test]
fn constructing_a_ray_through_the_center_of_the_canvas() {
    let c = Camera::new(201, 101, fx(PI / 2.0));
    let r = c.ray_for_pixel(100, 50);
    assert!(teq(&r.origin, 0.0, 0.0, 0.0, 1.0));
    assert!(teq(&r.direction, 0.0, 0.0, -1.0, 0.0));
}

#[test]
fn constructing_a_ray_through_the_corner_of_a_canvas() {
    let c = Camera::new(201, 101, fx(PI / 2.0));
    let r = c.ray_for_pixel(0, 0);
    assert!(teq(&r.origin, 0.0, 0.0, 0.0, 1.0));
    assert!(teq(&r.direction, 0.66519, 0.33259, -0.66851, 0.0));
}

#[test]
fn constructing_a_ray_when_camera_is_transformed() {
    let c = Camera::new(201, 101, fx(PI / 2.0)).with_transform(
        Matrix::<4>::rotation_y(fx(PI / 4.0)).mul(&Matrix::<4>::translation(
            fx(0.0),
            fx(-2.0),
            fx(5.0),
        )),
    );
    let r = c.ray_for_pixel(100, 50);
    let s = (2.0f64).sqrt() / 2.0;
    assert!(teq(&r.origin, 0.0, 2.0, -5.0, 1.0));
    assert!(teq(&r.direction, s, 0.0, -s, 0.0));
}

#[test]
fn pixel_size_for_horizontal_canvas() {
    let c = Camera::new(200, 125, fx(PI / 2.0));
    assert!(feq(c.pixel_size, 0.01));
}

#[test]
fn pixel_size_for_vertical() {
    let c = Camera::new(125, 200, fx(PI / 2.0));
    assert!(feq(c.pixel_size, 0.01));
}

#[test]
fn view_transform_for_the_default_orientation() {
    let from = pt(0.0, 0.0, 0.0);
    let to = pt(0.0, 0.0, -1.0);
    let up = vc(0.0, 1.0, 0.0);
    let camera = Camera::new(100, 100, fx(PI / 2.0)).view_transform(from, to, up);
    assert!(camera.transform.fuzzy_eq(&Matrix::<4>::identity()));
}

#[test]
fn view_transformation_looking_into_positive_z_direction() {
    let from = pt(0.0, 0.0, 0.0);
    let to = pt(0.0, 0.0, 1.0);
    let up = vc(0.0, 1.0, 0.0);
    let camera = Camera::new(100, 100, fx(PI / 2.0)).view_transform(from, to, up);
    assert!(camera.transform.fuzzy_eq(&Matrix::<4>::scaling(fx(-1.0), fx(1.0), fx(-1.0))));
}

#[test]
fn view_transformation_moves_the_world() {
    let from = pt(0.0, 0.0, 8.0);
    let to = pt(0.0, 0.0, 0.0);
    let up = vc(0.0, 1.0, 0.0);
    let camera = Camera::new(100, 100, fx(PI / 2.0)).view_transform(from, to, up);
    assert!(camera.transform.fuzzy_eq(&Matrix::<4>::translation(fx(0.0), fx(0.0), fx(-8.0))));
}
