use tracer::fuzzy_eq::FuzzyEq;
use tracer::tuple::Tuple;

fn fx(v: f64) -> i64 {
    (v * 4294967296.0).round() as i64
}

fn feq(a: i64, b: f64) -> bool {
    (a - fx(b)).abs() < 42950
}

fn teq(a: &Tuple, x: f64, y: f64, z: f64, w: f64) -> bool {
    feq(a.x, x) && feq(a.y, y) && feq(a.z, z) && feq(a.w, w)
}

fn pt(x: f64, y: f64, z: f64) -> Tuple {
    Tuple::point(fx(x), fx(y), fx(z))
}

fn vc(x: f64, y: f64, z: f64) -> Tuple {
    Tuple::vector(fx(x), fx(y), fx(z))
}

#[test]
fn tuple_create_tuple_point() {
    let point = Tuple::new(fx(4.3), fx(-4.2), fx(3.1), fx(1.0));
    assert!(point.x == fx(4.3));
    assert!(point.y == fx(-4.2));
    assert!(point.z == fx(3.1));
    assert!(point.w == fx(1.0));
}

#[test]
fn tuple_create_tuple_vector() {
    let point = Tuple::new(fx(4.3), fx(-4.2), fx(3.1), fx(0.0));
    assert!(point.x == fx(4.3));
    assert!(point.y == fx(-4.2));
    assert!(point.z == fx(3.1));
    assert!(point.w == fx(0.0));
}

#[test]
fn tuple_point_does_fill_properties() {
    let point = pt(4.3, -4.2, 3.1);
    assert!(point.x == fx(4.3));
    assert!(point.y == fx(-4.2));
    assert!(point.z == fx(3.1));
    assert!(point.w == fx(1.0));
    assert!(point.is_point());
}

#[test]
fn tuple_vector_does_fill_properties() {
    let point = vc(4.3, -4.2, 3.1);
    assert!(point.x == fx(4.3));
    assert!(point.y == fx(-4.2));
    assert!(point.z == fx(3.1));
    assert!(point.w == fx(0.0));
    assert!(point.is_vector());
}

#[test]
fn tuple_tuples_additions() {
    let tuple1 = Tuple::new(fx(3.0), fx(-2.0), fx(5.0), fx(1.0));
    let tuple2 = Tuple::new(fx(-2.0), fx(3.0), fx(1.0), fx(0.0));
    let sum = tuple1.add(&tuple2);
    assert!(teq(&sum, 1.0, 1.0, 6.0, 1.0));
}

#[test]
fn tuple_points_substraction() {
    let tuple1 = pt(3.0, 2.0, 1.0);
    let tuple2 = pt(5.0, 6.0, 7.0);
    assert!(teq(&tuple1.sub(&tuple2), -2.0, -4.0, -6.0, 0.0));
}

#[test]
fn tuple_vector_substraction_from_point() {
    let tuple1 = pt(3.0, 2.0, 1.0);
    let tuple2 = vc(5.0, 6.0, 7.0);
    assert!(teq(&tuple1.sub(&tuple2), -2.0, -4.0, -6.0, 1.0));
}

#[test]
fn tuple_vectors_substraction() {
    let tuple1 = vc(3.0, 2.0, 1.0);
    let tuple2 = vc(5.0, 6.0, 7.0);
    assert!(teq(&tuple1.sub(&tuple2), -2.0, -4.0, -6.0, 0.0));
}

#[test]
fn tuple_vector_substraction_from_zero_vector() {
    let tuple1 = vc(0.0, 0.0, 0.0);
    let tuple2 = vc(1.0, -2.0, 3.0);
    assert!(teq(&tuple1.sub(&tuple2), -1.0, 2.0, -3.0, 0.0));
}

#[test]
fn tuple_negating_tuple() {
    let tuple1 = Tuple::new(fx(1.0), fx(-2.0), fx(3.0), fx(-4.0));
    assert!(teq(&tuple1.neg(), -1.0, 2.0, -3.0, 4.0));
}

#[test]
fn tuple_scalar_tuple_multiplication() {
    let tuple1 = Tuple::new(fx(1.0), fx(-2.0), fx(3.0), fx(-4.0));
    assert!(teq(&tuple1.scale(fx(3.5)), 3.5, -7.0, 10.5, -14.0));
}

#[test]
fn tuple_fraction_scalar_tuple_multiplication() {
    let tuple1 = Tuple::new(fx(1.0), fx(-2.0), fx(3.0), fx(-4.0));
    assert!(teq(&tuple1.scale(fx(0.5)), 0.5, -1.0, 1.5, -2.0));
}

#[test]
fn tuple_scalar_tuple_division() {
    let tuple1 = Tuple::new(fx(1.0), fx(-2.0), fx(3.0), fx(-4.0));
    assert!(teq(&tuple1.div(fx(2.0)), 0.5, -1.0, 1.5, -2.0));
}

#[test]
fn computing_magnitude() {
    assert!(feq(vc(1.0, 0.0, 0.0).magnitude(), 1.0));
    assert!(feq(vc(0.0, 1.0, 0.0).magnitude(), 1.0));
    assert!(feq(vc(0.0, 0.0, 1.0).magnitude(), 1.0));
    let mag1 = (14.0f64).sqrt();
    assert!(feq(vc(1.0, 2.0, 3.0).magnitude(), mag1));
    assert!(feq(vc(-1.0, -2.0, -3.0).magnitude(), mag1));
}

#[test]
fn normalizing_vector() {
    let vec1 = vc(4.0, 0.0, 0.0);
    assert!(teq(&vec1.normalize(), 1.0, 0.0, 0.0, 0.0));
    let vec2 = vc(1.0, 2.0, 3.0);
    assert!(teq(&vec2.normalize(), 0.26726, 0.53452, 0.80178, 0.0));
    let vec3 = vec2.normalize();
    assert!(feq(vec3.magnitude(), 1.0));
}

#[test]
fn dot_product_tuples() {
    let vec1 = vc(1.0, 2.0, 3.0);
    let vec2 = vc(2.0, 3.0, 4.0);
    assert!(feq(vec1.dot(&vec2), 20.0));
}

#[test]
fn cross_product_tuples() {
    let vec1 = vc(1.0, 2.0, 3.0);
    let vec2 = vc(2.0, 3.0, 4.0);
    assert!(teq(&vec1.cross(&vec2), -1.0, 2.0, -1.0, 0.0));
    assert!(teq(&vec2.cross(&vec1), 1.0, -2.0, 1.0, 0.0));
}

#[test]
fn reflecting_45_degree_vector() {
    let v = vc(1.0, -1.0, 0.0);
    let n = vc(0.0, 1.0, 0.0);
    assert!(teq(&v.reflect(&n), 1.0, 1.0, 0.0, 0.0));
}

#[test]
fn reflecting_vector_off_slanted_surface() {
    let sqrt2 = (2.0f64).sqrt() / 2.0;
    let v = vc(0.0, -1.0, 0.0);
    let n = vc(sqrt2, sqrt2, 0.0);
    assert!(teq(&v.reflect(&n), 1.0, 0.0, 0.0, 0.0));
}

#[test]
fn cross_products_are_antisymmetric() {
    let a = vc(1.25, -2.5, 3.75);
    let b = vc(-0.5, 4.0, 2.25);
    let ab = a.cross(&b);
    let ba_neg = b.cross(&a).neg();
    assert!(ab.fuzzy_eq(&ba_neg));
    assert!(ab.x == ba_neg.x && ab.y == ba_neg.y && ab.z == ba_neg.z && ab.w == ba_neg.w);
}

#[test]
fn normalized_vectors_have_unit_dot() {
    for v in [vc(1.0, 2.0, 3.0), vc(-4.2, 0.001, 9.5), vc(0.0, 0.0, 7.0)] {
        let n = v.normalize();
        assert!(feq(n.dot(&n), 1.0));
    }
}

#[test]
fn main_create_tuple_point() {
    let point = Tuple::new(fx(4.3), fx(-4.2), fx(3.1), fx(1.0));
    assert!(point.x == fx(4.3));
    assert!(point.y == fx(-4.2));
    assert!(point.z == fx(3.1));
    assert!(point.w == fx(1.0));
}

#[test]
fn main_create_tuple_vector() {
    let point = Tuple::new(fx(4.3), fx(-4.2), fx(3.1), fx(0.0));
    assert!(point.x == fx(4.3));
    assert!(point.y == fx(-4.2));
    assert!(point.z == fx(3.1));
    assert!(point.w == fx(0.0));
}

#[test]
fn main_point_does_fill_properties() {
    let point = pt(4.3, -4.2, 3.1);
    assert!(point.x == fx(4.3) && point.y == fx(-4.2) && point.z == fx(3.1));
    assert!(point.is_point());
}

#[test]
fn main_vector_does_fill_properties() {
    let point = vc(4.3, -4.2, 3.1);
    assert!(point.x == fx(4.3) && point.y == fx(-4.2) && point.z == fx(3.1));
    assert!(point.is_vector());
}

#[test]
fn main_tuples_additions() {
    let tuple1 = Tuple::new(fx(3.0), fx(-2.0), fx(5.0), fx(1.0));
    let tuple2 = Tuple::new(fx(-2.0), fx(3.0), fx(1.0), fx(0.0));
    assert!(teq(&tuple1.add(&tuple2), 1.0, 1.0, 6.0, 1.0));
}

#[test]
fn main_points_substraction() {
    assert!(teq(&pt(3.0, 2.0, 1.0).sub(&pt(5.0, 6.0, 7.0)), -2.0, -4.0, -6.0, 0.0));
}

#[test]
fn main_vector_substraction_from_point() {
    assert!(teq(&pt(3.0, 2.0, 1.0).sub(&vc(5.0, 6.0, 7.0)), -2.0, -4.0, -6.0, 1.0));
}

#[test]
fn main_vectors_substraction() {
    assert!(teq(&vc(3.0, 2.0, 1.0).sub(&vc(5.0, 6.0, 7.0)), -2.0, -4.0, -6.0, 0.0));
}

#[test]
fn main_vector_substraction_from_zero_vector() {
    assert!(teq(&vc(0.0, 0.0, 0.0).sub(&vc(1.0, -2.0, 3.0)), -1.0, 2.0, -3.0, 0.0));
}

#[test]
fn main_negating_tuple() {
    let tuple1 = Tuple::new(fx(1.0), fx(-2.0), fx(3.0), fx(-4.0));
    assert!(teq(&tuple1.neg(), -1.0, 2.0, -3.0, 4.0));
}

#[test]
fn main_scalar_tuple_multiplication() {
    let tuple1 = Tuple::new(fx(1.0), fx(-2.0), fx(3.0), fx(-4.0));
    assert!(teq(&tuple1.scale(fx(3.5)), 3.5, -7.0, 10.5, -14.0));
}

#[test]
fn main_fraction_scalar_tuple_multiplication() {
    let tuple1 = Tuple::new(fx(1.0), fx(-2.0), fx(3.0), fx(-4.0));
    assert!(teq(&tuple1.scale(fx(0.5)), 0.5, -1.0, 1.5, -2.0));
}

#[test]
fn main_scalar_tuple_division() {
    let tuple1 = Tuple::new(fx(1.0), fx(-2.0), fx(3.0), fx(-4.0));
    assert!(teq(&tuple1.div(fx(2.0)), 0.5, -1.0, 1.5, -2.0));
}
