use tracer::canvas::{Canvas, ToPNG, ToPPM, create_ppm_pixel_data};
use tracer::color::Color;
use tracer::fuzzy_eq::FuzzyEq;

fn fx(v: f64) -> i64 {
    (v * 4294967296.0).round() as i64
}

fn c3(r: f64, g: f64, b: f64) -> Color {
    Color::new(fx(r), fx(g), fx(b))
}

#[test]
fn creating_canvas() {
    let can: Canvas = Canvas::new(10, 20);
    assert!(can.width == 10);
    assert!(can.height == 20);
    for x in 0..can.width {
        for y in 0..can.height {
            assert!(can.color_at(x, y).fuzzy_eq(&Color::black()));
        }
    }
}

#[test]
fn writing_to_canvas() {
    let mut can = Canvas::new(10, 20);
    let col = c3(1.0, 0.0, 0.0);
    can.write_pixel(2, 3, col);
    assert!(can.color_at(2, 3).fuzzy_eq(&col));
}

#[test]
fn constructing_ppm_header() {
    let can: Canvas = Canvas::new(5, 3);
    let ppm_image = can.to_ppm();
    let actual_res = &ppm_image[..11];
    let expected = String::from("P3\n5 3\n255\n").into_bytes();
    assert!(actual_res == expected);
}

#[test]
fn constructing_ppm_pixel_data() {
    let mut can = Canvas::new(5, 3);
    can.write_pixel(0, 0, c3(1.5, 0.0, 0.0));
    can.write_pixel(2, 1, c3(0.0, 0.5, 0.0));
    can.write_pixel(4, 2, c3(-0.5, 0.0, 1.0));
    let header = String::from("P3\n5 3\n255\n").into_bytes();
    let pixel_data = String::from(
        "255 0 0 0 0 0 0 0 0 0 0 0 0 0 0\n0 0 0 0 0 0 0 128 0 0 0 0 0 0 0\n0 0 0 0 0 0 0 0 0 0 0 0 0 0 255\n",
    )
    .into_bytes();
    let mut expected: Vec<u8> = Vec::new();
    expected.extend(header);
    expected.extend(pixel_data);
    assert!(can.to_ppm() == expected);
}

#[test]
fn splitting_long_lines_ppm_files() {
    let mut canvas = Canvas::new(10, 2);
    let color = c3(1.0, 0.8, 0.6);
    for x in 0..10 {
        for y in 0..2 {
            canvas.write_pixel(x, y, color);
        }
    }
    let actual_result = canvas.to_ppm();
    let header = String::from("P3\n10 2\n255\n").into_bytes();
    let pixel_data = String::from(
        "255 204 153 255 204 153 255 204 153 255 204 153 255 204 153 255 204\n153 255 204 153 255 204 153 255 204 153 255 204 153\n255 204 153 255 204 153 255 204 153 255 204 153 255 204 153 255 204\n153 255 204 153 255 204 153 255 204 153 255 204 153\n",
    )
    .into_bytes();
    let mut expected: Vec<u8> = Vec::new();
    expected.extend(header);
    expected.extend(pixel_data);
    assert!(actual_result == expected);
}

#[test]
fn pixel_data_alone_matches_the_layout() {
    let mut can = Canvas::new(5, 3);
    can.write_pixel(0, 0, c3(1.5, 0.0, 0.0));
    let data = create_ppm_pixel_data(&can);
    let expected = String::from(
        "255 0 0 0 0 0 0 0 0 0 0 0 0 0 0\n0 0 0 0 0 0 0 0 0 0 0 0 0 0 0\n0 0 0 0 0 0 0 0 0 0 0 0 0 0 0\n",
    )
    .into_bytes();
    assert!(data == expected);
}

#[test]
fn png_output_is_a_png_stream() {
    let mut can = Canvas::new(4, 2);
    can.write_pixel(0, 0, c3(1.0, 0.5, 0.25));
    let png = can.to_png();
    assert!(png.len() > 8);
    assert!(png[0] == 137 && png[1] == 80 && png[2] == 78 && png[3] == 71);
}

#[test]
fn rgba_bytes_quantize_each_pixel() {
    let mut can = Canvas::new(2, 1);
    can.write_pixel(0, 0, c3(1.0, 0.5, 0.25));
    can.write_pixel(1, 0, c3(-1.0, 2.0, 0.0));
    let rgba = can.to_rgba32();
    assert!(rgba == vec![255u8, 128, 64, 255, 0, 255, 0, 255]);
}
