//! Plain-text PPM (P3) serialization of a canvas.
//!
//! The header carries the magic, the dimensions and the maximum channel
//! value; the pixel data writes each quantized channel as a decimal string,
//! separated by spaces, broken at each image row and kept within 70
//! characters per line. The contracts give the exact byte sequence as a
//! function of the canvas.

use vstd::prelude::*;
use crate::canvas::{Canvas, cwf, quant, quant_channel};
use crate::color::Color;
use crate::color::col;

verus! {

/// The decimal digits of a number, most significant first.
pub open spec fn dec_spec(n: nat) -> Seq<u8>
    decreases n,
{
    if n < 10 {
        seq![(48 + n) as u8]
    } else {
        dec_spec(n / 10).push((48 + n % 10) as u8)
    }
}

/// The decimal digits of a number as bytes.
fn dec_u(n: usize) -> (r: Vec<u8>)
    ensures
        r@ == dec_spec(n as nat),
        r@.len() >= 1,
    decreases n,
{
    if n < 10 {
        let mut v: Vec<u8> = Vec::new();
        v.push(48 + n as u8);
        proof {
            assert(v@ =~= dec_spec(n as nat));
        }
        v
    } else {
        let mut v = dec_u(n / 10);
        v.push(48 + (n % 10) as u8);
        v
    }
}

/// A number under 1000 prints in at most three digits.
proof fn lemma_dec_short(n: nat)
    requires
        n < 1000,
    ensures
        dec_spec(n).len() <= 3,
{
    if n < 10 {
        assert(dec_spec(n).len() == 1);
    } else if n < 100 {
        assert(dec_spec(n / 10).len() == 1);
        assert(dec_spec(n).len() == 2);
    } else {
        assert(dec_spec(n / 10 / 10).len() == 1);
        assert(dec_spec(n / 10).len() == 2);
        assert(dec_spec(n).len() == 3);
    }
}

/// A quantized channel lies in `0..=255`.
proof fn lemma_quant_range(v: int)
    ensures
        0 <= quant(v) <= 255,
{
}

/// The header bytes: `P3`, the dimensions, and the maximum channel value
/// 255, each line `\n`-terminated.
pub open spec fn ppm_header_s(w: nat, h: nat) -> Seq<u8> {
    seq![80u8, 51u8, 10u8] + dec_spec(w) + seq![32u8] + dec_spec(h) + seq![
        10u8,
        50u8,
        53u8,
        53u8,
        10u8,
    ]
}

/// The flat list of channel strings, three per pixel in pixel order.
pub open spec fn px_strs(pixels: Seq<Color>) -> Seq<Seq<u8>>
    decreases pixels.len(),
{
    if pixels.len() == 0 {
        Seq::empty()
    } else {
        px_strs(pixels.drop_last()) + seq![
            dec_spec(quant(col(pixels.last()).0) as nat),
            dec_spec(quant(col(pixels.last()).1) as nat),
            dec_spec(quant(col(pixels.last()).2) as nat),
        ]
    }
}

/// Every channel string is at most three digits.
proof fn lemma_px_strs_short(pixels: Seq<Color>, i: int)
    requires
        0 <= i < px_strs(pixels).len(),
    ensures
        px_strs(pixels)[i].len() <= 3,
        px_strs(pixels).len() == 3 * pixels.len(),
    decreases pixels.len(),
{
    lemma_px_strs_len(pixels);
    if pixels.len() > 0 {
        let front = px_strs(pixels.drop_last());
        lemma_px_strs_len(pixels.drop_last());
        if i < front.len() {
            lemma_px_strs_short(pixels.drop_last(), i);
        } else {
            lemma_quant_range(col(pixels.last()).0);
            lemma_quant_range(col(pixels.last()).1);
            lemma_quant_range(col(pixels.last()).2);
            lemma_dec_short(quant(col(pixels.last()).0) as nat);
            lemma_dec_short(quant(col(pixels.last()).1) as nat);
            lemma_dec_short(quant(col(pixels.last()).2) as nat);
        }
    }
}

/// Three channel strings per pixel.
proof fn lemma_px_strs_len(pixels: Seq<Color>)
    ensures
        px_strs(pixels).len() == 3 * pixels.len(),
    decreases pixels.len(),
{
    if pixels.len() > 0 {
        lemma_px_strs_len(pixels.drop_last());
    }
}

/// One step of the layout fold: the state is the bytes so far, the current
/// column and the image row of the previous string. A new image row or a
/// line past 70 columns starts a fresh line; within a line entries are
/// space-separated.
pub open spec fn wrap_step(
    state: (Seq<u8>, int, int),
    s: Seq<u8>,
    i: int,
    width3: int,
) -> (Seq<u8>, int, int) {
    let current_row = i / width3;
    let state1 = if current_row != state.2 {
        (state.0 + seq![10u8], 0int, current_row)
    } else {
        state
    };
    let needed = (if state1.1 != 0 {
        1int
    } else {
        0int
    }) + s.len();
    let state2 = if state1.1 + needed > 70 {
        (state1.0 + seq![10u8], 0int, state1.2)
    } else {
        state1
    };
    let state3 = if state2.1 != 0 {
        (state2.0 + seq![32u8], state2.1 + 1, state2.2)
    } else {
        state2
    };
    (state3.0 + s, state3.1 + s.len(), state3.2)
}

/// The layout fold over the first `k` channel strings.
pub open spec fn wrap(strs: Seq<Seq<u8>>, width3: int, k: nat) -> (Seq<u8>, int, int)
    decreases k,
{
    if k == 0 {
        (Seq::empty(), 0int, 0int)
    } else {
        wrap_step(wrap(strs, width3, (k - 1) as nat), strs[k - 1], k - 1, width3)
    }
}

/// The pixel-data bytes of a canvas: the laid-out channel strings and a
/// final newline.
pub open spec fn ppm_pixel_data_s(c: Canvas) -> Seq<u8> {
    wrap(px_strs(c.pixels@), 3 * (c.width as int), px_strs(c.pixels@).len()).0 + seq![10u8]
}

/// The full image: header, then pixel data.
pub open spec fn ppm_s(c: Canvas) -> Seq<u8> {
    ppm_header_s(c.width as nat, c.height as nat) + ppm_pixel_data_s(c)
}

/// The length of the byte run since the last newline.
pub open spec fn tail_line_len(s: Seq<u8>) -> int
    decreases s.len(),
{
    if s.len() == 0 {
        0
    } else if s.last() == 10u8 {
        0
    } else {
        1 + tail_line_len(s.drop_last())
    }
}

/// Every line (maximal newline-free run) is at most `limit` bytes.
pub open spec fn lines_ok(s: Seq<u8>, limit: int) -> bool
    decreases s.len(),
{
    if s.len() == 0 {
        true
    } else {
        tail_line_len(s) <= limit && lines_ok(s.drop_last(), limit)
    }
}

/// Appending newline-free bytes extends the last line by their count.
proof fn lemma_lines_append(s: Seq<u8>, t: Seq<u8>, limit: int)
    requires
        lines_ok(s, limit),
        tail_line_len(s) + t.len() <= limit,
        forall|i: int| 0 <= i < t.len() ==> t[i] != 10u8,
    ensures
        lines_ok(s + t, limit),
        tail_line_len(s + t) == tail_line_len(s) + t.len(),
    decreases t.len(),
{
    if t.len() == 0 {
        assert(s + t =~= s);
    } else {
        lemma_lines_append(s, t.drop_last(), limit);
        let whole = s + t;
        assert(whole.last() == t.last());
        assert(whole.last() != 10u8);
        assert(whole.drop_last() =~= s + t.drop_last());
    }
}

/// Appending a newline closes the last line and starts an empty one.
proof fn lemma_lines_newline(s: Seq<u8>, limit: int)
    requires
        lines_ok(s, limit),
        0 <= limit,
    ensures
        lines_ok(s + seq![10u8], limit),
        tail_line_len(s + seq![10u8]) == 0,
{
    let whole = s + seq![10u8];
    assert(whole.last() == 10u8);
    assert(whole.drop_last() =~= s);
}

/// Decimal strings hold digit bytes only, never a newline.
proof fn lemma_dec_no_newline(n: nat)
    ensures
        forall|i: int| 0 <= i < dec_spec(n).len() ==> dec_spec(n)[i] != 10u8,
    decreases n,
{
    if n < 10 {
        assert(dec_spec(n) =~= seq![(48 + n) as u8]);
    } else {
        lemma_dec_no_newline(n / 10);
        let inner = dec_spec(n / 10);
        assert forall|i: int| 0 <= i < dec_spec(n).len() implies dec_spec(n)[i] != 10u8 by {
            if i < inner.len() {
                assert(dec_spec(n)[i] == inner[i]);
            } else {
                assert(dec_spec(n)[i] == (48 + n % 10) as u8);
            }
        }
    }
}

/// Every channel string of a canvas holds no newline byte.
proof fn lemma_px_strs_no_newline(pixels: Seq<Color>, i: int)
    requires
        0 <= i < px_strs(pixels).len(),
    ensures
        forall|j: int| 0 <= j < px_strs(pixels)[i].len() ==> px_strs(pixels)[i][j] != 10u8,
        px_strs(pixels)[i].len() >= 1,
    decreases pixels.len(),
{
    lemma_px_strs_len(pixels);
    if pixels.len() > 0 {
        let front = px_strs(pixels.drop_last());
        lemma_px_strs_len(pixels.drop_last());
        if i < front.len() {
            lemma_px_strs_no_newline(pixels.drop_last(), i);
        } else {
            lemma_dec_no_newline(quant(col(pixels.last()).0) as nat);
            lemma_dec_no_newline(quant(col(pixels.last()).1) as nat);
            lemma_dec_no_newline(quant(col(pixels.last()).2) as nat);
        }
    }
}

/// The layout fold keeps every line within 70 bytes, and its column is the
/// length of the open line.
proof fn lemma_wrap_lines(strs: Seq<Seq<u8>>, width3: int, k: nat)
    requires
        forall|i: int| 0 <= i < strs.len() ==> 1 <= (#[trigger] strs[i]).len() <= 3,
        forall|i: int, j: int|
            0 <= i < strs.len() && 0 <= j < strs[i].len() ==> strs[i][j] != 10u8,
        k <= strs.len(),
    ensures
        lines_ok(wrap(strs, width3, k).0, 70),
        tail_line_len(wrap(strs, width3, k).0) == wrap(strs, width3, k).1,
        0 <= wrap(strs, width3, k).1 <= 70,
    decreases k,
{
    if k > 0 {
        lemma_wrap_lines(strs, width3, (k - 1) as nat);
        let state = wrap(strs, width3, (k - 1) as nat);
        let s = strs[k - 1];
        let current_row = (k - 1) as int / width3;
        let state1 = if current_row != state.2 {
            (state.0 + seq![10u8], 0int, current_row)
        } else {
            state
        };
        if current_row != state.2 {
            lemma_lines_newline(state.0, 70);
        }
        let needed = (if state1.1 != 0 {
            1int
        } else {
            0int
        }) + s.len();
        let state2 = if state1.1 + needed > 70 {
            (state1.0 + seq![10u8], 0int, state1.2)
        } else {
            state1
        };
        if state1.1 + needed > 70 {
            lemma_lines_newline(state1.0, 70);
        }
        let state3 = if state2.1 != 0 {
            (state2.0 + seq![32u8], state2.1 + 1, state2.2)
        } else {
            state2
        };
        if state2.1 != 0 {
            lemma_lines_append(state2.0, seq![32u8], 70);
        }
        lemma_lines_append(state3.0, s, 70);
    }
}

/// The serialized pixel data never exceeds 70 characters on a line: each
/// channel string is short, and the layout starts a fresh line before the
/// limit would be passed.
pub proof fn lemma_ppm_lines_bounded(c: Canvas)
    ensures
        lines_ok(ppm_pixel_data_s(c), 70),
{
    let strs = px_strs(c.pixels@);
    assert forall|i: int| 0 <= i < strs.len() implies 1 <= (#[trigger] strs[i]).len() <= 3 by {
        lemma_px_strs_short(c.pixels@, i);
        lemma_px_strs_no_newline(c.pixels@, i);
    }
    assert forall|i: int, j: int|
        0 <= i < strs.len() && 0 <= j < strs[i].len() implies strs[i][j] != 10u8 by {
        lemma_px_strs_no_newline(c.pixels@, i);
    }
    lemma_px_strs_len(c.pixels@);
    lemma_wrap_lines(strs, 3 * (c.width as int), strs.len());
    lemma_lines_newline(wrap(strs, 3 * (c.width as int), strs.len()).0, 70);
}

/// Serializes the quantized pixel data in PPM layout: decimal channel
/// values, space-separated, a fresh line for each image row, and no line
/// over 70 characters.
#[verifier::rlimit(60)]
pub fn create_ppm_pixel_data(canvas: &Canvas) -> (r: Vec<u8>)
    requires
        cwf(*canvas),
        3 * (canvas.width as int) <= usize::MAX as int,
    ensures
        r@ == ppm_pixel_data_s(*canvas),
{
    let n = canvas.pixels.len();
    let mut pixel_strings: Vec<Vec<u8>> = Vec::new();
    let mut k: usize = 0;
    while k < n
        invariant
            k <= n,
            n == canvas.pixels@.len(),
            pixel_strings@.len() == 3 * k,
            pixel_strings@.map_values(|v: Vec<u8>| v@) == px_strs(canvas.pixels@.take(k as int)),
        decreases n - k,
    {
        let p = canvas.pixels[k];
        pixel_strings.push(dec_u(quant_channel(p.red) as usize));
        pixel_strings.push(dec_u(quant_channel(p.green) as usize));
        pixel_strings.push(dec_u(quant_channel(p.blue) as usize));
        proof {
            let taken = canvas.pixels@.take(k as int + 1);
            assert(taken.drop_last() =~= canvas.pixels@.take(k as int));
            assert(taken.last() == canvas.pixels@[k as int]);
            lemma_px_strs_len(taken.drop_last());
            assert(pixel_strings@.map_values(|v: Vec<u8>| v@) =~= px_strs(taken));
        }
        k = k + 1;
    }
    proof {
        assert(canvas.pixels@.take(n as int) =~= canvas.pixels@);
    }
    let ghost strs = px_strs(canvas.pixels@);
    let ghost width3 = 3 * (canvas.width as int);
    let m = pixel_strings.len();
    let mut pixel_data: Vec<u8> = Vec::new();
    let mut colum_count: usize = 0;
    let mut last_image_row: usize = 0;
    let mut i: usize = 0;
    while i < m
        invariant
            i <= m,
            m == pixel_strings@.len(),
            strs == px_strs(canvas.pixels@),
            m == strs.len(),
            pixel_strings@.map_values(|v: Vec<u8>| v@) == strs,
            width3 == 3 * (canvas.width as int),
            3 * (canvas.width as int) <= usize::MAX as int,
            cwf(*canvas),
            m == 3 * canvas.pixels@.len(),
            colum_count <= 70,
            (pixel_data@, colum_count as int, last_image_row as int) == wrap(
                strs,
                width3,
                i as nat,
            ),
        decreases m - i,
    {
        proof {
            assert(canvas.pixels@.len() > 0);
            assert(canvas.width > 0) by (nonlinear_arith)
                requires
                    (canvas.width as int) * (canvas.height as int) > 0,
            ;
            lemma_px_strs_short(canvas.pixels@, i as int);
            assert(strs[i as int] == pixel_strings@.map_values(|v: Vec<u8>| v@)[i as int]);
            assert(pixel_strings@[i as int]@.len() <= 3);
        }
        let pixel_string = &pixel_strings[i];
        let current_img_row: usize = i / (canvas.width * 3);
        proof {
            assert((canvas.width * 3) as int == width3);
        }
        if current_img_row != last_image_row {
            last_image_row = current_img_row;
            pixel_data.push(10);
            colum_count = 0;
        }
        let mut needed_space: usize = 0;
        if colum_count != 0 {
            needed_space = needed_space + 1;
        }
        needed_space = needed_space + pixel_string.len();

        if colum_count + needed_space > 70 {
            pixel_data.push(10);
            colum_count = 0;
        }
        if colum_count != 0 {
            pixel_data.push(32);
            colum_count = colum_count + 1;
        }
        let ghost base = pixel_data@;
        let plen = pixel_string.len();
        let mut j: usize = 0;
        while j < plen
            invariant
                j <= plen,
                plen == pixel_string@.len(),
                pixel_data@ == base + pixel_string@.take(j as int),
            decreases plen - j,
        {
            pixel_data.push(pixel_string[j]);
            proof {
                assert(base + pixel_string@.take(j as int + 1) =~= (base + pixel_string@.take(
                    j as int,
                )).push(pixel_string@[j as int]));
            }
            j = j + 1;
        }
        proof {
            assert(pixel_string@.take(plen as int) =~= pixel_string@);
            assert(pixel_data@ == base + pixel_string@);
        }
        colum_count = colum_count + pixel_string.len();
        proof {
            assert((pixel_data@, colum_count as int, last_image_row as int) == wrap_step(
                wrap(strs, width3, i as nat),
                strs[i as int],
                i as int,
                width3,
            ));
        }
        i = i + 1;
    }
    pixel_data.push(10);
    proof {
        assert(pixel_data@ =~= wrap(strs, width3, m as nat).0 + seq![10u8]);
        lemma_px_strs_len(canvas.pixels@);
    }
    pixel_data
}

/// Serializes a canvas to PPM bytes.
pub trait ToPPM {
    fn create_ppm_header(&self) -> Vec<u8>;

    fn to_ppm(&self) -> Vec<u8>;
}

impl Canvas {
    /// The PPM header for this canvas's dimensions.
    pub fn ppm_header(&self) -> (r: Vec<u8>)
        ensures
            r@ == ppm_header_s(self.width as nat, self.height as nat),
    {
        let mut header: Vec<u8> = Vec::new();
        header.push(80);
        header.push(51);
        header.push(10);
        let mut w = dec_u(self.width);
        let mut h = dec_u(self.height);
        header.append(&mut w);
        header.push(32);
        header.append(&mut h);
        header.push(10);
        header.push(50);
        header.push(53);
        header.push(53);
        header.push(10);
        proof {
            assert(header@ =~= ppm_header_s(self.width as nat, self.height as nat));
        }
        header
    }

    /// The full PPM image: header then pixel data.
    pub fn ppm_bytes(&self) -> (r: Vec<u8>)
        requires
            cwf(*self),
            3 * (self.width as int) <= usize::MAX as int,
        ensures
            r@ == ppm_s(*self),
    {
        let mut out = self.ppm_header();
        let mut data = create_ppm_pixel_data(self);
        out.append(&mut data);
        out
    }
}

impl ToPPM for Canvas {
    fn create_ppm_header(&self) -> Vec<u8> {
        self.ppm_header()
    }

    /// The facade checks the grid invariant it cannot demand; a malformed
    /// or oversized canvas serializes to nothing.
    fn to_ppm(&self) -> Vec<u8> {
        if self.width <= 46340 && self.height <= 46340 {
            proof {
                assert((self.width as int) * (self.height as int) <= 2147395600)
                    by (nonlinear_arith)
                    requires
                        0 <= (self.width as int) && (self.width as int) <= 46340,
                        0 <= (self.height as int) && (self.height as int) <= 46340,
                ;
            }
            if self.pixels.len() == self.width * self.height {
                return self.ppm_bytes();
            }
        }
        Vec::new()
    }
}

} // verus!
