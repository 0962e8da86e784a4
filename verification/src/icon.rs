use vstd::arithmetic::div_mod::{lemma_fundamental_div_mod_converse, lemma_multiply_divide_lt};
use vstd::prelude::*;

verus! {

/// How the image-normalization transform can fail. Every failure here is
/// non-fatal to a build: icon generation degrades gracefully.
#[derive(PartialEq, Eq, Structural, Clone, Copy, Debug)]
pub enum IconError {
    /// The input bytes are not a decodable image.
    DecodeFailed,
    /// The decoded frame has a palette color type the transform does not
    /// take.
    UnsupportedColorType,
    /// Re-encoding the transformed pixels failed.
    EncodeFailed,
    /// No opaque non-white pixel was found along the sampled column.
    NoBackgroundColor,
}

/// What decoding a byte string yields, when it decodes: width, height, the
/// image format's color type code, and the 8-bit sample data.
pub uninterp spec fn png_decoded(data: Seq<u8>) -> Option<(nat, nat, u8, Seq<u8>)>;

/// The byte string that encoding the given 8-bit RGBA pixels produces.
pub uninterp spec fn png_encoded(width: nat, height: nat, rgba: Seq<u8>) -> Seq<u8>;

/// Bytes per pixel of a decoded 8-bit frame, by the image format's color
/// type code: grayscale and palette one, grayscale-alpha two, truecolor
/// three, truecolor-alpha four.
pub open spec fn spec_samples(color_code: u8) -> nat {
    if color_code == 0 {
        1
    } else if color_code == 2 {
        3
    } else if color_code == 3 {
        1
    } else if color_code == 4 {
        2
    } else {
        4
    }
}

/// A decoded frame as the decoder hands it out.
pub struct RawPng {
    pub width: u32,
    pub height: u32,
    pub color_code: u8,
    pub data: Vec<u8>,
}

/// Relies on png::Decoder and png::Reader with the EXPAND and STRIP_16
/// transformations: the decoded frame is then 8-bit, its color type is one
/// of the five the format defines, the frame buffer holds exactly
/// width * height pixels of samples(color type) bytes each, and the result
/// is a function of the input bytes alone.
#[verifier::external_body]
fn png_decode(data: &Vec<u8>) -> (r: Result<RawPng, IconError>)
    ensures
        match r {
            Ok(p) => {
                &&& png_decoded(data@) == Some(
                    (p.width as nat, p.height as nat, p.color_code, p.data@),
                )
                &&& p.data@.len() == p.width as nat * p.height as nat * spec_samples(
                    p.color_code,
                )
                &&& (p.color_code == 0 || p.color_code == 2 || p.color_code == 3
                    || p.color_code == 4 || p.color_code == 6)
            },
            Err(e) => png_decoded(data@) is None && e == IconError::DecodeFailed,
        },
{
    let mut decoder = png::Decoder::new(std::io::Cursor::new(data.as_slice()));
    decoder.set_transformations(png::Transformations::EXPAND | png::Transformations::STRIP_16);
    let mut reader = decoder.read_info().map_err(|_| IconError::DecodeFailed)?;
    let size = reader.output_buffer_size().ok_or(IconError::DecodeFailed)?;
    let mut buf = vec![0u8; size];
    let info = reader.next_frame(&mut buf).map_err(|_| IconError::DecodeFailed)?;
    buf.truncate(info.buffer_size());
    Ok(RawPng { width: info.width, height: info.height, color_code: info.color_type as u8, data: buf })
}

/// Relies on png::Encoder: writes an 8-bit RGBA image; what it writes is a
/// function of the dimensions and pixels alone. Writing into a byte vector
/// cannot fail, so the encoder errs only on zero dimensions or a buffer
/// whose size does not match them: success is owed everywhere else.
#[verifier::external_body]
fn png_encode(width: u32, height: u32, rgba: &Vec<u8>) -> (r: Result<Vec<u8>, IconError>)
    ensures
        r matches Ok(out) ==> out@ == png_encoded(width as nat, height as nat, rgba@),
        r matches Err(e) ==> e == IconError::EncodeFailed,
        width > 0 && height > 0 && rgba@.len() == width as nat * height as nat * 4 ==> r is Ok,
{
    let mut buf: Vec<u8> = Vec::new();
    let mut encoder = png::Encoder::new(&mut buf, width, height);
    encoder.set_color(png::ColorType::Rgba);
    encoder.set_depth(png::BitDepth::Eight);
    let mut writer = encoder.write_header().map_err(|_| IconError::EncodeFailed)?;
    writer.write_image_data(rgba.as_slice()).map_err(|_| IconError::EncodeFailed)?;
    writer.finish().map_err(|_| IconError::EncodeFailed)?;
    Ok(buf)
}

/// An 8-bit RGBA image: four bytes per pixel, rows first.
#[derive(Debug)]
pub struct RgbaImage {
    pub width: usize,
    pub height: usize,
    pub pixels: Vec<u8>,
}

impl RgbaImage {
    /// The pixel buffer holds exactly the image's pixels.
    pub open spec fn wf(self) -> bool {
        self.pixels@.len() == self.width * self.height * 4
    }
}

/// Byte `k` of the RGBA expansion of a decoded frame: a truecolor-alpha
/// frame is kept; truecolor gains an opaque alpha; grayscale replicates the
/// sample into the three channels with an opaque alpha; grayscale-alpha
/// replicates its first sample and keeps its alpha.
pub open spec fn spec_expand_byte(color_code: u8, raw: Seq<u8>, k: int) -> u8 {
    let j = k / 4;
    let c = k % 4;
    if color_code == 6 {
        raw[4 * j + c]
    } else if color_code == 2 {
        if c == 3 {
            255
        } else {
            raw[3 * j + c]
        }
    } else if color_code == 0 {
        if c == 3 {
            255
        } else {
            raw[j]
        }
    } else {
        if c == 3 {
            raw[2 * j + 1]
        } else {
            raw[2 * j]
        }
    }
}

/// The RGBA expansion of a decoded frame of `npix` pixels.
pub open spec fn spec_expand(color_code: u8, raw: Seq<u8>, npix: int) -> Seq<u8> {
    Seq::new((npix * 4) as nat, |k: int| spec_expand_byte(color_code, raw, k))
}

/// Decodes a byte string into an 8-bit RGBA image: whatever color type the
/// frame decodes to is expanded pixel by pixel, palette frames are
/// rejected, and a byte string that does not decode is reported as such.
#[verifier::rlimit(60)]
#[verifier::loop_isolation(false)]
pub fn load_png_rgba8(data: &Vec<u8>) -> (r: Result<RgbaImage, IconError>)
    ensures
        match png_decoded(data@) {
            Some(d) => {
                if d.2 == 3 {
                    r == Err::<RgbaImage, IconError>(IconError::UnsupportedColorType)
                } else {
                    {
                        &&& r matches Ok(img)
                        &&& img.width == d.0
                        &&& img.height == d.1
                        &&& img.width <= 0xffff_ffffusize
                        &&& img.height <= 0xffff_ffffusize
                        &&& img.pixels@ == spec_expand(d.2, d.3, (d.0 * d.1) as int)
                        &&& img.wf()
                    }
                }
            },
            None => r == Err::<RgbaImage, IconError>(IconError::DecodeFailed),
        },
{
    let p = match png_decode(data) {
        Ok(p) => p,
        Err(e) => {
            return Err(e);
        },
    };
    if p.color_code == 3 {
        return Err(IconError::UnsupportedColorType);
    }
    let w = p.width as usize;
    let h = p.height as usize;
    let dlen = p.data.len();
    let ghost samples = spec_samples(p.color_code) as int;
    proof {
        assert(samples >= 1);
        assert(w * h <= w * h * samples) by (nonlinear_arith)
            requires
                samples >= 1,
                w >= 0,
                h >= 0,
        ;
        assert(w * h * samples == dlen);
    }
    let npix: usize = w * h;
    let mut out: Vec<u8> = Vec::new();
    let mut j: usize = 0;
    while j < npix
        invariant
            j <= npix,
            out@.len() == 4 * j,
            forall|k: int| 0 <= k < 4 * j ==> out@[k] == spec_expand_byte(
                p.color_code,
                p.data@,
                k,
            ),
        decreases npix - j,
    {
        let ghost out0 = out@;
        if p.color_code == 6 {
            proof {
                assert(dlen == npix * 4);
            }
            out.push(p.data[4 * j]);
            out.push(p.data[4 * j + 1]);
            out.push(p.data[4 * j + 2]);
            out.push(p.data[4 * j + 3]);
        } else if p.color_code == 2 {
            proof {
                assert(dlen == npix * 3);
            }
            out.push(p.data[3 * j]);
            out.push(p.data[3 * j + 1]);
            out.push(p.data[3 * j + 2]);
            out.push(255);
        } else if p.color_code == 0 {
            proof {
                assert(dlen == npix * 1);
            }
            let g = p.data[j];
            out.push(g);
            out.push(g);
            out.push(g);
            out.push(255);
        } else {
            proof {
                assert(dlen == npix * 2);
            }
            let g = p.data[2 * j];
            let a = p.data[2 * j + 1];
            out.push(g);
            out.push(g);
            out.push(g);
            out.push(a);
        }
        proof {
            assert forall|c: int| 0 <= c < 4 implies out@[4 * j + c] == #[trigger] spec_expand_byte(
                p.color_code,
                p.data@,
                4 * j + c,
            ) by {
                lemma_fundamental_div_mod_converse(4 * j + c, 4, j as int, c);
            }
        }
        j += 1;
    }
    proof {
        assert(out@ =~= spec_expand(p.color_code, p.data@, npix as int));
    }
    Ok(RgbaImage { width: w, height: h, pixels: out })
}

/// The four bytes of one pixel.
pub fn get_px(rgba: &Vec<u8>, width: usize, x: usize, y: usize) -> (r: (u8, u8, u8, u8))
    requires
        (y * width + x) * 4 + 4 <= rgba@.len(),
    ensures
        ({
            let i = (y * width + x) * 4;
            &&& r.0 == rgba@[i]
            &&& r.1 == rgba@[i + 1]
            &&& r.2 == rgba@[i + 2]
            &&& r.3 == rgba@[i + 3]
        }),
{
    let _len = rgba.len();
    let i = (y * width + x) * 4;
    (rgba[i], rgba[i + 1], rgba[i + 2], rgba[i + 3])
}

/// Does the pixel at `(x, y)` qualify as a background sample: visible at
/// all, and not a near-white foreground shape?
pub open spec fn spec_px_qualifies(pixels: Seq<u8>, width: int, x: int, y: int) -> bool {
    let i = (y * width + x) * 4;
    pixels[i + 3] > 0 && !(pixels[i] > 240 && pixels[i + 1] > 240 && pixels[i + 2] > 240)
}

/// The first row at or after `y` (walking by `step`, up or down) whose
/// pixel in column `x` qualifies as a background sample.
pub open spec fn spec_first_bg(
    pixels: Seq<u8>,
    width: int,
    height: int,
    x: int,
    y: int,
    step: int,
) -> Option<int>
    decreases (if step == 1 {
        height - y
    } else {
        y + 1
    }),
{
    if (step != 1 && step != -1) || y < 0 || y >= height {
        None
    } else if spec_px_qualifies(pixels, width, x, y) {
        Some(y)
    } else {
        spec_first_bg(pixels, width, height, x, y + step, step)
    }
}

/// Samples column `x` from `start_y` toward the top or bottom edge and
/// returns the color of the first visible, non-near-white pixel; reports
/// that no suitable background color exists when the whole column is
/// transparent or white.
#[verifier::loop_isolation(false)]
pub fn find_bg_color(
    rgba: &Vec<u8>,
    width: usize,
    height: usize,
    x: usize,
    start_y: usize,
    step: isize,
) -> (r: Result<(u8, u8, u8), IconError>)
    requires
        rgba@.len() == width * height * 4,
        width > 0,
        height > 0,
        x < width,
        start_y < height,
        step == 1 || step == -1,
    ensures
        match spec_first_bg(
            rgba@,
            width as int,
            height as int,
            x as int,
            start_y as int,
            step as int,
        ) {
            Some(y) => {
                let i = (y * width + x) * 4;
                {
                    &&& r matches Ok(c)
                    &&& c.0 == rgba@[i]
                    &&& c.1 == rgba@[i + 1]
                    &&& c.2 == rgba@[i + 2]
                }
            },
            None => r == Err::<(u8, u8, u8), IconError>(IconError::NoBackgroundColor),
        },
{
    let n = rgba.len();
    proof {
        assert(height * 4 <= width * height * 4) by (nonlinear_arith)
            requires
                width >= 1,
                height >= 0,
        ;
        assert(height * 4 <= n);
    }
    let mut y: isize = start_y as isize;
    while 0 <= y && (y as usize) < height
        invariant
            -1 <= y <= height,
            spec_first_bg(rgba@, width as int, height as int, x as int, y as int, step as int)
                == spec_first_bg(
                rgba@,
                width as int,
                height as int,
                x as int,
                start_y as int,
                step as int,
            ),
        decreases (if step == 1 {
            height - y
        } else {
            y + 1
        }),
    {
        let yu = y as usize;
        proof {
            assert((yu * width + x) * 4 + 4 <= rgba@.len()) by (nonlinear_arith)
                requires
                    yu < height,
                    x < width,
                    width >= 1,
                    rgba@.len() == width * height * 4,
            ;
        }
        let (r, g, b, a) = get_px(rgba, width, x, yu);
        if a > 0 && !(r > 240 && g > 240 && b > 240) {
            return Ok((r, g, b));
        }
        y = y + step;
    }
    Err(IconError::NoBackgroundColor)
}

/// Component `c` of the vertical background gradient at row `y`: a rounded
/// linear interpolation between the top and bottom samples, constant for a
/// one-row image.
pub open spec fn spec_gradient_c(
    top: (u8, u8, u8),
    bottom: (u8, u8, u8),
    y: int,
    height: int,
    c: int,
) -> int {
    let a = if c == 0 {
        top.0 as int
    } else if c == 1 {
        top.1 as int
    } else {
        top.2 as int
    };
    let b = if c == 0 {
        bottom.0 as int
    } else if c == 1 {
        bottom.1 as int
    } else {
        bottom.2 as int
    };
    if height <= 1 {
        a
    } else {
        let denom = height - 1;
        (a * (denom - y) + b * y + denom / 2) / denom
    }
}

/// The gradient stays within the byte range.
pub proof fn lemma_gradient_bounds(top: (u8, u8, u8), bottom: (u8, u8, u8), y: int, height: int, c: int)
    requires
        0 <= y < height,
    ensures
        0 <= spec_gradient_c(top, bottom, y, height, c) <= 255,
{
    if height > 1 {
        let a = if c == 0 {
            top.0 as int
        } else if c == 1 {
            top.1 as int
        } else {
            top.2 as int
        };
        let b = if c == 0 {
            bottom.0 as int
        } else if c == 1 {
            bottom.1 as int
        } else {
            bottom.2 as int
        };
        let denom = height - 1;
        let half = denom / 2;
        let prod = a * (denom - y) + b * y;
        assert(0 <= prod && prod <= 255 * denom) by (nonlinear_arith)
            requires
                0 <= a <= 255,
                0 <= b <= 255,
                0 <= y <= denom,
                prod == a * (denom - y) + b * y,
        ;
        vstd::arithmetic::div_mod::lemma_div_pos_is_pos(denom, 2);
        vstd::arithmetic::div_mod::lemma_div_decreases(denom, 2);
        let v = prod + half;
        assert(v < 256 * denom);
        lemma_multiply_divide_lt(v, denom, 256);
        vstd::arithmetic::div_mod::lemma_div_pos_is_pos(v, denom);
    }
}

/// The color of the background gradient at row `y`, interpolating between
/// the sampled top and bottom colors with rounding to nearest.
pub fn gradient_color(top: (u8, u8, u8), bottom: (u8, u8, u8), y: usize, height: usize) -> (r: (
    u8,
    u8,
    u8,
))
    requires
        y < height,
    ensures
        r.0 == spec_gradient_c(top, bottom, y as int, height as int, 0),
        r.1 == spec_gradient_c(top, bottom, y as int, height as int, 1),
        r.2 == spec_gradient_c(top, bottom, y as int, height as int, 2),
{
    if height <= 1 {
        return top;
    }
    proof {
        lemma_gradient_bounds(top, bottom, y as int, height as int, 0);
        lemma_gradient_bounds(top, bottom, y as int, height as int, 1);
        lemma_gradient_bounds(top, bottom, y as int, height as int, 2);
    }
    let denom: u128 = (height - 1) as u128;
    let yy: u128 = y as u128;
    let inv: u128 = denom - yy;
    let half: u128 = denom / 2;
    proof {
        let bound: int = 0xffff_ffff_ffff_ffff;
        assert((top.0 as int) * inv + (bottom.0 as int) * yy + half <= 511 * bound)
            by (nonlinear_arith)
            requires
                top.0 <= 255,
                bottom.0 <= 255,
                inv <= denom,
                yy <= denom,
                half <= denom,
                denom <= bound,
                bound > 0,
        ;
        assert((top.1 as int) * inv + (bottom.1 as int) * yy + half <= 511 * bound)
            by (nonlinear_arith)
            requires
                top.1 <= 255,
                bottom.1 <= 255,
                inv <= denom,
                yy <= denom,
                half <= denom,
                denom <= bound,
                bound > 0,
        ;
        assert((top.2 as int) * inv + (bottom.2 as int) * yy + half <= 511 * bound)
            by (nonlinear_arith)
            requires
                top.2 <= 255,
                bottom.2 <= 255,
                inv <= denom,
                yy <= denom,
                half <= denom,
                denom <= bound,
                bound > 0,
        ;
    }
    let r0: u128 = ((top.0 as u128) * inv + (bottom.0 as u128) * yy + half) / denom;
    let r1: u128 = ((top.1 as u128) * inv + (bottom.1 as u128) * yy + half) / denom;
    let r2: u128 = ((top.2 as u128) * inv + (bottom.2 as u128) * yy + half) / denom;
    (r0 as u8, r1 as u8, r2 as u8)
}


/// The sampled RGB color of one pixel.
pub open spec fn spec_px_rgb(pixels: Seq<u8>, width: int, x: int, y: int) -> (u8, u8, u8) {
    let i = (y * width + x) * 4;
    (pixels[i], pixels[i + 1], pixels[i + 2])
}

/// Byte `k` of the flattened image: alpha bytes become opaque; an opaque
/// pixel keeps its color; a fully transparent pixel takes the background
/// gradient of its row; a translucent pixel is blended onto that gradient
/// with rounding to nearest.
pub open spec fn spec_flatten_byte(
    pixels: Seq<u8>,
    width: int,
    height: int,
    top: (u8, u8, u8),
    bottom: (u8, u8, u8),
    k: int,
) -> u8 {
    let j = k / 4;
    let c = k % 4;
    let y = j / width;
    let i = 4 * j;
    if c == 3 {
        255
    } else {
        let a = pixels[i + 3] as int;
        let s = pixels[i + c] as int;
        let g = spec_gradient_c(top, bottom, y, height, c);
        if a == 255 {
            pixels[i + c]
        } else if a == 0 {
            g as u8
        } else {
            ((s * a + g * (255 - a) + 127) / 255) as u8
        }
    }
}

/// The whole flattened pixel buffer.
pub open spec fn spec_flatten_pixels(
    pixels: Seq<u8>,
    width: int,
    height: int,
    top: (u8, u8, u8),
    bottom: (u8, u8, u8),
) -> Seq<u8> {
    Seq::new((width * height * 4) as nat, |k: int| spec_flatten_byte(
        pixels,
        width,
        height,
        top,
        bottom,
        k,
    ))
}

/// What flattening an RGBA image yields: the background is sampled on the
/// central column from the top edge downward and from the bottom edge
/// upward; if either sample finds no visible, non-near-white pixel the
/// transform fails, else every pixel is composited onto the vertical
/// gradient between the two samples and the result is fully opaque.
pub open spec fn spec_flatten(width: int, height: int, pixels: Seq<u8>) -> Result<
    Seq<u8>,
    IconError,
> {
    if width <= 0 || height <= 0 {
        Err(IconError::NoBackgroundColor)
    } else {
        let cx = width / 2;
        match spec_first_bg(pixels, width, height, cx, 0, 1) {
            None => Err(IconError::NoBackgroundColor),
            Some(ty) => match spec_first_bg(pixels, width, height, cx, height - 1, -1) {
                None => Err(IconError::NoBackgroundColor),
                Some(by) => Ok(
                    spec_flatten_pixels(
                        pixels,
                        width,
                        height,
                        spec_px_rgb(pixels, width, cx, ty),
                        spec_px_rgb(pixels, width, cx, by),
                    ),
                ),
            },
        }
    }
}

/// Flattens an image against its own edge-sampled background gradient, the
/// pure transform behind the icon pipeline.
#[verifier::spinoff_prover]
#[verifier::rlimit(100)]
#[verifier::loop_isolation(false)]
pub fn flatten_rgba(img: &RgbaImage) -> (r: Result<RgbaImage, IconError>)
    requires
        img.wf(),
    ensures
        match spec_flatten(img.width as int, img.height as int, img.pixels@) {
            Ok(s) => {
                &&& r matches Ok(o)
                &&& o.width == img.width
                &&& o.height == img.height
                &&& o.pixels@ == s
                &&& o.wf()
            },
            Err(e) => r == Err::<RgbaImage, IconError>(e),
        },
{
    let w = img.width;
    let h = img.height;
    if w == 0 || h == 0 {
        return Err(IconError::NoBackgroundColor);
    }
    let n = img.pixels.len();
    let cx = w / 2;
    let top = match find_bg_color(&img.pixels, w, h, cx, 0, 1) {
        Ok(c) => c,
        Err(e) => {
            return Err(e);
        },
    };
    let bottom = match find_bg_color(&img.pixels, w, h, cx, h - 1, -1) {
        Ok(c) => c,
        Err(e) => {
            return Err(e);
        },
    };
    let ghost pix = img.pixels@;
    let mut out: Vec<u8> = Vec::new();
    let mut y: usize = 0;
    while y < h
        invariant
            y <= h,
            out@.len() == y * w * 4,
            forall|k: int| 0 <= k < y * w * 4 ==> out@[k] == #[trigger] spec_flatten_byte(
                pix,
                w as int,
                h as int,
                top,
                bottom,
                k,
            ),
        decreases h - y,
    {
        let (g0, g1, g2) = gradient_color(top, bottom, y, h);
        let mut x: usize = 0;
        proof {
            assert(y * w + 0 == y * w);
        }
        while x < w
            invariant
                x <= w,
                out@.len() == (y * w + x) * 4,
                forall|k: int| 0 <= k < (y * w + x) * 4 ==> out@[k]
                    == #[trigger] spec_flatten_byte(pix, w as int, h as int, top, bottom, k),
            decreases w - x,
        {
            proof {
                assert((y * w + x) * 4 + 4 <= n) by (nonlinear_arith)
                    requires
                        y < h,
                        x < w,
                        w >= 1,
                        n == w * h * 4,
                ;
            }
            let (pr, pg, pb, pa) = get_px(&img.pixels, w, x, y);
            let ghost base = ((y * w + x) * 4) as int;
            let (o0, o1, o2): (u8, u8, u8) = if pa == 255 {
                (pr, pg, pb)
            } else if pa == 0 {
                (g0, g1, g2)
            } else {
                let a16 = pa as u16;
                let inv: u16 = 255 - a16;
                proof {
                    assert((pr as u16) * a16 + (g0 as u16) * inv <= 65025) by (nonlinear_arith)
                        requires
                            pr <= 255,
                            g0 <= 255,
                            a16 <= 255,
                            inv == 255 - a16,
                    ;
                    assert((pg as u16) * a16 + (g1 as u16) * inv <= 65025) by (nonlinear_arith)
                        requires
                            pg <= 255,
                            g1 <= 255,
                            a16 <= 255,
                            inv == 255 - a16,
                    ;
                    assert((pb as u16) * a16 + (g2 as u16) * inv <= 65025) by (nonlinear_arith)
                        requires
                            pb <= 255,
                            g2 <= 255,
                            a16 <= 255,
                            inv == 255 - a16,
                    ;
                }
                let rr = (((pr as u16) * a16 + (g0 as u16) * inv + 127) / 255) as u8;
                let gg = (((pg as u16) * a16 + (g1 as u16) * inv + 127) / 255) as u8;
                let bb = (((pb as u16) * a16 + (g2 as u16) * inv + 127) / 255) as u8;
                (rr, gg, bb)
            };
            let ghost out0 = out@;
            out.push(o0);
            out.push(o1);
            out.push(o2);
            out.push(255);
            proof {
                lemma_gradient_bounds(top, bottom, y as int, h as int, 0);
                lemma_gradient_bounds(top, bottom, y as int, h as int, 1);
                lemma_gradient_bounds(top, bottom, y as int, h as int, 2);
                assert forall|c: int| 0 <= c < 4 implies out@[base + c]
                    == #[trigger] spec_flatten_byte(
                    pix,
                    w as int,
                    h as int,
                    top,
                    bottom,
                    base + c,
                ) by {
                    lemma_fundamental_div_mod_converse(
                        base + c,
                        4,
                        (y * w + x) as int,
                        c,
                    );
                    lemma_fundamental_div_mod_converse(
                        (y * w + x) as int,
                        w as int,
                        y as int,
                        x as int,
                    );
                }
                assert((y * w + (x + 1)) * 4 == (y * w + x) * 4 + 4);
            }
            x += 1;
        }
        proof {
            assert((y + 1) * w == y * w + w) by (nonlinear_arith);
            assert(((y + 1) * w) * 4 == (y * w + w) * 4);
        }
        y += 1;
    }
    proof {
        assert((h * w) * 4 == (w * h) * 4) by (nonlinear_arith);
        assert(out@ =~= spec_flatten_pixels(pix, w as int, h as int, top, bottom));
    }
    Ok(RgbaImage { width: w, height: h, pixels: out })
}

/// Encodes an image back into the byte format it was decoded from. A
/// well-formed image with at least one pixel always encodes.
pub fn save_png_rgba8(img: &RgbaImage) -> (r: Result<Vec<u8>, IconError>)
    requires
        img.wf(),
        img.width <= 0xffff_ffffusize,
        img.height <= 0xffff_ffffusize,
    ensures
        r matches Ok(out) ==> out@ == png_encoded(
            img.width as nat,
            img.height as nat,
            img.pixels@,
        ),
        r matches Err(e) ==> e == IconError::EncodeFailed,
        img.width > 0 && img.height > 0 ==> r is Ok,
{
    png_encode(img.width as u32, img.height as u32, &img.pixels)
}

/// The image-normalization transform at its byte boundary: decode the
/// input, expand it to RGBA, flatten its alpha against the edge-sampled
/// background gradient, and encode the opaque result.
pub fn flatten_icon_to_opaque_png(data: &Vec<u8>) -> (r: Result<Vec<u8>, IconError>)
    ensures
        match png_decoded(data@) {
            None => r == Err::<Vec<u8>, IconError>(IconError::DecodeFailed),
            Some(d) => {
                if d.2 == 3 {
                    r == Err::<Vec<u8>, IconError>(IconError::UnsupportedColorType)
                } else {
                    match spec_flatten(
                        d.0 as int,
                        d.1 as int,
                        spec_expand(d.2, d.3, (d.0 * d.1) as int),
                    ) {
                        Err(e) => r == Err::<Vec<u8>, IconError>(e),
                        Ok(flat) => r matches Ok(out) && out@ == png_encoded(d.0, d.1, flat),
                    }
                }
            },
        },
{
    let img = match load_png_rgba8(data) {
        Ok(img) => img,
        Err(e) => {
            return Err(e);
        },
    };
    let flat = match flatten_rgba(&img) {
        Ok(f) => f,
        Err(e) => {
            return Err(e);
        },
    };
    save_png_rgba8(&flat)
}

} // verus!
