use vstd::prelude::*;

verus! {

/// An 8-bit RGB pixel.
#[derive(Clone, Copy, Debug, PartialEq, Eq, Structural)]
pub struct Rgb8 {
    pub r: u8,
    pub g: u8,
    pub b: u8,
}

/// A 16-bit RGB pixel.
#[derive(Clone, Copy, Debug, PartialEq, Eq, Structural)]
pub struct Rgb16 {
    pub r: u16,
    pub g: u16,
    pub b: u16,
}

/// An 8-bit RGBA pixel; alpha 255 is opaque.
#[derive(Clone, Copy, Debug, PartialEq, Eq, Structural)]
pub struct Rgba8 {
    pub r: u8,
    pub g: u8,
    pub b: u8,
    pub a: u8,
}

/// A 16-bit RGBA pixel; alpha 65535 is opaque.
#[derive(Clone, Copy, Debug, PartialEq, Eq, Structural)]
pub struct Rgba16 {
    pub r: u16,
    pub g: u16,
    pub b: u16,
    pub a: u16,
}

/// A decoded next-generation image in the decoder's own pixel layout.
/// Pixels are row-major, `width * height` of them.
#[derive(Debug)]
#[allow(inconsistent_fields)]
pub enum NativePixelImage {
    Rgb8 { width: usize, height: usize, pixels: Vec<Rgb8> },
    Rgb16 { width: usize, height: usize, pixels: Vec<Rgb16> },
    Rgba8 { width: usize, height: usize, pixels: Vec<Rgba8> },
    Rgba16 { width: usize, height: usize, pixels: Vec<Rgba16> },
    Gray8 { width: usize, height: usize, pixels: Vec<u8> },
    Gray16 { width: usize, height: usize, pixels: Vec<u16> },
}

/// A row-major 8-bit RGB raster, three bytes per pixel.
#[derive(Debug)]
pub struct CanonicalRaster {
    pub width: u32,
    pub height: u32,
    pub data: Vec<u8>,
}

impl CanonicalRaster {
    pub open spec fn wf(&self) -> bool {
        self.data@.len() == 3 * (self.width as int) * (self.height as int)
    }
}

impl NativePixelImage {
    pub open spec fn spec_width(&self) -> usize {
        match *self {
            NativePixelImage::Rgb8 { width, .. } => width,
            NativePixelImage::Rgb16 { width, .. } => width,
            NativePixelImage::Rgba8 { width, .. } => width,
            NativePixelImage::Rgba16 { width, .. } => width,
            NativePixelImage::Gray8 { width, .. } => width,
            NativePixelImage::Gray16 { width, .. } => width,
        }
    }

    pub open spec fn spec_height(&self) -> usize {
        match *self {
            NativePixelImage::Rgb8 { height, .. } => height,
            NativePixelImage::Rgb16 { height, .. } => height,
            NativePixelImage::Rgba8 { height, .. } => height,
            NativePixelImage::Rgba16 { height, .. } => height,
            NativePixelImage::Gray8 { height, .. } => height,
            NativePixelImage::Gray16 { height, .. } => height,
        }
    }

    pub open spec fn pixel_count(&self) -> nat {
        match *self {
            NativePixelImage::Rgb8 { pixels, .. } => pixels@.len(),
            NativePixelImage::Rgb16 { pixels, .. } => pixels@.len(),
            NativePixelImage::Rgba8 { pixels, .. } => pixels@.len(),
            NativePixelImage::Rgba16 { pixels, .. } => pixels@.len(),
            NativePixelImage::Gray8 { pixels, .. } => pixels@.len(),
            NativePixelImage::Gray16 { pixels, .. } => pixels@.len(),
        }
    }

    /// The pixel count matches the dimensions, the dimensions fit the raster's
    /// `u32` fields, and the raster's byte count fits in memory.
    pub open spec fn wf(&self) -> bool {
        &&& self.pixel_count() == (self.spec_width() as int) * (self.spec_height() as int)
        &&& self.spec_width() <= u32::MAX
        &&& self.spec_height() <= u32::MAX
        &&& 3 * self.pixel_count() <= usize::MAX
    }

    pub open spec fn is_gray(&self) -> bool {
        self is Gray8 || self is Gray16
    }

    pub fn width(&self) -> (r: usize)
        ensures
            r == self.spec_width(),
    {
        match self {
            NativePixelImage::Rgb8 { width, .. } => *width,
            NativePixelImage::Rgb16 { width, .. } => *width,
            NativePixelImage::Rgba8 { width, .. } => *width,
            NativePixelImage::Rgba16 { width, .. } => *width,
            NativePixelImage::Gray8 { width, .. } => *width,
            NativePixelImage::Gray16 { width, .. } => *width,
        }
    }

    pub fn height(&self) -> (r: usize)
        ensures
            r == self.spec_height(),
    {
        match self {
            NativePixelImage::Rgb8 { height, .. } => *height,
            NativePixelImage::Rgb16 { height, .. } => *height,
            NativePixelImage::Rgba8 { height, .. } => *height,
            NativePixelImage::Rgba16 { height, .. } => *height,
            NativePixelImage::Gray8 { height, .. } => *height,
            NativePixelImage::Gray16 { height, .. } => *height,
        }
    }

    pub fn pixel_len(&self) -> (r: usize)
        ensures
            r == self.pixel_count(),
    {
        match self {
            NativePixelImage::Rgb8 { pixels, .. } => pixels.len(),
            NativePixelImage::Rgb16 { pixels, .. } => pixels.len(),
            NativePixelImage::Rgba8 { pixels, .. } => pixels.len(),
            NativePixelImage::Rgba16 { pixels, .. } => pixels.len(),
            NativePixelImage::Gray8 { pixels, .. } => pixels.len(),
            NativePixelImage::Gray16 { pixels, .. } => pixels.len(),
        }
    }

    pub fn is_grayscale(&self) -> (r: bool)
        ensures
            r == self.is_gray(),
    {
        match self {
            NativePixelImage::Gray8 { .. } => true,
            NativePixelImage::Gray16 { .. } => true,
            _ => false,
        }
    }
}

/// The high byte of a 16-bit channel.
pub open spec fn high(c: u16) -> u8 {
    (c / 256) as u8
}

/// One 8-bit channel composited over white: transparent gives white, opaque
/// keeps the channel, anything between is `(c*a + 255*(255-a)) / 255`, truncated.
pub open spec fn over_white8(c: u8, a: u8) -> u8 {
    if a == 0 {
        255
    } else if a == 255 {
        c
    } else {
        ((c * a + 255 * (255 - a)) / 255) as u8
    }
}

/// One 16-bit channel composited over white at 16-bit depth, then cut to its
/// high byte; transparent gives 255.
pub open spec fn over_white16(c: u16, a: u16) -> u8 {
    if a == 0 {
        255
    } else if a == 65535 {
        high(c)
    } else {
        high(((c * a + 65535 * (65535 - a)) / 65535) as u16)
    }
}

pub open spec fn rgb8_out(p: Rgb8) -> (u8, u8, u8) {
    (p.r, p.g, p.b)
}

pub open spec fn rgb16_out(p: Rgb16) -> (u8, u8, u8) {
    (high(p.r), high(p.g), high(p.b))
}

pub open spec fn rgba8_out(p: Rgba8) -> (u8, u8, u8) {
    (over_white8(p.r, p.a), over_white8(p.g, p.a), over_white8(p.b, p.a))
}

pub open spec fn rgba16_out(p: Rgba16) -> (u8, u8, u8) {
    (over_white16(p.r, p.a), over_white16(p.g, p.a), over_white16(p.b, p.a))
}

pub open spec fn rgb8_outs(px: Seq<Rgb8>) -> Seq<(u8, u8, u8)> {
    px.map_values(|p: Rgb8| rgb8_out(p))
}

pub open spec fn rgb16_outs(px: Seq<Rgb16>) -> Seq<(u8, u8, u8)> {
    px.map_values(|p: Rgb16| rgb16_out(p))
}

pub open spec fn rgba8_outs(px: Seq<Rgba8>) -> Seq<(u8, u8, u8)> {
    px.map_values(|p: Rgba8| rgba8_out(p))
}

pub open spec fn rgba16_outs(px: Seq<Rgba16>) -> Seq<(u8, u8, u8)> {
    px.map_values(|p: Rgba16| rgba16_out(p))
}

/// The output pixels of an image, in input order. Grayscale has none.
pub open spec fn out_pixels(img: NativePixelImage) -> Seq<(u8, u8, u8)> {
    match img {
        NativePixelImage::Rgb8 { pixels, .. } => rgb8_outs(pixels@),
        NativePixelImage::Rgb16 { pixels, .. } => rgb16_outs(pixels@),
        NativePixelImage::Rgba8 { pixels, .. } => rgba8_outs(pixels@),
        NativePixelImage::Rgba16 { pixels, .. } => rgba16_outs(pixels@),
        _ => Seq::empty(),
    }
}

/// Pixels laid out as consecutive R, G, B bytes.
pub open spec fn rgb_bytes(px: Seq<(u8, u8, u8)>) -> Seq<u8>
    decreases px.len(),
{
    if px.len() == 0 {
        Seq::empty()
    } else {
        let p = px.last();
        rgb_bytes(px.drop_last()) + seq![p.0, p.1, p.2]
    }
}

/// The canonical raster's bytes for a native image.
pub open spec fn raster_bytes(img: NativePixelImage) -> Seq<u8> {
    rgb_bytes(out_pixels(img))
}

/// Byte `3*i + k` of the laid-out pixels is channel `k` of pixel `i`.
pub proof fn lemma_rgb_bytes_index(px: Seq<(u8, u8, u8)>, i: int)
    requires
        0 <= i < px.len(),
    ensures
        rgb_bytes(px).len() == 3 * px.len(),
        rgb_bytes(px)[3 * i] == px[i].0,
        rgb_bytes(px)[3 * i + 1] == px[i].1,
        rgb_bytes(px)[3 * i + 2] == px[i].2,
    decreases px.len(),
{
    lemma_rgb_bytes_len(px);
    if i < px.len() - 1 {
        lemma_rgb_bytes_index(px.drop_last(), i);
    }
}

pub proof fn lemma_rgb_bytes_len(px: Seq<(u8, u8, u8)>)
    ensures
        rgb_bytes(px).len() == 3 * px.len(),
    decreases px.len(),
{
    if px.len() > 0 {
        lemma_rgb_bytes_len(px.drop_last());
    }
}

proof fn lemma_rgb_bytes_push(px: Seq<(u8, u8, u8)>, p: (u8, u8, u8))
    ensures
        rgb_bytes(px.push(p)) == rgb_bytes(px) + seq![p.0, p.1, p.2],
{
    assert(px.push(p).drop_last() =~= px);
}

fn push_rgb(data: &mut Vec<u8>, r: u8, g: u8, b: u8)
    ensures
        final(data)@ == old(data)@ + seq![r, g, b],
{
    data.push(r);
    data.push(g);
    data.push(b);
}

fn high_byte(c: u16) -> (r: u8)
    ensures
        r == high(c),
{
    assert(c >> 8u16 == c / 256 && c / 256 < 256) by (bit_vector);
    (c >> 8u16) as u8
}

fn blend8(c: u8, a: u8) -> (r: u8)
    ensures
        r == over_white8(c, a),
{
    if a == 0 {
        255
    } else if a == 255 {
        c
    } else {
        let c32 = c as u32;
        let a32 = a as u32;
        assert(c32 * a32 <= 255 * a32) by (nonlinear_arith)
            requires
                c32 <= 255,
        ;
        let v = (c32 * a32 + 255 * (255 - a32)) / 255;
        assert(v <= 255) by (nonlinear_arith)
            requires
                v == (c32 * a32 + 255 * (255 - a32)) / 255,
                c32 * a32 <= 255 * a32,
                a32 <= 255,
        ;
        v as u8
    }
}

fn blend16(c: u16, a: u16) -> (r: u8)
    ensures
        r == over_white16(c, a),
{
    if a == 0 {
        255
    } else if a == 65535 {
        high_byte(c)
    } else {
        let c64 = c as u64;
        let a64 = a as u64;
        assert(c64 * a64 <= 65535 * a64) by (nonlinear_arith)
            requires
                c64 <= 65535,
        ;
        let v = (c64 * a64 + 65535 * (65535 - a64)) / 65535;
        assert(v <= 65535) by (nonlinear_arith)
            requires
                v == (c64 * a64 + 65535 * (65535 - a64)) / 65535,
                c64 * a64 <= 65535 * a64,
                a64 <= 65535,
        ;
        high_byte(v as u16)
    }
}

fn rgb8_raster(pixels: &Vec<Rgb8>) -> (data: Vec<u8>)
    requires
        3 * pixels@.len() <= usize::MAX,
    ensures
        data@ == rgb_bytes(rgb8_outs(pixels@)),
{
    let mut data: Vec<u8> = Vec::with_capacity(3 * pixels.len());
    let mut i: usize = 0;
    while i < pixels.len()
        invariant
            i <= pixels@.len(),
            data@ == rgb_bytes(rgb8_outs(pixels@).take(i as int)),
        decreases pixels@.len() - i,
    {
        let p = pixels[i];
        let (r, g, b) = (p.r, p.g, p.b);
        proof {
            let outs = rgb8_outs(pixels@);
            assert(outs.take(i + 1) =~= outs.take(i as int).push((r, g, b)));
            lemma_rgb_bytes_push(outs.take(i as int), (r, g, b));
        }
        push_rgb(&mut data, r, g, b);
        i += 1;
    }
    proof {
        assert(rgb8_outs(pixels@).take(i as int) =~= rgb8_outs(pixels@));
    }
    data
}

fn rgb16_raster(pixels: &Vec<Rgb16>) -> (data: Vec<u8>)
    requires
        3 * pixels@.len() <= usize::MAX,
    ensures
        data@ == rgb_bytes(rgb16_outs(pixels@)),
{
    let mut data: Vec<u8> = Vec::with_capacity(3 * pixels.len());
    let mut i: usize = 0;
    while i < pixels.len()
        invariant
            i <= pixels@.len(),
            data@ == rgb_bytes(rgb16_outs(pixels@).take(i as int)),
        decreases pixels@.len() - i,
    {
        let p = pixels[i];
        let r = high_byte(p.r);
        let g = high_byte(p.g);
        let b = high_byte(p.b);
        proof {
            let outs = rgb16_outs(pixels@);
            assert(outs.take(i + 1) =~= outs.take(i as int).push((r, g, b)));
            lemma_rgb_bytes_push(outs.take(i as int), (r, g, b));
        }
        push_rgb(&mut data, r, g, b);
        i += 1;
    }
    proof {
        assert(rgb16_outs(pixels@).take(i as int) =~= rgb16_outs(pixels@));
    }
    data
}

fn rgba8_raster(pixels: &Vec<Rgba8>) -> (data: Vec<u8>)
    requires
        3 * pixels@.len() <= usize::MAX,
    ensures
        data@ == rgb_bytes(rgba8_outs(pixels@)),
{
    let mut data: Vec<u8> = Vec::with_capacity(3 * pixels.len());
    let mut i: usize = 0;
    while i < pixels.len()
        invariant
            i <= pixels@.len(),
            data@ == rgb_bytes(rgba8_outs(pixels@).take(i as int)),
        decreases pixels@.len() - i,
    {
        let p = pixels[i];
        let r = blend8(p.r, p.a);
        let g = blend8(p.g, p.a);
        let b = blend8(p.b, p.a);
        proof {
            let outs = rgba8_outs(pixels@);
            assert(outs.take(i + 1) =~= outs.take(i as int).push((r, g, b)));
            lemma_rgb_bytes_push(outs.take(i as int), (r, g, b));
        }
        push_rgb(&mut data, r, g, b);
        i += 1;
    }
    proof {
        assert(rgba8_outs(pixels@).take(i as int) =~= rgba8_outs(pixels@));
    }
    data
}

fn rgba16_raster(pixels: &Vec<Rgba16>) -> (data: Vec<u8>)
    requires
        3 * pixels@.len() <= usize::MAX,
    ensures
        data@ == rgb_bytes(rgba16_outs(pixels@)),
{
    let mut data: Vec<u8> = Vec::with_capacity(3 * pixels.len());
    let mut i: usize = 0;
    while i < pixels.len()
        invariant
            i <= pixels@.len(),
            data@ == rgb_bytes(rgba16_outs(pixels@).take(i as int)),
        decreases pixels@.len() - i,
    {
        let p = pixels[i];
        let r = blend16(p.r, p.a);
        let g = blend16(p.g, p.a);
        let b = blend16(p.b, p.a);
        proof {
            let outs = rgba16_outs(pixels@);
            assert(outs.take(i + 1) =~= outs.take(i as int).push((r, g, b)));
            lemma_rgb_bytes_push(outs.take(i as int), (r, g, b));
        }
        push_rgb(&mut data, r, g, b);
        i += 1;
    }
    proof {
        assert(rgba16_outs(pixels@).take(i as int) =~= rgba16_outs(pixels@));
    }
    data
}

/// `r` is the canonical raster of `img`.
pub open spec fn normalized(img: NativePixelImage, r: CanonicalRaster) -> bool {
    &&& r.width == img.spec_width()
    &&& r.height == img.spec_height()
    &&& r.data@ == raster_bytes(img)
}

proof fn lemma_shr8(c: u16)
    ensures
        c >> 8 == c / 256,
{
    assert(c >> 8 == c / 256) by (bit_vector);
}

/// An 8-bit RGB image is copied channel for channel.
pub proof fn lemma_rgb8_copied(width: usize, height: usize, pixels: Vec<Rgb8>, i: int)
    requires
        0 <= i < pixels@.len(),
    ensures
        ({
            let out = raster_bytes(NativePixelImage::Rgb8 { width, height, pixels });
            &&& out.len() == 3 * pixels@.len()
            &&& out[3 * i] == pixels@[i].r
            &&& out[3 * i + 1] == pixels@[i].g
            &&& out[3 * i + 2] == pixels@[i].b
        }),
{
    lemma_rgb_bytes_index(rgb8_outs(pixels@), i);
}

/// A 16-bit RGB image keeps the high byte of each channel.
pub proof fn lemma_rgb16_high_bytes(width: usize, height: usize, pixels: Vec<Rgb16>, i: int)
    requires
        0 <= i < pixels@.len(),
    ensures
        ({
            let out = raster_bytes(NativePixelImage::Rgb16 { width, height, pixels });
            &&& out.len() == 3 * pixels@.len()
            &&& out[3 * i] == pixels@[i].r >> 8
            &&& out[3 * i + 1] == pixels@[i].g >> 8
            &&& out[3 * i + 2] == pixels@[i].b >> 8
        }),
{
    lemma_rgb_bytes_index(rgb16_outs(pixels@), i);
    let p = pixels@[i];
    lemma_shr8(p.r);
    lemma_shr8(p.g);
    lemma_shr8(p.b);
}

/// An 8-bit RGBA pixel with alpha 0 becomes white, with alpha 255 keeps its
/// colour, and black at alpha 128 becomes 127 in each channel.
pub proof fn lemma_rgba8_alpha(width: usize, height: usize, pixels: Vec<Rgba8>, i: int)
    requires
        0 <= i < pixels@.len(),
    ensures
        ({
            let out = raster_bytes(NativePixelImage::Rgba8 { width, height, pixels });
            let p = pixels@[i];
            &&& out.len() == 3 * pixels@.len()
            &&& p.a == 0 ==> out[3 * i] == 255 && out[3 * i + 1] == 255 && out[3 * i + 2] == 255
            &&& p.a == 255 ==> out[3 * i] == p.r && out[3 * i + 1] == p.g && out[3 * i + 2] == p.b
            &&& p.a == 128 && p.r == 0 && p.g == 0 && p.b == 0 ==> out[3 * i] == 127 && out[3 * i
                + 1] == 127 && out[3 * i + 2] == 127
        }),
{
    lemma_rgb_bytes_index(rgba8_outs(pixels@), i);
}

/// A 16-bit RGBA pixel with alpha 0, and no other, becomes white outright;
/// with alpha 65535 it keeps the high byte of each channel; any other alpha
/// is blended at 16-bit depth before the high byte is taken.
pub proof fn lemma_rgba16_alpha(width: usize, height: usize, pixels: Vec<Rgba16>, i: int)
    requires
        0 <= i < pixels@.len(),
    ensures
        ({
            let out = raster_bytes(NativePixelImage::Rgba16 { width, height, pixels });
            let p = pixels@[i];
            &&& out.len() == 3 * pixels@.len()
            &&& p.a == 0 ==> out[3 * i] == 255 && out[3 * i + 1] == 255 && out[3 * i + 2] == 255
            &&& p.a == 65535 ==> out[3 * i] == p.r >> 8 && out[3 * i + 1] == p.g >> 8 && out[3 * i
                + 2] == p.b >> 8
            &&& 0 < p.a < 65535 ==> {
                &&& out[3 * i] == high(((p.r * p.a + 65535 * (65535 - p.a)) / 65535) as u16)
                &&& out[3 * i + 1] == high(((p.g * p.a + 65535 * (65535 - p.a)) / 65535) as u16)
                &&& out[3 * i + 2] == high(((p.b * p.a + 65535 * (65535 - p.a)) / 65535) as u16)
            }
        }),
{
    lemma_rgb_bytes_index(rgba16_outs(pixels@), i);
    let p = pixels@[i];
    lemma_shr8(p.r);
    lemma_shr8(p.g);
    lemma_shr8(p.b);
}

/// Normalizing is a function of the image alone: two results for the same
/// image are the same raster.
pub proof fn lemma_normalize_repeatable(img: NativePixelImage, a: CanonicalRaster, b: CanonicalRaster)
    requires
        normalized(img, a),
        normalized(img, b),
    ensures
        a.width == b.width,
        a.height == b.height,
        a.data@ == b.data@,
{
}

/// Converts a native image to the canonical raster: same dimensions, pixels
/// in the same order, each mapped by its layout's rule.
pub fn normalize(img: &NativePixelImage) -> (r: CanonicalRaster)
    requires
        img.wf(),
        !img.is_gray(),
    ensures
        normalized(*img, r),
        r.wf(),
{
    let data = match img {
        NativePixelImage::Rgb8 { pixels, .. } => rgb8_raster(pixels),
        NativePixelImage::Rgb16 { pixels, .. } => rgb16_raster(pixels),
        NativePixelImage::Rgba8 { pixels, .. } => rgba8_raster(pixels),
        NativePixelImage::Rgba16 { pixels, .. } => rgba16_raster(pixels),
        _ => Vec::new(),
    };
    proof {
        lemma_rgb_bytes_len(out_pixels(*img));
        assert(out_pixels(*img).len() == img.pixel_count());
        let (w, h) = (img.spec_width() as int, img.spec_height() as int);
        assert(3 * (w * h) == 3 * w * h) by (nonlinear_arith);
    }
    CanonicalRaster { width: img.width() as u32, height: img.height() as u32, data }
}

} // verus!
