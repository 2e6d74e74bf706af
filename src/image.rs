//! Rasters, palette quantisation and Floyd–Steinberg dithering.

use crate::colormap::{
    lemma_nearest_index, nearest_index, quantize, valid_palette, ColorMap, Rgb,
};
use crate::error::{InkyError, InkyResult};
use crate::Resolution;
use vstd::arithmetic::div_mod::{
    lemma_fundamental_div_mod, lemma_fundamental_div_mod_converse, lemma_mod_pos_bound,
};
use vstd::prelude::*;

verus! {

/// Model of a raster: its dimensions and its pixels in row-major order.
pub struct Raster<T> {
    pub width: u32,
    pub height: u32,
    pub pixels: Seq<T>,
}

/// Number of pixels of a `width` x `height` raster.
pub fn area_of(width: u32, height: u32) -> (r: u64)
    ensures
        r == (width as nat) * (height as nat),
{
    assert((width as nat) * (height as nat) <= 0xffff_ffffu64 * 0xffff_ffffu64) by (nonlinear_arith)
        requires
            width <= 0xffff_ffffu64,
            height <= 0xffff_ffffu64,
    ;
    width as u64 * height as u64
}

/// The cell in column `x` of row `y` lies inside a `width` x `height` raster.
pub proof fn lemma_cell_in_bounds(width: int, height: int, x: int, y: int)
    requires
        0 <= x < width,
        0 <= y < height,
    ensures
        0 <= y * width + x < width * height,
        width * y == y * width,
{
    assert(y * width + x < width * height) by (nonlinear_arith)
        requires
            0 <= x < width,
            0 <= y < height,
    ;
    assert(0 <= y * width) by (nonlinear_arith)
        requires
            0 <= y,
            0 <= width,
    ;
    assert(width * y == y * width) by (nonlinear_arith);
}

/// An image buffer with one palette index per pixel, row-major.
pub struct IndexImage {
    width: u32,
    height: u32,
    data: Vec<u8>,
}

impl View for IndexImage {
    type V = Raster<u8>;

    closed spec fn view(&self) -> Raster<u8> {
        Raster { width: self.width, height: self.height, pixels: self.data@ }
    }
}

impl IndexImage {
    #[verifier::type_invariant]
    spec fn inv(self) -> bool {
        self.data@.len() == (self.width as nat) * (self.height as nat)
    }

    /// Wraps `data` as a `width` x `height` image, if it holds exactly that many pixels.
    pub fn from_raw(width: u32, height: u32, data: Vec<u8>) -> (r: Option<IndexImage>)
        ensures
            r is Some <==> data@.len() == (width as nat) * (height as nat),
            r is Some ==> r->0@ == (Raster { width, height, pixels: data@ }),
    {
        let area: u64 = area_of(width, height);
        if data.len() as u64 == area {
            Some(IndexImage { width, height, data })
        } else {
            None
        }
    }

    /// A `width` x `height` image with every pixel set to `value`.
    pub fn from_pixel(width: u32, height: u32, value: u8) -> (r: IndexImage)
        requires
            (width as nat) * (height as nat) <= usize::MAX,
        ensures
            r@.width == width,
            r@.height == height,
            r@.pixels == Seq::new((width as nat) * (height as nat), |i: int| value),
    {
        let n: usize = area_of(width, height) as usize;
        let mut data: Vec<u8> = Vec::new();
        let mut i: usize = 0;
        while i < n
            invariant
                i <= n,
                n == (width as nat) * (height as nat),
                data@ == Seq::new(i as nat, |j: int| value),
            decreases n - i,
        {
            data.push(value);
            i = i + 1;
            assert(data@ =~= Seq::new(i as nat, |j: int| value));
        }
        IndexImage { width, height, data }
    }

    pub fn width(&self) -> (r: u32)
        ensures
            r == self@.width,
    {
        self.width
    }

    pub fn height(&self) -> (r: u32)
        ensures
            r == self@.height,
    {
        self.height
    }

    /// The pixels, row-major.
    pub fn as_slice(&self) -> (r: &[u8])
        ensures
            r@ == self@.pixels,
            r@.len() == (self@.width as nat) * (self@.height as nat),
    {
        proof {
            use_type_invariant(self);
        }
        self.data.as_slice()
    }

    /// The pixels, row-major.
    pub fn into_vec(self) -> (r: Vec<u8>)
        ensures
            r@ == self@.pixels,
            r@.len() == (self@.width as nat) * (self@.height as nat),
    {
        proof {
            use_type_invariant(&self);
        }
        self.data
    }

    /// The pixel in column `x` of row `y`.
    pub fn get_pixel(&self, x: u32, y: u32) -> (r: u8)
        requires
            x < self@.width,
            y < self@.height,
        ensures
            r == self@.pixels[y * self@.width + x],
    {
        proof {
            use_type_invariant(self);
            lemma_cell_in_bounds(self.width as int, self.height as int, x as int, y as int);
        }
        let n: usize = self.data.len();
        let row_start: u64 = area_of(self.width, y);
        assert(row_start + x < n);
        let k: usize = (row_start + x as u64) as usize;
        self.data[k]
    }
}

impl Clone for IndexImage {
    fn clone(&self) -> (r: Self)
        ensures
            r@ == self@,
    {
        proof {
            use_type_invariant(self);
        }
        let data = self.data.clone();
        assert(data@ =~= self.data@);
        IndexImage { width: self.width, height: self.height, data }
    }
}

/// An image buffer of RGB pixels, row-major.
pub struct RgbImage {
    width: u32,
    height: u32,
    data: Vec<Rgb>,
}

impl View for RgbImage {
    type V = Raster<Rgb>;

    closed spec fn view(&self) -> Raster<Rgb> {
        Raster { width: self.width, height: self.height, pixels: self.data@ }
    }
}

impl RgbImage {
    #[verifier::type_invariant]
    spec fn inv(self) -> bool {
        self.data@.len() == (self.width as nat) * (self.height as nat)
    }

    /// Wraps `data` as a `width` x `height` image, if it holds exactly that many pixels.
    pub fn from_raw(width: u32, height: u32, data: Vec<Rgb>) -> (r: Option<RgbImage>)
        ensures
            r is Some <==> data@.len() == (width as nat) * (height as nat),
            r is Some ==> r->0@ == (Raster { width, height, pixels: data@ }),
    {
        let area: u64 = area_of(width, height);
        if data.len() as u64 == area {
            Some(RgbImage { width, height, data })
        } else {
            None
        }
    }

    pub fn width(&self) -> (r: u32)
        ensures
            r == self@.width,
    {
        self.width
    }

    pub fn height(&self) -> (r: u32)
        ensures
            r == self@.height,
    {
        self.height
    }

    /// The pixels, row-major.
    pub fn as_slice(&self) -> (r: &[Rgb])
        ensures
            r@ == self@.pixels,
            r@.len() == (self@.width as nat) * (self@.height as nat),
    {
        proof {
            use_type_invariant(self);
        }
        self.data.as_slice()
    }

    /// The resolution of this image.
    pub fn resolution(&self) -> (r: Resolution)
        ensures
            r == (Resolution { width: self@.width, height: self@.height }),
    {
        Resolution::new(self.width, self.height)
    }
}

impl Clone for RgbImage {
    fn clone(&self) -> (r: Self)
        ensures
            r@ == self@,
    {
        proof {
            use_type_invariant(self);
        }
        let data = self.data.clone();
        assert(data@ =~= self.data@);
        RgbImage { width: self.width, height: self.height, data }
    }
}

/// A channel value clamped to `[0, 255]`.
pub open spec fn clamp_channel(v: int) -> u8 {
    if v < 0 {
        0
    } else if v > 255 {
        255
    } else {
        v as u8
    }
}

/// `e * f / 16`, rounded toward zero.
pub open spec fn scaled_error(e: int, f: int) -> int {
    if e * f >= 0 {
        (e * f) / 16
    } else {
        -((-(e * f)) / 16)
    }
}

/// `p` with `f / 16` of the error `(er, eg, eb)` added to its channels.
pub open spec fn diffuse(p: Rgb, er: int, eg: int, eb: int, f: int) -> Rgb {
    Rgb {
        r: clamp_channel(p.r + scaled_error(er, f)),
        g: clamp_channel(p.g + scaled_error(eg, f)),
        b: clamp_channel(p.b + scaled_error(eb, f)),
    }
}

/// One Floyd–Steinberg step on the pixel at row-major position `k` of a `w`-wide buffer
/// of `h` rows: the pixel takes its palette color and its quantisation error goes 7/16 to
/// the right, 3/16 to the lower left, 5/16 below and 1/16 to the lower right, where those
/// neighbours exist.
pub open spec fn dither_step(palette: Seq<Rgb>, w: nat, h: nat, buf: Seq<Rgb>, k: nat) -> Seq<Rgb> {
    let x = k % w;
    let y = k / w;
    let i = k as int;
    let wi = w as int;
    let old = buf[i];
    let new = quantize(palette, old);
    let er = old.r - new.r;
    let eg = old.g - new.g;
    let eb = old.b - new.b;
    let b0 = buf.update(i, new);
    let b1 = if x + 1 < w {
        b0.update(i + 1, diffuse(b0[i + 1], er, eg, eb, 7))
    } else {
        b0
    };
    let b2 = if y + 1 < h && x > 0 {
        b1.update(i + wi - 1, diffuse(b1[i + wi - 1], er, eg, eb, 3))
    } else {
        b1
    };
    let b3 = if y + 1 < h {
        b2.update(i + wi, diffuse(b2[i + wi], er, eg, eb, 5))
    } else {
        b2
    };
    if y + 1 < h && x + 1 < w {
        b3.update(i + wi + 1, diffuse(b3[i + wi + 1], er, eg, eb, 1))
    } else {
        b3
    }
}

/// The buffer after the first `k` Floyd–Steinberg steps.
pub open spec fn dither_prefix(palette: Seq<Rgb>, w: nat, h: nat, src: Seq<Rgb>, k: nat) -> Seq<Rgb>
    decreases k,
{
    if k == 0 {
        src
    } else {
        dither_step(palette, w, h, dither_prefix(palette, w, h, src, (k - 1) as nat), (k - 1) as nat)
    }
}

/// Floyd–Steinberg dithering of a `w` x `h` raster against `palette`.
pub open spec fn dithered(palette: Seq<Rgb>, w: nat, h: nat, src: Seq<Rgb>) -> Seq<Rgb> {
    dither_prefix(palette, w, h, src, w * h)
}

/// Column and row of position `k` of a `w` x `h` raster.
proof fn lemma_cell_of(w: int, h: int, k: int)
    requires
        0 < w,
        0 <= k < w * h,
    ensures
        0 <= k % w < w,
        0 <= k / w < h,
        k == (k / w) * w + k % w,
{
    lemma_fundamental_div_mod(k, w);
    lemma_mod_pos_bound(k, w);
    assert((k / w) * w == w * (k / w)) by (nonlinear_arith);
    assert(0 <= k / w < h) by (nonlinear_arith)
        requires
            k == w * (k / w) + k % w,
            0 <= k % w < w,
            0 <= k < w * h,
            0 < w,
    ;
}

/// A Floyd–Steinberg step gives its pixel a palette color and changes no earlier pixel.
proof fn lemma_dither_step_frame(palette: Seq<Rgb>, w: nat, h: nat, buf: Seq<Rgb>, k: nat)
    requires
        buf.len() == w * h,
        k < w * h,
    ensures
        dither_step(palette, w, h, buf, k).len() == buf.len(),
        dither_step(palette, w, h, buf, k)[k as int] == quantize(palette, buf[k as int]),
        forall|i: int| 0 <= i < k ==> #[trigger] dither_step(palette, w, h, buf, k)[i] == buf[i],
{
    assert(0 < w) by (nonlinear_arith)
        requires
            k < w * h,
    ;
    lemma_cell_of(w as int, h as int, k as int);
    lemma_neighbours(w as int, h as int, k as int, (k % w) as int, (k / w) as int);
}

/// `c` is one of the palette's colors.
pub open spec fn in_palette(palette: Seq<Rgb>, c: Rgb) -> bool {
    exists|j: int| 0 <= j < palette.len() && palette[j] == c
}

/// After the first `k` Floyd–Steinberg steps the first `k` pixels are palette colors.
proof fn lemma_dither_prefix(palette: Seq<Rgb>, w: nat, h: nat, src: Seq<Rgb>, k: nat)
    requires
        valid_palette(palette),
        src.len() == w * h,
        k <= w * h,
    ensures
        dither_prefix(palette, w, h, src, k).len() == src.len(),
        forall|i: int|
            0 <= i < k ==> in_palette(palette, #[trigger] dither_prefix(palette, w, h, src, k)[i]),
    decreases k,
{
    if k > 0 {
        let k1 = (k - 1) as nat;
        lemma_dither_prefix(palette, w, h, src, k1);
        let prev = dither_prefix(palette, w, h, src, k1);
        lemma_dither_step_frame(palette, w, h, prev, k1);
        let cur = dither_prefix(palette, w, h, src, k);
        assert(cur == dither_step(palette, w, h, prev, k1));
        lemma_nearest_index(palette, prev[k1 as int]);
        let j = nearest_index(palette, prev[k1 as int]) as int;
        assert(palette[j] == cur[k1 as int]);
        assert forall|i: int| 0 <= i < k implies in_palette(palette, #[trigger] cur[i]) by {
            if i < k1 {
                assert(cur[i] == prev[i]);
            } else {
                assert(0 <= j < palette.len() && palette[j] == cur[i]);
            }
        }
    }
}

/// Floyd–Steinberg dithering leaves every pixel a palette color, and the raster its size.
pub proof fn lemma_dithered_in_palette(palette: Seq<Rgb>, w: nat, h: nat, src: Seq<Rgb>)
    requires
        valid_palette(palette),
        src.len() == w * h,
    ensures
        dithered(palette, w, h, src).len() == src.len(),
        forall|i: int|
            0 <= i < src.len() ==> in_palette(palette, #[trigger] dithered(palette, w, h, src)[i]),
{
    lemma_dither_prefix(palette, w, h, src, w * h);
}

/// The palette index of each pixel.
pub open spec fn indices_of(palette: Seq<Rgb>, pixels: Seq<Rgb>) -> Seq<u8> {
    Seq::new(pixels.len(), |i: int| nearest_index(palette, pixels[i]) as u8)
}

/// The palette color of each index.
pub open spec fn colors_of(palette: Seq<Rgb>, indices: Seq<u8>) -> Seq<Rgb> {
    Seq::new(indices.len(), |i: int| palette[indices[i] as int])
}

/// The indices a raster is quantised to, with or without dithering first.
pub open spec fn prepared_indices(palette: Seq<Rgb>, src: Raster<Rgb>, dither: bool) -> Seq<u8> {
    if dither {
        indices_of(palette, dithered(palette, src.width as nat, src.height as nat, src.pixels))
    } else {
        indices_of(palette, src.pixels)
    }
}

fn diffuse_channel(c: u8, e: i32, f: i32) -> (r: u8)
    requires
        -255 <= e <= 255,
        0 <= f <= 16,
    ensures
        r == clamp_channel(c + scaled_error(e as int, f as int)),
{
    assert(-4080 <= e * f <= 4080) by (nonlinear_arith)
        requires
            -255 <= e <= 255,
            0 <= f <= 16,
    ;
    let v: i32 = e * f;
    let s: i32 = if v >= 0 {
        v / 16
    } else {
        -((-v) / 16)
    };
    let t: i32 = c as i32 + s;
    if t < 0 {
        0
    } else if t > 255 {
        255
    } else {
        t as u8
    }
}

fn diffuse_pixel(p: Rgb, er: i32, eg: i32, eb: i32, f: i32) -> (r: Rgb)
    requires
        -255 <= er <= 255,
        -255 <= eg <= 255,
        -255 <= eb <= 255,
        0 <= f <= 16,
    ensures
        r == diffuse(p, er as int, eg as int, eb as int, f as int),
{
    Rgb {
        r: diffuse_channel(p.r, er, f),
        g: diffuse_channel(p.g, eg, f),
        b: diffuse_channel(p.b, eb, f),
    }
}

/// The pixel at position `i` receives `f / 16` of the error.
fn diffuse_at(buf: &mut Vec<Rgb>, i: usize, er: i32, eg: i32, eb: i32, f: i32)
    requires
        i < old(buf)@.len(),
        -255 <= er <= 255,
        -255 <= eg <= 255,
        -255 <= eb <= 255,
        0 <= f <= 16,
    ensures
        final(buf)@ == old(buf)@.update(
            i as int,
            diffuse(old(buf)@[i as int], er as int, eg as int, eb as int, f as int),
        ),
{
    let p = buf[i];
    let q = diffuse_pixel(p, er, eg, eb, f);
    buf.set(i, q);
}

/// Advancing one cell in row-major order keeps the cursor `(x, y)` on position `k`.
proof fn lemma_next_cell(w: int, h: int, k: int, x: int, y: int)
    requires
        0 <= x < w,
        0 <= y < h,
        k == y * w + x,
    ensures
        x + 1 < w ==> k + 1 == y * w + (x + 1),
        x + 1 == w ==> k + 1 == (y + 1) * w,
        x + 1 == w && k + 1 < w * h ==> y + 1 < h,
{
    assert((y + 1) * w == y * w + w) by (nonlinear_arith);
    if x + 1 == w && k + 1 < w * h {
        assert(y + 1 < h) by (nonlinear_arith)
            requires
                k + 1 == (y + 1) * w,
                k + 1 < w * h,
                0 < w,
        ;
    }
}

/// The neighbours that receive error from the cell in column `x` of row `y` lie inside the
/// raster.
proof fn lemma_neighbours(w: int, h: int, k: int, x: int, y: int)
    requires
        0 <= x < w,
        0 <= y < h,
        k == y * w + x,
    ensures
        k < w * h,
        x + 1 < w ==> k + 1 < w * h,
        y + 1 < h ==> k + w < w * h,
        y + 1 < h && x + 1 < w ==> k + w + 1 < w * h,
{
    lemma_cell_in_bounds(w, h, x, y);
    assert((y + 1) * w == y * w + w) by (nonlinear_arith);
    assert(x + 1 < w ==> k + 1 < w * h) by (nonlinear_arith)
        requires
            k == y * w + x,
            0 <= x < w,
            0 <= y < h,
            (y + 1) * w == y * w + w,
    ;
    if y + 1 < h {
        assert((y + 1) * w + w <= h * w) by (nonlinear_arith)
            requires
                y + 1 < h,
                0 <= w,
        ;
        assert(h * w == w * h) by (nonlinear_arith);
    }
}

/// The Floyd–Steinberg step on the pixel at position `k`, in column `x` of row `y`.
fn dither_cell<C: ColorMap>(buf: &mut Vec<Rgb>, k: usize, x: u32, y: u32, w: u32, h: u32, color_map: &C)
    requires
        old(buf)@.len() == (w as nat) * (h as nat),
        x < w,
        y < h,
        k == y * w + x,
        valid_palette(color_map.palette_spec()),
    ensures
        final(buf)@ == dither_step(color_map.palette_spec(), w as nat, h as nat, old(buf)@, k as nat),
        final(buf)@.len() == old(buf)@.len(),
{
    proof {
        lemma_fundamental_div_mod_converse(k as int, w as int, y as int, x as int);
        lemma_cell_in_bounds(w as int, h as int, x as int, y as int);
        lemma_neighbours(w as int, h as int, k as int, x as int, y as int);
    }
    let n: usize = buf.len();
    let old_px = buf[k];
    let mut new_px = old_px;
    color_map.map_color(&mut new_px);
    let er: i32 = old_px.r as i32 - new_px.r as i32;
    let eg: i32 = old_px.g as i32 - new_px.g as i32;
    let eb: i32 = old_px.b as i32 - new_px.b as i32;
    buf.set(k, new_px);
    let wu: usize = w as usize;
    if x + 1 < w {
        diffuse_at(buf, k + 1, er, eg, eb, 7);
    }
    if y + 1 < h && x > 0 {
        diffuse_at(buf, k + wu - 1, er, eg, eb, 3);
    }
    if y + 1 < h {
        diffuse_at(buf, k + wu, er, eg, eb, 5);
    }
    if y + 1 < h && x + 1 < w {
        diffuse_at(buf, k + wu + 1, er, eg, eb, 1);
    }
}

/// Dithers `image` in place with Floyd–Steinberg error diffusion against the palette of
/// `color_map`.
pub fn dither<C: ColorMap>(image: &mut RgbImage, color_map: &C)
    ensures
        final(image)@.width == old(image)@.width,
        final(image)@.height == old(image)@.height,
        final(image)@.pixels == dithered(
            color_map.palette_spec(),
            old(image)@.width as nat,
            old(image)@.height as nat,
            old(image)@.pixels,
        ),
{
    proof {
        use_type_invariant(&*image);
        color_map.lemma_palette_valid();
    }
    let ghost palette = color_map.palette_spec();
    let ghost src = image.data@;
    let w: u32 = image.width;
    let h: u32 = image.height;
    let mut buf: Vec<Rgb> = image.data.clone();
    assert(buf@ =~= src);
    let n: usize = buf.len();
    assert(n > 0 ==> w > 0 && h > 0) by (nonlinear_arith)
        requires
            n == (w as nat) * (h as nat),
    ;
    let mut k: usize = 0;
    let mut x: u32 = 0;
    let mut y: u32 = 0;
    while k < n
        invariant
            n == buf@.len(),
            n == (w as nat) * (h as nat),
            k <= n,
            valid_palette(palette),
            palette == color_map.palette_spec(),
            buf@ == dither_prefix(palette, w as nat, h as nat, src, k as nat),
            k < n ==> x < w && y < h && k == y * w + x,
        decreases n - k,
    {
        dither_cell(&mut buf, k, x, y, w, h, color_map);
        proof {
            lemma_next_cell(w as int, h as int, k as int, x as int, y as int);
        }
        k = k + 1;
        x = x + 1;
        if x == w {
            x = 0;
            y = y + 1;
        }
    }
    *image = RgbImage { width: w, height: h, data: buf };
}

/// The palette index of each pixel of `image`.
pub fn index_colors<C: ColorMap>(image: &RgbImage, color_map: &C) -> (r: IndexImage)
    ensures
        r@.width == image@.width,
        r@.height == image@.height,
        r@.pixels == indices_of(color_map.palette_spec(), image@.pixels),
{
    proof {
        use_type_invariant(image);
        color_map.lemma_palette_valid();
    }
    let ghost palette = color_map.palette_spec();
    let pixels = image.as_slice();
    let n: usize = pixels.len();
    let mut data: Vec<u8> = Vec::new();
    let mut i: usize = 0;
    while i < n
        invariant
            n == pixels@.len(),
            i <= n,
            valid_palette(palette),
            palette == color_map.palette_spec(),
            data@ == indices_of(palette, pixels@.take(i as int)),
        decreases n - i,
    {
        let index = color_map.index_of(&pixels[i]);
        data.push(index as u8);
        i = i + 1;
        assert(data@ =~= indices_of(palette, pixels@.take(i as int)));
    }
    assert(pixels@.take(n as int) =~= pixels@);
    IndexImage { width: image.width, height: image.height, data }
}

/// Every index that quantisation against a valid palette yields lies in the palette,
/// whether or not the raster was dithered first.
pub proof fn lemma_prepared_indices_in_palette(palette: Seq<Rgb>, src: Raster<Rgb>, dither: bool)
    requires
        valid_palette(palette),
    ensures
        forall|i: int|
            0 <= i < prepared_indices(palette, src, dither).len() ==> (#[trigger] prepared_indices(
                palette,
                src,
                dither,
            )[i] as nat) < palette.len(),
{
    let q = if dither {
        dithered(palette, src.width as nat, src.height as nat, src.pixels)
    } else {
        src.pixels
    };
    assert(prepared_indices(palette, src, dither) == indices_of(palette, q));
    lemma_indices_in_palette(palette, q);
}

/// Quantising any pixels against a valid palette yields indices inside the palette.
pub proof fn lemma_indices_in_palette(palette: Seq<Rgb>, pixels: Seq<Rgb>)
    requires
        valid_palette(palette),
    ensures
        forall|i: int|
            0 <= i < pixels.len() ==> (#[trigger] indices_of(palette, pixels)[i] as nat)
                < palette.len(),
        forall|i: int|
            0 <= i < pixels.len() ==> (#[trigger] indices_of(palette, pixels)[i] as nat)
                == nearest_index(palette, pixels[i]),
{
    assert forall|i: int| 0 <= i < pixels.len() implies (#[trigger] indices_of(palette, pixels)[i]
        as nat) == nearest_index(palette, pixels[i]) && nearest_index(palette, pixels[i])
        < palette.len() by {
        lemma_nearest_index(palette, pixels[i]);
    }
}

/// Preprocessing is deterministic: two rasters with the same dimensions and the same
/// pixels give byte-identical index images and previews, with or without dithering.
pub proof fn lemma_prepare_deterministic(palette: Seq<Rgb>, a: Raster<Rgb>, b: Raster<Rgb>, dither: bool)
    requires
        a.width == b.width,
        a.height == b.height,
        a.pixels =~= b.pixels,
    ensures
        prepared_view(palette, a, dither) == prepared_view(palette, b, dither),
{
    assert(a == b);
}

/// Model of an [`InkyImage`]: its index image and its color preview.
pub struct InkyImageView {
    pub index: Raster<u8>,
    pub pixels: Raster<Rgb>,
}

/// A pre-processed image: an index image ready to be packed for the display, and the
/// color image it stands for, for previews.
pub struct InkyImage {
    index_img: IndexImage,
    pixel_img: RgbImage,
}

impl View for InkyImage {
    type V = InkyImageView;

    closed spec fn view(&self) -> InkyImageView {
        InkyImageView { index: self.index_img@, pixels: self.pixel_img@ }
    }
}

impl InkyImage {
    pub fn new(index_img: IndexImage, pixel_img: RgbImage) -> (r: Self)
        ensures
            r@.index == index_img@,
            r@.pixels == pixel_img@,
    {
        Self { index_img, pixel_img }
    }

    /// Returns a copy of the palettized image.
    pub fn index_img(&self) -> (r: IndexImage)
        ensures
            r@ == self@.index,
    {
        self.index_img.clone()
    }

    /// Returns a copy of the color image.
    pub fn pixel_img(&self) -> (r: RgbImage)
        ensures
            r@ == self@.pixels,
    {
        self.pixel_img.clone()
    }

    /// Returns the resolution of the palettized image.
    pub fn resolution(&self) -> (r: Resolution)
        ensures
            r == (Resolution { width: self@.index.width, height: self@.index.height }),
    {
        let w = self.index_img.width();
        let h = self.index_img.height();
        Resolution::new(w, h)
    }
}

/// The image that preprocessing makes of `src`: its palette indices and their colors.
pub open spec fn prepared_view(palette: Seq<Rgb>, src: Raster<Rgb>, dither: bool) -> InkyImageView {
    let indices = prepared_indices(palette, src, dither);
    InkyImageView {
        index: Raster { width: src.width, height: src.height, pixels: indices },
        pixels: Raster { width: src.width, height: src.height, pixels: colors_of(palette, indices) },
    }
}

/// The image of the given size filled with the palette color nearest to `color`.
pub open spec fn solid_view(palette: Seq<Rgb>, res: Resolution, color: Rgb) -> InkyImageView {
    let n = (res.width as nat) * (res.height as nat);
    let index = nearest_index(palette, color);
    InkyImageView {
        index: Raster { width: res.width, height: res.height, pixels: Seq::new(n, |i: int| index as u8) },
        pixels: Raster {
            width: res.width,
            height: res.height,
            pixels: Seq::new(n, |i: int| palette[index as int]),
        },
    }
}

/// Converts rasters of the display's resolution into palettized images.
pub struct ImagePreProcessor<CMap: ColorMap> {
    pub color_map: CMap,
    pub desired_res: Resolution,
}

impl<CMap: ColorMap> ImagePreProcessor<CMap> {
    pub fn new(color_map: CMap, desired_res: Resolution) -> (r: Self)
        ensures
            r.color_map == color_map,
            r.desired_res == desired_res,
    {
        Self { color_map, desired_res }
    }

    /// Quantises `img` against the color map, dithering it first when `dither` is set.
    /// The image must have the display's resolution: nothing is resized.
    pub fn prepare(&self, img: &RgbImage, dither: bool) -> (r: InkyResult<InkyImage>)
        ensures
            ({
                let found = Resolution { width: img@.width, height: img@.height };
                &&& found != self.desired_res ==> r == Err::<InkyImage, InkyError>(
                    InkyError::UnsupportedResolution { expected: self.desired_res, found },
                )
                &&& found == self.desired_res ==> r is Ok && r->Ok_0@ == prepared_view(
                    self.color_map.palette_spec(),
                    img@,
                    dither,
                )
            }),
    {
        let input_res = img.resolution();
        if input_res != self.desired_res {
            return Err(InkyError::UnsupportedResolution { expected: self.desired_res, found: input_res });
        }
        let mut rgb = img.clone();
        if dither {
            crate::image::dither(&mut rgb, &self.color_map);
        }
        let index_image = index_colors(&rgb, &self.color_map);
        proof {
            self.color_map.lemma_palette_valid();
            lemma_indices_in_palette(self.color_map.palette_spec(), rgb@.pixels);
        }
        let mapped = self.map_index_image(&index_image);
        Ok(InkyImage::new(index_image, mapped))
    }

    /// The color image of an index image whose indices all lie in the palette.
    fn map_index_image(&self, index_image: &IndexImage) -> (r: RgbImage)
        requires
            forall|i: int|
                0 <= i < index_image@.pixels.len() ==> (#[trigger] index_image@.pixels[i] as nat)
                    < self.color_map.palette_spec().len(),
        ensures
            r@ == (Raster {
                width: index_image@.width,
                height: index_image@.height,
                pixels: colors_of(self.color_map.palette_spec(), index_image@.pixels),
            }),
    {
        let palette = self.color_map.palette();
        let indices = index_image.as_slice();
        let n: usize = indices.len();
        let mut data: Vec<Rgb> = Vec::new();
        let mut i: usize = 0;
        while i < n
            invariant
                n == indices@.len(),
                i <= n,
                indices@ == index_image@.pixels,
                palette@ == self.color_map.palette_spec(),
                forall|j: int|
                    0 <= j < index_image@.pixels.len() ==> (#[trigger] index_image@.pixels[j] as nat)
                        < self.color_map.palette_spec().len(),
                data@ == colors_of(palette@, indices@.take(i as int)),
            decreases n - i,
        {
            let index = indices[i];
            data.push(palette[index as usize]);
            i = i + 1;
            assert(data@ =~= colors_of(palette@, indices@.take(i as int)));
        }
        assert(indices@.take(n as int) =~= indices@);
        RgbImage { width: index_image.width(), height: index_image.height(), data }
    }

    /// A full-resolution image of the palette color nearest to `color`, without any raster
    /// to decode.
    pub fn new_color(&self, color: Rgb) -> (r: InkyResult<InkyImage>)
        requires
            self.desired_res.area() <= usize::MAX,
        ensures
            r is Ok,
            r->Ok_0@ == solid_view(self.color_map.palette_spec(), self.desired_res, color),
    {
        let w = self.desired_res.width;
        let h = self.desired_res.height;
        proof {
            self.color_map.lemma_palette_valid();
            lemma_nearest_index(self.color_map.palette_spec(), color);
        }
        let index = self.color_map.index_of(&color);
        let index_image = IndexImage::from_pixel(w, h, index as u8);
        let mapped = self.map_index_image(&index_image);
        assert(mapped@.pixels =~= solid_view(self.color_map.palette_spec(), self.desired_res, color).pixels.pixels);
        Ok(InkyImage::new(index_image, mapped))
    }
}

} // verus!
