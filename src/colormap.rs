//! Nearest-color quantisation over small fixed palettes.

pub mod inky_map;
pub mod mono_map;

use self::inky_map::InkyFourColorMap;
use self::mono_map::MonoColorMap;

use vstd::prelude::*;

verus! {

/// A color with 8-bit red, green and blue channels.
#[derive(Debug, Copy, Clone, PartialEq, Eq, Structural)]
pub struct Rgb {
    pub r: u8,
    pub g: u8,
    pub b: u8,
}

impl Rgb {
    pub fn new(r: u8, g: u8, b: u8) -> (c: Rgb)
        ensures
            c == (Rgb { r, g, b }),
    {
        Rgb { r, g, b }
    }
}

pub open spec fn sq(x: int) -> int {
    x * x
}

/// Squared Euclidean distance between two colors in RGB space.
pub open spec fn distance(a: Rgb, b: Rgb) -> int {
    sq(a.r - b.r) + sq(a.g - b.g) + sq(a.b - b.b)
}

/// Index of the entry nearest to `c` among the first `n` entries of `palette`; on a tie
/// the lower index wins.
pub open spec fn nearest_prefix(palette: Seq<Rgb>, c: Rgb, n: nat) -> nat
    decreases n,
{
    if n <= 1 {
        0
    } else {
        let best = nearest_prefix(palette, c, (n - 1) as nat);
        if distance(c, palette[n - 1]) < distance(c, palette[best as int]) {
            (n - 1) as nat
        } else {
            best
        }
    }
}

/// Index of the palette entry nearest to `c`; on a tie the lower index wins.
pub open spec fn nearest_index(palette: Seq<Rgb>, c: Rgb) -> nat {
    nearest_prefix(palette, c, palette.len())
}

/// `i` is the lowest index among the palette entries at minimal distance from `c`.
pub open spec fn is_nearest(palette: Seq<Rgb>, c: Rgb, i: nat) -> bool {
    &&& i < palette.len()
    &&& forall|j: int| 0 <= j < palette.len() ==> distance(c, palette[i as int]) <= distance(c, #[trigger] palette[j])
    &&& forall|j: int| 0 <= j < i ==> distance(c, #[trigger] palette[j]) > distance(c, palette[i as int])
}

/// A palette usable by the pipeline: at least one color, indices that fit in a byte.
pub open spec fn valid_palette(palette: Seq<Rgb>) -> bool {
    0 < palette.len() <= 256
}

/// The color a palette maps `c` to.
pub open spec fn quantize(palette: Seq<Rgb>, c: Rgb) -> Rgb {
    palette[nearest_index(palette, c) as int]
}

pub proof fn lemma_nearest_prefix(palette: Seq<Rgb>, c: Rgb, n: nat)
    requires
        0 < n <= palette.len(),
    ensures
        is_nearest(palette.take(n as int), c, nearest_prefix(palette, c, n)),
    decreases n,
{
    let t = palette.take(n as int);
    if n > 1 {
        lemma_nearest_prefix(palette, c, (n - 1) as nat);
        let t1 = palette.take(n - 1);
        assert forall|j: int| 0 <= j < n - 1 implies #[trigger] t[j] == t1[j] by {}
    }
}

/// The nearest index is the first of the entries at minimal distance, so it is unique.
pub proof fn lemma_nearest_index(palette: Seq<Rgb>, c: Rgb)
    requires
        0 < palette.len(),
    ensures
        is_nearest(palette, c, nearest_index(palette, c)),
        forall|i: nat| is_nearest(palette, c, i) ==> i == nearest_index(palette, c),
{
    lemma_nearest_prefix(palette, c, palette.len());
    assert(palette.take(palette.len() as int) =~= palette);
}

/// Finds the entry of `palette` nearest to `color` by squared Euclidean distance, the
/// first one on a tie.
pub fn nearest_in(palette: &[Rgb], color: &Rgb) -> (r: usize)
    requires
        0 < palette@.len(),
    ensures
        r == nearest_index(palette@, *color),
        r < palette@.len(),
{
    let mut best_index: usize = 0;
    let mut best_distance: i32 = i32::MAX;
    let mut index: usize = 0;
    while index < palette.len()
        invariant
            0 < palette@.len(),
            index <= palette@.len(),
            index == 0 ==> best_index == 0 && best_distance == i32::MAX,
            index > 0 ==> best_index == nearest_prefix(palette@, *color, index as nat),
            index > 0 ==> best_distance == distance(*color, palette@[best_index as int]),
            best_index < palette@.len(),
        decreases palette@.len() - index,
    {
        let p = palette[index];
        let dr: i32 = color.r as i32 - p.r as i32;
        let dg: i32 = color.g as i32 - p.g as i32;
        let db: i32 = color.b as i32 - p.b as i32;
        assert(0 <= dr * dr <= 65025 && 0 <= dg * dg <= 65025 && 0 <= db * db <= 65025)
            by (nonlinear_arith)
            requires
                -255 <= dr <= 255,
                -255 <= dg <= 255,
                -255 <= db <= 255,
        ;
        let d: i32 = dr * dr + dg * dg + db * db;
        if d < best_distance {
            best_distance = d;
            best_index = index;
        }
        index = index + 1;
    }
    best_index
}

/// A color map: a fixed palette and the nearest-color rule over it.
pub trait ColorMap {
    /// The palette, in index order.
    spec fn palette_spec(&self) -> Seq<Rgb>;

    proof fn lemma_palette_valid(&self)
        ensures
            valid_palette(self.palette_spec()),
    ;

    /// The palette's colors, in index order.
    fn palette(&self) -> (r: Vec<Rgb>)
        ensures
            r@ == self.palette_spec(),
    ;

    /// Index of the palette color nearest to `color`, the lowest one on a tie.
    fn index_of(&self, color: &Rgb) -> (r: usize)
        ensures
            r == nearest_index(self.palette_spec(), *color),
            r < self.palette_spec().len(),
    ;

    /// Whether `lookup` is available; it always is for these maps.
    fn has_lookup(&self) -> (r: bool)
        ensures
            r,
    ;

    /// The palette color at `index`, or `None` past the end of the palette.
    fn lookup(&self, index: usize) -> (r: Option<Rgb>)
        ensures
            r == (if index < self.palette_spec().len() {
                Some(self.palette_spec()[index as int])
            } else {
                None
            }),
    ;

    /// Replaces `color` with the palette color nearest to it.
    fn map_color(&self, color: &mut Rgb)
        ensures
            *final(color) == quantize(self.palette_spec(), *old(color)),
    ;
}

proof fn lemma_distance_zero(a: Rgb, b: Rgb)
    ensures
        distance(a, b) >= 0,
        distance(a, b) == 0 <==> a == b,
{
    assert(sq(a.r - b.r) >= 0 && sq(a.g - b.g) >= 0 && sq(a.b - b.b) >= 0) by (nonlinear_arith);
    if distance(a, b) == 0 {
        assert(sq(a.r - b.r) == 0 && sq(a.g - b.g) == 0 && sq(a.b - b.b) == 0);
        assert(a.r - b.r == 0) by (nonlinear_arith)
            requires
                sq(a.r - b.r) == 0,
        ;
        assert(a.g - b.g == 0) by (nonlinear_arith)
            requires
                sq(a.g - b.g) == 0,
        ;
        assert(a.b - b.b == 0) by (nonlinear_arith)
            requires
                sq(a.b - b.b) == 0,
        ;
    }
    if a == b {
        assert(sq(0) == 0);
    }
}

/// Quantising is idempotent: the palette color that a color maps to maps to its own index,
/// so looking up the index of a color and indexing the result again changes nothing.
pub proof fn lemma_quantize_idempotent(palette: Seq<Rgb>, c: Rgb)
    requires
        0 < palette.len(),
    ensures
        nearest_index(palette, quantize(palette, c)) == nearest_index(palette, c),
        quantize(palette, quantize(palette, c)) == quantize(palette, c),
{
    let i = nearest_index(palette, c);
    let p = quantize(palette, c);
    lemma_nearest_index(palette, c);
    lemma_nearest_index(palette, p);
    lemma_distance_zero(p, palette[i as int]);
    assert forall|j: int| 0 <= j < palette.len() implies distance(p, palette[i as int]) <= distance(
        p,
        #[trigger] palette[j],
    ) by {
        lemma_distance_zero(p, palette[j]);
    }
    assert forall|j: int| 0 <= j < i implies distance(p, #[trigger] palette[j]) > distance(
        p,
        palette[i as int],
    ) by {
        lemma_distance_zero(p, palette[j]);
        if distance(p, palette[j]) == 0 {
            assert(palette[j] == p);
            assert(distance(c, palette[j]) > distance(c, palette[i as int]));
        }
    }
    assert(is_nearest(palette, p, i));
}

/// The color maps the pipeline offers.
#[derive(Debug, Copy, Clone)]
pub enum SupportedColorMaps {
    InkyFourColor(InkyFourColorMap),
    Mono(MonoColorMap),
}

impl ColorMap for SupportedColorMaps {
    open spec fn palette_spec(&self) -> Seq<Rgb> {
        match self {
            SupportedColorMaps::InkyFourColor(m) => m.palette_spec(),
            SupportedColorMaps::Mono(m) => m.palette_spec(),
        }
    }

    proof fn lemma_palette_valid(&self) {
        match self {
            SupportedColorMaps::InkyFourColor(m) => m.lemma_palette_valid(),
            SupportedColorMaps::Mono(m) => m.lemma_palette_valid(),
        }
    }

    fn palette(&self) -> (r: Vec<Rgb>) {
        match self {
            SupportedColorMaps::InkyFourColor(m) => m.palette(),
            SupportedColorMaps::Mono(m) => m.palette(),
        }
    }

    fn index_of(&self, color: &Rgb) -> (r: usize) {
        match self {
            SupportedColorMaps::InkyFourColor(m) => m.index_of(color),
            SupportedColorMaps::Mono(m) => m.index_of(color),
        }
    }

    fn has_lookup(&self) -> (r: bool) {
        true
    }

    fn lookup(&self, index: usize) -> (r: Option<Rgb>) {
        match self {
            SupportedColorMaps::InkyFourColor(m) => m.lookup(index),
            SupportedColorMaps::Mono(m) => m.lookup(index),
        }
    }

    fn map_color(&self, color: &mut Rgb) {
        match self {
            SupportedColorMaps::InkyFourColor(m) => m.map_color(color),
            SupportedColorMaps::Mono(m) => m.map_color(color),
        }
    }
}

} // verus!
