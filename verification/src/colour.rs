//! Nearest-colour classification over a fixed palette of major colours.
//!
//! A 24-bit RGB value is mapped to the closest member of a fixed, ordered
//! palette of fourteen named colours, by Euclidean distance in RGB space;
//! ties go to the entry declared earliest. The inverse direction produces
//! the canonical channel values (plus a fully opaque alpha) for a label.

use vstd::prelude::*;

verus! {

/// An RGB colour: three 8-bit channels together with the packed 24-bit
/// value they were decomposed from.
#[derive(Debug, Clone, Copy, PartialEq, Eq, Structural)]
pub struct RGB {
    pub r: u8,
    pub g: u8,
    pub b: u8,
    pub hex: u32,
}

/// The closed set of major colour labels. The declaration order matters:
/// it is the palette's scan order, and therefore the tie-break order of
/// the nearest-colour search.
#[derive(Debug, Clone, Copy, PartialEq, Eq, PartialOrd, Structural)]
pub enum Color {
    Grey,
    Red,
    Green,
    Yellow,
    Orange,
    Cyan,
    Violet,
    Pink,
    White,
    Black,
    Blue,
    DarkBlue,
    LightBlue,
    LightGreen,
}

/// Errors of the classifier. Every fatal condition of the operations is
/// surfaced as one of these rather than a panic.
#[derive(Debug, Clone, Copy, PartialEq, Eq, Structural)]
pub enum ColourError {
    /// The packed value does not fit in 24 bits, so it has no channel
    /// decomposition.
    HexOutOfRange,
    /// The packed value is not one of the fourteen canonical palette values.
    NotACanonicalColour,
}

/// The packed 24-bit value of three channels.
pub open spec fn pack_channels(r: u8, g: u8, b: u8) -> u32 {
    (r * 0x10000 + g * 0x100 + b) as u32
}

/// The channels of an RGB value are exactly the byte decomposition of its
/// packed value.
pub open spec fn wf_rgb(c: RGB) -> bool {
    c.hex == pack_channels(c.r, c.g, c.b)
}

/// The RGB value decomposed from a packed 24-bit value.
pub open spec fn rgb_of_hex(hex: u32) -> RGB {
    RGB {
        r: (hex / 0x10000) as u8,
        g: ((hex / 0x100) % 0x100) as u8,
        b: (hex % 0x100) as u8,
        hex: hex,
    }
}

/// The label that owns a packed 24-bit value, by exact equality against
/// the fourteen canonical values; any other value is not a canonical
/// colour.
pub open spec fn major_of_hex(hex: u32) -> Result<Color, ColourError> {
    if hex == 0x808080 {
        Ok(Color::Grey)
    } else if hex == 0xff0000 {
        Ok(Color::Red)
    } else if hex == 0x00ff00 {
        Ok(Color::Green)
    } else if hex == 0xfff000 {
        Ok(Color::Yellow)
    } else if hex == 0xffa500 {
        Ok(Color::Orange)
    } else if hex == 0x00ffff {
        Ok(Color::Cyan)
    } else if hex == 0x8f00ff {
        Ok(Color::Violet)
    } else if hex == 0xfab1be {
        Ok(Color::Pink)
    } else if hex == 0xffffff {
        Ok(Color::White)
    } else if hex == 0x000000 {
        Ok(Color::Black)
    } else if hex == 0x0000ff {
        Ok(Color::Blue)
    } else if hex == 0x00008b {
        Ok(Color::DarkBlue)
    } else if hex == 0x13aafd {
        Ok(Color::LightBlue)
    } else if hex == 0x16f916 {
        Ok(Color::LightGreen)
    } else {
        Err(ColourError::NotACanonicalColour)
    }
}

impl RGB {
    /// Assembles an RGB value from its parts, exactly as given.
    pub fn new(hex: u32, r: u8, g: u8, b: u8) -> (c: Self)
        ensures
            c == (RGB { r, g, b, hex }),
    {
        Self { r, g, b, hex }
    }

    /// The label whose canonical value this colour carries, or an error if
    /// its packed value is none of the fourteen canonical ones.
    pub fn to_major(&self) -> (major: Result<Color, ColourError>)
        ensures
            major == major_of_hex(self.hex),
    {
        match self.hex {
            0x808080 => Ok(Color::Grey),
            0xff0000 => Ok(Color::Red),
            0x00ff00 => Ok(Color::Green),
            0xfff000 => Ok(Color::Yellow),
            0xffa500 => Ok(Color::Orange),
            0x00ffff => Ok(Color::Cyan),
            0x8f00ff => Ok(Color::Violet),
            0xfab1be => Ok(Color::Pink),
            0xffffff => Ok(Color::White),
            0x000000 => Ok(Color::Black),
            0x0000ff => Ok(Color::Blue),
            0x00008b => Ok(Color::DarkBlue),
            0x13aafd => Ok(Color::LightBlue),
            0x16f916 => Ok(Color::LightGreen),
            _ => Err(ColourError::NotACanonicalColour),
        }
    }
}

/// The palette row of a label. The numbering follows the declaration
/// order of `Color`, which is the tie-break order of the search.
pub open spec fn color_index(color: Color) -> int {
    match color {
        Color::Grey => 0,
        Color::Red => 1,
        Color::Green => 2,
        Color::Yellow => 3,
        Color::Orange => 4,
        Color::Cyan => 5,
        Color::Violet => 6,
        Color::Pink => 7,
        Color::White => 8,
        Color::Black => 9,
        Color::Blue => 10,
        Color::DarkBlue => 11,
        Color::LightBlue => 12,
        Color::LightGreen => 13,
    }
}

/// The label of a palette row.
pub open spec fn color_of_index(i: int) -> Color {
    if i == 0 {
        Color::Grey
    } else if i == 1 {
        Color::Red
    } else if i == 2 {
        Color::Green
    } else if i == 3 {
        Color::Yellow
    } else if i == 4 {
        Color::Orange
    } else if i == 5 {
        Color::Cyan
    } else if i == 6 {
        Color::Violet
    } else if i == 7 {
        Color::Pink
    } else if i == 8 {
        Color::White
    } else if i == 9 {
        Color::Black
    } else if i == 10 {
        Color::Blue
    } else if i == 11 {
        Color::DarkBlue
    } else if i == 12 {
        Color::LightBlue
    } else {
        Color::LightGreen
    }
}

impl Color {
    /// The palette row of this label, as a machine index.
    pub fn index(&self) -> (i: usize)
        ensures
            i == color_index(*self),
            i < 14,
    {
        match *self {
            Color::Grey => 0,
            Color::Red => 1,
            Color::Green => 2,
            Color::Yellow => 3,
            Color::Orange => 4,
            Color::Cyan => 5,
            Color::Violet => 6,
            Color::Pink => 7,
            Color::White => 8,
            Color::Black => 9,
            Color::Blue => 10,
            Color::DarkBlue => 11,
            Color::LightBlue => 12,
            Color::LightGreen => 13,
        }
    }
}

/// The canonical palette entry of row `i`.
pub open spec fn palette_at(i: int) -> RGB {
    if i == 0 {
        RGB { r: 128, g: 128, b: 128, hex: 0x808080 }
    } else if i == 1 {
        RGB { r: 255, g: 0, b: 0, hex: 0xff0000 }
    } else if i == 2 {
        RGB { r: 0, g: 255, b: 0, hex: 0x00ff00 }
    } else if i == 3 {
        RGB { r: 255, g: 255, b: 0, hex: 0xfff000 }
    } else if i == 4 {
        RGB { r: 255, g: 165, b: 0, hex: 0xffa500 }
    } else if i == 5 {
        RGB { r: 0, g: 255, b: 255, hex: 0x00ffff }
    } else if i == 6 {
        RGB { r: 143, g: 0, b: 255, hex: 0x8f00ff }
    } else if i == 7 {
        RGB { r: 255, g: 177, b: 190, hex: 0xfab1be }
    } else if i == 8 {
        RGB { r: 255, g: 255, b: 255, hex: 0xffffff }
    } else if i == 9 {
        RGB { r: 0, g: 0, b: 0, hex: 0x000000 }
    } else if i == 10 {
        RGB { r: 0, g: 0, b: 255, hex: 0x0000ff }
    } else if i == 11 {
        RGB { r: 0, g: 0, b: 139, hex: 0x00008b }
    } else if i == 12 {
        RGB { r: 19, g: 170, b: 253, hex: 0x13aafd }
    } else {
        RGB { r: 22, g: 249, b: 22, hex: 0x16f916 }
    }
}

/// The whole palette, in scan order.
pub open spec fn palette_seq() -> Seq<RGB> {
    Seq::new(14, |i: int| palette_at(i))
}

/// Builds the palette lookup table, one entry per label in scan order.
pub fn palette() -> (lut: Vec<RGB>)
    ensures
        lut@ == palette_seq(),
{
    let mut lut: Vec<RGB> = Vec::new();
    lut.push(RGB::new(0x808080, 128, 128, 128));
    lut.push(RGB::new(0xff0000, 255, 0, 0));
    lut.push(RGB::new(0x00ff00, 0, 255, 0));
    lut.push(RGB::new(0xfff000, 255, 255, 0));
    lut.push(RGB::new(0xffa500, 255, 165, 0));
    lut.push(RGB::new(0x00ffff, 0, 255, 255));
    lut.push(RGB::new(0x8f00ff, 143, 0, 255));
    lut.push(RGB::new(0xfab1be, 255, 177, 190));
    lut.push(RGB::new(0xffffff, 255, 255, 255));
    lut.push(RGB::new(0x000000, 0, 0, 0));
    lut.push(RGB::new(0x0000ff, 0, 0, 255));
    lut.push(RGB::new(0x00008b, 0, 0, 139));
    lut.push(RGB::new(0x13aafd, 19, 170, 253));
    lut.push(RGB::new(0x16f916, 22, 249, 22));
    proof {
        assert(lut@ =~= palette_seq());
    }
    lut
}

/// The square of an integer.
pub open spec fn sq(x: int) -> int {
    x * x
}

/// The squared Euclidean distance between two colours in RGB space.
/// Comparing squared distances orders colours exactly as comparing the
/// distances themselves, since squaring is strictly monotonic on
/// non-negative reals.
pub open spec fn dist2(a: RGB, b: RGB) -> int {
    sq(a.r - b.r) + sq(a.g - b.g) + sq(a.b - b.b)
}

/// Computes the squared Euclidean distance between two colours.
pub fn distance_squared(a: RGB, b: RGB) -> (d: u32)
    ensures
        d == dist2(a, b),
{
    let dr = a.r as i32 - b.r as i32;
    let dg = a.g as i32 - b.g as i32;
    let db = a.b as i32 - b.b as i32;
    proof {
        assert(dr * dr <= 65025 && dr * dr >= 0) by (nonlinear_arith)
            requires
                -255 <= dr <= 255,
        ;
        assert(dg * dg <= 65025 && dg * dg >= 0) by (nonlinear_arith)
            requires
                -255 <= dg <= 255,
        ;
        assert(db * db <= 65025 && db * db >= 0) by (nonlinear_arith)
            requires
                -255 <= db <= 255,
        ;
    }
    (dr * dr + dg * dg + db * db) as u32
}

/// Decomposes a packed 24-bit value into its three channels; a value
/// that does not fit in 24 bits has no decomposition and is rejected.
pub fn hex_to_rgb(hex: u32) -> (decomposed: Result<RGB, ColourError>)
    ensures
        hex <= 0xffffff ==> decomposed == Ok::<RGB, ColourError>(rgb_of_hex(hex)),
        hex <= 0xffffff ==> wf_rgb(rgb_of_hex(hex)),
        hex > 0xffffff ==> decomposed == Err::<RGB, ColourError>(ColourError::HexOutOfRange),
{
    if hex > 0xffffff {
        return Err(ColourError::HexOutOfRange);
    }
    let r = (hex / 0x10000) as u8;
    let g = ((hex / 0x100) % 0x100) as u8;
    let b = (hex % 0x100) as u8;
    Ok(RGB { r, g, b, hex })
}

/// The row of the palette entry nearest to `c` among the first `n`
/// entries, scanning in palette order and keeping the incumbent on ties.
pub open spec fn nearest_upto(c: RGB, n: int) -> int
    recommends
        1 <= n <= 14,
    decreases n,
{
    if n <= 1 {
        0
    } else {
        let prev = nearest_upto(c, n - 1);
        if dist2(c, palette_at(n - 1)) < dist2(c, palette_at(prev)) {
            n - 1
        } else {
            prev
        }
    }
}

/// Row `i` is nearest to `c` among the first `n` palette rows, and no
/// earlier row is as near: the earliest-declared entry wins ties.
pub open spec fn is_nearest_upto(c: RGB, i: int, n: int) -> bool {
    &&& 0 <= i < n
    &&& forall|j: int| 0 <= j < n ==> dist2(c, palette_at(i)) <= dist2(c, #[trigger] palette_at(j))
    &&& forall|j: int| 0 <= j < i ==> dist2(c, #[trigger] palette_at(j)) > dist2(c, palette_at(i))
}

/// Row `i` is nearest to `c` over the whole palette, ties broken by
/// declaration order.
pub open spec fn is_nearest(c: RGB, i: int) -> bool {
    is_nearest_upto(c, i, 14)
}

/// The scan's running minimum is the true minimum: after `n` entries it
/// holds the earliest row at the least distance seen so far.
pub proof fn lemma_nearest_upto_correct(c: RGB, n: int)
    requires
        1 <= n <= 14,
    ensures
        is_nearest_upto(c, nearest_upto(c, n), n),
    decreases n,
{
    if n > 1 {
        lemma_nearest_upto_correct(c, n - 1);
    }
}

/// At most one row is nearest with the tie-break: the nearest row is
/// uniquely determined.
pub proof fn lemma_nearest_unique(c: RGB, i: int, j: int)
    requires
        is_nearest(c, i),
        is_nearest(c, j),
    ensures
        i == j,
{
    if i < j {
        assert(dist2(c, palette_at(i)) <= dist2(c, palette_at(j)));
        assert(dist2(c, palette_at(i)) > dist2(c, palette_at(j)));
    }
    if j < i {
        assert(dist2(c, palette_at(j)) <= dist2(c, palette_at(i)));
        assert(dist2(c, palette_at(j)) > dist2(c, palette_at(i)));
    }
}

/// The label returned by the nearest-colour search on a packed value.
pub open spec fn nearest_color_spec(input: u32) -> Color {
    color_of_index(nearest_upto(rgb_of_hex(input), 14))
}

/// Classifies a packed 24-bit colour as the major colour whose canonical
/// palette entry is nearest in RGB space, scanning the palette in
/// declaration order and keeping the earlier entry on exact ties.
pub fn nearest_color(input: u32) -> (major: Color)
    requires
        input <= 0xffffff,
    ensures
        major == nearest_color_spec(input),
        is_nearest(rgb_of_hex(input), color_index(major)),
{
    let rgb = hex_to_rgb(input).unwrap();
    let lut = palette();
    let mut cur_nearest: RGB = lut[0];
    let mut cur_nearest_i: usize = 0;
    let mut cur_nearest_dst: u32 = distance_squared(rgb, cur_nearest);
    let mut i: usize = 1;
    while i < 14
        invariant
            1 <= i <= 14,
            lut@ == palette_seq(),
            rgb == rgb_of_hex(input),
            cur_nearest_i < i,
            cur_nearest_i as int == nearest_upto(rgb, i as int),
            cur_nearest == palette_at(cur_nearest_i as int),
            cur_nearest_dst == dist2(rgb, cur_nearest),
        decreases 14 - i,
    {
        let color = lut[i];
        let dst = distance_squared(rgb, color);
        if dst < cur_nearest_dst {
            cur_nearest = color;
            cur_nearest_i = i;
            cur_nearest_dst = dst;
        }
        i = i + 1;
    }
    proof {
        lemma_nearest_upto_correct(rgb, 14);
        lemma_palette_entry_major(cur_nearest_i as int);
        lemma_index_of_color_of_index(cur_nearest_i as int);
    }
    let major = cur_nearest.to_major();
    major.unwrap()
}

/// Each palette row's packed value maps back to that row's label.
pub proof fn lemma_palette_entry_major(i: int)
    requires
        0 <= i < 14,
    ensures
        major_of_hex(palette_at(i).hex) == Ok::<Color, ColourError>(color_of_index(i)),
{
}

/// Row numbering and labelling invert each other, row first.
pub proof fn lemma_index_of_color_of_index(i: int)
    requires
        0 <= i < 14,
    ensures
        color_index(color_of_index(i)) == i,
{
}

/// Row numbering and labelling invert each other, label first.
pub proof fn lemma_color_of_index_of_color(color: Color)
    ensures
        color_of_index(color_index(color)) == color,
{
}

/// The pixel produced for a label: the canonical channels and a fully
/// opaque alpha. The transparency flag does not enter the result.
pub open spec fn rgba_spec(color: Color, should_be_less_transparent: bool) -> (u8, u8, u8, u8) {
    let entry = palette_at(color_index(color));
    (entry.r, entry.g, entry.b, 255u8)
}

/// The four channel values of a pixel of the given major colour: its
/// canonical red, green and blue, and an alpha of 255.
pub fn rgba_from_color(color: Color, should_be_less_transparent: bool) -> (px: (u8, u8, u8, u8))
    ensures
        px == rgba_spec(color, should_be_less_transparent),
{
    let lut = palette();
    let rgb = lut[color.index()];
    // the flag does not yet choose a different alpha
    let a: u8 = 255;
    (rgb.r, rgb.g, rgb.b, a)
}

/// The canonical packed value of a label.
pub open spec fn canonical_hex(color: Color) -> u32 {
    palette_at(color_index(color)).hex
}

/// Self-classification: the canonical packed value of each label
/// classifies as that label.
#[verifier::spinoff_prover]
#[verifier::rlimit(100)]
pub proof fn lemma_canonical_self_classifies(color: Color)
    ensures
        nearest_color_spec(canonical_hex(color)) == color,
{
    match color {
        Color::Grey => {
            let c = rgb_of_hex(0x808080);
            assert(c.r == 128 && c.g == 128 && c.b == 128);
            assert({
                &&& dist2(c, palette_at(0)) == 0
                &&& dist2(c, palette_at(1)) == 48897
                &&& dist2(c, palette_at(2)) == 48897
                &&& dist2(c, palette_at(3)) == 48642
                &&& dist2(c, palette_at(4)) == 33882
                &&& dist2(c, palette_at(5)) == 48642
                &&& dist2(c, palette_at(6)) == 32738
                &&& dist2(c, palette_at(7)) == 22374
                &&& dist2(c, palette_at(8)) == 48387
                &&& dist2(c, palette_at(9)) == 49152
                &&& dist2(c, palette_at(10)) == 48897
                &&& dist2(c, palette_at(11)) == 32889
                &&& dist2(c, palette_at(12)) == 29270
                &&& dist2(c, palette_at(13)) == 37113
            }) by (nonlinear_arith)
                requires
                    c.r == 128 && c.g == 128 && c.b == 128,
            ;
            assert(nearest_upto(c, 14) == 0) by {
                reveal_with_fuel(nearest_upto, 15);
            }
        },
        Color::Red => {
            let c = rgb_of_hex(0xff0000);
            assert(c.r == 255 && c.g == 0 && c.b == 0);
            assert({
                &&& dist2(c, palette_at(0)) == 48897
                &&& dist2(c, palette_at(1)) == 0
                &&& dist2(c, palette_at(2)) == 130050
                &&& dist2(c, palette_at(3)) == 65025
                &&& dist2(c, palette_at(4)) == 27225
                &&& dist2(c, palette_at(5)) == 195075
                &&& dist2(c, palette_at(6)) == 77569
                &&& dist2(c, palette_at(7)) == 67429
                &&& dist2(c, palette_at(8)) == 130050
                &&& dist2(c, palette_at(9)) == 65025
                &&& dist2(c, palette_at(10)) == 130050
                &&& dist2(c, palette_at(11)) == 84346
                &&& dist2(c, palette_at(12)) == 148605
                &&& dist2(c, palette_at(13)) == 116774
            }) by (nonlinear_arith)
                requires
                    c.r == 255 && c.g == 0 && c.b == 0,
            ;
            assert(nearest_upto(c, 14) == 1) by {
                reveal_with_fuel(nearest_upto, 15);
            }
        },
        Color::Green => {
            let c = rgb_of_hex(0x00ff00);
            assert(c.r == 0 && c.g == 255 && c.b == 0);
            assert({
                &&& dist2(c, palette_at(0)) == 48897
                &&& dist2(c, palette_at(1)) == 130050
                &&& dist2(c, palette_at(2)) == 0
                &&& dist2(c, palette_at(3)) == 65025
                &&& dist2(c, palette_at(4)) == 73125
                &&& dist2(c, palette_at(5)) == 65025
                &&& dist2(c, palette_at(6)) == 150499
                &&& dist2(c, palette_at(7)) == 107209
                &&& dist2(c, palette_at(8)) == 130050
                &&& dist2(c, palette_at(9)) == 65025
                &&& dist2(c, palette_at(10)) == 130050
                &&& dist2(c, palette_at(11)) == 84346
                &&& dist2(c, palette_at(12)) == 71595
                &&& dist2(c, palette_at(13)) == 1004
            }) by (nonlinear_arith)
                requires
                    c.r == 0 && c.g == 255 && c.b == 0,
            ;
            assert(nearest_upto(c, 14) == 2) by {
                reveal_with_fuel(nearest_upto, 15);
            }
        },
        Color::Yellow => {
            let c = rgb_of_hex(0xfff000);
            assert(c.r == 255 && c.g == 240 && c.b == 0);
            assert({
                &&& dist2(c, palette_at(0)) == 45057
                &&& dist2(c, palette_at(1)) == 57600
                &&& dist2(c, palette_at(2)) == 65250
                &&& dist2(c, palette_at(3)) == 225
                &&& dist2(c, palette_at(4)) == 5625
                &&& dist2(c, palette_at(5)) == 130275
                &&& dist2(c, palette_at(6)) == 135169
                &&& dist2(c, palette_at(7)) == 40069
                &&& dist2(c, palette_at(8)) == 65250
                &&& dist2(c, palette_at(9)) == 122625
                &&& dist2(c, palette_at(10)) == 187650
                &&& dist2(c, palette_at(11)) == 141946
                &&& dist2(c, palette_at(12)) == 124605
                &&& dist2(c, palette_at(13)) == 54854
            }) by (nonlinear_arith)
                requires
                    c.r == 255 && c.g == 240 && c.b == 0,
            ;
            assert(nearest_upto(c, 14) == 3) by {
                reveal_with_fuel(nearest_upto, 15);
            }
        },
        Color::Orange => {
            let c = rgb_of_hex(0xffa500);
            assert(c.r == 255 && c.g == 165 && c.b == 0);
            assert({
                &&& dist2(c, palette_at(0)) == 33882
                &&& dist2(c, palette_at(1)) == 27225
                &&& dist2(c, palette_at(2)) == 73125
                &&& dist2(c, palette_at(3)) == 8100
                &&& dist2(c, palette_at(4)) == 0
                &&& dist2(c, palette_at(5)) == 138150
                &&& dist2(c, palette_at(6)) == 104794
                &&& dist2(c, palette_at(7)) == 36244
                &&& dist2(c, palette_at(8)) == 73125
                &&& dist2(c, palette_at(9)) == 92250
                &&& dist2(c, palette_at(10)) == 157275
                &&& dist2(c, palette_at(11)) == 111571
                &&& dist2(c, palette_at(12)) == 119730
                &&& dist2(c, palette_at(13)) == 61829
            }) by (nonlinear_arith)
                requires
                    c.r == 255 && c.g == 165 && c.b == 0,
            ;
            assert(nearest_upto(c, 14) == 4) by {
                reveal_with_fuel(nearest_upto, 15);
            }
        },
        Color::Cyan => {
            let c = rgb_of_hex(0x00ffff);
            assert(c.r == 0 && c.g == 255 && c.b == 255);
            assert({
                &&& dist2(c, palette_at(0)) == 48642
                &&& dist2(c, palette_at(1)) == 195075
                &&& dist2(c, palette_at(2)) == 65025
                &&& dist2(c, palette_at(3)) == 130050
                &&& dist2(c, palette_at(4)) == 138150
                &&& dist2(c, palette_at(5)) == 0
                &&& dist2(c, palette_at(6)) == 85474
                &&& dist2(c, palette_at(7)) == 75334
                &&& dist2(c, palette_at(8)) == 65025
                &&& dist2(c, palette_at(9)) == 130050
                &&& dist2(c, palette_at(10)) == 65025
                &&& dist2(c, palette_at(11)) == 78481
                &&& dist2(c, palette_at(12)) == 7590
                &&& dist2(c, palette_at(13)) == 54809
            }) by (nonlinear_arith)
                requires
                    c.r == 0 && c.g == 255 && c.b == 255,
            ;
            assert(nearest_upto(c, 14) == 5) by {
                reveal_with_fuel(nearest_upto, 15);
            }
        },
        Color::Violet => {
            let c = rgb_of_hex(0x8f00ff);
            assert(c.r == 143 && c.g == 0 && c.b == 255);
            assert({
                &&& dist2(c, palette_at(0)) == 32738
                &&& dist2(c, palette_at(1)) == 77569
                &&& dist2(c, palette_at(2)) == 150499
                &&& dist2(c, palette_at(3)) == 142594
                &&& dist2(c, palette_at(4)) == 104794
                &&& dist2(c, palette_at(5)) == 85474
                &&& dist2(c, palette_at(6)) == 0
                &&& dist2(c, palette_at(7)) == 48098
                &&& dist2(c, palette_at(8)) == 77569
                &&& dist2(c, palette_at(9)) == 85474
                &&& dist2(c, palette_at(10)) == 20449
                &&& dist2(c, palette_at(11)) == 33905
                &&& dist2(c, palette_at(12)) == 44280
                &&& dist2(c, palette_at(13)) == 130931
            }) by (nonlinear_arith)
                requires
                    c.r == 143 && c.g == 0 && c.b == 255,
            ;
            assert(nearest_upto(c, 14) == 6) by {
                reveal_with_fuel(nearest_upto, 15);
            }
        },
        Color::Pink => {
            let c = rgb_of_hex(0xfab1be);
            assert(c.r == 250 && c.g == 177 && c.b == 190);
            assert({
                &&& dist2(c, palette_at(0)) == 21129
                &&& dist2(c, palette_at(1)) == 67454
                &&& dist2(c, palette_at(2)) == 104684
                &&& dist2(c, palette_at(3)) == 42209
                &&& dist2(c, palette_at(4)) == 36269
                &&& dist2(c, palette_at(5)) == 72809
                &&& dist2(c, palette_at(6)) == 47003
                &&& dist2(c, palette_at(7)) == 25
                &&& dist2(c, palette_at(8)) == 10334
                &&& dist2(c, palette_at(9)) == 129929
                &&& dist2(c, palette_at(10)) == 98054
                &&& dist2(c, palette_at(11)) == 96430
                &&& dist2(c, palette_at(12)) == 57379
                &&& dist2(c, palette_at(13)) == 85392
            }) by (nonlinear_arith)
                requires
                    c.r == 250 && c.g == 177 && c.b == 190,
            ;
            assert(nearest_upto(c, 14) == 7) by {
                reveal_with_fuel(nearest_upto, 15);
            }
        },
        Color::White => {
            let c = rgb_of_hex(0xffffff);
            assert(c.r == 255 && c.g == 255 && c.b == 255);
            assert({
                &&& dist2(c, palette_at(0)) == 48387
                &&& dist2(c, palette_at(1)) == 130050
                &&& dist2(c, palette_at(2)) == 130050
                &&& dist2(c, palette_at(3)) == 65025
                &&& dist2(c, palette_at(4)) == 73125
                &&& dist2(c, palette_at(5)) == 65025
                &&& dist2(c, palette_at(6)) == 77569
                &&& dist2(c, palette_at(7)) == 10309
                &&& dist2(c, palette_at(8)) == 0
                &&& dist2(c, palette_at(9)) == 195075
                &&& dist2(c, palette_at(10)) == 130050
                &&& dist2(c, palette_at(11)) == 143506
                &&& dist2(c, palette_at(12)) == 62925
                &&& dist2(c, palette_at(13)) == 108614
            }) by (nonlinear_arith)
                requires
                    c.r == 255 && c.g == 255 && c.b == 255,
            ;
            assert(nearest_upto(c, 14) == 8) by {
                reveal_with_fuel(nearest_upto, 15);
            }
        },
        Color::Black => {
            let c = rgb_of_hex(0x000000);
            assert(c.r == 0 && c.g == 0 && c.b == 0);
            assert({
                &&& dist2(c, palette_at(0)) == 49152
                &&& dist2(c, palette_at(1)) == 65025
                &&& dist2(c, palette_at(2)) == 65025
                &&& dist2(c, palette_at(3)) == 130050
                &&& dist2(c, palette_at(4)) == 92250
                &&& dist2(c, palette_at(5)) == 130050
                &&& dist2(c, palette_at(6)) == 85474
                &&& dist2(c, palette_at(7)) == 132454
                &&& dist2(c, palette_at(8)) == 195075
                &&& dist2(c, palette_at(9)) == 0
                &&& dist2(c, palette_at(10)) == 65025
                &&& dist2(c, palette_at(11)) == 19321
                &&& dist2(c, palette_at(12)) == 93270
                &&& dist2(c, palette_at(13)) == 62969
            }) by (nonlinear_arith)
                requires
                    c.r == 0 && c.g == 0 && c.b == 0,
            ;
            assert(nearest_upto(c, 14) == 9) by {
                reveal_with_fuel(nearest_upto, 15);
            }
        },
        Color::Blue => {
            let c = rgb_of_hex(0x0000ff);
            assert(c.r == 0 && c.g == 0 && c.b == 255);
            assert({
                &&& dist2(c, palette_at(0)) == 48897
                &&& dist2(c, palette_at(1)) == 130050
                &&& dist2(c, palette_at(2)) == 130050
                &&& dist2(c, palette_at(3)) == 195075
                &&& dist2(c, palette_at(4)) == 157275
                &&& dist2(c, palette_at(5)) == 65025
                &&& dist2(c, palette_at(6)) == 20449
                &&& dist2(c, palette_at(7)) == 100579
                &&& dist2(c, palette_at(8)) == 130050
                &&& dist2(c, palette_at(9)) == 65025
                &&& dist2(c, palette_at(10)) == 0
                &&& dist2(c, palette_at(11)) == 13456
                &&& dist2(c, palette_at(12)) == 29265
                &&& dist2(c, palette_at(13)) == 116774
            }) by (nonlinear_arith)
                requires
                    c.r == 0 && c.g == 0 && c.b == 255,
            ;
            assert(nearest_upto(c, 14) == 10) by {
                reveal_with_fuel(nearest_upto, 15);
            }
        },
        Color::DarkBlue => {
            let c = rgb_of_hex(0x00008b);
            assert(c.r == 0 && c.g == 0 && c.b == 139);
            assert({
                &&& dist2(c, palette_at(0)) == 32889
                &&& dist2(c, palette_at(1)) == 84346
                &&& dist2(c, palette_at(2)) == 84346
                &&& dist2(c, palette_at(3)) == 149371
                &&& dist2(c, palette_at(4)) == 111571
                &&& dist2(c, palette_at(5)) == 78481
                &&& dist2(c, palette_at(6)) == 33905
                &&& dist2(c, palette_at(7)) == 98955
                &&& dist2(c, palette_at(8)) == 143506
                &&& dist2(c, palette_at(9)) == 19321
                &&& dist2(c, palette_at(10)) == 13456
                &&& dist2(c, palette_at(11)) == 0
                &&& dist2(c, palette_at(12)) == 42257
                &&& dist2(c, palette_at(13)) == 76174
            }) by (nonlinear_arith)
                requires
                    c.r == 0 && c.g == 0 && c.b == 139,
            ;
            assert(nearest_upto(c, 14) == 11) by {
                reveal_with_fuel(nearest_upto, 15);
            }
        },
        Color::LightBlue => {
            let c = rgb_of_hex(0x13aafd);
            assert(c.r == 19 && c.g == 170 && c.b == 253);
            assert({
                &&& dist2(c, palette_at(0)) == 29270
                &&& dist2(c, palette_at(1)) == 148605
                &&& dist2(c, palette_at(2)) == 71595
                &&& dist2(c, palette_at(3)) == 126930
                &&& dist2(c, palette_at(4)) == 119730
                &&& dist2(c, palette_at(5)) == 7590
                &&& dist2(c, palette_at(6)) == 44280
                &&& dist2(c, palette_at(7)) == 59714
                &&& dist2(c, palette_at(8)) == 62925
                &&& dist2(c, palette_at(9)) == 93270
                &&& dist2(c, palette_at(10)) == 29265
                &&& dist2(c, palette_at(11)) == 42257
                &&& dist2(c, palette_at(12)) == 0
                &&& dist2(c, palette_at(13)) == 59611
            }) by (nonlinear_arith)
                requires
                    c.r == 19 && c.g == 170 && c.b == 253,
            ;
            assert(nearest_upto(c, 14) == 12) by {
                reveal_with_fuel(nearest_upto, 15);
            }
        },
        Color::LightGreen => {
            let c = rgb_of_hex(0x16f916);
            assert(c.r == 22 && c.g == 249 && c.b == 22);
            assert({
                &&& dist2(c, palette_at(0)) == 37113
                &&& dist2(c, palette_at(1)) == 116774
                &&& dist2(c, palette_at(2)) == 1004
                &&& dist2(c, palette_at(3)) == 54809
                &&& dist2(c, palette_at(4)) == 61829
                &&& dist2(c, palette_at(5)) == 54809
                &&& dist2(c, palette_at(6)) == 130931
                &&& dist2(c, palette_at(7)) == 87697
                &&& dist2(c, palette_at(8)) == 108614
                &&& dist2(c, palette_at(9)) == 62969
                &&& dist2(c, palette_at(10)) == 116774
                &&& dist2(c, palette_at(11)) == 76174
                &&& dist2(c, palette_at(12)) == 59611
                &&& dist2(c, palette_at(13)) == 0
            }) by (nonlinear_arith)
                requires
                    c.r == 22 && c.g == 249 && c.b == 22,
            ;
            assert(nearest_upto(c, 14) == 13) by {
                reveal_with_fuel(nearest_upto, 15);
            }
        },
    }
}

/// Round trip: the canonical packed value of each label maps back to
/// that label by exact lookup.
pub proof fn lemma_major_round_trip(color: Color)
    ensures
        major_of_hex(canonical_hex(color)) == Ok::<Color, ColourError>(color),
{
    lemma_palette_entry_major(color_index(color));
    lemma_color_of_index_of_color(color);
}

/// The transparency flag has no effect: both flag values give the same
/// pixel for every label.
pub proof fn lemma_rgba_ignores_flag(color: Color)
    ensures
        rgba_spec(color, true) == rgba_spec(color, false),
{
}

} // verus!
