//! The integer colour arithmetic of the ambient effect: which screen pixels
//! are sampled, which samples count as black, and the coarse colour histogram
//! the dominant colour is voted in.

use vstd::prelude::*;

verus! {

/// Samples taken across the screen.
pub const SAMPLE_WIDTH: u32 = 32;
/// Samples taken down the screen.
pub const SAMPLE_HEIGHT: u32 = 18;
/// Histogram levels per channel.
pub const BIN_LEVELS: usize = 16;
/// Histogram buckets in all.
pub const BIN_COUNT: usize = 4096;
/// At or below this brightest channel a sample is black outright.
pub const BLACK_MAX_CHANNEL: u8 = 16;
/// Dark greys: at or below this luma...
pub const BLACK_LUMA_CUTOFF: u8 = 45;
/// ...with no channel above this...
pub const BLACK_LUMA_MAX_CHANNEL: u8 = 80;
/// ...and a saturation of at most `BLACK_SATURATION_NUM / BLACK_SATURATION_DEN`
/// (0.28) count as black too.
pub const BLACK_SATURATION_NUM: u32 = 7;
pub const BLACK_SATURATION_DEN: u32 = 25;

/// An 8-bit sRGB colour.
#[derive(Clone, Copy, Debug, Default, PartialEq, Eq, Structural)]
pub struct Rgb {
    pub r: u8,
    pub g: u8,
    pub b: u8,
}

/// The screen coordinate of sample `index` out of `samples` along an axis
/// `extent` pixels long: the centre of the sample's share, clipped to the
/// last pixel (0 on an empty axis).
pub open spec fn spec_sample_coordinate(index: int, extent: int, samples: int) -> int {
    let at = (index * extent + extent / 2) / samples;
    let last = if extent >= 1 { extent - 1 } else { 0 };
    if at < last { at } else { last }
}

pub fn sample_coordinate(index: u32, extent: u32, samples: u32) -> (at: u32)
    requires
        samples >= 1,
        index * extent + extent / 2 <= u32::MAX,
    ensures
        at == spec_sample_coordinate(index as int, extent as int, samples as int),
        extent >= 1 ==> at < extent,
{
    let product: u32 = index * extent;
    let at = (product + extent / 2) / samples;
    let last = extent.saturating_sub(1);
    if at < last {
        at
    } else {
        last
    }
}

/// Where each of `samples` samples falls along an axis `extent` pixels long.
pub fn sample_positions(extent: u32, samples: u32) -> (positions: Vec<u32>)
    requires
        samples >= 1,
        (samples - 1) * extent + extent / 2 <= u32::MAX,
    ensures
        positions@.len() == samples,
        forall|i: int| 0 <= i < samples ==> #[trigger] positions@[i] == spec_sample_coordinate(i, extent as int, samples as int),
{
    let mut positions: Vec<u32> = Vec::new();
    let mut i: u32 = 0;
    while i < samples
        invariant
            i <= samples,
            samples >= 1,
            (samples - 1) * extent + extent / 2 <= u32::MAX,
            positions@.len() == i,
            forall|k: int| 0 <= k < i ==> #[trigger] positions@[k] == spec_sample_coordinate(k, extent as int, samples as int),
        decreases samples - i,
    {
        assert(i * extent <= (samples - 1) * extent) by (nonlinear_arith)
            requires
                i <= samples - 1,
        ;
        positions.push(sample_coordinate(i, extent, samples));
        i += 1;
    }
    positions
}

/// The screen columns sampled on a display `width` pixels wide.
pub fn sample_columns(width: u32) -> (columns: Vec<u32>)
    requires
        (SAMPLE_WIDTH - 1) * width + width / 2 <= u32::MAX,
    ensures
        columns@.len() == SAMPLE_WIDTH,
        forall|i: int| 0 <= i < SAMPLE_WIDTH ==> #[trigger] columns@[i] == spec_sample_coordinate(i, width as int, SAMPLE_WIDTH as int),
{
    sample_positions(width, SAMPLE_WIDTH)
}

/// The screen rows sampled on a display `height` pixels high.
pub fn sample_rows(height: u32) -> (rows: Vec<u32>)
    requires
        (SAMPLE_HEIGHT - 1) * height + height / 2 <= u32::MAX,
    ensures
        rows@.len() == SAMPLE_HEIGHT,
        forall|i: int| 0 <= i < SAMPLE_HEIGHT ==> #[trigger] rows@[i] == spec_sample_coordinate(i, height as int, SAMPLE_HEIGHT as int),
{
    sample_positions(height, SAMPLE_HEIGHT)
}

pub open spec fn max3(r: int, g: int, b: int) -> int {
    let m = if r > g { r } else { g };
    if m > b { m } else { b }
}

pub open spec fn min3(r: int, g: int, b: int) -> int {
    let m = if r < g { r } else { g };
    if m < b { m } else { b }
}

/// Perceived brightness on a 0..=255 scale, in fixed point.
pub open spec fn spec_luma8(c: Rgb) -> int {
    (54 * c.r + 183 * c.g + 19 * c.b) / 256
}

pub fn luma8(c: Rgb) -> (luma: u8)
    ensures
        luma == spec_luma8(c),
{
    let weighted: u16 = 54u16 * c.r as u16 + 183u16 * c.g as u16 + 19u16 * c.b as u16;
    let shifted: u16 = weighted >> 8u16;
    assert(shifted == weighted / 256) by (bit_vector)
        requires
            shifted == weighted >> 8u16,
    ;
    shifted as u8
}

/// Whether a sample is too dark to vote for a colour: black outright, or a
/// dark, washed-out grey. Dark but saturated colours still count.
pub open spec fn spec_is_ignored_black(c: Rgb) -> bool {
    let max = max3(c.r as int, c.g as int, c.b as int);
    let min = min3(c.r as int, c.g as int, c.b as int);
    max <= BLACK_MAX_CHANNEL || (spec_luma8(c) <= BLACK_LUMA_CUTOFF && max <= BLACK_LUMA_MAX_CHANNEL
        && BLACK_SATURATION_DEN * (max - min) <= BLACK_SATURATION_NUM * max)
}

pub fn is_ignored_black(c: Rgb) -> (black: bool)
    ensures
        black == spec_is_ignored_black(c),
{
    let max: u8 = if c.r > c.g { c.r } else { c.g };
    let max: u8 = if max > c.b { max } else { c.b };
    let min: u8 = if c.r < c.g { c.r } else { c.g };
    let min: u8 = if min < c.b { min } else { c.b };
    if max <= BLACK_MAX_CHANNEL {
        return true;
    }
    luma8(c) <= BLACK_LUMA_CUTOFF && max <= BLACK_LUMA_MAX_CHANNEL
        && BLACK_SATURATION_DEN * ((max - min) as u32) <= BLACK_SATURATION_NUM * (max as u32)
}

/// A sample is ignored as black only when every one of its three channels is
/// dark (none above `BLACK_LUMA_MAX_CHANNEL`), so a sample with any bright
/// channel, red, green or blue, always votes; and a sample with every
/// channel at most `BLACK_MAX_CHANNEL` is always ignored.
pub proof fn only_dark_samples_are_ignored(c: Rgb)
    ensures
        spec_is_ignored_black(c) ==> c.r <= BLACK_LUMA_MAX_CHANNEL && c.g <= BLACK_LUMA_MAX_CHANNEL
            && c.b <= BLACK_LUMA_MAX_CHANNEL,
        c.r > BLACK_LUMA_MAX_CHANNEL || c.g > BLACK_LUMA_MAX_CHANNEL || c.b > BLACK_LUMA_MAX_CHANNEL
            ==> !spec_is_ignored_black(c),
        c.r <= BLACK_MAX_CHANNEL && c.g <= BLACK_MAX_CHANNEL && c.b <= BLACK_MAX_CHANNEL
            ==> spec_is_ignored_black(c),
{
}

/// A channel's histogram level.
pub open spec fn level(channel: int) -> int {
    channel * BIN_LEVELS / 256
}

/// The histogram bucket a colour falls in.
pub open spec fn spec_rgb_bin(c: Rgb) -> int {
    (level(c.r as int) * BIN_LEVELS + level(c.g as int)) * BIN_LEVELS + level(c.b as int)
}

pub fn rgb_bin(c: Rgb) -> (bin: usize)
    ensures
        bin == spec_rgb_bin(c),
        bin < BIN_COUNT,
{
    let r = c.r as usize * BIN_LEVELS / 256;
    let g = c.g as usize * BIN_LEVELS / 256;
    let b = c.b as usize * BIN_LEVELS / 256;
    (r * BIN_LEVELS + g) * BIN_LEVELS + b
}

/// The middle of a level's range of channel values.
pub open spec fn level_centre(level: int) -> int {
    let step: int = 256int / (BIN_LEVELS as int);
    let centre = level * step + step / 2;
    if centre < 255 { centre } else { 255 }
}

/// The colour at the middle of a bucket.
pub open spec fn spec_bin_center_rgb(bin: int) -> Rgb {
    let levels = BIN_LEVELS as int;
    Rgb {
        r: level_centre((bin / (levels * levels)) % levels) as u8,
        g: level_centre((bin / levels) % levels) as u8,
        b: level_centre(bin % levels) as u8,
    }
}

pub fn bin_center_rgb(bin: usize) -> (c: Rgb)
    ensures
        c == spec_bin_center_rgb(bin as int),
{
    let step: usize = 256 / BIN_LEVELS;
    let b = bin % BIN_LEVELS;
    let g = (bin / BIN_LEVELS) % BIN_LEVELS;
    let r = (bin / (BIN_LEVELS * BIN_LEVELS)) % BIN_LEVELS;
    let rc = r * step + step / 2;
    let gc = g * step + step / 2;
    let bc = b * step + step / 2;
    Rgb {
        r: (if rc < 255 { rc } else { 255 }) as u8,
        g: (if gc < 255 { gc } else { 255 }) as u8,
        b: (if bc < 255 { bc } else { 255 }) as u8,
    }
}

/// The centre of a colour's bucket lies in that same bucket, within half a
/// level of the colour on every channel.
pub proof fn a_bucket_centre_stays_in_its_bucket(c: Rgb)
    ensures
        spec_rgb_bin(spec_bin_center_rgb(spec_rgb_bin(c))) == spec_rgb_bin(c),
        -8 <= spec_bin_center_rgb(spec_rgb_bin(c)).r - c.r <= 8,
        -8 <= spec_bin_center_rgb(spec_rgb_bin(c)).g - c.g <= 8,
        -8 <= spec_bin_center_rgb(spec_rgb_bin(c)).b - c.b <= 8,
{
    let r = level(c.r as int);
    let g = level(c.g as int);
    let b = level(c.b as int);
    let bin = spec_rgb_bin(c);
    assert(0 <= r < 16 && 0 <= g < 16 && 0 <= b < 16);
    assert(bin == r * 256 + g * 16 + b);
    assert(bin / 256 == r && (bin / 16) % 16 == g && bin % 16 == b) by (nonlinear_arith)
        requires
            bin == r * 256 + g * 16 + b,
            0 <= r < 16,
            0 <= g < 16,
            0 <= b < 16,
    ;
    assert((bin / 256) % 16 == r);
}

proof fn level_of_centre(x: int)
    requires
        0 <= x < 16,
    ensures
        level_centre(x) == x * 16 + 8,
        level(x * 16 + 8) == x,
{
    assert((x * 16 + 8) * 16 / 256 == x) by (nonlinear_arith)
        requires
            0 <= x < 16,
    ;
}

/// Both bucket functions together: a colour and its bucket's centre fall in
/// the same bucket, so voting by bucket and reporting the centre agree.
pub proof fn bucket_round_trip(bin: int)
    requires
        0 <= bin < BIN_COUNT,
    ensures
        spec_rgb_bin(spec_bin_center_rgb(bin)) == bin,
{
    let r = bin / 256;
    let g = (bin / 16) % 16;
    let b = bin % 16;
    assert(bin == r * 256 + g * 16 + b && 0 <= r < 16) by (nonlinear_arith)
        requires
            0 <= bin < 4096,
            r == bin / 256,
            g == (bin / 16) % 16,
            b == bin % 16,
    ;
    assert((bin / 256) % 16 == r);
    level_of_centre(r);
    level_of_centre(g);
    level_of_centre(b);
}

} // verus!
