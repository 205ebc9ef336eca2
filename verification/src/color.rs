//! Colour arithmetic: the distance between two colours and the reduction of
//! a pixel buffer to one representative colour.

use std::collections::HashMap;
use vstd::prelude::*;

verus! {

broadcast use vstd::std_specs::hash::group_hash_axioms;

/// A colour as (red, green, blue) channel intensities.
pub type Rgb = (u64, u64, u64);

/// Absolute difference of two channel intensities.
pub open spec fn channel_gap(a: u64, b: u64) -> int {
    if a >= b {
        a - b
    } else {
        b - a
    }
}

/// Sum of the absolute per-channel differences of two colours.
pub open spec fn variation(a: Rgb, b: Rgb) -> int {
    channel_gap(a.0, b.0) + channel_gap(a.1, b.1) + channel_gap(a.2, b.2)
}

/// The variation of two colours does not depend on their order, and a colour
/// does not vary from itself.
pub proof fn lemma_variation_symmetric(a: Rgb, b: Rgb)
    ensures
        variation(a, b) == variation(b, a),
        variation(a, a) == 0,
        variation(a, b) >= 0,
{
}

fn gap(a: u64, b: u64) -> (d: u64)
    ensures
        d == channel_gap(a, b),
{
    if a >= b {
        a - b
    } else {
        b - a
    }
}

/// Variation between a colour and the previous one.
pub fn calculate_color_variation(rgb: Rgb, previous_rgb: Rgb) -> (v: u64)
    requires
        variation(rgb, previous_rgb) <= u64::MAX,
    ensures
        v == variation(rgb, previous_rgb),
{
    gap(rgb.0, previous_rgb.0) + gap(rgb.1, previous_rgb.1) + gap(rgb.2, previous_rgb.2)
}

/// Whether a sampled colour differs enough from the one that the lamps show
/// to be sent to them: its variation is above the threshold.
pub fn exceeds_threshold(rgb: Rgb, previous_rgb: Rgb, threshold: u64) -> (changed: bool)
    requires
        variation(rgb, previous_rgb) <= u64::MAX,
    ensures
        changed == (variation(rgb, previous_rgb) > threshold),
{
    calculate_color_variation(rgb, previous_rgb) > threshold
}

/// One pixel of a frame.
#[derive(Clone, Copy, Debug, PartialEq, Eq, Structural)]
pub struct Pixel {
    pub r: u8,
    pub g: u8,
    pub b: u8,
}

/// One of the three channels of a pixel.
#[derive(Clone, Copy, Debug, PartialEq, Eq, Structural)]
pub enum Channel {
    Red,
    Green,
    Blue,
}

/// The share of kept pixels, in percent, under which a frame is taken to be
/// dark.
pub const COVERAGE_PERCENT: u64 = 10;

/// Of the kept pixels every `PIXEL_SKIPPING`-th is summed.
pub const PIXEL_SKIPPING: usize = 1;

/// The colour that stands for a dark frame. Lamps do not accept black.
pub open spec fn sentinel() -> Rgb {
    (1, 1, 1)
}

/// A pixel is black if all three channels are zero.
pub open spec fn is_black(pixel: Pixel) -> bool {
    pixel.r == 0 && pixel.g == 0 && pixel.b == 0
}

/// The pixels that are not black, in their order.
pub open spec fn kept(pixels: Seq<Pixel>) -> Seq<Pixel> {
    pixels.filter(|pixel: Pixel| !is_black(pixel))
}

/// The intensity of one channel of a pixel.
pub open spec fn channel(pixel: Pixel, c: Channel) -> nat {
    match c {
        Channel::Red => pixel.r as nat,
        Channel::Green => pixel.g as nat,
        Channel::Blue => pixel.b as nat,
    }
}

/// The sum of one channel over all pixels.
pub open spec fn channel_total(pixels: Seq<Pixel>, c: Channel) -> nat
    decreases pixels.len(),
{
    if pixels.len() == 0 {
        0
    } else {
        channel_total(pixels.drop_last(), c) + channel(pixels.last(), c)
    }
}

/// The sum of one channel over the first pixel and every `stride`-th after
/// it.
pub open spec fn strided_total(pixels: Seq<Pixel>, stride: nat, c: Channel) -> nat
    decreases pixels.len(),
{
    if pixels.len() == 0 {
        0
    } else if (pixels.len() - 1) % (stride as int) == 0 {
        strided_total(pixels.drop_last(), stride, c) + channel(pixels.last(), c)
    } else {
        strided_total(pixels.drop_last(), stride, c)
    }
}

/// Whether `kept` of `total` pixels are at least `percent` percent.
pub open spec fn covers(kept: nat, total: nat, percent: nat) -> bool {
    kept * 100 >= total * percent
}

/// The colour that represents a frame. Black pixels do not count. Where no
/// pixel is left, or fewer than `percent` percent of all, the frame is dark
/// and the sentinel stands for it; an empty frame is dark. Otherwise each
/// channel is the sum over the first kept pixel and every `stride`-th after
/// it, divided by the number of kept pixels.
pub open spec fn sampled_color(pixels: Seq<Pixel>, percent: nat, stride: nat) -> Rgb {
    let rest = kept(pixels);
    if rest.len() == 0 || !covers(rest.len(), pixels.len(), percent) {
        sentinel()
    } else {
        (
            (strided_total(rest, stride, Channel::Red) / rest.len()) as u64,
            (strided_total(rest, stride, Channel::Green) / rest.len()) as u64,
            (strided_total(rest, stride, Channel::Blue) / rest.len()) as u64,
        )
    }
}

/// What one more pixel adds to the kept ones.
pub proof fn lemma_kept_push(pixels: Seq<Pixel>, pixel: Pixel)
    ensures
        kept(pixels.push(pixel)) == if is_black(pixel) {
            kept(pixels)
        } else {
            kept(pixels).push(pixel)
        },
        kept(Seq::<Pixel>::empty()).len() == 0,
        kept(pixels).len() <= pixels.len(),
{
    reveal(Seq::filter);
    assert(pixels.push(pixel).drop_last() =~= pixels);
    pixels.lemma_filter_len(|pixel: Pixel| !is_black(pixel));
}

/// Of a frame that is all black nothing is kept.
pub proof fn lemma_all_black_keeps_nothing(pixels: Seq<Pixel>)
    requires
        forall|i: int| 0 <= i < pixels.len() ==> is_black(#[trigger] pixels[i]),
    ensures
        kept(pixels).len() == 0,
    decreases pixels.len(),
{
    if pixels.len() == 0 {
        lemma_kept_push(pixels, Pixel { r: 0, g: 0, b: 0 });
    } else {
        lemma_all_black_keeps_nothing(pixels.drop_last());
        lemma_kept_push(pixels.drop_last(), pixels.last());
        assert(pixels.drop_last().push(pixels.last()) =~= pixels);
    }
}

/// A frame whose pixels are all black is represented by the sentinel, never
/// by black, whatever the coverage and the stride.
pub proof fn lemma_all_black_gives_sentinel(pixels: Seq<Pixel>, percent: nat, stride: nat)
    requires
        forall|i: int| 0 <= i < pixels.len() ==> is_black(#[trigger] pixels[i]),
    ensures
        sampled_color(pixels, percent, stride) == sentinel(),
        sampled_color(pixels, percent, stride) != (0u64, 0u64, 0u64),
{
    lemma_all_black_keeps_nothing(pixels);
}

/// A strided sum is at most 255 for each pixel, and with stride 1 it is the
/// sum over all pixels.
pub proof fn lemma_strided_total(pixels: Seq<Pixel>, stride: nat, c: Channel)
    requires
        stride >= 1,
    ensures
        strided_total(pixels, stride, c) <= channel_total(pixels, c) <= 255 * pixels.len(),
        stride == 1 ==> strided_total(pixels, stride, c) == channel_total(pixels, c),
    decreases pixels.len(),
{
    if pixels.len() > 0 {
        lemma_strided_total(pixels.drop_last(), stride, c);
    }
}

/// Each channel of a sampled colour is at most 255.
pub proof fn lemma_sampled_in_range(pixels: Seq<Pixel>, percent: nat, stride: nat)
    requires
        stride >= 1,
    ensures
        sampled_color(pixels, percent, stride).0 <= 255,
        sampled_color(pixels, percent, stride).1 <= 255,
        sampled_color(pixels, percent, stride).2 <= 255,
{
    let rest = kept(pixels);
    if rest.len() > 0 {
        lemma_strided_total(rest, stride, Channel::Red);
        lemma_strided_total(rest, stride, Channel::Green);
        lemma_strided_total(rest, stride, Channel::Blue);
        lemma_mean_bound(strided_total(rest, stride, Channel::Red), rest.len());
        lemma_mean_bound(strided_total(rest, stride, Channel::Green), rest.len());
        lemma_mean_bound(strided_total(rest, stride, Channel::Blue), rest.len());
    }
}

proof fn lemma_mean_bound(total: nat, count: nat)
    requires
        count > 0,
        total <= 255 * count,
    ensures
        total / count <= 255,
{
    assert(total / count <= 255) by (nonlinear_arith)
        requires
            count > 0,
            total <= 255 * count,
    ;
}

/// Where a frame has pixels that are not black, and these are at least
/// `percent` percent of all, a sample with stride 1 is the mean of each
/// channel over the pixels that are not black, rounded down.
pub proof fn lemma_sample_is_mean(pixels: Seq<Pixel>, percent: nat)
    requires
        kept(pixels).len() > 0,
        covers(kept(pixels).len(), pixels.len(), percent),
    ensures
        sampled_color(pixels, percent, 1).0 == channel_total(kept(pixels), Channel::Red) / kept(pixels).len(),
        sampled_color(pixels, percent, 1).1 == channel_total(kept(pixels), Channel::Green) / kept(pixels).len(),
        sampled_color(pixels, percent, 1).2 == channel_total(kept(pixels), Channel::Blue) / kept(pixels).len(),
{
    let rest = kept(pixels);
    lemma_sampled_in_range(pixels, percent, 1);
    lemma_strided_total(rest, 1, Channel::Red);
    lemma_strided_total(rest, 1, Channel::Green);
    lemma_strided_total(rest, 1, Channel::Blue);
    lemma_mean_bound(channel_total(rest, Channel::Red), rest.len());
    lemma_mean_bound(channel_total(rest, Channel::Green), rest.len());
    lemma_mean_bound(channel_total(rest, Channel::Blue), rest.len());
}

/// The colour of one frame, with the number of pixels that it was made from.
#[derive(Clone, Copy, Debug, PartialEq, Eq)]
pub struct SampledColor {
    pub color: Rgb,
    /// How many pixels of the frame are not black.
    pub kept: usize,
}

/// Reduces a frame to one colour. `coverage_percent` is the share of pixels
/// that must not be black for the frame to count, and of the pixels that are
/// not black the first and every `stride`-th after it are summed.
pub fn sample_color(pixels: &Vec<Pixel>, coverage_percent: u64, stride: usize) -> (sample: SampledColor)
    requires
        stride >= 1,
    ensures
        sample.color == sampled_color(pixels@, coverage_percent as nat, stride as nat),
        sample.kept == kept(pixels@).len(),
        sample.color.0 <= 255 && sample.color.1 <= 255 && sample.color.2 <= 255,
        (forall|i: int| 0 <= i < pixels.len() ==> is_black(#[trigger] pixels[i])) ==> sample.color == sentinel(),
        stride == 1 && sample.kept > 0 && covers(sample.kept as nat, pixels@.len(), coverage_percent as nat) ==> {
            &&& sample.color.0 == channel_total(kept(pixels@), Channel::Red) / kept(pixels@).len()
            &&& sample.color.1 == channel_total(kept(pixels@), Channel::Green) / kept(pixels@).len()
            &&& sample.color.2 == channel_total(kept(pixels@), Channel::Blue) / kept(pixels@).len()
        },
{
    let mut count: usize = 0;
    let mut red: u128 = 0;
    let mut green: u128 = 0;
    let mut blue: u128 = 0;
    let mut i: usize = 0;
    proof {
        lemma_kept_push(pixels@.take(0), Pixel { r: 0, g: 0, b: 0 });
        assert(pixels@.take(0) =~= Seq::<Pixel>::empty());
    }
    while i < pixels.len()
        invariant
            stride >= 1,
            i <= pixels.len(),
            count <= i,
            count == kept(pixels@.take(i as int)).len(),
            red == strided_total(kept(pixels@.take(i as int)), stride as nat, Channel::Red),
            green == strided_total(kept(pixels@.take(i as int)), stride as nat, Channel::Green),
            blue == strided_total(kept(pixels@.take(i as int)), stride as nat, Channel::Blue),
            red <= 255 * count,
            green <= 255 * count,
            blue <= 255 * count,
        decreases pixels.len() - i,
    {
        let pixel = pixels[i];
        proof {
            lemma_kept_push(pixels@.take(i as int), pixel);
            assert(pixels@.take(i as int).push(pixel) =~= pixels@.take(i + 1));
            if !is_black(pixel) {
                assert(kept(pixels@.take(i + 1)).drop_last() =~= kept(pixels@.take(i as int)));
            }
        }
        if pixel.r != 0 || pixel.g != 0 || pixel.b != 0 {
            if count % stride == 0 {
                red = red + pixel.r as u128;
                green = green + pixel.g as u128;
                blue = blue + pixel.b as u128;
            }
            count = count + 1;
        }
        i = i + 1;
    }
    proof {
        assert(pixels@.take(i as int) =~= pixels@);
        lemma_sampled_in_range(pixels@, coverage_percent as nat, stride as nat);
        if forall|i: int| 0 <= i < pixels.len() ==> is_black(#[trigger] pixels[i]) {
            lemma_all_black_gives_sentinel(pixels@, coverage_percent as nat, stride as nat);
        }
        if count > 0 && covers(count as nat, pixels@.len(), coverage_percent as nat) {
            lemma_sample_is_mean(pixels@, coverage_percent as nat);
        }
        assert((pixels.len() as u128) * (coverage_percent as u128) <= 0xffff_ffff_ffff_ffff * 0xffff_ffff_ffff_ffff)
            by (nonlinear_arith)
            requires
                pixels.len() <= 0xffff_ffff_ffff_ffff,
                coverage_percent <= 0xffff_ffff_ffff_ffff,
        ;
    }
    if count == 0 || (count as u128) * 100 < (pixels.len() as u128) * (coverage_percent as u128) {
        SampledColor { color: (1, 1, 1), kept: count }
    } else {
        let n = count as u128;
        proof {
            lemma_mean_bound(red as nat, count as nat);
            lemma_mean_bound(green as nat, count as nat);
            lemma_mean_bound(blue as nat, count as nat);
        }
        SampledColor { color: ((red / n) as u64, (green / n) as u64, (blue / n) as u64), kept: count }
    }
}

/// The colour that represents a frame, with the usual coverage and every
/// pixel summed.
pub fn get_average_color(pixels: Vec<Pixel>) -> (color: Rgb)
    ensures
        color == sampled_color(pixels@, COVERAGE_PERCENT as nat, PIXEL_SKIPPING as nat),
        color.0 <= 255 && color.1 <= 255 && color.2 <= 255,
        (forall|i: int| 0 <= i < pixels.len() ==> is_black(#[trigger] pixels[i])) ==> color == sentinel(),
        kept(pixels@).len() > 0 && covers(kept(pixels@).len(), pixels@.len(), COVERAGE_PERCENT as nat) ==> {
            &&& color.0 == channel_total(kept(pixels@), Channel::Red) / kept(pixels@).len()
            &&& color.1 == channel_total(kept(pixels@), Channel::Green) / kept(pixels@).len()
            &&& color.2 == channel_total(kept(pixels@), Channel::Blue) / kept(pixels@).len()
        },
{
    sample_color(&pixels, COVERAGE_PERCENT, PIXEL_SKIPPING).color
}

/// The three channels of a pixel.
pub open spec fn color_of(pixel: Pixel) -> (u8, u8, u8) {
    (pixel.r, pixel.g, pixel.b)
}

/// How many pixels have this colour.
pub open spec fn occurrences(pixels: Seq<Pixel>, color: (u8, u8, u8)) -> nat
    decreases pixels.len(),
{
    if pixels.len() == 0 {
        0
    } else if color_of(pixels.last()) == color {
        occurrences(pixels.drop_last(), color) + 1
    } else {
        occurrences(pixels.drop_last(), color)
    }
}

/// A colour as one number: the channels as three bytes.
pub open spec fn packed(color: (u8, u8, u8)) -> u32 {
    (color.0 * 65536 + color.1 * 256 + color.2) as u32
}

/// A colour is counted no more often than there are pixels, and a colour
/// that is counted is the colour of some pixel.
pub proof fn lemma_occurrences(pixels: Seq<Pixel>, color: (u8, u8, u8))
    ensures
        occurrences(pixels, color) <= pixels.len(),
        occurrences(pixels, color) > 0 ==> exists|i: int|
            0 <= i < pixels.len() && color_of(#[trigger] pixels[i]) == color,
        forall|i: int| 0 <= i < pixels.len() && color_of(#[trigger] pixels[i]) == color ==> occurrences(pixels, color) > 0,
    decreases pixels.len(),
{
    if pixels.len() > 0 {
        let rest = pixels.drop_last();
        lemma_occurrences(rest, color);
        if occurrences(pixels, color) > 0 {
            if color_of(pixels.last()) == color {
                assert(color_of(pixels[pixels.len() - 1]) == color);
            } else {
                let i = choose|i: int| 0 <= i < rest.len() && color_of(#[trigger] rest[i]) == color;
                assert(pixels[i] == rest[i]);
            }
        }
        assert forall|i: int| 0 <= i < pixels.len() && color_of(#[trigger] pixels[i]) == color implies occurrences(
            pixels,
            color,
        ) > 0 by {
            if i < rest.len() {
                assert(rest[i] == pixels[i]);
            }
        }
    }
}

fn pack(pixel: Pixel) -> (key: u32)
    ensures
        key == packed(color_of(pixel)),
{
    (pixel.r as u32) * 65536 + (pixel.g as u32) * 256 + (pixel.b as u32)
}

fn count_colors(pixels: &Vec<Pixel>) -> (counts: HashMap<u32, usize>)
    ensures
        forall|color: (u8, u8, u8)|
            if occurrences(pixels@, color) > 0 {
                counts@.contains_key(#[trigger] packed(color)) && counts@[packed(color)] == occurrences(pixels@, color)
            } else {
                !counts@.contains_key(packed(color))
            },
{
    let mut counts: HashMap<u32, usize> = HashMap::new();
    let mut i: usize = 0;
    while i < pixels.len()
        invariant
            i <= pixels.len(),
            forall|color: (u8, u8, u8)|
                if occurrences(pixels@.take(i as int), color) > 0 {
                    counts@.contains_key(#[trigger] packed(color)) && counts@[packed(color)] == occurrences(
                        pixels@.take(i as int),
                        color,
                    )
                } else {
                    !counts@.contains_key(packed(color))
                },
        decreases pixels.len() - i,
    {
        let pixel = pixels[i];
        let key = pack(pixel);
        let ghost before = counts@;
        let ghost seen = pixels@.take(i as int);
        let ghost now = pixels@.take(i + 1);
        proof {
            assert(now.drop_last() =~= seen);
            assert(now.last() == pixel);
            lemma_occurrences(seen, color_of(pixel));
        }
        let so_far = match counts.get(&key) {
            Some(n) => *n,
            None => 0,
        };
        assert(so_far == occurrences(seen, color_of(pixel)));
        counts.insert(key, so_far + 1);
        proof {
            assert forall|color: (u8, u8, u8)|
                if occurrences(now, color) > 0 {
                    counts@.contains_key(#[trigger] packed(color)) && counts@[packed(color)] == occurrences(now, color)
                } else {
                    !counts@.contains_key(packed(color))
                } by {
                if color != color_of(pixel) {
                    assert(packed(color) != key);
                    assert(occurrences(now, color) == occurrences(seen, color));
                }
            }
        }
        i = i + 1;
    }
    assert(pixels@.take(i as int) =~= pixels@);
    counts
}

/// The colour that most pixels of a frame have; of several such colours
/// the one that comes first in the frame.
pub fn get_most_common_color(pixels: Vec<Pixel>) -> (color: (u8, u8, u8))
    requires
        pixels.len() > 0,
    ensures
        forall|other: (u8, u8, u8)| occurrences(pixels@, other) <= occurrences(pixels@, color),
        exists|i: int|
            0 <= i < pixels.len() && color_of(#[trigger] pixels[i]) == color && forall|j: int|
                0 <= j < i ==> occurrences(pixels@, color_of(#[trigger] pixels[j])) < occurrences(pixels@, color),
{
    let counts = count_colors(&pixels);
    let first = pixels[0];
    let mut best: (u8, u8, u8) = (first.r, first.g, first.b);
    let mut best_count: usize = 0;
    let ghost mut at: int = 0;
    let mut i: usize = 0;
    while i < pixels.len()
        invariant
            i <= pixels.len(),
            pixels.len() > 0,
            forall|color: (u8, u8, u8)|
                if occurrences(pixels@, color) > 0 {
                    counts@.contains_key(#[trigger] packed(color)) && counts@[packed(color)] == occurrences(pixels@, color)
                } else {
                    !counts@.contains_key(packed(color))
                },
            i == 0 ==> best_count == 0 && at == 0 && best == color_of(pixels[0]),
            i > 0 ==> best_count == occurrences(pixels@, best),
            0 <= at < pixels.len(),
            i > 0 ==> at < i,
            color_of(pixels[at]) == best,
            forall|j: int| 0 <= j < at ==> occurrences(pixels@, color_of(#[trigger] pixels[j])) < occurrences(pixels@, best),
            forall|j: int| 0 <= j < i ==> occurrences(pixels@, color_of(#[trigger] pixels[j])) <= best_count,
        decreases pixels.len() - i,
    {
        let pixel = pixels[i];
        let key = pack(pixel);
        proof {
            lemma_occurrences(pixels@, color_of(pixel));
        }
        let n = match counts.get(&key) {
            Some(n) => *n,
            None => 0,
        };
        assert(n == occurrences(pixels@, color_of(pixel)));
        if n > best_count {
            best = (pixel.r, pixel.g, pixel.b);
            best_count = n;
            proof {
                at = i as int;
            }
        }
        i = i + 1;
    }
    proof {
        assert forall|other: (u8, u8, u8)| occurrences(pixels@, other) <= occurrences(pixels@, best) by {
            lemma_occurrences(pixels@, other);
        }
    }
    best
}

} // verus!
