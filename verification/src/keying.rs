//! The transparency keyer.
//!
//! The segmentation engine compares colors and knows nothing of alpha. An image with a
//! noticeable amount of full transparency is therefore keyed: its transparent pixels are
//! painted in a color that the image does not use, so that they form regions of their own.

use vstd::prelude::*;
use crate::error::ConverterError;
use crate::pixels::{Color, Image, PixelBuffer, lemma_grid_index};

verus! {

/// How many candidate key colors there are.
pub const KEY_CANDIDATES: usize = 7;

/// The candidate key colors in the order in which they are tried:
/// red, green, blue, yellow, cyan, magenta and mid-gray.
pub open spec fn key_candidate_spec(k: int) -> Color {
    if k == 0 {
        Color::rgb(255, 0, 0)
    } else if k == 1 {
        Color::rgb(0, 255, 0)
    } else if k == 2 {
        Color::rgb(0, 0, 255)
    } else if k == 3 {
        Color::rgb(255, 255, 0)
    } else if k == 4 {
        Color::rgb(0, 255, 255)
    } else if k == 5 {
        Color::rgb(255, 0, 255)
    } else {
        Color::rgb(128, 128, 128)
    }
}

/// Candidate number `k`.
pub fn key_candidate(k: usize) -> (c: Color)
    requires
        k < KEY_CANDIDATES,
    ensures
        c == key_candidate_spec(k as int),
{
    if k == 0 {
        Color::new(255, 0, 0)
    } else if k == 1 {
        Color::new(0, 255, 0)
    } else if k == 2 {
        Color::new(0, 0, 255)
    } else if k == 3 {
        Color::new(255, 255, 0)
    } else if k == 4 {
        Color::new(0, 255, 255)
    } else if k == 5 {
        Color::new(255, 0, 255)
    } else {
        Color::new(128, 128, 128)
    }
}

/// The number of fully transparent pixels in `s`.
pub open spec fn count_transparent(s: Seq<Color>) -> nat
    decreases s.len(),
{
    if s.len() == 0 {
        0
    } else {
        count_transparent(s.drop_last()) + if s.last().is_transparent() {
            1nat
        } else {
            0nat
        }
    }
}

/// The number of transparent samples that makes an image of the given width worth keying:
/// a fifth of two scanlines, rounded up.
pub open spec fn keying_threshold(width: nat) -> nat {
    ((2 * width + 4) / 5) as nat
}

/// The five sampled scanlines: top, one quarter, middle, three quarters, bottom.
pub open spec fn sampled_row(height: nat, k: int) -> int {
    if k == 0 {
        0
    } else if k == 1 {
        height as int / 4
    } else if k == 2 {
        height as int / 2
    } else if k == 3 {
        3 * height as int / 4
    } else {
        height as int - 1
    }
}

/// The number of transparent pixels on the first `k` sampled scanlines. A scanline that is
/// sampled twice counts twice.
pub open spec fn sampled_transparent(img: Image, k: nat) -> nat
    decreases k,
{
    if k == 0 {
        0
    } else {
        sampled_transparent(img, (k - 1) as nat) + count_transparent(
            img.row(sampled_row(img.height, k - 1)),
        )
    }
}

/// Whether an image is keyed: it is not empty and its five sampled scanlines together hold
/// at least `keying_threshold` transparent pixels.
pub open spec fn should_key(img: Image) -> bool {
    &&& img.width > 0
    &&& img.height > 0
    &&& sampled_transparent(img, 5) >= keying_threshold(img.width)
}

/// Whether some pixel of the image has the color channels of `color`, whatever its alpha.
pub open spec fn occurs(img: Image, color: Color) -> bool {
    exists|i: int| 0 <= i < img.pixels.len() && (#[trigger] img.pixels[i]).same_rgb(color)
}

/// The first candidate from number `from` on that the image does not use.
pub open spec fn first_unused(img: Image, from: nat) -> Option<Color>
    decreases KEY_CANDIDATES - from,
{
    if from >= KEY_CANDIDATES {
        None
    } else if !occurs(img, key_candidate_spec(from as int)) {
        Some(key_candidate_spec(from as int))
    } else {
        first_unused(img, from + 1)
    }
}

/// The pixels after keying: every fully transparent pixel has become `key`.
pub open spec fn keyed(pixels: Seq<Color>, key: Color) -> Seq<Color> {
    Seq::new(
        pixels.len(),
        |i: int|
            if pixels[i].is_transparent() {
                key
            } else {
                pixels[i]
            },
    )
}

/// The key color that an image gets: the first unused candidate where the image is worth
/// keying and has one, and `Color::none()` otherwise.
pub open spec fn key_choice(img: Image) -> Color {
    if should_key(img) {
        match first_unused(img, 0) {
            Some(key) => key,
            None => Color::none(),
        }
    } else {
        Color::none()
    }
}

/// The image as the engine gets it: keyed with its key color, or untouched where it has none.
pub open spec fn keyed_image(img: Image) -> Image {
    if key_choice(img) == Color::none() {
        img
    } else {
        Image { width: img.width, height: img.height, pixels: keyed(img.pixels, key_choice(img)) }
    }
}

/// Counting a prefix that is one pixel longer adds that pixel.
proof fn lemma_count_step(s: Seq<Color>, n: int)
    requires
        0 <= n < s.len(),
    ensures
        count_transparent(s.take(n + 1)) == count_transparent(s.take(n)) + if s[n].is_transparent() {
            1nat
        } else {
            0nat
        },
{
    assert(s.take(n + 1).drop_last() =~= s.take(n));
}

/// No prefix holds more transparent pixels than the whole.
proof fn lemma_count_prefix(s: Seq<Color>, n: int)
    requires
        0 <= n <= s.len(),
    ensures
        count_transparent(s.take(n)) <= count_transparent(s),
    decreases s.len() - n,
{
    if n == s.len() {
        assert(s.take(n) =~= s);
    } else {
        lemma_count_step(s, n);
        lemma_count_prefix(s, n + 1);
    }
}

/// A sequence without transparent pixels counts none.
proof fn lemma_count_opaque(s: Seq<Color>)
    requires
        forall|i: int| 0 <= i < s.len() ==> !(#[trigger] s[i]).is_transparent(),
    ensures
        count_transparent(s) == 0,
    decreases s.len(),
{
    if s.len() > 0 {
        lemma_count_opaque(s.drop_last());
    }
}

/// The sampled scanlines lie inside the image.
proof fn lemma_sampled_row_in_range(height: nat, k: int)
    requires
        height > 0,
        0 <= k < 5,
    ensures
        0 <= sampled_row(height, k) < height,
{
}

/// An image without a single transparent pixel is never keyed, and neither is an empty one.
pub proof fn lemma_opaque_image_is_not_keyed(img: Image)
    requires
        img.wf(),
        forall|i: int| 0 <= i < img.pixels.len() ==> !(#[trigger] img.pixels[i]).is_transparent(),
    ensures
        !should_key(img),
{
    if img.width > 0 && img.height > 0 {
        assert forall|k: int| 0 <= k < 5 implies count_transparent(
            #[trigger] img.row(sampled_row(img.height, k)),
        ) == 0 by {
            let y = sampled_row(img.height, k);
            lemma_sampled_row_in_range(img.height, k);
            lemma_grid_index(0, y, img.width as int, img.height as int);
            lemma_count_opaque(img.row(y));
        }
        reveal_with_fuel(sampled_transparent, 6);
        assert(sampled_transparent(img, 5) == 0);
    }
}

/// A keyed image has no fully transparent pixel left, and keying changes neither the size
/// of an image nor any pixel that is not fully transparent.
pub proof fn lemma_keyed_image_is_opaque(img: Image)
    requires
        img.wf(),
    ensures
        keyed_image(img).wf(),
        keyed_image(img).width == img.width,
        keyed_image(img).height == img.height,
        key_choice(img) != Color::none() <==> should_key(img) && first_unused(img, 0) is Some,
        key_choice(img) != Color::none() ==> forall|i: int|
            0 <= i < img.pixels.len() ==> !(#[trigger] keyed_image(img).pixels[i]).is_transparent(),
        forall|i: int|
            0 <= i < img.pixels.len() && !img.pixels[i].is_transparent() ==> (
            #[trigger] keyed_image(img).pixels[i]) == img.pixels[i],
{
    lemma_first_unused_is_a_candidate(img, 0);
}

/// The first unused candidate, where there is one, is an opaque candidate that the image
/// does not use, and every candidate before it is used; there is none exactly when the
/// image uses all candidates from `from` on.
pub proof fn lemma_first_unused_is_a_candidate(img: Image, from: nat)
    requires
        from <= KEY_CANDIDATES,
    ensures
        first_unused(img, from) matches Some(key) ==> {
            &&& key.a == 255
            &&& !occurs(img, key)
            &&& exists|k: int|
                from <= k < KEY_CANDIDATES && key == key_candidate_spec(k) && forall|j: int|
                    from <= j < k ==> occurs(img, key_candidate_spec(j))
        },
        first_unused(img, from) is None <==> forall|k: int|
            from <= k < KEY_CANDIDATES ==> occurs(img, key_candidate_spec(k)),
    decreases KEY_CANDIDATES - from,
{
    if from < KEY_CANDIDATES {
        if occurs(img, key_candidate_spec(from as int)) {
            lemma_first_unused_is_a_candidate(img, from + 1);
            if first_unused(img, from) is Some {
                let key = first_unused(img, from).unwrap();
                let k = choose|k: int|
                    from + 1 <= k < KEY_CANDIDATES && key == key_candidate_spec(k) && forall|j: int|
                        from + 1 <= j < k ==> occurs(img, key_candidate_spec(j));
                assert(from <= k < KEY_CANDIDATES && key == key_candidate_spec(k) && forall|j: int|
                    from <= j < k ==> occurs(img, key_candidate_spec(j)));
            }
        } else {
            let key = key_candidate_spec(from as int);
            assert(from <= from < KEY_CANDIDATES && key == key_candidate_spec(from as int)
                && forall|j: int| from <= j < from ==> occurs(img, key_candidate_spec(j)));
        }
    }
}

/// Scans scanline `y` from the left and adds its transparent pixels to `seen`, but stops
/// counting as soon as `threshold` is reached.
fn scan_row(img: &PixelBuffer, y: usize, seen: usize, threshold: usize) -> (total: usize)
    requires
        img.wf(),
        0 < img@.width,
        y < img@.height,
        seen < threshold,
    ensures
        total <= threshold,
        total < threshold ==> total == seen + count_transparent(img@.row(y as int)),
        total == threshold ==> seen + count_transparent(img@.row(y as int)) >= threshold,
{
    let width: usize = img.width();
    let ghost row = img@.row(y as int);
    let mut total: usize = seen;
    let mut x: usize = 0;
    proof {
        img.lemma_view_wf();
        lemma_grid_index(0, y as int, width as int, img@.height as int);
        assert(row.len() == width);
        assert(row.take(0) =~= Seq::<Color>::empty());
    }
    while x < width
        invariant
            img.wf(),
            img@.wf(),
            width == img@.width,
            y < img@.height,
            row == img@.row(y as int),
            row.len() == width,
            x <= width,
            total < threshold,
            total == seen + count_transparent(row.take(x as int)),
        decreases width - x,
    {
        let pixel = img.get_pixel(x, y);
        proof {
            lemma_count_step(row, x as int);
            lemma_count_prefix(row, x as int + 1);
            lemma_grid_index(x as int, y as int, width as int, img@.height as int);
            assert(row[x as int] == img@.at(x as int, y as int));
        }
        if pixel.a == 0 {
            total = total + 1;
        }
        if total >= threshold {
            return total;
        }
        x = x + 1;
    }
    proof {
        assert(row.take(width as int) =~= row);
    }
    total
}

/// Decides from five scanlines whether the image has enough transparency to be keyed.
///
/// The scan runs over the top, quarter, middle, three-quarter and bottom scanlines in that
/// order and ends as soon as the count of fully transparent pixels reaches
/// `keying_threshold(width)`; it never looks at the rest of the image.
pub fn should_key_image(img: &PixelBuffer) -> (key: bool)
    requires
        img.wf(),
    ensures
        key == should_key(img@),
        img@.width == 0 || img@.height == 0 ==> !key,
        (forall|i: int| 0 <= i < img@.pixels.len() ==> !(#[trigger] img@.pixels[i]).is_transparent())
            ==> !key,
{
    proof {
        img.lemma_view_wf();
        if forall|i: int| 0 <= i < img@.pixels.len() ==> !(#[trigger] img@.pixels[i]).is_transparent() {
            lemma_opaque_image_is_not_keyed(img@);
        }
    }
    let width: usize = img.width();
    let height: usize = img.height();
    if width == 0 || height == 0 {
        return false;
    }
    proof {
        lemma_grid_index(0, 0, width as int, height as int);
        assert(width * height >= height) by (nonlinear_arith)
            requires
                width >= 1,
                height >= 0,
        ;
    }
    let threshold: usize = (2 * width + 4) / 5;
    let rows: [usize; 5] = [0, height / 4, height / 2, 3 * height / 4, height - 1];
    let mut seen: usize = 0;
    let mut k: usize = 0;
    while k < 5
        invariant
            img.wf(),
            width == img@.width,
            height == img@.height,
            height > 0,
            width > 0,
            threshold == keying_threshold(img@.width),
            k <= 5,
            forall|j: int| 0 <= j < 5 ==> rows@[j] == sampled_row(img@.height, j),
            seen < threshold,
            seen == sampled_transparent(img@, k as nat),
            (forall|i: int|
                0 <= i < img@.pixels.len() ==> !(#[trigger] img@.pixels[i]).is_transparent())
                ==> !should_key(img@),
        decreases 5 - k,
    {
        proof {
            lemma_sampled_row_in_range(img@.height, k as int);
            reveal_with_fuel(sampled_transparent, 2);
        }
        seen = scan_row(img, rows[k], seen, threshold);
        if seen >= threshold {
            proof {
                lemma_sampled_monotonic(img@, (k + 1) as nat, 5);
            }
            return true;
        }
        k = k + 1;
    }
    false
}

/// More scanlines never hold fewer transparent pixels.
proof fn lemma_sampled_monotonic(img: Image, i: nat, j: nat)
    requires
        i <= j,
    ensures
        sampled_transparent(img, i) <= sampled_transparent(img, j),
    decreases j - i,
{
    if i < j {
        lemma_sampled_monotonic(img, i, (j - 1) as nat);
    }
}

/// Tells whether any pixel of the image has the color channels of `color`; alpha is ignored.
pub fn color_exists_in_image(img: &PixelBuffer, color: Color) -> (found: bool)
    requires
        img.wf(),
    ensures
        found == occurs(img@, color),
{
    let count: usize = img.pixel_count();
    let mut i: usize = 0;
    while i < count
        invariant
            img.wf(),
            count == img@.pixels.len(),
            i <= count,
            forall|j: int| 0 <= j < i ==> !(#[trigger] img@.pixels[j]).same_rgb(color),
        decreases count - i,
    {
        let pixel = img.get_pixel_at(i);
        if pixel.r == color.r && pixel.g == color.g && pixel.b == color.b {
            assert(img@.pixels[i as int].same_rgb(color));
            return true;
        }
        i = i + 1;
    }
    false
}

/// Picks the key color: the first of the seven candidates that the image does not use.
/// Fails with `NoKeyColor` exactly when the image uses all seven.
pub fn find_unused_color_in_image(img: &PixelBuffer) -> (found: Result<Color, ConverterError>)
    requires
        img.wf(),
    ensures
        found matches Ok(key) ==> {
            &&& first_unused(img@, 0) == Some(key)
            &&& !occurs(img@, key)
            &&& key.a == 255
            &&& exists|k: int|
                0 <= k < KEY_CANDIDATES && key == key_candidate_spec(k) && forall|j: int|
                    0 <= j < k ==> occurs(img@, key_candidate_spec(j))
        },
        found matches Err(e) ==> {
            &&& e == ConverterError::NoKeyColor
            &&& first_unused(img@, 0) is None
            &&& forall|k: int| 0 <= k < KEY_CANDIDATES ==> occurs(img@, key_candidate_spec(k))
        },
{
    let mut k: usize = 0;
    while k < KEY_CANDIDATES
        invariant
            img.wf(),
            k <= KEY_CANDIDATES,
            first_unused(img@, 0) == first_unused(img@, k as nat),
            forall|j: int| 0 <= j < k ==> occurs(img@, key_candidate_spec(j)),
        decreases KEY_CANDIDATES - k,
    {
        let candidate = key_candidate(k);
        if !color_exists_in_image(img, candidate) {
            return Ok(candidate);
        }
        k = k + 1;
    }
    Err(ConverterError::NoKeyColor)
}

/// Paints every fully transparent pixel in the key color, alpha included.
pub fn apply_keying(img: &mut PixelBuffer, key: Color)
    requires
        old(img).wf(),
    ensures
        final(img).wf(),
        final(img)@.width == old(img)@.width,
        final(img)@.height == old(img)@.height,
        final(img)@.pixels == keyed(old(img)@.pixels, key),
        key.a != 0 ==> forall|i: int|
            0 <= i < final(img)@.pixels.len() ==> !(#[trigger] final(img)@.pixels[i]).is_transparent(),
{
    let count: usize = img.pixel_count();
    let mut i: usize = 0;
    while i < count
        invariant
            img.wf(),
            img@.width == old(img)@.width,
            img@.height == old(img)@.height,
            count == old(img)@.pixels.len(),
            img@.pixels.len() == count,
            i <= count,
            forall|j: int| 0 <= j < i ==> img@.pixels[j] == keyed(old(img)@.pixels, key)[j],
            forall|j: int| i <= j < count ==> img@.pixels[j] == old(img)@.pixels[j],
        decreases count - i,
    {
        if img.get_pixel_at(i).a == 0 {
            img.set_pixel_at(i, key);
        }
        i = i + 1;
    }
    assert(img@.pixels =~= keyed(old(img)@.pixels, key));
}

/// Runs the keyer on an image: where `should_key_image` asks for it and an unused color
/// exists, the image is keyed and that color returned; otherwise the image is left as it
/// is and the answer is `Color::none()`.
pub fn run_keyer(img: &mut PixelBuffer) -> (key: Color)
    requires
        old(img).wf(),
    ensures
        final(img).wf(),
        key == key_choice(old(img)@),
        final(img)@ == keyed_image(old(img)@),
        key != Color::none() ==> forall|i: int|
            0 <= i < final(img)@.pixels.len() ==> !(#[trigger] final(img)@.pixels[i]).is_transparent(),
{
    if should_key_image(img) {
        match find_unused_color_in_image(img) {
            Ok(key) => {
                apply_keying(img, key);
                key
            },
            Err(_) => Color::default(),
        }
    } else {
        Color::default()
    }
}

} // verus!
