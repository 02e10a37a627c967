//! Counting an image's pure red, green and blue pixels, and presenting the shares.
use vstd::prelude::*;
use crate::ansi_codes::{AnsiFontColors, AnsiFontStyles};
use crate::ansi_style::{font_and_style, font_style, params2, styled};
use crate::text::{int_text, nat_text, push_str, push_wide_nat};

verus! {

/// How many pixels fell in each class.
pub struct PixelCounts {
    pub red: u64,
    pub green: u64,
    pub blue: u64,
    pub other: u64,
}

/// The class a pixel's channels fall in, judged by its first three channels
/// (red, green, blue) whatever follows them (alpha): 0 for pure red `(255, 0, 0)`,
/// 1 for pure green `(0, 255, 0)`, 2 for pure blue `(0, 0, 255)`, and 3 for any
/// other pixel, including one with fewer than three channels.
pub open spec fn pixel_class(px: Seq<u8>) -> int {
    if px.len() < 3 {
        3
    } else if px[0] == 255 && px[1] == 0 && px[2] == 0 {
        0
    } else if px[0] == 0 && px[1] == 255 && px[2] == 0 {
        1
    } else if px[0] == 0 && px[1] == 0 && px[2] == 255 {
        2
    } else {
        3
    }
}

/// The number of pixels among `ps` of class `c`.
pub open spec fn class_count(ps: Seq<Vec<u8>>, c: int) -> nat
    decreases ps.len(),
{
    if ps.len() == 0 {
        0
    } else {
        class_count(ps.drop_last(), c) + if pixel_class(ps.last()@) == c {
            1nat
        } else {
            0nat
        }
    }
}

/// `r` holds the counts of each class among `ps`.
pub open spec fn counts_of(ps: Seq<Vec<u8>>, r: PixelCounts) -> bool {
    &&& r.red == class_count(ps, 0)
    &&& r.green == class_count(ps, 1)
    &&& r.blue == class_count(ps, 2)
    &&& r.other == class_count(ps, 3)
}

proof fn lemma_class_counts_bounded(ps: Seq<Vec<u8>>)
    ensures
        class_count(ps, 0) + class_count(ps, 1) + class_count(ps, 2) + class_count(ps, 3)
            == ps.len(),
    decreases ps.len(),
{
    if ps.len() > 0 {
        lemma_class_counts_bounded(ps.drop_last());
    }
}

fn class_of(px: &Vec<u8>) -> (c: u8)
    ensures
        c == pixel_class(px@),
{
    if px.len() < 3 {
        return 3;
    }
    let (r, g, b) = (px[0], px[1], px[2]);
    if r == 255 && g == 0 && b == 0 {
        0
    } else if r == 0 && g == 255 && b == 0 {
        1
    } else if r == 0 && g == 0 && b == 255 {
        2
    } else {
        3
    }
}

/// Counts the pixels of each class, each pixel given by its channels.
pub fn count_pixel_colors(pixels: &Vec<Vec<u8>>) -> (r: PixelCounts)
    ensures
        counts_of(pixels@, r),
{
    let mut r = PixelCounts { red: 0, green: 0, blue: 0, other: 0 };
    let mut i: usize = 0;
    while i < pixels.len()
        invariant
            i <= pixels@.len(),
            counts_of(pixels@.take(i as int), r),
        decreases pixels@.len() - i,
    {
        proof {
            lemma_class_counts_bounded(pixels@.take(i as int));
            assert(pixels@.take(i as int + 1).drop_last() =~= pixels@.take(i as int));
        }
        let c = class_of(&pixels[i]);
        if c == 0 {
            r.red = r.red + 1;
        } else if c == 1 {
            r.green = r.green + 1;
        } else if c == 2 {
            r.blue = r.blue + 1;
        } else {
            r.other = r.other + 1;
        }
        i += 1;
    }
    assert(pixels@.take(pixels@.len() as int) =~= pixels@);
    r
}

/// The share `value / max` in whole percent, rounded down.
pub open spec fn percent_value(max: nat, value: nat) -> nat
    recommends
        max > 0,
{
    value * 100 / max
}

/// The text of the share `value / max` in whole percent, rounded down.
pub fn convert_to_percent(max: u64, value: u64) -> (r: String)
    requires
        max > 0,
    ensures
        r@ == nat_text(percent_value(max as nat, value as nat)),
{
    let p: u128 = (value as u128) * 100 / (max as u128);
    let mut s = String::new();
    push_wide_nat(&mut s, p);
    assert(s@ =~= nat_text(percent_value(max as nat, value as nat)));
    s
}

/// The share lines for a count of `total` pixels.
pub open spec fn pixels_info_text(total: nat, red: nat, green: nat, blue: nat, other: nat) -> Seq<
    char,
> {
    "|-["@ + styled(params2(1, 31), "Red"@) + "]-> ("@ + styled(
        int_text(1),
        nat_text(percent_value(total, red)),
    ) + " %)\n|-["@ + styled(params2(1, 32), "Green"@) + "]-> ("@ + styled(
        int_text(1),
        nat_text(percent_value(total, green)),
    ) + " %)\n|-["@ + styled(params2(1, 34), "Blue"@) + "]-> ("@ + styled(
        int_text(1),
        nat_text(percent_value(total, blue)),
    ) + " %)\n|-["@ + styled(params2(1, 90), "Other"@) + "]-> ("@ + styled(
        int_text(1),
        nat_text(percent_value(total, other)),
    ) + " %)"@
}

fn push_share(s: &mut String, lead: &str, label: &str, color: i32, total: u64, value: u64)
    requires
        total > 0,
    ensures
        final(s)@ == old(s)@ + lead@ + styled(params2(1, color as int), label@) + "]-> ("@
            + styled(int_text(1), nat_text(percent_value(total as nat, value as nat))),
{
    let st = AnsiFontStyles::standard();
    push_str(s, lead);
    let part = font_and_style(st.bold, color, label);
    push_str(s, part.as_str());
    push_str(s, "]-> (");
    let pct = convert_to_percent(total, value);
    let part = font_style(st.bold, pct.as_str());
    push_str(s, part.as_str());
}

/// The share of each class among the image's `total` pixels.
pub fn pixels_info(total: u64, c: &PixelCounts) -> (r: String)
    requires
        total > 0,
    ensures
        r@ == pixels_info_text(
            total as nat,
            c.red as nat,
            c.green as nat,
            c.blue as nat,
            c.other as nat,
        ),
{
    let fc = AnsiFontColors::standard();
    let mut s = String::new();
    push_share(&mut s, "|-[", "Red", fc.f_red, total, c.red);
    push_share(&mut s, " %)\n|-[", "Green", fc.f_green, total, c.green);
    push_share(&mut s, " %)\n|-[", "Blue", fc.f_blue, total, c.blue);
    push_share(&mut s, " %)\n|-[", "Other", fc.f_gray, total, c.other);
    push_str(&mut s, " %)");
    assert(s@ =~= pixels_info_text(
        total as nat,
        c.red as nat,
        c.green as nat,
        c.blue as nat,
        c.other as nat,
    ));
    s
}

/// Counts the classes of `pixels` and presents their shares.
pub fn get_all_image_pixels_info(pixels: &Vec<Vec<u8>>) -> (r: String)
    requires
        pixels@.len() > 0,
    ensures
        r@ == pixels_info_text(
            pixels@.len(),
            class_count(pixels@, 0),
            class_count(pixels@, 1),
            class_count(pixels@, 2),
            class_count(pixels@, 3),
        ),
{
    let c = count_pixel_colors(pixels);
    let r = pixels_info(pixels.len() as u64, &c);
    r
}

} // verus!
