//! ANSI SGR parameter codes for text colour, background and style.
use vstd::prelude::*;

verus! {

/// The code that resets every attribute.
pub const RESET: u8 = 0;

/// Foreground colour codes.
pub struct AnsiFontColors {
    pub f_red: i32,
    pub f_green: i32,
    pub f_blue: i32,
    pub f_black: i32,
    pub f_yellow: i32,
    pub f_cyan: i32,
    pub f_purple: i32,
    pub f_white: i32,
    pub f_gray: i32,
    pub f_light_red: i32,
    pub f_light_green: i32,
    pub f_light_blue: i32,
    pub f_light_yellow: i32,
    pub f_light_purple: i32,
    pub f_light_white: i32,
}

/// Background colour codes.
pub struct AnsiBackgroundColors {
    pub b_red: i32,
    pub b_green: i32,
    pub b_blue: i32,
    pub b_black: i32,
    pub b_yellow: i32,
    pub b_cyan: i32,
    pub b_purple: i32,
    pub b_white: i32,
    pub b_gray: i32,
    pub b_light_red: i32,
    pub b_light_green: i32,
    pub b_light_blue: i32,
    pub b_light_yellow: i32,
    pub b_light_purple: i32,
    pub b_light_white: i32,
}

/// Text style codes.
pub struct AnsiFontStyles {
    pub bold: i8,
    pub italic: i8,
    pub underline: i8,
    pub reverse: i8,
    pub dim: i8,
    pub strike_through: i8,
}

impl AnsiFontColors {
    /// The standard terminal foreground codes.
    pub fn standard() -> (r: AnsiFontColors)
        ensures
            r.f_red == 31 && r.f_green == 32 && r.f_blue == 34 && r.f_black == 30,
            r.f_yellow == 33 && r.f_cyan == 36 && r.f_purple == 35 && r.f_white == 37,
            r.f_gray == 90 && r.f_light_red == 91 && r.f_light_green == 92,
            r.f_light_blue == 94 && r.f_light_yellow == 93 && r.f_light_purple == 95,
            r.f_light_white == 97,
    {
        AnsiFontColors {
            f_red: 31,
            f_green: 32,
            f_blue: 34,
            f_black: 30,
            f_yellow: 33,
            f_cyan: 36,
            f_purple: 35,
            f_white: 37,
            f_gray: 90,
            f_light_red: 91,
            f_light_green: 92,
            f_light_blue: 94,
            f_light_yellow: 93,
            f_light_purple: 95,
            f_light_white: 97,
        }
    }
}

impl AnsiBackgroundColors {
    /// The standard terminal background codes.
    pub fn standard() -> (r: AnsiBackgroundColors)
        ensures
            r.b_red == 41 && r.b_green == 42 && r.b_blue == 44 && r.b_black == 40,
            r.b_yellow == 43 && r.b_cyan == 46 && r.b_purple == 45 && r.b_white == 47,
            r.b_gray == 100 && r.b_light_red == 101 && r.b_light_green == 102,
            r.b_light_blue == 104 && r.b_light_yellow == 103 && r.b_light_purple == 105,
            r.b_light_white == 107,
    {
        AnsiBackgroundColors {
            b_red: 41,
            b_green: 42,
            b_blue: 44,
            b_black: 40,
            b_yellow: 43,
            b_cyan: 46,
            b_purple: 45,
            b_white: 47,
            b_gray: 100,
            b_light_red: 101,
            b_light_green: 102,
            b_light_blue: 104,
            b_light_yellow: 103,
            b_light_purple: 105,
            b_light_white: 107,
        }
    }
}

impl AnsiFontStyles {
    /// The standard terminal style codes.
    pub fn standard() -> (r: AnsiFontStyles)
        ensures
            r.bold == 1 && r.italic == 3 && r.underline == 4,
            r.reverse == 7 && r.dim == 2 && r.strike_through == 9,
    {
        AnsiFontStyles { bold: 1, italic: 3, underline: 4, reverse: 7, dim: 2, strike_through: 9 }
    }
}

/// The foreground codes a random title colour is drawn from, in order.
pub open spec fn font_colors_seq() -> Seq<i32> {
    seq![31, 32, 34, 30, 33, 36, 35, 37, 90, 91, 92, 94, 93, 35, 97, 95]
}

/// The background codes a random title colour is drawn from, in order.
pub open spec fn background_colors_seq() -> Seq<i32> {
    seq![41, 42, 44, 40, 43, 46, 45, 47, 100, 101, 102, 104, 103, 45, 107, 105]
}

/// The style codes a random title style is drawn from, in order.
pub open spec fn font_styles_seq() -> Seq<i8> {
    seq![1, 3, 7, 4, 2, 9]
}

/// The list of foreground codes.
pub fn font_colors_list() -> (r: [i32; 16])
    ensures
        r@ == font_colors_seq(),
{
    let r = [31, 32, 34, 30, 33, 36, 35, 37, 90, 91, 92, 94, 93, 35, 97, 95];
    assert(r@ =~= font_colors_seq());
    r
}

/// The list of background codes.
pub fn background_colors_list() -> (r: [i32; 16])
    ensures
        r@ == background_colors_seq(),
{
    let r = [41, 42, 44, 40, 43, 46, 45, 47, 100, 101, 102, 104, 103, 45, 107, 105];
    assert(r@ =~= background_colors_seq());
    r
}

/// The list of style codes.
pub fn font_styles_list() -> (r: [i8; 6])
    ensures
        r@ == font_styles_seq(),
{
    let r = [1, 3, 7, 4, 2, 9];
    assert(r@ =~= font_styles_seq());
    r
}

} // verus!
