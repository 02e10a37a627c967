//! Wrapping text in ANSI escape sequences.
use vstd::prelude::*;
use crate::ansi_codes::RESET;
use crate::text::{int_text, nat_text, push_char, push_int, push_nat, push_str};

verus! {

/// `ESC [ params m`: one Select Graphic Rendition sequence.
pub open spec fn sgr(params: Seq<char>) -> Seq<char> {
    seq!['\x1b', '['] + params + seq!['m']
}

/// The sequence that resets every attribute.
pub open spec fn reset_text() -> Seq<char> {
    sgr(nat_text(RESET as nat))
}

/// `content` shown with the attributes `params`, followed by a reset.
pub open spec fn styled(params: Seq<char>, content: Seq<char>) -> Seq<char> {
    sgr(params) + content + reset_text()
}

/// Parameters of two codes, `a;b`.
pub open spec fn params2(a: int, b: int) -> Seq<char> {
    int_text(a) + seq![';'] + int_text(b)
}

/// Parameters of three codes, `a;b;c`.
pub open spec fn params3(a: int, b: int, c: int) -> Seq<char> {
    int_text(a) + seq![';'] + int_text(b) + seq![';'] + int_text(c)
}

fn push_sgr_start(s: &mut String)
    ensures
        final(s)@ == old(s)@ + seq!['\x1b', '['],
{
    push_char(s, '\x1b');
    push_char(s, '[');
    assert(final(s)@ =~= old(s)@ + seq!['\x1b', '[']);
}

fn push_styled_tail(s: &mut String, content: &str)
    ensures
        final(s)@ == old(s)@ + seq!['m'] + content@ + reset_text(),
{
    push_char(s, 'm');
    push_str(s, content);
    let r = reset_all();
    push_str(s, r.as_str());
    assert(final(s)@ =~= old(s)@ + seq!['m'] + content@ + reset_text());
}

/// The sequence that resets colour, background and style.
pub fn reset_all() -> (r: String)
    ensures
        r@ == reset_text(),
{
    let mut s = String::new();
    push_sgr_start(&mut s);
    push_nat(&mut s, RESET as u64);
    push_char(&mut s, 'm');
    assert(s@ =~= reset_text());
    s
}

/// `content` in the foreground colour `font_color_code`.
pub fn font_color(font_color_code: i32, content: &str) -> (r: String)
    ensures
        r@ == styled(int_text(font_color_code as int), content@),
{
    let mut s = String::new();
    push_sgr_start(&mut s);
    push_int(&mut s, font_color_code as i64);
    push_styled_tail(&mut s, content);
    assert(s@ =~= styled(int_text(font_color_code as int), content@));
    s
}

/// `content` on the background colour `background_color_code`.
pub fn background_color(background_color_code: i32, content: &str) -> (r: String)
    ensures
        r@ == styled(int_text(background_color_code as int), content@),
{
    let mut s = String::new();
    push_sgr_start(&mut s);
    push_int(&mut s, background_color_code as i64);
    push_styled_tail(&mut s, content);
    assert(s@ =~= styled(int_text(background_color_code as int), content@));
    s
}

/// `content` in the style `style_code`.
pub fn font_style(style_code: i8, content: &str) -> (r: String)
    ensures
        r@ == styled(int_text(style_code as int), content@),
{
    let mut s = String::new();
    push_sgr_start(&mut s);
    push_int(&mut s, style_code as i64);
    push_styled_tail(&mut s, content);
    assert(s@ =~= styled(int_text(style_code as int), content@));
    s
}

/// `content` in the style `style_code` and the foreground colour `font_code`.
pub fn font_and_style(style_code: i8, font_code: i32, content: &str) -> (r: String)
    ensures
        r@ == styled(params2(style_code as int, font_code as int), content@),
{
    let mut s = String::new();
    push_sgr_start(&mut s);
    push_int(&mut s, style_code as i64);
    push_char(&mut s, ';');
    push_int(&mut s, font_code as i64);
    push_styled_tail(&mut s, content);
    assert(s@ =~= styled(params2(style_code as int, font_code as int), content@));
    s
}

/// `content` in the style `style_code`, the foreground colour `font_color_code`
/// and the background colour `background_color_code`.
pub fn full_style(
    font_color_code: i32,
    background_color_code: i32,
    style_code: i8,
    content: &str,
) -> (r: String)
    ensures
        r@ == styled(
            params3(style_code as int, font_color_code as int, background_color_code as int),
            content@,
        ),
{
    let mut s = String::new();
    push_sgr_start(&mut s);
    push_int(&mut s, style_code as i64);
    push_char(&mut s, ';');
    push_int(&mut s, font_color_code as i64);
    push_char(&mut s, ';');
    push_int(&mut s, background_color_code as i64);
    push_styled_tail(&mut s, content);
    assert(s@ =~= styled(
        params3(style_code as int, font_color_code as int, background_color_code as int),
        content@,
    ));
    s
}

} // verus!
