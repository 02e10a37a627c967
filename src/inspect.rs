//! The texts that present one image: its basic facts, and its Exif metadata.
use vstd::prelude::*;
use crate::ansi_codes::{AnsiBackgroundColors, AnsiFontColors, AnsiFontStyles};
use crate::ansi_style::{background_color, font_style, full_style, params3, styled};
use crate::random::random_below;
use crate::size::{adapt_file_size, human_size};
use crate::text::{int_text, nat_text, push_char, push_nat, push_str};

verus! {

/// One Exif field: its tag and its value, both as display text.
pub struct ExifField {
    pub tag: String,
    pub value: String,
}

pub const IMAGE_PART_0: &'static str = "|-Image dimensions: (";

pub const IMAGE_PART_1: &'static str = ")px\n|-Image color model: ";

pub const IMAGE_PART_2: &'static str = "\n|-Image file name: ";

pub const IMAGE_PART_3: &'static str = "\n|-Image file extension: ";

pub const IMAGE_PART_4: &'static str = "\n|-Image file size: ";

pub const IMAGE_PART_5: &'static str = "\n|-Image pixels info:\n";

/// The facts of one image.
pub open spec fn image_data_text(
    width: nat,
    height: nat,
    color_model: Seq<char>,
    file_name: Seq<char>,
    file_extension: Seq<char>,
    file_size: nat,
    pixels_info: Seq<char>,
) -> Seq<char> {
    IMAGE_PART_0@ + nat_text(width) + seq!['x'] + nat_text(height) + IMAGE_PART_1@ + color_model
        + IMAGE_PART_2@ + file_name + IMAGE_PART_3@ + file_extension + IMAGE_PART_4@ + human_size(
        file_size,
    ) + IMAGE_PART_5@ + pixels_info + seq!['\n', '|']
}

/// The facts of one image: its dimensions, colour model, file name and
/// extension, size in bytes as human-readable text, and the pixel shares.
pub fn image_data_message(
    width: u32,
    height: u32,
    color_model: &str,
    file_name: &str,
    file_extension: &str,
    file_size_in_bytes: u64,
    pixels_info: &str,
) -> (r: String)
    ensures
        r@ == image_data_text(
            width as nat,
            height as nat,
            color_model@,
            file_name@,
            file_extension@,
            file_size_in_bytes as nat,
            pixels_info@,
        ),
{
    let mut s = String::new();
    push_str(&mut s, IMAGE_PART_0);
    push_nat(&mut s, width as u64);
    push_char(&mut s, 'x');
    push_nat(&mut s, height as u64);
    push_str(&mut s, IMAGE_PART_1);
    push_str(&mut s, color_model);
    push_str(&mut s, IMAGE_PART_2);
    push_str(&mut s, file_name);
    push_str(&mut s, IMAGE_PART_3);
    push_str(&mut s, file_extension);
    push_str(&mut s, IMAGE_PART_4);
    let size = adapt_file_size(file_size_in_bytes);
    push_str(&mut s, size.as_str());
    push_str(&mut s, IMAGE_PART_5);
    push_str(&mut s, pixels_info);
    push_char(&mut s, '\n');
    push_char(&mut s, '|');
    assert(s@ =~= image_data_text(
        width as nat,
        height as nat,
        color_model@,
        file_name@,
        file_extension@,
        file_size_in_bytes as nat,
        pixels_info@,
    ));
    s
}

/// The message for an image that could not be opened.
pub open spec fn open_error_text(path: Seq<char>, error: Seq<char>) -> Seq<char> {
    "|-["@ + styled(params3(1, 37, 41), "Error!"@) + "] Image from path ["@ + styled(
        int_text(102),
        path,
    ) + "] couldn't open.\n|-"@ + error + seq!['\n', '|']
}

/// The message for an image at `path` that could not be opened, with the reason.
pub fn open_error_message(path: &str, error: &str) -> (r: String)
    ensures
        r@ == open_error_text(path@, error@),
{
    let fc = AnsiFontColors::standard();
    let bg = AnsiBackgroundColors::standard();
    let st = AnsiFontStyles::standard();
    let mut s = String::new();
    push_str(&mut s, "|-[");
    let part = full_style(fc.f_white, bg.b_red, st.bold, "Error!");
    push_str(&mut s, part.as_str());
    push_str(&mut s, "] Image from path [");
    let part = background_color(bg.b_light_green, path);
    push_str(&mut s, part.as_str());
    push_str(&mut s, "] couldn't open.\n|-");
    push_str(&mut s, error);
    push_char(&mut s, '\n');
    push_char(&mut s, '|');
    assert(s@ =~= open_error_text(path@, error@));
    s
}

/// The message for a format that carries no Exif metadata.
pub open spec fn exif_unsupported_text(ext: Seq<char>) -> Seq<char> {
    "|-Sorry, this image format-> |"@ + ext + "| not support "@ + styled(int_text(1), "Exif"@)
        + " metadata.\n|-Supporting formats -> ["@ + styled(
        params3(1, 30, 104),
        "JPEG, JPG, TIFF, HEIF, WEBP"@,
    ) + seq![']', '\n', '|']
}

/// The message for an extension whose format carries no Exif metadata.
pub fn exif_unsupported_message(file_extension: &str) -> (r: String)
    ensures
        r@ == exif_unsupported_text(file_extension@),
{
    let fc = AnsiFontColors::standard();
    let bg = AnsiBackgroundColors::standard();
    let st = AnsiFontStyles::standard();
    let mut s = String::new();
    push_str(&mut s, "|-Sorry, this image format-> |");
    push_str(&mut s, file_extension);
    push_str(&mut s, "| not support ");
    let part = font_style(st.bold, "Exif");
    push_str(&mut s, part.as_str());
    push_str(&mut s, " metadata.\n|-Supporting formats -> [");
    let part = full_style(fc.f_black, bg.b_light_blue, st.bold, "JPEG, JPG, TIFF, HEIF, WEBP");
    push_str(&mut s, part.as_str());
    push_char(&mut s, ']');
    push_char(&mut s, '\n');
    push_char(&mut s, '|');
    assert(s@ =~= exif_unsupported_text(file_extension@));
    s
}

/// The message for metadata that could not be read, with the reason.
pub open spec fn exif_failure_text(error: Seq<char>) -> Seq<char> {
    "|-Image "@ + styled(int_text(1), "Exif"@) + " Exif metadata not fetched!\n|-["@ + styled(
        params3(1, 37, 41),
        "Error!"@,
    ) + "]->"@ + error + seq!['\n', '|']
}

/// The message for metadata that could not be read, with the reason.
pub fn exif_failure_message(error: &str) -> (r: String)
    ensures
        r@ == exif_failure_text(error@),
{
    let fc = AnsiFontColors::standard();
    let bg = AnsiBackgroundColors::standard();
    let st = AnsiFontStyles::standard();
    let mut s = String::new();
    push_str(&mut s, "|-Image ");
    let part = font_style(st.bold, "Exif");
    push_str(&mut s, part.as_str());
    push_str(&mut s, " Exif metadata not fetched!\n|-[");
    let part = full_style(fc.f_white, bg.b_red, st.bold, "Error!");
    push_str(&mut s, part.as_str());
    push_str(&mut s, "]->");
    push_str(&mut s, error);
    push_char(&mut s, '\n');
    push_char(&mut s, '|');
    assert(s@ =~= exif_failure_text(error@));
    s
}

/// The line of the field at position `index` (counting from one).
pub open spec fn exif_line_text(index: nat, f: ExifField) -> Seq<char> {
    "|-["@ + nat_text(index) + "]->|"@ + f.tag@ + seq!['|', '\t'] + f.value@ + seq!['\n']
}

/// The lines of `fs`, numbered from one.
pub open spec fn exif_lines_text(fs: Seq<ExifField>) -> Seq<char>
    decreases fs.len(),
{
    if fs.len() == 0 {
        Seq::empty()
    } else {
        exif_lines_text(fs.drop_last()) + exif_line_text(fs.len(), fs.last())
    }
}

/// The lines of `fields`, numbered from one: what is saved to the output file.
pub fn exif_lines(fields: &Vec<ExifField>) -> (r: String)
    ensures
        r@ == exif_lines_text(fields@),
{
    let mut s = String::new();
    let mut i: usize = 0;
    while i < fields.len()
        invariant
            i <= fields@.len(),
            s@ == exif_lines_text(fields@.take(i as int)),
        decreases fields@.len() - i,
    {
        let f = &fields[i];
        push_str(&mut s, "|-[");
        push_nat(&mut s, i as u64 + 1);
        push_str(&mut s, "]->|");
        push_str(&mut s, f.tag.as_str());
        push_char(&mut s, '|');
        push_char(&mut s, '\t');
        push_str(&mut s, f.value.as_str());
        push_char(&mut s, '\n');
        proof {
            let next = fields@.take(i as int + 1);
            assert(next.drop_last() =~= fields@.take(i as int));
            assert(next.last() == fields@[i as int]);
            assert(s@ =~= exif_lines_text(next));
        }
        i += 1;
    }
    assert(fields@.take(fields@.len() as int) =~= fields@);
    s
}

pub const EXIF_HEAD_1: &'static str = " metadata fetched succesfully!\n|-Image filename-> ";

pub const EXIF_HEAD_3: &'static str =
    "\n|===================================================|\n|\n";

/// The report of fetched metadata: a heading, the numbered fields, and where the
/// fields were saved.
pub open spec fn exif_success_text(
    file_name: Seq<char>,
    file_extension: Seq<char>,
    fs: Seq<ExifField>,
    output_path: Seq<char>,
) -> Seq<char> {
    "|-Image "@ + styled(int_text(1), "Exif"@) + EXIF_HEAD_1@ + file_name + ", type-> "@
        + file_extension + ", exif entries-> "@ + nat_text(fs.len()) + EXIF_HEAD_3@
        + exif_lines_text(fs) + (if fs.len() > 0 {
        seq!['|']
    } else {
        Seq::empty()
    }) + "\n|-["@ + styled(params3(1, 37, 103), "Output txt file created!"@)
        + "]-> See in path: "@ + styled(params3(3, 97, 40), output_path) + seq!['\n', '|']
}

/// The report of fetched metadata for the file `file_name`, whose fields were
/// saved at `output_path`.
pub fn exif_success_message(
    file_name: &str,
    file_extension: &str,
    fields: &Vec<ExifField>,
    output_path: &str,
) -> (r: String)
    ensures
        r@ == exif_success_text(file_name@, file_extension@, fields@, output_path@),
{
    let fc = AnsiFontColors::standard();
    let bg = AnsiBackgroundColors::standard();
    let st = AnsiFontStyles::standard();
    let mut s = String::new();
    push_str(&mut s, "|-Image ");
    let part = font_style(st.bold, "Exif");
    push_str(&mut s, part.as_str());
    push_str(&mut s, EXIF_HEAD_1);
    push_str(&mut s, file_name);
    push_str(&mut s, ", type-> ");
    push_str(&mut s, file_extension);
    push_str(&mut s, ", exif entries-> ");
    push_nat(&mut s, fields.len() as u64);
    push_str(&mut s, EXIF_HEAD_3);
    let lines = exif_lines(fields);
    push_str(&mut s, lines.as_str());
    if fields.len() > 0 {
        push_char(&mut s, '|');
    }
    push_str(&mut s, "\n|-[");
    let part = full_style(fc.f_white, bg.b_light_yellow, st.bold, "Output txt file created!");
    push_str(&mut s, part.as_str());
    push_str(&mut s, "]-> See in path: ");
    let part = full_style(fc.f_light_white, bg.b_black, st.italic, output_path);
    push_str(&mut s, part.as_str());
    push_char(&mut s, '\n');
    push_char(&mut s, '|');
    assert(s@ =~= exif_success_text(file_name@, file_extension@, fields@, output_path@));
    s
}

/// `theme`, two spaces, `filename`, two spaces, `number`, then `extension`.
pub open spec fn filename_text(
    theme: Seq<char>,
    filename: Seq<char>,
    number: nat,
    extension: Seq<char>,
) -> Seq<char> {
    theme + seq![' ', ' '] + filename + seq![' ', ' '] + nat_text(number) + extension
}

/// The name `theme  filename  number` followed by `extension`.
pub fn numbered_filename(theme: &str, filename: &str, number: u32, extension: &str) -> (r: String)
    ensures
        r@ == filename_text(theme@, filename@, number as nat, extension@),
{
    let mut s = String::new();
    push_str(&mut s, theme);
    push_char(&mut s, ' ');
    push_char(&mut s, ' ');
    push_str(&mut s, filename);
    push_char(&mut s, ' ');
    push_char(&mut s, ' ');
    push_nat(&mut s, number as u64);
    push_str(&mut s, extension);
    assert(s@ =~= filename_text(theme@, filename@, number as nat, extension@));
    s
}

/// A file name unlikely to clash: `theme  filename  N` followed by `extension`,
/// with `N` drawn at random below 100000.
pub fn generate_filename(theme: &str, filename: &str, extension: &str) -> (r: String)
    ensures
        exists|n: nat| n < 100000 && r@ == filename_text(theme@, filename@, n, extension@),
{
    let n = random_below(100000);
    let r = numbered_filename(theme, filename, n, extension);
    assert(r@ == filename_text(theme@, filename@, n as nat, extension@));
    r
}

} // verus!
