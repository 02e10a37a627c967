//! The texts that present the outcome of sizing the images of one extension.
use vstd::prelude::*;
use crate::ansi_codes::{AnsiBackgroundColors, AnsiFontColors, AnsiFontStyles};
use crate::ansi_style::{font_and_style, font_style, full_style, params2, params3, styled};
use crate::scan::{PerRootTally, ScanError, ScanOutcome, ScanResult};
use crate::size::{adapt_file_size, human_size};
use crate::text::{int_text, nat_text, push_nat, push_str};

verus! {

pub const NOT_IMAGE_TAIL: &'static str = ")->This is not image!";

pub const NOT_FOUND_PART_1: &'static str = "]-> Images with this extension |";

pub const NOT_FOUND_PART_2: &'static str = "| not found in your computer!\n|[";

pub const NOT_FOUND_PART_3: &'static str =
    "]-App scans only the main directories of your computer\n|-where photos may be stored.\n|";

pub const FOUND_PART_0: &'static str = "|Found (";

pub const FOUND_PART_1: &'static str = ") image files with extension-> |";

pub const FOUND_PART_2: &'static str = "| in directories:\n|\n|All size (";

pub const FOUND_PART_3: &'static str = ")\n|\n";

/// The error shown for an extension that is not an image format.
pub open spec fn not_image_text(ext: Seq<char>) -> Seq<char> {
    "|["@ + styled(params3(1, 37, 41), "Error!"@) + "]->("@ + styled(int_text(4), ext)
        + NOT_IMAGE_TAIL@
}

/// The message shown when no file of extension `ext` was found.
pub open spec fn not_found_text(ext: Seq<char>) -> Seq<char> {
    "|["@ + styled(params3(1, 37, 41), "Images not found!"@) + NOT_FOUND_PART_1@ + styled(
        params2(4, 32),
        ext,
    ) + NOT_FOUND_PART_2@ + styled(params3(1, 37, 44), "Description"@) + NOT_FOUND_PART_3@
}

/// The line that presents one root's tally.
pub open spec fn root_line_text(t: PerRootTally) -> Seq<char> {
    "|-["@ + styled(params2(3, 36), t.name@) + "]->["@ + styled(
        int_text(1),
        nat_text(t.file_count as nat),
    ) + " files]->["@ + styled(params2(1, 33), human_size(t.total_bytes as nat)) + "]\n"@
}

/// The lines of all tallies, in order.
pub open spec fn root_lines_text(ts: Seq<PerRootTally>) -> Seq<char>
    decreases ts.len(),
{
    if ts.len() == 0 {
        Seq::empty()
    } else {
        root_lines_text(ts.drop_last()) + root_line_text(ts.last())
    }
}

/// The summary of a scan that found files.
pub open spec fn found_text(res: ScanResult) -> Seq<char> {
    FOUND_PART_0@ + nat_text(res.total_files as nat) + FOUND_PART_1@ + styled(
        params2(4, 32),
        res.extension@,
    ) + FOUND_PART_2@ + styled(params2(1, 33), human_size(res.total_bytes as nat))
        + FOUND_PART_3@ + root_lines_text(res.per_root@) + "|"@
}

/// The message shown when a total of a scan does not fit in 64 bits.
pub open spec fn overflow_text() -> Seq<char> {
    OVERFLOW_MESSAGE@
}

pub const OVERFLOW_MESSAGE: &'static str =
    "|-The total size of the files found does not fit in 64 bits.\n|";

/// The text for an outcome of a request on extension `ext`.
pub open spec fn outcome_text(outcome: ScanOutcome, ext: Seq<char>) -> Seq<char> {
    match outcome {
        ScanOutcome::UnsupportedExtension => not_image_text(ext),
        ScanOutcome::NoMatchesFound(_) => not_found_text(ext),
        ScanOutcome::Found(res) => found_text(res),
    }
}

/// The error shown for an extension that is not an image format.
pub fn not_image_message(extension: &str) -> (r: String)
    ensures
        r@ == not_image_text(extension@),
{
    let fc = AnsiFontColors::standard();
    let bg = AnsiBackgroundColors::standard();
    let st = AnsiFontStyles::standard();
    let mut s = String::new();
    push_str(&mut s, "|[");
    let part = full_style(fc.f_white, bg.b_red, st.bold, "Error!");
    push_str(&mut s, part.as_str());
    push_str(&mut s, "]->(");
    let part = font_style(st.underline, extension);
    push_str(&mut s, part.as_str());
    push_str(&mut s, NOT_IMAGE_TAIL);
    assert(s@ =~= not_image_text(extension@));
    s
}

/// The message shown when no file of extension `extension` was found.
pub fn not_found_message(extension: &str) -> (r: String)
    ensures
        r@ == not_found_text(extension@),
{
    let fc = AnsiFontColors::standard();
    let bg = AnsiBackgroundColors::standard();
    let st = AnsiFontStyles::standard();
    let mut s = String::new();
    push_str(&mut s, "|[");
    let part = full_style(fc.f_white, bg.b_red, st.bold, "Images not found!");
    push_str(&mut s, part.as_str());
    push_str(&mut s, NOT_FOUND_PART_1);
    let part = font_and_style(st.underline, fc.f_green, extension);
    push_str(&mut s, part.as_str());
    push_str(&mut s, NOT_FOUND_PART_2);
    let part = full_style(fc.f_white, bg.b_blue, st.bold, "Description");
    push_str(&mut s, part.as_str());
    push_str(&mut s, NOT_FOUND_PART_3);
    assert(s@ =~= not_found_text(extension@));
    s
}

fn decimal(n: u64) -> (r: String)
    ensures
        r@ == nat_text(n as nat),
{
    let mut s = String::new();
    push_nat(&mut s, n);
    assert(s@ =~= nat_text(n as nat));
    s
}

/// The line that presents one root's tally.
pub fn root_line(t: &PerRootTally) -> (r: String)
    ensures
        r@ == root_line_text(*t),
{
    let fc = AnsiFontColors::standard();
    let st = AnsiFontStyles::standard();
    let mut s = String::new();
    push_str(&mut s, "|-[");
    let part = font_and_style(st.italic, fc.f_cyan, t.name.as_str());
    push_str(&mut s, part.as_str());
    push_str(&mut s, "]->[");
    let count = decimal(t.file_count);
    let part = font_style(st.bold, count.as_str());
    push_str(&mut s, part.as_str());
    push_str(&mut s, " files]->[");
    let size = adapt_file_size(t.total_bytes);
    let part = font_and_style(st.bold, fc.f_yellow, size.as_str());
    push_str(&mut s, part.as_str());
    push_str(&mut s, "]\n");
    assert(s@ =~= root_line_text(*t));
    s
}

/// The summary of a scan that found files: the count, the extension, the total
/// size, then one line per root in order.
pub fn found_message(res: &ScanResult) -> (r: String)
    ensures
        r@ == found_text(*res),
{
    let fc = AnsiFontColors::standard();
    let st = AnsiFontStyles::standard();
    let mut s = String::new();
    push_str(&mut s, FOUND_PART_0);
    push_nat(&mut s, res.total_files);
    push_str(&mut s, FOUND_PART_1);
    let part = font_and_style(st.underline, fc.f_green, res.extension.as_str());
    push_str(&mut s, part.as_str());
    push_str(&mut s, FOUND_PART_2);
    let size = adapt_file_size(res.total_bytes);
    let part = font_and_style(st.bold, fc.f_yellow, size.as_str());
    push_str(&mut s, part.as_str());
    push_str(&mut s, FOUND_PART_3);
    let ghost head = s@;
    let mut i: usize = 0;
    while i < res.per_root.len()
        invariant
            i <= res.per_root@.len(),
            s@ == head + root_lines_text(res.per_root@.take(i as int)),
        decreases res.per_root@.len() - i,
    {
        let line = root_line(&res.per_root[i]);
        push_str(&mut s, line.as_str());
        proof {
            let next = res.per_root@.take(i as int + 1);
            assert(next.drop_last() =~= res.per_root@.take(i as int));
            assert(next.last() == res.per_root@[i as int]);
        }
        i += 1;
    }
    assert(res.per_root@.take(res.per_root@.len() as int) =~= res.per_root@);
    push_str(&mut s, "|");
    assert(s@ =~= found_text(*res));
    s
}

/// The message for a scan stopped by `err`.
pub fn scan_error_message(err: &ScanError) -> (r: String)
    ensures
        r@ == overflow_text(),
{
    match err {
        ScanError::TotalOverflow => String::from_str(OVERFLOW_MESSAGE),
    }
}

/// The text for an outcome of a request on extension `extension`.
pub fn outcome_message(outcome: &ScanOutcome, extension: &str) -> (r: String)
    ensures
        r@ == outcome_text(*outcome, extension@),
{
    match outcome {
        ScanOutcome::UnsupportedExtension => not_image_message(extension),
        ScanOutcome::NoMatchesFound(_) => not_found_message(extension),
        ScanOutcome::Found(res) => found_message(res),
    }
}

} // verus!
