//! The title shown above a running task and the progress messages of a scan.
use vstd::prelude::*;
use crate::ansi_codes::{
    background_colors_list, background_colors_seq, font_colors_list, font_colors_seq,
    font_styles_list, font_styles_seq,
};
use crate::ansi_style::{background_color, font_color, font_style, styled};
use crate::random::random_below;
use crate::scan::ProgressEvent;
use crate::text::{int_text, nat_text, push_nat, push_str};

verus! {

/// The title for `task` in the given colours and style.
pub open spec fn title_text(task: Seq<char>, font: int, background: int, style: int) -> Seq<char> {
    "|["@ + styled(int_text(background), "     "@) + "]-["@ + styled(
        int_text(font),
        "Please, wait."@,
    ) + "]-("@ + styled(int_text(style), task) + ")"@
}

/// The title for `task`, with the colours and style at the given positions of
/// the lists of codes.
pub fn progress_bar_title(
    task_name: &str,
    font_index: usize,
    background_index: usize,
    style_index: usize,
) -> (r: String)
    requires
        font_index < 16,
        background_index < 16,
        style_index < 6,
    ensures
        r@ == title_text(
            task_name@,
            font_colors_seq()[font_index as int] as int,
            background_colors_seq()[background_index as int] as int,
            font_styles_seq()[style_index as int] as int,
        ),
{
    let fcs = font_colors_list();
    let bgs = background_colors_list();
    let sts = font_styles_list();
    let mut s = String::new();
    push_str(&mut s, "|[");
    let part = background_color(bgs[background_index], "     ");
    push_str(&mut s, part.as_str());
    push_str(&mut s, "]-[");
    let part = font_color(fcs[font_index], "Please, wait.");
    push_str(&mut s, part.as_str());
    push_str(&mut s, "]-(");
    let part = font_style(sts[style_index], task_name);
    push_str(&mut s, part.as_str());
    push_str(&mut s, ")");
    assert(s@ =~= title_text(
        task_name@,
        font_colors_seq()[font_index as int] as int,
        background_colors_seq()[background_index as int] as int,
        font_styles_seq()[style_index as int] as int,
    ));
    s
}

/// The title for `task_name` in a colour, background and style drawn at random
/// from the lists of codes.
pub fn draw_progress_bar_title(task_name: &str) -> (r: String)
    ensures
        exists|f: int, b: int, st: int|
            0 <= f < 16 && 0 <= b < 16 && 0 <= st < 6 && r@ == title_text(
                task_name@,
                font_colors_seq()[f] as int,
                background_colors_seq()[b] as int,
                font_styles_seq()[st] as int,
            ),
{
    let f = random_below(16) as usize;
    let b = random_below(16) as usize;
    let st = random_below(6) as usize;
    progress_bar_title(task_name, f, b, st)
}

/// The message shown while the root of event `ev` is walked.
pub open spec fn progress_text(ev: ProgressEvent) -> Seq<char> {
    "Scanned dirs ("@ + nat_text(ev.roots_scanned as nat) + ")/("@ + nat_text(
        ev.roots_total as nat,
    ) + ") => images found: ["@ + nat_text(ev.matches_so_far as nat) + "]\ndir: \u{2022} \""@
        + ev.current_root_path@ + "\" \u{1f50e}"@
}

/// The message shown while the root of event `ev` is walked: the roots finished
/// before it, the number of roots, the matches so far and its path.
pub fn progress_message(ev: &ProgressEvent) -> (r: String)
    ensures
        r@ == progress_text(*ev),
{
    let mut s = String::new();
    push_str(&mut s, "Scanned dirs (");
    push_nat(&mut s, ev.roots_scanned as u64);
    push_str(&mut s, ")/(");
    push_nat(&mut s, ev.roots_total as u64);
    push_str(&mut s, ") => images found: [");
    push_nat(&mut s, ev.matches_so_far);
    push_str(&mut s, "]\ndir: \u{2022} \"");
    push_str(&mut s, ev.current_root_path.as_str());
    push_str(&mut s, "\" \u{1f50e}");
    assert(s@ =~= progress_text(*ev));
    s
}

} // verus!
