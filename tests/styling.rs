use image_info::ansi_codes::{AnsiBackgroundColors, AnsiFontColors, AnsiFontStyles};
use image_info::ansi_style::{
    background_color, font_and_style, font_color, font_style, full_style, reset_all,
};
use image_info::panels::{
    app_author_panel, app_commands_list_panel, app_description, bye_message, command_cursor,
    help_panel, task_view, unknown_command_message_cursor,
};

#[test]
fn reset_sequence() {
    assert_eq!(reset_all(), "\x1b[0m");
}

#[test]
fn single_code_styles() {
    assert_eq!(font_color(31, "hi"), "\x1b[31mhi\x1b[0m");
    assert_eq!(background_color(100, "x"), "\x1b[100mx\x1b[0m");
    assert_eq!(font_style(1, ""), "\x1b[1m\x1b[0m");
    assert_eq!(font_color(-5, "n"), "\x1b[-5mn\x1b[0m");
}

#[test]
fn combined_styles() {
    assert_eq!(font_and_style(3, 94, "link"), "\x1b[3;94mlink\x1b[0m");
    assert_eq!(full_style(37, 41, 1, "Error!"), "\x1b[1;37;41mError!\x1b[0m");
}

#[test]
fn standard_codes() {
    let fc = AnsiFontColors::standard();
    let bg = AnsiBackgroundColors::standard();
    let st = AnsiFontStyles::standard();
    assert_eq!(fc.f_cyan, 36);
    assert_eq!(fc.f_light_white, 97);
    assert_eq!(bg.b_gray, 100);
    assert_eq!(st.strike_through, 9);
}

#[test]
fn short_panels() {
    assert_eq!(task_view("Get Image Info"), "|-[\x1b[42mGet Image Info\x1b[0m]-|");
    assert_eq!(bye_message(), "|-[\x1b[45mThanks for using!\x1b[0m]");
    assert_eq!(command_cursor("Enter command"), "|[\x1b[7mEnter command\x1b[0m]-> ");
    assert_eq!(
        app_description(),
        "\x1b[36m\u{e2}\u{20ac}\u{a2} Get information about image and more!\x1b[0m"
    );
}

#[test]
fn unknown_command_message() {
    assert_eq!(
        unknown_command_message_cursor("~empty~".to_string()),
        "|[\x1b[1;37;41mUnknown command!\x1b[0m]->[\x1b[9;37;100m~empty~\x1b[0m]->[\x1b[1;37;44mSee commands list\x1b[0m]"
    );
}

#[test]
fn large_panels() {
    let author = app_author_panel();
    assert!(author.starts_with("=========================================================\n|            This tool created by: \x1b[32mMaxdgf\x1b[0m"));
    assert!(author.contains("\x1b[1;37;40mGithub\x1b[0m -> \x1b[3;34mhttps://github.com/Maxdgf\x1b[0m"));
    let help = help_panel();
    assert!(help.contains("[\x1b[3;95mHelp\x1b[0m]"));
    assert!(help.contains("\x1b[4;97mis=(type)\x1b[0m  | \x1b[1;97mImages Size\x1b[0m. Get all images size"));
    assert_eq!(help.lines().count(), 8);
    let list = app_commands_list_panel();
    assert!(list.contains("| \x1b[33m[5]\x1b[0m | \x1b[7mexit      \x1b[0m | \x1b[4;91mExit app.\x1b[0m"));
    assert_eq!(list.lines().count(), 7);
}
