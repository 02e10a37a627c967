//! The fixed texts of the terminal interface: logo, panels, prompts and messages.
use vstd::prelude::*;
use crate::ansi_codes::{AnsiBackgroundColors, AnsiFontColors, AnsiFontStyles};
use crate::ansi_style::{
    background_color, font_and_style, font_color, font_style, full_style, params2, params3,
    styled,
};
use crate::text::{int_text, push_str};

verus! {

/// The application's logo.
pub const APP_LOGO: &'static str = r#"
 _____                             _____       __      
|_   _|                           |_   _|     / _|     
  | | _ __ ___   __ _  __ _  ___    | | _ __ | |_ ___  
  | || '_ ` _ \ / _` |/ _` |/ _ \   | || '_ \|  _/ _ \ 
 _| || | | | | | (_| | (_| |  __/  _| || | | | || (_) |
 \___/_| |_| |_|\__,_|\__, |\___|  \___/_| |_|_| \___/ 
                       __/ |                           
                      |___/         "#;

/// A separator line.
pub const LINE: &'static str = "| 0 0 0 0 0 0 0 0 0 0 0 0 0 0 0 0 0 0 0 0 0 0 0 0 0 0 0 |";

pub const DESCRIPTION: &'static str = "â€¢ Get information about image and more!";

pub const UNKNOWN_COMMAND_MESSAGE_CURSOR_PART_0: &'static str = "|[";
pub const UNKNOWN_COMMAND_MESSAGE_CURSOR_PART_1: &'static str = "]->[";
pub const UNKNOWN_COMMAND_MESSAGE_CURSOR_PART_2: &'static str = "]->[";
pub const UNKNOWN_COMMAND_MESSAGE_CURSOR_PART_3: &'static str = "]";
pub const APP_AUTHOR_PANEL_PART_0: &'static str = "=========================================================\n|            This tool created by: ";
pub const APP_AUTHOR_PANEL_PART_1: &'static str = "               |\n|-------------------------------------------------------|\n|           ";
pub const APP_AUTHOR_PANEL_PART_2: &'static str = " -> ";
pub const APP_AUTHOR_PANEL_PART_3: &'static str = "         |\n=========================================================";
pub const HELP_PANEL_PART_0: &'static str = "=============================================================================================================================\n|                                                           [";
pub const HELP_PANEL_PART_1: &'static str = "]                                                          |\n|---------------------------------------------------------------------------------------------------------------------------|\n| ";
pub const HELP_PANEL_PART_2: &'static str = " | ";
pub const HELP_PANEL_PART_3: &'static str = ". Get info about image in form of dimensions, color model, filename and extension, file size.  |\n| ";
pub const HELP_PANEL_PART_4: &'static str = " | ";
pub const HELP_PANEL_PART_5: &'static str = ". Fetch Exif metadata from image. Exif-supporting formats: [";
pub const HELP_PANEL_PART_6: &'static str = "].   |\n| ";
pub const HELP_PANEL_PART_7: &'static str = "  | ";
pub const HELP_PANEL_PART_8: &'static str = ". Get all images size with specific extension.                                                    |\n| ";
pub const HELP_PANEL_PART_9: &'static str = "       | ";
pub const HELP_PANEL_PART_10: &'static str = ". Closing application.                                                                               |\n=============================================================================================================================";
pub const APP_COMMANDS_LIST_PANEL_PART_0: &'static str = "====================================================================\n| ";
pub const APP_COMMANDS_LIST_PANEL_PART_1: &'static str = " | ";
pub const APP_COMMANDS_LIST_PANEL_PART_2: &'static str = " | ";
pub const APP_COMMANDS_LIST_PANEL_PART_3: &'static str = "               |\n| ";
pub const APP_COMMANDS_LIST_PANEL_PART_4: &'static str = " | ";
pub const APP_COMMANDS_LIST_PANEL_PART_5: &'static str = " | ";
pub const APP_COMMANDS_LIST_PANEL_PART_6: &'static str = "           |\n| ";
pub const APP_COMMANDS_LIST_PANEL_PART_7: &'static str = " | ";
pub const APP_COMMANDS_LIST_PANEL_PART_8: &'static str = " | ";
pub const APP_COMMANDS_LIST_PANEL_PART_9: &'static str = "  |\n| ";
pub const APP_COMMANDS_LIST_PANEL_PART_10: &'static str = " | ";
pub const APP_COMMANDS_LIST_PANEL_PART_11: &'static str = " | ";
pub const APP_COMMANDS_LIST_PANEL_PART_12: &'static str = "                                    |\n| ";
pub const APP_COMMANDS_LIST_PANEL_PART_13: &'static str = " | ";
pub const APP_COMMANDS_LIST_PANEL_PART_14: &'static str = " | ";
pub const APP_COMMANDS_LIST_PANEL_PART_15: &'static str = "                                     |\n====================================================================";

/// One line that says what the application does, in cyan.
pub fn app_description() -> (r: String)
    ensures
        r@ == styled(int_text(36), DESCRIPTION@),
{
    let fc = AnsiFontColors::standard();
    font_color(fc.f_cyan, DESCRIPTION)
}

/// Frames `task_name`, on green, as the title of a task's result.
pub open spec fn task_view_text(task_name: Seq<char>) -> Seq<char> {
    "|-["@
        + styled(int_text(42), task_name)
        + "]-|"@
}

/// Frames `task_name`, on green, as the title of a task's result.
pub fn task_view(task_name: &str) -> (r: String)
    ensures
        r@ == task_view_text(task_name@),
{
    let bg = AnsiBackgroundColors::standard();
    let mut s = String::new();
    push_str(&mut s, "|-[");
    let part = background_color(bg.b_green, task_name);
    push_str(&mut s, part.as_str());
    push_str(&mut s, "]-|");
    assert(s@ =~= task_view_text(task_name@));
    s
}

/// The farewell shown on exit.
pub open spec fn bye_message_text() -> Seq<char> {
    "|-["@
        + styled(int_text(45), "Thanks for using!"@)
        + "]"@
}

/// The farewell shown on exit.
pub fn bye_message() -> (r: String)
    ensures
        r@ == bye_message_text(),
{
    let bg = AnsiBackgroundColors::standard();
    let mut s = String::new();
    push_str(&mut s, "|-[");
    let part = background_color(bg.b_purple, "Thanks for using!");
    push_str(&mut s, part.as_str());
    push_str(&mut s, "]");
    assert(s@ =~= bye_message_text());
    s
}

/// The prompt in front of the input field, with `description` in reverse video.
pub open spec fn command_cursor_text(description: Seq<char>) -> Seq<char> {
    "|["@
        + styled(int_text(7), description)
        + "]-> "@
}

/// The prompt in front of the input field, with `description` in reverse video.
pub fn command_cursor(description: &str) -> (r: String)
    ensures
        r@ == command_cursor_text(description@),
{
    let st = AnsiFontStyles::standard();
    let mut s = String::new();
    push_str(&mut s, "|[");
    let part = font_style(st.reverse, description);
    push_str(&mut s, part.as_str());
    push_str(&mut s, "]-> ");
    assert(s@ =~= command_cursor_text(description@));
    s
}

/// The message shown for a command that is not recognised, with the command struck through.
pub open spec fn unknown_command_text(incorrect_command: Seq<char>) -> Seq<char> {
    UNKNOWN_COMMAND_MESSAGE_CURSOR_PART_0@
        + styled(params3(1, 37, 41), "Unknown command!"@)
        + UNKNOWN_COMMAND_MESSAGE_CURSOR_PART_1@
        + styled(params3(9, 37, 100), incorrect_command)
        + UNKNOWN_COMMAND_MESSAGE_CURSOR_PART_2@
        + styled(params3(1, 37, 44), "See commands list"@)
        + UNKNOWN_COMMAND_MESSAGE_CURSOR_PART_3@
}

/// The message shown for a command that is not recognised, with the command struck through.
pub fn unknown_command_message_cursor(incorrect_command: String) -> (r: String)
    ensures
        r@ == unknown_command_text(incorrect_command@),
{
    let fc = AnsiFontColors::standard();
    let bg = AnsiBackgroundColors::standard();
    let st = AnsiFontStyles::standard();
    let mut s = String::new();
    push_str(&mut s, UNKNOWN_COMMAND_MESSAGE_CURSOR_PART_0);
    let part = full_style(fc.f_white, bg.b_red, st.bold, "Unknown command!");
    push_str(&mut s, part.as_str());
    push_str(&mut s, UNKNOWN_COMMAND_MESSAGE_CURSOR_PART_1);
    let part = full_style(fc.f_white, bg.b_gray, st.strike_through, incorrect_command.as_str());
    push_str(&mut s, part.as_str());
    push_str(&mut s, UNKNOWN_COMMAND_MESSAGE_CURSOR_PART_2);
    let part = full_style(fc.f_white, bg.b_blue, st.bold, "See commands list");
    push_str(&mut s, part.as_str());
    push_str(&mut s, UNKNOWN_COMMAND_MESSAGE_CURSOR_PART_3);
    assert(s@ =~= unknown_command_text(incorrect_command@));
    s
}

/// The panel naming the author and linking the author's page.
pub open spec fn author_panel_text() -> Seq<char> {
    APP_AUTHOR_PANEL_PART_0@
        + styled(int_text(32), "Maxdgf"@)
        + APP_AUTHOR_PANEL_PART_1@
        + styled(params3(1, 37, 40), "Github"@)
        + APP_AUTHOR_PANEL_PART_2@
        + styled(params2(3, 34), "https://github.com/Maxdgf"@)
        + APP_AUTHOR_PANEL_PART_3@
}

/// The panel naming the author and linking the author's page.
pub fn app_author_panel() -> (r: String)
    ensures
        r@ == author_panel_text(),
{
    let fc = AnsiFontColors::standard();
    let bg = AnsiBackgroundColors::standard();
    let st = AnsiFontStyles::standard();
    let mut s = String::new();
    push_str(&mut s, APP_AUTHOR_PANEL_PART_0);
    let part = font_color(fc.f_green, "Maxdgf");
    push_str(&mut s, part.as_str());
    push_str(&mut s, APP_AUTHOR_PANEL_PART_1);
    let part = full_style(fc.f_white, bg.b_black, st.bold, "Github");
    push_str(&mut s, part.as_str());
    push_str(&mut s, APP_AUTHOR_PANEL_PART_2);
    let part = font_and_style(st.italic, fc.f_blue, "https://github.com/Maxdgf");
    push_str(&mut s, part.as_str());
    push_str(&mut s, APP_AUTHOR_PANEL_PART_3);
    assert(s@ =~= author_panel_text());
    s
}

/// The panel that explains each command.
pub open spec fn help_panel_text() -> Seq<char> {
    HELP_PANEL_PART_0@
        + styled(params2(3, 95), "Help"@)
        + HELP_PANEL_PART_1@
        + styled(params2(4, 97), "gii=(path)"@)
        + HELP_PANEL_PART_2@
        + styled(params2(1, 97), "Get Image Info"@)
        + HELP_PANEL_PART_3@
        + styled(params2(4, 97), "fem=(path)"@)
        + HELP_PANEL_PART_4@
        + styled(params2(1, 97), "Fetch Exif Metadata"@)
        + HELP_PANEL_PART_5@
        + styled(params2(3, 93), ".JPEG, .TIFF, .PNG, .WEBP"@)
        + HELP_PANEL_PART_6@
        + styled(params2(4, 97), "is=(type)"@)
        + HELP_PANEL_PART_7@
        + styled(params2(1, 97), "Images Size"@)
        + HELP_PANEL_PART_8@
        + styled(params2(4, 95), "exit"@)
        + HELP_PANEL_PART_9@
        + styled(params2(1, 91), "Exit app"@)
        + HELP_PANEL_PART_10@
}

/// The panel that explains each command.
pub fn help_panel() -> (r: String)
    ensures
        r@ == help_panel_text(),
{
    let fc = AnsiFontColors::standard();
    let st = AnsiFontStyles::standard();
    let mut s = String::new();
    push_str(&mut s, HELP_PANEL_PART_0);
    let part = font_and_style(st.italic, fc.f_light_purple, "Help");
    push_str(&mut s, part.as_str());
    push_str(&mut s, HELP_PANEL_PART_1);
    let part = font_and_style(st.underline, fc.f_light_white, "gii=(path)");
    push_str(&mut s, part.as_str());
    push_str(&mut s, HELP_PANEL_PART_2);
    let part = font_and_style(st.bold, fc.f_light_white, "Get Image Info");
    push_str(&mut s, part.as_str());
    push_str(&mut s, HELP_PANEL_PART_3);
    let part = font_and_style(st.underline, fc.f_light_white, "fem=(path)");
    push_str(&mut s, part.as_str());
    push_str(&mut s, HELP_PANEL_PART_4);
    let part = font_and_style(st.bold, fc.f_light_white, "Fetch Exif Metadata");
    push_str(&mut s, part.as_str());
    push_str(&mut s, HELP_PANEL_PART_5);
    let part = font_and_style(st.italic, fc.f_light_yellow, ".JPEG, .TIFF, .PNG, .WEBP");
    push_str(&mut s, part.as_str());
    push_str(&mut s, HELP_PANEL_PART_6);
    let part = font_and_style(st.underline, fc.f_light_white, "is=(type)");
    push_str(&mut s, part.as_str());
    push_str(&mut s, HELP_PANEL_PART_7);
    let part = font_and_style(st.bold, fc.f_light_white, "Images Size");
    push_str(&mut s, part.as_str());
    push_str(&mut s, HELP_PANEL_PART_8);
    let part = font_and_style(st.underline, fc.f_light_purple, "exit");
    push_str(&mut s, part.as_str());
    push_str(&mut s, HELP_PANEL_PART_9);
    let part = font_and_style(st.bold, fc.f_light_red, "Exit app");
    push_str(&mut s, part.as_str());
    push_str(&mut s, HELP_PANEL_PART_10);
    assert(s@ =~= help_panel_text());
    s
}

/// The panel listing the commands.
pub open spec fn commands_panel_text() -> Seq<char> {
    APP_COMMANDS_LIST_PANEL_PART_0@
        + styled(int_text(33), "[1]"@)
        + APP_COMMANDS_LIST_PANEL_PART_1@
        + styled(int_text(7), "gii=(path)"@)
        + APP_COMMANDS_LIST_PANEL_PART_2@
        + styled(params2(4, 92), "Get info about image from path."@)
        + APP_COMMANDS_LIST_PANEL_PART_3@
        + styled(int_text(33), "[2]"@)
        + APP_COMMANDS_LIST_PANEL_PART_4@
        + styled(int_text(7), "fem=(path)"@)
        + APP_COMMANDS_LIST_PANEL_PART_5@
        + styled(params2(4, 92), "Fetch Exif image matadata from path"@)
        + APP_COMMANDS_LIST_PANEL_PART_6@
        + styled(int_text(33), "[3]"@)
        + APP_COMMANDS_LIST_PANEL_PART_7@
        + styled(int_text(7), "is=(type) "@)
        + APP_COMMANDS_LIST_PANEL_PART_8@
        + styled(params2(4, 92), "Get all images size with specific extension."@)
        + APP_COMMANDS_LIST_PANEL_PART_9@
        + styled(int_text(33), "[4]"@)
        + APP_COMMANDS_LIST_PANEL_PART_10@
        + styled(int_text(7), "help      "@)
        + APP_COMMANDS_LIST_PANEL_PART_11@
        + styled(params2(4, 95), "Show help."@)
        + APP_COMMANDS_LIST_PANEL_PART_12@
        + styled(int_text(33), "[5]"@)
        + APP_COMMANDS_LIST_PANEL_PART_13@
        + styled(int_text(7), "exit      "@)
        + APP_COMMANDS_LIST_PANEL_PART_14@
        + styled(params2(4, 91), "Exit app."@)
        + APP_COMMANDS_LIST_PANEL_PART_15@
}

/// The panel listing the commands.
pub fn app_commands_list_panel() -> (r: String)
    ensures
        r@ == commands_panel_text(),
{
    let fc = AnsiFontColors::standard();
    let st = AnsiFontStyles::standard();
    let mut s = String::new();
    push_str(&mut s, APP_COMMANDS_LIST_PANEL_PART_0);
    let part = font_color(fc.f_yellow, "[1]");
    push_str(&mut s, part.as_str());
    push_str(&mut s, APP_COMMANDS_LIST_PANEL_PART_1);
    let part = font_style(st.reverse, "gii=(path)");
    push_str(&mut s, part.as_str());
    push_str(&mut s, APP_COMMANDS_LIST_PANEL_PART_2);
    let part = font_and_style(st.underline, fc.f_light_green, "Get info about image from path.");
    push_str(&mut s, part.as_str());
    push_str(&mut s, APP_COMMANDS_LIST_PANEL_PART_3);
    let part = font_color(fc.f_yellow, "[2]");
    push_str(&mut s, part.as_str());
    push_str(&mut s, APP_COMMANDS_LIST_PANEL_PART_4);
    let part = font_style(st.reverse, "fem=(path)");
    push_str(&mut s, part.as_str());
    push_str(&mut s, APP_COMMANDS_LIST_PANEL_PART_5);
    let part = font_and_style(st.underline, fc.f_light_green, "Fetch Exif image matadata from path");
    push_str(&mut s, part.as_str());
    push_str(&mut s, APP_COMMANDS_LIST_PANEL_PART_6);
    let part = font_color(fc.f_yellow, "[3]");
    push_str(&mut s, part.as_str());
    push_str(&mut s, APP_COMMANDS_LIST_PANEL_PART_7);
    let part = font_style(st.reverse, "is=(type) ");
    push_str(&mut s, part.as_str());
    push_str(&mut s, APP_COMMANDS_LIST_PANEL_PART_8);
    let part = font_and_style(st.underline, fc.f_light_green, "Get all images size with specific extension.");
    push_str(&mut s, part.as_str());
    push_str(&mut s, APP_COMMANDS_LIST_PANEL_PART_9);
    let part = font_color(fc.f_yellow, "[4]");
    push_str(&mut s, part.as_str());
    push_str(&mut s, APP_COMMANDS_LIST_PANEL_PART_10);
    let part = font_style(st.reverse, "help      ");
    push_str(&mut s, part.as_str());
    push_str(&mut s, APP_COMMANDS_LIST_PANEL_PART_11);
    let part = font_and_style(st.underline, fc.f_light_purple, "Show help.");
    push_str(&mut s, part.as_str());
    push_str(&mut s, APP_COMMANDS_LIST_PANEL_PART_12);
    let part = font_color(fc.f_yellow, "[5]");
    push_str(&mut s, part.as_str());
    push_str(&mut s, APP_COMMANDS_LIST_PANEL_PART_13);
    let part = font_style(st.reverse, "exit      ");
    push_str(&mut s, part.as_str());
    push_str(&mut s, APP_COMMANDS_LIST_PANEL_PART_14);
    let part = font_and_style(st.underline, fc.f_light_red, "Exit app.");
    push_str(&mut s, part.as_str());
    push_str(&mut s, APP_COMMANDS_LIST_PANEL_PART_15);
    assert(s@ =~= commands_panel_text());
    s
}


} // verus!
