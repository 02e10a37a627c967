use image_info::command::{parse_command, parse_trimmed_command, Command};

fn arg(c: &Command) -> Option<(&'static str, String)> {
    match c {
        Command::ImageInfo(p) => Some(("gii", p.clone())),
        Command::ExifMetadata(p) => Some(("fem", p.clone())),
        Command::ImagesSize(p) => Some(("is", p.clone())),
        Command::Unknown(p) => Some(("unknown", p.clone())),
        _ => None,
    }
}

#[test]
fn bracket_commands() {
    let c = parse_command("gii=(C:\\photos\\cat.jpeg)\n");
    assert_eq!(arg(&c), Some(("gii", "C:\\photos\\cat.jpeg".to_string())));
    let c = parse_command("  fem=(/home/me/a b.jpg)  ");
    assert_eq!(arg(&c), Some(("fem", "/home/me/a b.jpg".to_string())));
    let c = parse_command("is=(png)");
    assert_eq!(arg(&c), Some(("is", "png".to_string())));
}

#[test]
fn malformed_bracket_commands() {
    assert_eq!(arg(&parse_command("is=()")), Some(("unknown", "is=()".to_string())));
    assert_eq!(arg(&parse_command("is=(a(b)")), Some(("unknown", "is=(a(b)".to_string())));
    assert_eq!(arg(&parse_command("gii=(x) ok")), Some(("unknown", "gii=(x) ok".to_string())));
    assert_eq!(arg(&parse_command("GII=(x)")), Some(("unknown", "GII=(x)".to_string())));
}

#[test]
fn word_commands() {
    assert!(matches!(parse_command("help\n"), Command::Help));
    assert!(matches!(parse_command("exit"), Command::Exit));
    assert!(matches!(parse_command("   \n"), Command::Empty));
    assert!(matches!(parse_trimmed_command(""), Command::Empty));
    assert_eq!(arg(&parse_command("helpme")), Some(("unknown", "helpme".to_string())));
}

#[test]
fn unicode_whitespace_is_trimmed() {
    assert!(matches!(parse_command("\u{3000}\u{a0}help\u{2029}\t"), Command::Help));
    assert_eq!(arg(&parse_command("\u{200b}help")), Some(("unknown", "\u{200b}help".to_string())));
}
