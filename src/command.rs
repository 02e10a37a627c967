//! The command grammar: `gii=(path)`, `fem=(path)`, `is=(extension)`, `help`, `exit`.
use vstd::prelude::*;
use crate::formats::str_equal;

verus! {

/// A command read from the input line.
pub enum Command {
    /// `gii=(path)`: report on one image.
    ImageInfo(String),
    /// `fem=(path)`: extract an image's Exif metadata.
    ExifMetadata(String),
    /// `is=(extension)`: size the images of one extension.
    ImagesSize(String),
    Help,
    Exit,
    /// A blank line.
    Empty,
    /// Anything else, as typed (trimmed).
    Unknown(String),
}

/// Whether `c` has the Unicode property White_Space.
pub open spec fn is_white_space(c: char) -> bool {
    ('\u{9}' <= c && c <= '\u{d}') || c == ' ' || c == '\u{85}' || c == '\u{a0}'
        || c == '\u{1680}' || ('\u{2000}' <= c && c <= '\u{200a}') || c == '\u{2028}'
        || c == '\u{2029}' || c == '\u{202f}' || c == '\u{205f}' || c == '\u{3000}'
}

/// `s` without its leading White_Space characters.
pub open spec fn trim_start_text(s: Seq<char>) -> Seq<char>
    decreases s.len(),
{
    if s.len() > 0 && is_white_space(s[0]) {
        trim_start_text(s.drop_first())
    } else {
        s
    }
}

/// `s` without its trailing White_Space characters.
pub open spec fn trim_end_text(s: Seq<char>) -> Seq<char>
    decreases s.len(),
{
    if s.len() > 0 && is_white_space(s.last()) {
        trim_end_text(s.drop_last())
    } else {
        s
    }
}

/// `s` without its leading and trailing White_Space characters.
pub open spec fn trimmed(s: Seq<char>) -> Seq<char> {
    trim_end_text(trim_start_text(s))
}

/// Relies on `str::trim`: leading and trailing whitespace removed, whitespace
/// being the characters of the Unicode property White_Space.
#[verifier::external_body]
fn trim(s: &str) -> (r: &str)
    ensures
        r@ == trimmed(s@),
{
    s.trim()
}

/// Whether `c` may stand inside the parentheses of a command.
pub open spec fn is_argument_char(c: char) -> bool {
    c != '(' && c != ')'
}

/// The argument of `t` read as `prefix` + argument + `)`, where the argument is
/// not empty and holds no parenthesis.
pub open spec fn bracket_arg(t: Seq<char>, prefix: Seq<char>) -> Option<Seq<char>> {
    if t.len() >= prefix.len() + 2 && t.take(prefix.len() as int) == prefix && t.last() == ')'
        && (forall|i: int|
        prefix.len() <= i < t.len() - 1 ==> is_argument_char(#[trigger] t[i])) {
        Some(t.subrange(prefix.len() as int, t.len() - 1))
    } else {
        None
    }
}

/// `c` is the command that the trimmed line `t` denotes.
pub open spec fn is_command_of(c: Command, t: Seq<char>) -> bool {
    if bracket_arg(t, "gii=("@) is Some {
        c is ImageInfo && c->ImageInfo_0@ == bracket_arg(t, "gii=("@)->0
    } else if bracket_arg(t, "fem=("@) is Some {
        c is ExifMetadata && c->ExifMetadata_0@ == bracket_arg(t, "fem=("@)->0
    } else if bracket_arg(t, "is=("@) is Some {
        c is ImagesSize && c->ImagesSize_0@ == bracket_arg(t, "is=("@)->0
    } else if t == "help"@ {
        c is Help
    } else if t == "exit"@ {
        c is Exit
    } else if t.len() == 0 {
        c is Empty
    } else {
        c is Unknown && c->Unknown_0@ == t
    }
}

/// The argument of `t` after `prefix` and before a closing parenthesis.
fn bracket_argument(t: &str, prefix: &str) -> (r: Option<String>)
    ensures
        r is None <==> bracket_arg(t@, prefix@) is None,
        r is Some ==> r->0@ == bracket_arg(t@, prefix@)->0,
{
    let n = t.unicode_len();
    let p = prefix.unicode_len();
    if n < 2 || p > n - 2 {
        return None;
    }
    if !str_equal(t.substring_char(0, p), prefix) {
        return None;
    }
    assert(t@.subrange(0, p as int) == t@.take(p as int));
    let last = t.get_char(n - 1);
    if last != ')' {
        assert(t@.last() != ')');
        return None;
    }
    let mut i: usize = p;
    while i < n - 1
        invariant
            n == t@.len(),
            p == prefix@.len(),
            p + 2 <= n,
            t@.take(p as int) == prefix@,
            t@.last() == ')',
            p <= i <= n - 1,
            n >= 2,
            forall|j: int| p <= j < i ==> is_argument_char(#[trigger] t@[j]),
        decreases n - 1 - i,
    {
        let c = t.get_char(i);
        if c == '(' || c == ')' {
            assert(!is_argument_char(t@[i as int]));
            return None;
        }
        i += 1;
    }
    Some(String::from_str(t.substring_char(p, n - 1)))
}

/// The command that the already trimmed line `cmd` denotes.
pub fn parse_trimmed_command(cmd: &str) -> (r: Command)
    ensures
        is_command_of(r, cmd@),
{
    if let Some(path) = bracket_argument(cmd, "gii=(") {
        return Command::ImageInfo(path);
    }
    if let Some(path) = bracket_argument(cmd, "fem=(") {
        return Command::ExifMetadata(path);
    }
    if let Some(ext) = bracket_argument(cmd, "is=(") {
        return Command::ImagesSize(ext);
    }
    if str_equal(cmd, "help") {
        Command::Help
    } else if str_equal(cmd, "exit") {
        Command::Exit
    } else if cmd.unicode_len() == 0 {
        Command::Empty
    } else {
        Command::Unknown(String::from_str(cmd))
    }
}

/// The command on the input line `input`, read after trimming it.
pub fn parse_command(input: &str) -> (r: Command)
    ensures
        is_command_of(r, trimmed(input@)),
{
    parse_trimmed_command(trim(input))
}

} // verus!
