use agent_loader::command::{is_whitespace_char, parse_command, Command};
use agent_loader::text::{
    find_from, from_chars, push_decimal, push_str_chars, range_equals, same_text, to_chars,
};

#[test]
fn reload_line_yields_reload() {
    assert_eq!(
        parse_command("reload /tmp/payload.so\n"),
        Command::Reload("/tmp/payload.so".to_string())
    );
}

#[test]
fn blank_line_yields_empty() {
    assert_eq!(parse_command("\n"), Command::Empty);
    assert_eq!(parse_command(""), Command::Empty);
    assert_eq!(parse_command(" \t\r\n"), Command::Empty);
}

#[test]
fn other_word_yields_unrecognized() {
    assert_eq!(parse_command("foo bar\n"), Command::Unrecognized("foo".to_string()));
    assert_eq!(parse_command("unload"), Command::Unrecognized("unload".to_string()));
    assert_eq!(parse_command("RELOAD /x"), Command::Unrecognized("RELOAD".to_string()));
    assert_eq!(parse_command("reloads /x"), Command::Unrecognized("reloads".to_string()));
}

#[test]
fn reload_without_a_path_is_not_a_command() {
    assert_eq!(parse_command("reload\n"), Command::Unrecognized("reload".to_string()));
    assert_eq!(parse_command("  reload   \n"), Command::Unrecognized("reload".to_string()));
}

#[test]
fn the_path_runs_to_the_end_of_the_line() {
    assert_eq!(
        parse_command("  reload /opt/my mods/payload.so \r\n"),
        Command::Reload("/opt/my mods/payload.so".to_string())
    );
    assert_eq!(parse_command("reload  x"), Command::Reload(" x".to_string()));
    assert_eq!(parse_command("reload relative/p.dll"), Command::Reload("relative/p.dll".to_string()));
}

#[test]
fn only_a_space_ends_the_command_word() {
    assert_eq!(parse_command("reload\t/x"), Command::Unrecognized("reload\t/x".to_string()));
}

#[test]
fn whitespace_is_what_unicode_says() {
    for c in [' ', '\t', '\n', '\u{b}', '\u{c}', '\r', '\u{85}', '\u{a0}', '\u{1680}', '\u{2000}',
        '\u{200a}', '\u{2028}', '\u{2029}', '\u{202f}', '\u{205f}', '\u{3000}']
    {
        assert!(is_whitespace_char(c));
    }
    for c in ['a', '0', '\u{8}', '\u{e}', '\u{200b}', '\u{feff}', '_'] {
        assert!(!is_whitespace_char(c));
    }
    for n in 0..0x3100u32 {
        if let Some(c) = char::from_u32(n) {
            assert_eq!(is_whitespace_char(c), c.is_whitespace());
        }
    }
}

#[test]
fn parsing_trims_as_the_standard_library_does() {
    for line in ["\u{a0}reload /x\u{2003}", "\u{3000}", "x\u{85}"] {
        let trimmed = line.trim();
        assert_eq!(parse_command(line), parse_command(trimmed));
    }
    assert_eq!(parse_command("\u{a0}reload /x\u{2003}"), Command::Reload("/x".to_string()));
}

#[test]
fn strings_go_to_characters_and_back() {
    let chars = to_chars("héllo");
    assert_eq!(chars, vec!['h', 'é', 'l', 'l', 'o']);
    assert_eq!(from_chars(&chars, 0, 5), "héllo");
    assert_eq!(from_chars(&chars, 1, 3), "él");
    assert_eq!(from_chars(&chars, 2, 2), "");
    assert!(same_text("abc", "abc"));
    assert!(!same_text("abc", "abd"));
    assert!(!same_text("abc", "ab"));
}

#[test]
fn ranges_are_compared_and_searched() {
    let chars = to_chars("a reload b");
    let word = to_chars("reload");
    assert!(range_equals(&chars, 2, 8, &word));
    assert!(!range_equals(&chars, 2, 7, &word));
    assert!(!range_equals(&chars, 1, 7, &word));
    assert_eq!(find_from(&chars, ' ', 0), 1);
    assert_eq!(find_from(&chars, ' ', 2), 8);
    assert_eq!(find_from(&chars, ' ', 9), 10);
    assert_eq!(find_from(&chars, 'z', 0), 10);
}

#[test]
fn numbers_are_written_in_decimal() {
    let mut out = vec!['#'];
    push_decimal(&mut out, 0);
    push_str_chars(&mut out, ",");
    push_decimal(&mut out, 907);
    push_str_chars(&mut out, ",");
    push_decimal(&mut out, u64::MAX);
    let n = out.len();
    assert_eq!(from_chars(&out, 0, n), "#0,907,18446744073709551615");
}
