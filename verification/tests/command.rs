use smtp_capture::command::{parse_command, Command};
use smtp_capture::text::{blank, content_len, folds, to_chars, trim_bounds, word_at};

fn chars(s: &str) -> Vec<char> {
    s.chars().collect()
}

#[test]
fn greeting_is_parsed() {
    assert!(matches!(parse_command("HELO a.com\r\n"), Some(Command::Greeting(d)) if d == "a.com"));
    assert!(matches!(parse_command("EHLO a.com\r\n"), Some(Command::Greeting(d)) if d == "a.com"));
    assert!(matches!(parse_command("ehlo\ta.com"), Some(Command::Greeting(d)) if d == "a.com"));
    assert!(
        matches!(parse_command("  Helo  [127.0.0.1]  \n"), Some(Command::Greeting(d)) if d == "[127.0.0.1]")
    );
}

#[test]
fn greeting_needs_a_blank_and_a_domain() {
    assert!(parse_command("HELO\r\n").is_none());
    assert!(parse_command("HELO   \r\n").is_none());
    assert!(parse_command("HELOa.com\r\n").is_none());
    assert!(parse_command("HELLO a.com\r\n").is_none());
    assert!(parse_command("HEL\r\n").is_none());
}

#[test]
fn begin_message_is_parsed() {
    assert!(
        matches!(parse_command("MAIL FROM:x@a.com\r\n"), Some(Command::BeginMessage(a)) if a == "x@a.com")
    );
    assert!(
        matches!(parse_command("mail from: <x@a.com>\r\n"), Some(Command::BeginMessage(a)) if a == "<x@a.com>")
    );
    assert!(parse_command("MAIL FROM:\r\n").is_none());
    assert!(parse_command("MAIL FROM:   \r\n").is_none());
    assert!(parse_command("MAIL  FROM:x@a.com\r\n").is_none());
    assert!(parse_command("MAIL FROM x@a.com\r\n").is_none());
    assert!(parse_command("MAIL FROMZx@a.com\r\n").is_none());
}

#[test]
fn add_recipient_is_parsed() {
    assert!(
        matches!(parse_command("RCPT TO:y@b.com\r\n"), Some(Command::AddRecipient(a)) if a == "y@b.com")
    );
    assert!(
        matches!(parse_command("Rcpt To:  y@b.com  "), Some(Command::AddRecipient(a)) if a == "y@b.com")
    );
    assert!(parse_command("RCPT TO:\r\n").is_none());
    assert!(parse_command("RCPT y@b.com\r\n").is_none());
}

#[test]
fn begin_data_and_terminate_are_parsed() {
    assert!(matches!(parse_command("DATA\r\n"), Some(Command::BeginData)));
    assert!(matches!(parse_command("  data  \n"), Some(Command::BeginData)));
    assert!(matches!(parse_command("QUIT\r\n"), Some(Command::Terminate)));
    assert!(matches!(parse_command("Quit"), Some(Command::Terminate)));
    assert!(parse_command("DATA now\r\n").is_none());
    assert!(parse_command("QUITE\r\n").is_none());
    assert!(parse_command("DAT\r\n").is_none());
}

#[test]
fn other_lines_hold_no_command() {
    assert!(parse_command("").is_none());
    assert!(parse_command("\r\n").is_none());
    assert!(parse_command(".\r\n").is_none());
    assert!(parse_command("NOOP\r\n").is_none());
    assert!(parse_command("RSET\r\n").is_none());
    assert!(parse_command("dATa\u{212a}\r\n").is_none());
    assert!(parse_command("h\u{0065}\u{0301}lo a.com\r\n").is_none());
}

#[test]
fn only_letters_are_folded() {
    assert!(folds('h', 'H'));
    assert!(folds('H', 'H'));
    assert!(!folds('i', 'H'));
    assert!(folds(':', ':'));
    assert!(!folds('Z', ':'));
    assert!(folds(' ', ' '));
    assert!(!folds('@', ' '));
    assert!(!folds('\u{0}', ' '));
}

#[test]
fn blanks_are_space_tab_and_line_breaks() {
    assert!(blank(' '));
    assert!(blank('\t'));
    assert!(blank('\r'));
    assert!(blank('\n'));
    assert!(!blank('a'));
    assert!(!blank('\u{a0}'));
}

#[test]
fn characters_are_listed_in_order() {
    assert_eq!(to_chars("aé你\n"), vec!['a', 'é', '你', '\n']);
    assert_eq!(to_chars(""), Vec::<char>::new());
}

#[test]
fn trimming_finds_the_inner_bounds() {
    let c = chars("  ab c \r\n");
    assert_eq!(trim_bounds(&c, 0, c.len()), (2, 6));
    assert_eq!(trim_bounds(&c, 3, c.len()), (3, 6));
    assert_eq!(trim_bounds(&c, 0, 2), (0, 0));
    assert_eq!(trim_bounds(&c, 4, 5), (4, 4));
    assert_eq!(trim_bounds(&c, 4, 7), (5, 6));
    let none = chars("");
    assert_eq!(trim_bounds(&none, 0, 0), (0, 0));
    let blanks = chars(" \t\r\n");
    assert_eq!(trim_bounds(&blanks, 0, 4), (0, 0));
}

#[test]
fn line_break_is_measured() {
    assert_eq!(content_len(&chars("abc\r\n")), 3);
    assert_eq!(content_len(&chars("abc\n")), 3);
    assert_eq!(content_len(&chars("abc")), 3);
    assert_eq!(content_len(&chars("abc\r")), 4);
    assert_eq!(content_len(&chars("\r\n")), 0);
    assert_eq!(content_len(&chars("\n")), 0);
    assert_eq!(content_len(&chars("")), 0);
    assert_eq!(content_len(&chars("a\n\n")), 2);
}

#[test]
fn keyword_is_found_at_the_start_of_a_range() {
    let c = chars("xxHeLo a");
    let helo = chars("HELO");
    assert!(word_at(&c, 2, c.len(), &helo));
    assert!(word_at(&c, 2, 6, &helo));
    assert!(!word_at(&c, 2, 5, &helo));
    assert!(!word_at(&c, 0, c.len(), &helo));
    assert!(word_at(&c, 3, 3, &chars("")));
}
