//! Menu navigation and checking what the player types.

use battleship::keys::Key;
use battleship::menu::{
    check_name, check_port, connection_choice, edit_line, join_candidate, menu_input,
    parse_port, trim_whitespace, ConnectChoice, JoinAddress, LineEdit, MenuStep, NameCheck,
    PortCheck,
};

#[test]
fn main_menu_navigation_wraps() {
    assert_eq!(menu_input(Key::Up, 0, 2), MenuStep::Select(1));
    assert_eq!(menu_input(Key::Char('w'), 1, 2), MenuStep::Select(0));
    assert_eq!(menu_input(Key::Down, 1, 2), MenuStep::Select(0));
    assert_eq!(menu_input(Key::Char('S'), 0, 2), MenuStep::Select(1));
    assert_eq!(menu_input(Key::Enter, 0, 2), MenuStep::Launch);
    assert_eq!(menu_input(Key::Char(' '), 1, 2), MenuStep::Quit);
    assert_eq!(menu_input(Key::Char('1'), 1, 2), MenuStep::Launch);
    assert_eq!(menu_input(Key::Char('q'), 0, 2), MenuStep::Quit);
    assert_eq!(menu_input(Key::Esc, 0, 2), MenuStep::Quit);
    assert_eq!(menu_input(Key::Char('z'), 0, 2), MenuStep::Ignore);
}

#[test]
fn host_or_join_keys() {
    assert_eq!(connection_choice(Key::Char('1')), ConnectChoice::Host);
    assert_eq!(connection_choice(Key::Char('2')), ConnectChoice::Join);
    assert_eq!(connection_choice(Key::Esc), ConnectChoice::Back);
    assert_eq!(connection_choice(Key::Char('3')), ConnectChoice::Wait);
}

#[test]
fn trimming_removes_unicode_whitespace() {
    assert_eq!(trim_whitespace("  Alice \t\n"), "Alice");
    assert_eq!(trim_whitespace("\u{3000}Bob\u{a0}"), "Bob");
    assert_eq!(trim_whitespace(" a b "), "a b");
    assert_eq!(trim_whitespace("   "), "");
    assert_eq!(trim_whitespace(" a b ".trim()), " a b ".trim());
}

#[test]
fn name_rules() {
    assert_eq!(check_name("  Al "), NameCheck::Valid("Al".to_string()));
    assert_eq!(check_name("   "), NameCheck::Cancel);
    assert_eq!(check_name(""), NameCheck::Cancel);
    assert_eq!(check_name("A"), NameCheck::TooShort);
    assert_eq!(check_name("\u{e9}"), NameCheck::Valid("\u{e9}".to_string()));
    assert_eq!(check_name("abcdefghijklmnopqrst"), NameCheck::Valid("abcdefghijklmnopqrst".to_string()));
    assert_eq!(check_name("abcdefghijklmnopqrstu"), NameCheck::TooLong);
    assert_eq!(check_name("A").message(), Some("Name must be at least 2 characters."));
    assert_eq!(
        check_name("abcdefghijklmnopqrstu").message(),
        Some("Name must be 20 characters or less.")
    );
    assert_eq!(check_name("Alice").message(), None);
}

#[test]
fn port_rules() {
    assert_eq!(check_port(""), PortCheck::Port(7878));
    assert_eq!(check_port(" 8080 "), PortCheck::Port(8080));
    assert_eq!(check_port("+9000"), PortCheck::Port(9000));
    assert_eq!(check_port("1024"), PortCheck::Port(1024));
    assert_eq!(check_port("80"), PortCheck::TooLow);
    assert_eq!(check_port("abc"), PortCheck::Invalid);
    assert_eq!(check_port("70000"), PortCheck::Invalid);
    assert_eq!(check_port("-1"), PortCheck::Invalid);
    assert_eq!(check_port("+"), PortCheck::Invalid);
    assert_eq!(PortCheck::TooLow.message(), Some("Port must be 1024 or higher."));
    assert_eq!(PortCheck::Invalid.message(), Some("Invalid port number."));
    assert_eq!(PortCheck::Port(7878).message(), None);
}

#[test]
fn port_parsing_agrees_with_std() {
    for s in ["0", "65535", "65536", "007", "+1", "1+", " 1", "", "+", "12a", "99999999999"] {
        assert_eq!(parse_port(s), s.parse::<u16>().ok(), "input {:?}", s);
    }
}

#[test]
fn join_address_completion() {
    assert_eq!(join_candidate("  "), JoinAddress::Default("127.0.0.1:7878".to_string()));
    assert_eq!(
        join_candidate(" 10.0.0.5 "),
        JoinAddress::Candidate("10.0.0.5:7878".to_string())
    );
    assert_eq!(
        join_candidate("1.2.3.4:99"),
        JoinAddress::Candidate("1.2.3.4:99".to_string())
    );
}

#[test]
fn line_editing() {
    let mut line = String::new();
    assert_eq!(edit_line(&mut line, Key::Backspace), LineEdit::Unchanged);
    assert_eq!(edit_line(&mut line, Key::Char('h')), LineEdit::Typed('h'));
    assert_eq!(edit_line(&mut line, Key::Char('\u{e9}')), LineEdit::Typed('\u{e9}'));
    assert_eq!(line, "h\u{e9}");
    assert_eq!(edit_line(&mut line, Key::Backspace), LineEdit::Erased);
    assert_eq!(line, "h");
    assert_eq!(edit_line(&mut line, Key::Up), LineEdit::Unchanged);
    assert_eq!(edit_line(&mut line, Key::Enter), LineEdit::Done);
    assert_eq!(line, "h");
    for _ in 0..40 {
        edit_line(&mut line, Key::Char('x'));
    }
    assert_eq!(line.len(), 30);
    assert_eq!(edit_line(&mut line, Key::Char('y')), LineEdit::Unchanged);
    assert_eq!(edit_line(&mut line, Key::Esc), LineEdit::Cancelled);
    assert_eq!(line, "");
}
