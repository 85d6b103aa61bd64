//! The menus: main menu navigation, the host/join choice, and checking what
//! the player types (name, port, host address) before connecting.

use vstd::prelude::*;

use crate::keys::{is_char, key_is, Key};

verus! {

// ---------------------------------------------------------------------------
// Main menu
// ---------------------------------------------------------------------------

/// What a key does on the main menu.
#[derive(Debug, Clone, Copy, PartialEq, Eq, Structural)]
pub enum MenuStep {
    /// Highlight another entry and redraw.
    Select(usize),
    /// Start the game.
    Launch,
    /// Leave the program.
    Quit,
    /// Redraw without changing anything.
    Redraw,
    /// Ignore the key and keep waiting.
    Ignore,
}

/// Main menu navigation over `count` entries, entry 0 being the game and
/// entry 1 quitting: Up/W and Down/S move the highlight with wrap-around,
/// Enter/Space activate it, `1` starts the game directly, Q or Esc quit.
pub fn menu_input(key: Key, selected: usize, count: usize) -> (r: MenuStep)
    requires
        0 < count,
        selected < count,
    ensures
        r == if key == Key::Up || is_char(key, 'w', 'W') {
            MenuStep::Select(
                if selected > 0 {
                    (selected - 1) as usize
                } else {
                    (count - 1) as usize
                },
            )
        } else if key == Key::Down || is_char(key, 's', 'S') {
            MenuStep::Select(((selected + 1) % (count as int)) as usize)
        } else if key == Key::Enter || key == Key::Char(' ') {
            if selected == 0 {
                MenuStep::Launch
            } else if selected == 1 {
                MenuStep::Quit
            } else {
                MenuStep::Redraw
            }
        } else if key == Key::Char('1') {
            MenuStep::Launch
        } else if is_char(key, 'q', 'Q') || key == Key::Esc {
            MenuStep::Quit
        } else {
            MenuStep::Ignore
        },
{
    if key == Key::Up || key_is(key, 'w', 'W') {
        if selected > 0 {
            MenuStep::Select(selected - 1)
        } else {
            MenuStep::Select(count - 1)
        }
    } else if key == Key::Down || key_is(key, 's', 'S') {
        MenuStep::Select((selected + 1) % count)
    } else if key == Key::Enter || key == Key::Char(' ') {
        if selected == 0 {
            MenuStep::Launch
        } else if selected == 1 {
            MenuStep::Quit
        } else {
            MenuStep::Redraw
        }
    } else if key == Key::Char('1') {
        MenuStep::Launch
    } else if key_is(key, 'q', 'Q') || key == Key::Esc {
        MenuStep::Quit
    } else {
        MenuStep::Ignore
    }
}

/// The choice on the host-or-join screen.
#[derive(Debug, Clone, Copy, PartialEq, Eq, Structural)]
pub enum ConnectChoice {
    Host,
    Join,
    /// Back to the main menu.
    Back,
    /// Any other key: keep waiting.
    Wait,
}

/// `1` hosts, `2` joins, Esc goes back.
pub fn connection_choice(key: Key) -> (r: ConnectChoice)
    ensures
        r == if key == Key::Char('1') {
            ConnectChoice::Host
        } else if key == Key::Char('2') {
            ConnectChoice::Join
        } else if key == Key::Esc {
            ConnectChoice::Back
        } else {
            ConnectChoice::Wait
        },
{
    if key == Key::Char('1') {
        ConnectChoice::Host
    } else if key == Key::Char('2') {
        ConnectChoice::Join
    } else if key == Key::Esc {
        ConnectChoice::Back
    } else {
        ConnectChoice::Wait
    }
}

// ---------------------------------------------------------------------------
// Trimming
// ---------------------------------------------------------------------------

/// Unicode whitespace (the `White_Space` property), the characters that
/// trimming removes.
pub open spec fn is_white_space(c: char) -> bool {
    let u = c as u32;
    ||| 0x9 <= u <= 0xd
    ||| u == 0x20
    ||| u == 0x85
    ||| u == 0xa0
    ||| u == 0x1680
    ||| 0x2000 <= u <= 0x200a
    ||| u == 0x2028
    ||| u == 0x2029
    ||| u == 0x202f
    ||| u == 0x205f
    ||| u == 0x3000
}

/// The text without its leading whitespace.
pub open spec fn trim_start(s: Seq<char>) -> Seq<char>
    decreases s.len(),
{
    if s.len() > 0 && is_white_space(s[0]) {
        trim_start(s.drop_first())
    } else {
        s
    }
}

/// The text without its trailing whitespace.
pub open spec fn trim_end(s: Seq<char>) -> Seq<char>
    decreases s.len(),
{
    if s.len() > 0 && is_white_space(s.last()) {
        trim_end(s.drop_last())
    } else {
        s
    }
}

/// The text without leading and trailing whitespace.
pub open spec fn trimmed(s: Seq<char>) -> Seq<char> {
    trim_end(trim_start(s))
}

/// Whether a character is Unicode whitespace.
pub fn white_space(c: char) -> (r: bool)
    ensures
        r == is_white_space(c),
{
    let u = c as u32;
    (0x9 <= u && u <= 0xd) || u == 0x20 || u == 0x85 || u == 0xa0 || u == 0x1680 || (0x2000 <= u
        && u <= 0x200a) || u == 0x2028 || u == 0x2029 || u == 0x202f || u == 0x205f || u == 0x3000
}

/// The text with leading and trailing whitespace removed.
pub fn trim_whitespace(s: &str) -> (r: &str)
    ensures
        r@ == trimmed(s@),
{
    let n = s.unicode_len();
    let mut i: usize = 0;
    assert(s@.subrange(0, n as int) =~= s@);
    while i < n && white_space(s.get_char(i))
        invariant
            i <= n,
            n == s@.len(),
            trim_start(s@) == trim_start(s@.subrange(i as int, n as int)),
        decreases n - i,
    {
        assert(s@.subrange(i as int, n as int).drop_first() =~= s@.subrange(i + 1, n as int));
        i += 1;
    }
    assert(trim_start(s@) == s@.subrange(i as int, n as int));
    let mut j: usize = n;
    while j > i && white_space(s.get_char(j - 1))
        invariant
            i <= j <= n,
            n == s@.len(),
            trim_end(s@.subrange(i as int, n as int)) == trim_end(s@.subrange(i as int, j as int)),
        decreases j,
    {
        assert(s@.subrange(i as int, j as int).drop_last() =~= s@.subrange(i as int, j - 1));
        j -= 1;
    }
    assert(trim_end(s@.subrange(i as int, j as int)) == s@.subrange(i as int, j as int));
    s.substring_char(i, j)
}

// ---------------------------------------------------------------------------
// Player name
// ---------------------------------------------------------------------------

/// Length in bytes of a text encoded as UTF-8.
pub open spec fn byte_len(s: Seq<char>) -> nat {
    vstd::utf8::encode_utf8(s).len()
}

/// The verdict on a typed player name.
#[derive(Debug, Clone, PartialEq)]
pub enum NameCheck {
    /// Nothing typed (or Esc): leave the menu.
    Cancel,
    /// Fewer than 2 bytes.
    TooShort,
    /// More than 20 bytes.
    TooLong,
    /// The trimmed name.
    Valid(String),
}

impl NameCheck {
    /// The message shown for a rejected name.
    pub fn message(&self) -> (r: Option<&'static str>)
        ensures
            match *self {
                NameCheck::TooShort => r matches Some(m) && m@
                    == "Name must be at least 2 characters."@,
                NameCheck::TooLong => r matches Some(m) && m@
                    == "Name must be 20 characters or less."@,
                _ => r is None,
            },
    {
        match self {
            NameCheck::TooShort => Some("Name must be at least 2 characters."),
            NameCheck::TooLong => Some("Name must be 20 characters or less."),
            _ => None,
        }
    }
}

/// Check a typed name: it is trimmed; empty means cancel, and otherwise it
/// must be 2 to 20 bytes long.
pub fn check_name(input: &str) -> (r: NameCheck)
    ensures
        ({
            let t = trimmed(input@);
            if t.len() == 0 {
                r == NameCheck::Cancel
            } else if byte_len(t) < 2 {
                r == NameCheck::TooShort
            } else if byte_len(t) > 20 {
                r == NameCheck::TooLong
            } else {
                r matches NameCheck::Valid(name) && name@ == t
            }
        }),
{
    let trimmed = trim_whitespace(input);
    if trimmed.is_empty() {
        return NameCheck::Cancel;
    }
    let bytes = trimmed.as_bytes().len();
    if bytes < 2 {
        return NameCheck::TooShort;
    }
    if bytes > 20 {
        return NameCheck::TooLong;
    }
    NameCheck::Valid(String::from_str(trimmed))
}

// ---------------------------------------------------------------------------
// Port
// ---------------------------------------------------------------------------

/// The port used when none is typed.
pub const DEFAULT_PORT: u16 = 7878;

/// Whether a character is an ASCII decimal digit.
pub open spec fn is_digit(c: char) -> bool {
    48 <= (c as u32) <= 57
}

/// The value of a string of decimal digits.
pub open spec fn digits_value(d: Seq<char>) -> nat
    decreases d.len(),
{
    if d.len() == 0 {
        0
    } else {
        digits_value(d.drop_last()) * 10 + ((d.last() as u32) - 48) as nat
    }
}

/// Every character is a decimal digit.
pub open spec fn all_digits(d: Seq<char>) -> bool {
    forall|i: int| 0 <= i < d.len() ==> is_digit(#[trigger] d[i])
}

/// The text after an optional leading `+`.
pub open spec fn unsigned_part(s: Seq<char>) -> Seq<char> {
    if s.len() > 0 && s[0] == '+' {
        s.drop_first()
    } else {
        s
    }
}

/// The number a text denotes as a `u16` in the grammar of Rust's integer
/// parsing: an optional `+` followed by at least one decimal digit, with a
/// value of at most 65535; `None` for any other text.
pub open spec fn parse_u16(s: Seq<char>) -> Option<u16> {
    let d = unsigned_part(s);
    if d.len() > 0 && all_digits(d) && digits_value(d) <= 65535 {
        Some(digits_value(d) as u16)
    } else {
        None
    }
}

/// A prefix of a string of digits never has a larger value than the string.
proof fn lemma_digits_value_prefix(d: Seq<char>, k: int)
    requires
        0 <= k <= d.len(),
        forall|i: int| 0 <= i < d.len() ==> is_digit(#[trigger] d[i]),
    ensures
        digits_value(d.take(k)) <= digits_value(d),
    decreases d.len() - k,
{
    if k < d.len() {
        lemma_digits_value_prefix(d, k + 1);
        assert(d.take(k + 1).drop_last() =~= d.take(k));
        assert(is_digit(d[k]));
    } else {
        assert(d.take(k) =~= d);
    }
}

/// Parse a decimal `u16` as Rust's integer parsing does (see `parse_u16`).
pub fn parse_port(s: &str) -> (r: Option<u16>)
    ensures
        r == parse_u16(s@),
{
    let n = s.unicode_len();
    if n == 0 {
        return None;
    }
    let start: usize = if s.get_char(0) == '+' {
        1
    } else {
        0
    };
    if start == n {
        return None;
    }
    let ghost d = unsigned_part(s@);
    assert(d =~= s@.subrange(start as int, n as int));
    let mut value: u32 = 0;
    let mut k: usize = start;
    while k < n
        invariant
            start <= k <= n,
            n == s@.len(),
            d == s@.subrange(start as int, n as int),
            d == unsigned_part(s@),
            forall|i: int| 0 <= i < k - start ==> is_digit(#[trigger] d[i]),
            value == digits_value(d.take(k - start)),
            value <= 65535,
        decreases n - k,
    {
        let c = s.get_char(k);
        let u = c as u32;
        if u < 48 || u > 57 {
            assert(!is_digit(d[k - start]));
            assert(!all_digits(d));
            return None;
        }
        assert(d.take(k + 1 - start).drop_last() =~= d.take(k - start));
        assert(d.take(k + 1 - start).last() == c);
        value = value * 10 + (u - 48);
        assert(value == digits_value(d.take(k + 1 - start)));
        if value > 65535 {
            proof {
                if all_digits(d) {
                    lemma_digits_value_prefix(d, k + 1 - start);
                }
            }
            return None;
        }
        k += 1;
    }
    assert(d.take(n - start) =~= d);
    Some(value as u16)
}

/// The verdict on a typed port.
#[derive(Debug, Clone, Copy, PartialEq, Eq, Structural)]
pub enum PortCheck {
    /// The port to host on.
    Port(u16),
    /// A number below 1024.
    TooLow,
    /// Not a number in range.
    Invalid,
}

impl PortCheck {
    /// The message shown for a rejected port.
    pub fn message(self) -> (r: Option<&'static str>)
        ensures
            match self {
                PortCheck::TooLow => r matches Some(m) && m@ == "Port must be 1024 or higher."@,
                PortCheck::Invalid => r matches Some(m) && m@ == "Invalid port number."@,
                PortCheck::Port(_) => r is None,
            },
    {
        match self {
            PortCheck::TooLow => Some("Port must be 1024 or higher."),
            PortCheck::Invalid => Some("Invalid port number."),
            PortCheck::Port(_) => None,
        }
    }
}

/// Check a typed port: empty means the default 7878; otherwise it must be a
/// number of at least 1024.
pub fn check_port(input: &str) -> (r: PortCheck)
    ensures
        ({
            let t = trimmed(input@);
            if t.len() == 0 {
                r == PortCheck::Port(DEFAULT_PORT)
            } else {
                match parse_u16(t) {
                    Some(p) => r == if p >= 1024 {
                        PortCheck::Port(p)
                    } else {
                        PortCheck::TooLow
                    },
                    None => r == PortCheck::Invalid,
                }
            }
        }),
{
    let trimmed = trim_whitespace(input);
    if trimmed.is_empty() {
        return PortCheck::Port(DEFAULT_PORT);
    }
    match parse_port(trimmed) {
        Some(p) => {
            if p >= 1024 {
                PortCheck::Port(p)
            } else {
                PortCheck::TooLow
            }
        },
        None => PortCheck::Invalid,
    }
}

// ---------------------------------------------------------------------------
// Host address
// ---------------------------------------------------------------------------

/// The address to connect to, before the front end checks that it is a
/// valid socket address.
#[derive(Debug, Clone, PartialEq)]
pub enum JoinAddress {
    /// Nothing typed: the local default, used as it is.
    Default(String),
    /// What was typed, with the default port added when none was given.
    Candidate(String),
}

/// Check a typed host address: empty means `127.0.0.1:7878`; text without a
/// `:` gets the default port `:7878` appended.
pub fn join_candidate(input: &str) -> (r: JoinAddress)
    ensures
        ({
            let t = trimmed(input@);
            if t.len() == 0 {
                r matches JoinAddress::Default(a) && a@ == "127.0.0.1:7878"@
            } else if !t.contains(':') {
                r matches JoinAddress::Candidate(a) && a@ == t + ":7878"@
            } else {
                r matches JoinAddress::Candidate(a) && a@ == t
            }
        }),
{
    let trimmed = trim_whitespace(input);
    if trimmed.is_empty() {
        return JoinAddress::Default(String::from_str("127.0.0.1:7878"));
    }
    let n = trimmed.unicode_len();
    let mut has_colon = false;
    let mut k: usize = 0;
    while k < n
        invariant
            k <= n,
            n == trimmed@.len(),
            has_colon == trimmed@.take(k as int).contains(':'),
        decreases n - k,
    {
        if trimmed.get_char(k) == ':' {
            assert(trimmed@.take(k + 1)[k as int] == ':');
            has_colon = true;
        } else {
            assert(trimmed@.take(k + 1) =~= trimmed@.take(k as int).push(trimmed@[k as int]));
            proof {
                if has_colon {
                    let w = choose|w: int| 0 <= w < k && trimmed@.take(k as int)[w] == ':';
                    assert(trimmed@.take(k + 1)[w] == ':');
                }
            }
        }
        k += 1;
    }
    assert(trimmed@.take(n as int) =~= trimmed@);
    let mut candidate = String::from_str(trimmed);
    if !has_colon {
        candidate.append(":7878");
    }
    JoinAddress::Candidate(candidate)
}


// ---------------------------------------------------------------------------
// Line input
// ---------------------------------------------------------------------------

/// Longest input line, in bytes, that still accepts another character.
pub const MAX_INPUT_BYTES: usize = 30;

/// Calls `String::push`: appends the character to the end of the string.
#[verifier::external_body]
fn push_char(s: &mut String, c: char)
    ensures
        final(s)@ == old(s)@.push(c),
{
    s.push(c)
}

/// What a key did to the line being typed.
#[derive(Debug, Clone, Copy, PartialEq, Eq, Structural)]
pub enum LineEdit {
    /// Enter: the line is finished.
    Done,
    /// Esc: the line was abandoned and is now empty.
    Cancelled,
    /// Backspace removed the last character.
    Erased,
    /// The character was appended.
    Typed(char),
    /// Nothing changed.
    Unchanged,
}

/// Apply a key to the line being typed: Enter finishes, Esc abandons the
/// line, Backspace removes the last character, a character is appended while
/// the line is shorter than 30 bytes.
pub fn edit_line(input: &mut String, key: Key) -> (r: LineEdit)
    ensures
        match key {
            Key::Enter => r == LineEdit::Done && final(input)@ == old(input)@,
            Key::Esc => r == LineEdit::Cancelled && final(input)@.len() == 0,
            Key::Backspace => if old(input)@.len() > 0 {
                r == LineEdit::Erased && final(input)@ == old(input)@.drop_last()
            } else {
                r == LineEdit::Unchanged && final(input)@ == old(input)@
            },
            Key::Char(c) => if byte_len(old(input)@) < MAX_INPUT_BYTES {
                r == LineEdit::Typed(c) && final(input)@ == old(input)@.push(c)
            } else {
                r == LineEdit::Unchanged && final(input)@ == old(input)@
            },
            _ => r == LineEdit::Unchanged && final(input)@ == old(input)@,
        },
{
    match key {
        Key::Enter => LineEdit::Done,
        Key::Esc => {
            *input = String::new();
            LineEdit::Cancelled
        },
        Key::Backspace => {
            let n = input.as_str().unicode_len();
            if n > 0 {
                let shorter = String::from_str(input.as_str().substring_char(0, n - 1));
                *input = shorter;
                LineEdit::Erased
            } else {
                LineEdit::Unchanged
            }
        },
        Key::Char(c) => {
            if input.as_str().as_bytes().len() < MAX_INPUT_BYTES {
                push_char(input, c);
                LineEdit::Typed(c)
            } else {
                LineEdit::Unchanged
            }
        },
        _ => LineEdit::Unchanged,
    }
}

} // verus!
