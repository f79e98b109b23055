//! The command grammar of the session protocol.
//!
//! A command line is read without regard to surrounding blanks or to the case of
//! its verb. Five commands exist: a greeting (`HELO` or `EHLO`, a blank, a
//! domain), begin-message (`MAIL FROM:` and an address), add-recipient
//! (`RCPT TO:` and an address), begin-data (`DATA`) and terminate (`QUIT`).
//! An argument is kept as written, trimmed of blanks, and must not be empty.

use vstd::prelude::*;
use vstd::string::*;
use crate::text::{
    blank, is_blank, is_word, starts_with_word, to_chars, trim_bounds, trimmed, word_at,
};

verus! {

/// One command of the session protocol.
pub enum Command {
    /// The client names its domain.
    Greeting(String),
    /// A new message starts, from this sender.
    BeginMessage(String),
    /// One more recipient for the message under construction.
    AddRecipient(String),
    /// The message text follows.
    BeginData,
    /// The session ends.
    Terminate,
}

/// The mathematical value of a [`Command`].
pub enum CommandView {
    Greeting(Seq<char>),
    BeginMessage(Seq<char>),
    AddRecipient(Seq<char>),
    BeginData,
    Terminate,
}

impl View for Command {
    type V = CommandView;

    open spec fn view(&self) -> CommandView {
        match self {
            Command::Greeting(domain) => CommandView::Greeting(domain@),
            Command::BeginMessage(address) => CommandView::BeginMessage(address@),
            Command::AddRecipient(address) => CommandView::AddRecipient(address@),
            Command::BeginData => CommandView::BeginData,
            Command::Terminate => CommandView::Terminate,
        }
    }
}

/// The first spelling of the greeting verb.
pub open spec fn verb_helo() -> Seq<char> {
    seq!['H', 'E', 'L', 'O']
}

/// The second spelling of the greeting verb.
pub open spec fn verb_ehlo() -> Seq<char> {
    seq!['E', 'H', 'L', 'O']
}

/// The verb of begin-message, up to its colon.
pub open spec fn verb_mail() -> Seq<char> {
    seq!['M', 'A', 'I', 'L', ' ', 'F', 'R', 'O', 'M', ':']
}

/// The verb of add-recipient, up to its colon.
pub open spec fn verb_rcpt() -> Seq<char> {
    seq!['R', 'C', 'P', 'T', ' ', 'T', 'O', ':']
}

/// The verb of begin-data.
pub open spec fn verb_data() -> Seq<char> {
    seq!['D', 'A', 'T', 'A']
}

/// The verb of terminate.
pub open spec fn verb_quit() -> Seq<char> {
    seq!['Q', 'U', 'I', 'T']
}

/// What follows the first `k` characters of a trimmed command, trimmed again.
pub open spec fn argument(text: Seq<char>, k: int) -> Seq<char> {
    trimmed(text.skip(k))
}

/// Whether the trimmed line `text` is a greeting: one of the two verbs, a blank,
/// and a domain.
pub open spec fn is_greeting(text: Seq<char>) -> bool {
    &&& starts_with_word(text, verb_helo()) || starts_with_word(text, verb_ehlo())
    &&& text.len() > 4
    &&& is_blank(text[4])
    &&& argument(text, 4).len() > 0
}

/// The command that a line holds, if it holds one.
pub open spec fn parse_line(line: Seq<char>) -> Option<CommandView> {
    let text = trimmed(line);
    if is_word(text, verb_data()) {
        Some(CommandView::BeginData)
    } else if is_word(text, verb_quit()) {
        Some(CommandView::Terminate)
    } else if is_greeting(text) {
        Some(CommandView::Greeting(argument(text, 4)))
    } else if starts_with_word(text, verb_mail()) && argument(text, 10).len() > 0 {
        Some(CommandView::BeginMessage(argument(text, 10)))
    } else if starts_with_word(text, verb_rcpt()) && argument(text, 8).len() > 0 {
        Some(CommandView::AddRecipient(argument(text, 8)))
    } else {
        None
    }
}

/// Copies the characters `from..to` of `line` into a string of their own.
fn cut(line: &str, from: usize, to: usize) -> (r: String)
    requires
        from <= to <= line@.len(),
    ensures
        r@ == line@.subrange(from as int, to as int),
{
    String::from_str(line.substring_char(from, to))
}

/// Reads the argument of a command whose verb takes the first `k` characters
/// of the trimmed line `chars[a..b]`.
fn read_argument(line: &str, chars: &Vec<char>, a: usize, b: usize, k: usize) -> (r: Option<
    String,
>)
    requires
        chars@ == line@,
        a <= b <= chars.len(),
        k <= b - a,
    ensures
        match r {
            Some(text) => text@ == argument(chars@.subrange(a as int, b as int), k as int)
                && text@.len() > 0,
            None => argument(chars@.subrange(a as int, b as int), k as int).len() == 0,
        },
{
    assert(chars@.subrange(a as int, b as int).skip(k as int) =~= chars@.subrange(
        a + k,
        b as int,
    ));
    let (x, y) = trim_bounds(chars, a + k, b);
    if x < y {
        Some(cut(line, x, y))
    } else {
        None
    }
}

/// Parses one line of the session protocol. `None` means that the line holds
/// no command.
pub fn parse_command(line: &str) -> (r: Option<Command>)
    ensures
        match r {
            Some(command) => parse_line(line@) == Some(command@),
            None => parse_line(line@) is None,
        },
{
    let chars = to_chars(line);
    assert(chars@.subrange(0, chars.len() as int) =~= chars@);
    let (a, b) = trim_bounds(&chars, 0, chars.len());
    let data: Vec<char> = vec!['D', 'A', 'T', 'A'];
    let quit: Vec<char> = vec!['Q', 'U', 'I', 'T'];
    if b - a == 4 && word_at(&chars, a, b, &data) {
        return Some(Command::BeginData);
    }
    if b - a == 4 && word_at(&chars, a, b, &quit) {
        return Some(Command::Terminate);
    }
    let helo: Vec<char> = vec!['H', 'E', 'L', 'O'];
    let ehlo: Vec<char> = vec!['E', 'H', 'L', 'O'];
    if (word_at(&chars, a, b, &helo) || word_at(&chars, a, b, &ehlo)) && b - a > 4 && blank(
        chars[a + 4],
    ) {
        match read_argument(line, &chars, a, b, 4) {
            Some(domain) => {
                return Some(Command::Greeting(domain));
            },
            None => {},
        }
    }
    let mail: Vec<char> = vec!['M', 'A', 'I', 'L', ' ', 'F', 'R', 'O', 'M', ':'];
    if word_at(&chars, a, b, &mail) {
        match read_argument(line, &chars, a, b, 10) {
            Some(address) => {
                return Some(Command::BeginMessage(address));
            },
            None => {},
        }
    }
    let rcpt: Vec<char> = vec!['R', 'C', 'P', 'T', ' ', 'T', 'O', ':'];
    if word_at(&chars, a, b, &rcpt) {
        match read_argument(line, &chars, a, b, 8) {
            Some(address) => {
                return Some(Command::AddRecipient(address));
            },
            None => {},
        }
    }
    None
}

} // verus!
