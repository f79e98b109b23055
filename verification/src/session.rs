//! The protocol engine: one session as a state machine over protocol lines.
//!
//! A session starts in [`Phase::Init`], takes its lines one by one through
//! [`Session::feed_line`], and is turned into a [`Connection`] (or into the
//! reason why there is none) by [`Session::conclude`]. What each line does is
//! defined by [`step`], what the end of the stream yields by [`outcome`].

use vstd::prelude::*;
use vstd::string::*;
use crate::command::{parse_command, parse_line, Command, CommandView};
use crate::record::{message_views, texts, Connection, ConnectionView, Message, MessageView};
use crate::text::{content, content_len, to_chars};

verus! {

/// Where a session stands.
#[derive(Clone, Copy, PartialEq, Eq, Structural, Debug)]
pub enum Phase {
    /// Nothing received yet: only a greeting is in order.
    Init,
    /// Greeted, no message submitted yet.
    Greeted,
    /// A message has been begun and has no recipient yet.
    MailFrom,
    /// The message under construction has at least one recipient.
    RcptTo,
    /// The lines that arrive are the text of the message.
    Data,
    /// A message has been completed; another may follow.
    MessageComplete,
    /// The client has ended the session.
    Closed,
    /// A line that is no command has ended the session.
    Aborted,
}

/// What the engine answers to one line.
#[derive(Clone, Copy, PartialEq, Eq, Structural, Debug)]
pub enum Reply {
    /// The command was carried out.
    Accepted,
    /// Begin-data was accepted: the message text is awaited.
    SendData,
    /// Terminate was accepted: the session is over.
    Closing,
    /// The command is not in order in the present phase; nothing has changed.
    OutOfSequence,
    /// The line is no command; the session is aborted.
    Unrecognized,
    /// The line was taken as message text; nothing is sent.
    Captured,
}

/// Why a session has left no connection. The first three are faults of
/// framing, in what the client sent; the last is a fault of the transport.
#[derive(Clone, Copy, PartialEq, Eq, Structural, Debug)]
pub enum SessionError {
    /// A line that is no command was received.
    MalformedCommand,
    /// The stream ended inside the text of a message.
    TruncatedData,
    /// The stream ended before any greeting.
    MissingGreeting,
    /// Reading from or writing to the stream failed.
    Transport,
}

/// How the stream of a session came to its end.
#[derive(Clone, Copy, PartialEq, Eq, Structural, Debug)]
pub enum StreamEnd {
    /// No more lines: the client closed the stream, or the session is over.
    Closed,
    /// A read or a write failed.
    Failed,
}

/// The mathematical value of a [`Session`].
pub struct SessionView {
    pub phase: Phase,
    /// The domain of the greeting, once there was one.
    pub sender_domain: Seq<char>,
    /// The messages completed so far.
    pub messages: Seq<MessageView>,
    /// The sender of the message under construction.
    pub sender: Seq<char>,
    /// The recipients of the message under construction.
    pub recipients: Seq<Seq<char>>,
    /// The raw lines of text received for the message under construction.
    pub body: Seq<Seq<char>>,
}

impl SessionView {
    /// What holds of every session that started in its initial state.
    pub open spec fn wf(self) -> bool {
        &&& forall|i: int| 0 <= i < self.messages.len() ==> (#[trigger] self.messages[i]).wf()
        &&& self.phase == Phase::Init ==> self.sender_domain.len() == 0
        &&& self.phase != Phase::Init && self.phase != Phase::Aborted
            ==> self.sender_domain.len() > 0
        &&& self.phase == Phase::Init || self.phase == Phase::Greeted ==> self.messages.len()
            == 0
        &&& self.phase == Phase::MessageComplete ==> self.messages.len() >= 1
        &&& self.phase == Phase::MailFrom ==> self.recipients.len() == 0
        &&& self.phase == Phase::RcptTo || self.phase == Phase::Data ==> self.recipients.len()
            >= 1
        &&& self.phase != Phase::Data && self.phase != Phase::Aborted ==> self.body.len() == 0
        &&& self.idle() ==> self.sender.len() == 0 && self.recipients.len() == 0
    }

    /// Whether no message is under construction and the session can go on or
    /// has ended in order.
    pub open spec fn idle(self) -> bool {
        self.phase == Phase::Init || self.phase == Phase::Greeted || self.phase
            == Phase::MessageComplete || self.phase == Phase::Closed
    }

    /// Whether the session takes no more lines.
    pub open spec fn finished(self) -> bool {
        self.phase == Phase::Closed || self.phase == Phase::Aborted
    }

    /// The same session in another phase.
    pub open spec fn at(self, phase: Phase) -> SessionView {
        SessionView { phase, ..self }
    }

    /// The same session with no message under construction, in another phase.
    pub open spec fn cleared(self, phase: Phase) -> SessionView {
        SessionView {
            phase,
            sender: Seq::empty(),
            recipients: Seq::empty(),
            body: Seq::empty(),
            ..self
        }
    }
}

/// The session before its first line.
pub open spec fn initial() -> SessionView {
    SessionView {
        phase: Phase::Init,
        sender_domain: Seq::empty(),
        messages: Seq::empty(),
        sender: Seq::empty(),
        recipients: Seq::empty(),
        body: Seq::empty(),
    }
}

/// Whether a line ends the text of a message: a single dot and a line break.
pub open spec fn is_terminator(line: Seq<char>) -> bool {
    content(line) == seq!['.']
}

/// All lines one after the other.
pub open spec fn concat_all(lines: Seq<Seq<char>>) -> Seq<char>
    decreases lines.len(),
{
    if lines.len() == 0 {
        Seq::empty()
    } else {
        concat_all(lines.drop_last()) + lines.last()
    }
}

/// The text of a message, given the raw lines received for it: the lines one
/// after the other, each with its own line break, but for the break of the last
/// line, which belongs to the terminator. The lines are kept as they came: a
/// dot at the start of a line stays.
pub open spec fn body_text(lines: Seq<Seq<char>>) -> Seq<char> {
    if lines.len() == 0 {
        Seq::empty()
    } else {
        concat_all(lines.drop_last()) + content(lines.last())
    }
}

/// What a command does to a session that is neither finished nor taking
/// message text.
pub open spec fn apply(s: SessionView, command: CommandView) -> (SessionView, Reply) {
    match command {
        CommandView::Greeting(domain) => if s.phase == Phase::Init {
            (SessionView { phase: Phase::Greeted, sender_domain: domain, ..s }, Reply::Accepted)
        } else {
            (s, Reply::OutOfSequence)
        },
        CommandView::BeginMessage(address) => if s.phase == Phase::Greeted || s.phase
            == Phase::MessageComplete {
            (
                SessionView { sender: address, ..s.cleared(Phase::MailFrom) },
                Reply::Accepted,
            )
        } else {
            (s, Reply::OutOfSequence)
        },
        CommandView::AddRecipient(address) => if s.phase == Phase::MailFrom || s.phase
            == Phase::RcptTo {
            (
                SessionView {
                    phase: Phase::RcptTo,
                    recipients: s.recipients.push(address),
                    ..s
                },
                Reply::Accepted,
            )
        } else {
            (s, Reply::OutOfSequence)
        },
        CommandView::BeginData => if s.phase == Phase::RcptTo {
            (s.at(Phase::Data), Reply::SendData)
        } else {
            (s, Reply::OutOfSequence)
        },
        CommandView::Terminate => if s.phase == Phase::Init {
            (s, Reply::OutOfSequence)
        } else {
            (s.cleared(Phase::Closed), Reply::Closing)
        },
    }
}

/// The message that the terminator completes.
pub open spec fn completed_message(s: SessionView) -> MessageView {
    MessageView { sender: s.sender, recipients: s.recipients, data: body_text(s.body) }
}

/// What one line does to a session, and what is answered to it.
///
/// A finished session takes nothing. While message text is awaited, a line is
/// text unless it is the terminator, which completes the message. Otherwise
/// the line must hold a command: if it holds none the session is aborted, and
/// a command that is not in order changes nothing.
pub open spec fn step(s: SessionView, line: Seq<char>) -> (SessionView, Reply) {
    if s.finished() {
        (s, Reply::OutOfSequence)
    } else if s.phase == Phase::Data {
        if is_terminator(line) {
            (
                SessionView {
                    messages: s.messages.push(completed_message(s)),
                    ..s.cleared(Phase::MessageComplete)
                },
                Reply::Accepted,
            )
        } else {
            (SessionView { body: s.body.push(line), ..s }, Reply::Captured)
        }
    } else {
        match parse_line(line) {
            Some(command) => apply(s, command),
            None => (s.at(Phase::Aborted), Reply::Unrecognized),
        }
    }
}

/// What a session yields when its stream ends.
///
/// A failed stream yields nothing. Otherwise a session that was aborted, that
/// never got a greeting or that was cut off inside the text of a message
/// yields nothing either; any other yields its connection, with the messages
/// completed so far.
pub open spec fn outcome(s: SessionView, end: StreamEnd) -> Result<ConnectionView, SessionError> {
    if end == StreamEnd::Failed {
        Err(SessionError::Transport)
    } else if s.phase == Phase::Aborted {
        Err(SessionError::MalformedCommand)
    } else if s.phase == Phase::Init {
        Err(SessionError::MissingGreeting)
    } else if s.phase == Phase::Data {
        Err(SessionError::TruncatedData)
    } else {
        Ok(ConnectionView { sender_domain: s.sender_domain, messages: s.messages })
    }
}

/// The text that is sent for a reply, if any is sent.
pub open spec fn reply_text(reply: Reply) -> Option<Seq<char>> {
    match reply {
        Reply::Accepted => Some("250 OK"@),
        Reply::SendData => Some("354 Start mail input; end with <CRLF>.<CRLF>"@),
        Reply::Closing => Some("221 Bye"@),
        Reply::OutOfSequence => Some("503 Bad sequence of commands"@),
        Reply::Unrecognized => Some("500 Syntax error, command unrecognized"@),
        Reply::Captured => None,
    }
}

impl Reply {
    /// The text to send to the client, without line break; `None` where
    /// nothing is sent.
    pub fn text(&self) -> (r: Option<&'static str>)
        ensures
            match r {
                Some(t) => reply_text(*self) == Some(t@),
                None => reply_text(*self) is None,
            },
    {
        match self {
            Reply::Accepted => Some("250 OK"),
            Reply::SendData => Some("354 Start mail input; end with <CRLF>.<CRLF>"),
            Reply::Closing => Some("221 Bye"),
            Reply::OutOfSequence => Some("503 Bad sequence of commands"),
            Reply::Unrecognized => Some("500 Syntax error, command unrecognized"),
            Reply::Captured => None,
        }
    }
}

impl SessionError {
    /// Whether the fault lies in what the client sent, not in the transport.
    pub fn is_framing(&self) -> (b: bool)
        ensures
            b == (*self != SessionError::Transport),
    {
        match self {
            SessionError::Transport => false,
            _ => true,
        }
    }

    /// A sentence that says what went wrong.
    pub fn message(&self) -> (r: &'static str)
        ensures
            r@ == match *self {
                SessionError::MalformedCommand => "a line that is no command was received"@,
                SessionError::TruncatedData => "the stream ended inside the text of a message"@,
                SessionError::MissingGreeting => "the stream ended before any greeting"@,
                SessionError::Transport => "reading from or writing to the stream failed"@,
            },
    {
        match self {
            SessionError::MalformedCommand => "a line that is no command was received",
            SessionError::TruncatedData => "the stream ended inside the text of a message",
            SessionError::MissingGreeting => "the stream ended before any greeting",
            SessionError::Transport => "reading from or writing to the stream failed",
        }
    }
}

/// One session of the protocol, line by line.
#[derive(Debug)]
pub struct Session {
    phase: Phase,
    sender_domain: String,
    messages: Vec<Message>,
    sender: String,
    recipients: Vec<String>,
    body: Vec<String>,
}

impl View for Session {
    type V = SessionView;

    closed spec fn view(&self) -> SessionView {
        SessionView {
            phase: self.phase,
            sender_domain: self.sender_domain@,
            messages: message_views(self.messages@),
            sender: self.sender@,
            recipients: texts(self.recipients@),
            body: texts(self.body@),
        }
    }
}

/// Builds the text of a message from the raw lines received for it.
fn body_string(lines: &Vec<String>) -> (r: String)
    ensures
        r@ == body_text(texts(lines@)),
{
    let mut r = String::new();
    if lines.len() == 0 {
        return r;
    }
    let ghost all = texts(lines@);
    let last = lines.len() - 1;
    let mut i: usize = 0;
    while i < last
        invariant
            i <= last,
            last == lines.len() - 1,
            all == texts(lines@),
            r@ == concat_all(all.take(i as int)),
        decreases last - i,
    {
        r.append(lines[i].as_str());
        assert(all.take(i + 1).drop_last() =~= all.take(i as int));
        i = i + 1;
    }
    let tail = lines[last].as_str();
    let chars = to_chars(tail);
    let n = content_len(&chars);
    r.append(tail.substring_char(0, n));
    r
}

impl Session {
    /// The text that opens a session, sent before the first line is read.
    pub fn banner() -> (r: &'static str)
        ensures
            r@ == "220 Service ready"@,
    {
        "220 Service ready"
    }

    /// A session before its first line.
    pub fn new() -> (s: Session)
        ensures
            s@ == initial(),
            s@.wf(),
    {
        let s = Session {
            phase: Phase::Init,
            sender_domain: String::new(),
            messages: Vec::new(),
            sender: String::new(),
            recipients: Vec::new(),
            body: Vec::new(),
        };
        assert(message_views(s.messages@) =~= Seq::empty());
        assert(texts(s.body@) =~= Seq::empty());
        s
    }

    /// Where the session stands.
    pub fn phase(&self) -> (p: Phase)
        ensures
            p == self@.phase,
    {
        self.phase
    }

    /// Whether the session takes no more lines.
    pub fn is_finished(&self) -> (b: bool)
        ensures
            b == self@.finished(),
    {
        self.phase == Phase::Closed || self.phase == Phase::Aborted
    }

    /// Drops the message under construction and moves to `phase`.
    fn clear_to(&mut self, phase: Phase)
        ensures
            final(self)@ == old(self)@.cleared(phase),
    {
        self.sender = String::new();
        self.recipients = Vec::new();
        self.body = Vec::new();
        self.phase = phase;
        assert(texts(self.body@) =~= Seq::empty());
    }

    /// Carries out one command.
    fn apply_command(&mut self, command: Command) -> (reply: Reply)
        requires
            !old(self)@.finished(),
            old(self)@.phase != Phase::Data,
        ensures
            final(self)@ == apply(old(self)@, command@).0,
            reply == apply(old(self)@, command@).1,
    {
        match command {
            Command::Greeting(domain) => {
                if self.phase == Phase::Init {
                    self.sender_domain = domain;
                    self.phase = Phase::Greeted;
                    Reply::Accepted
                } else {
                    Reply::OutOfSequence
                }
            },
            Command::BeginMessage(address) => {
                if self.phase == Phase::Greeted || self.phase == Phase::MessageComplete {
                    self.clear_to(Phase::MailFrom);
                    self.sender = address;
                    Reply::Accepted
                } else {
                    Reply::OutOfSequence
                }
            },
            Command::AddRecipient(address) => {
                if self.phase == Phase::MailFrom || self.phase == Phase::RcptTo {
                    self.recipients.push(address);
                    self.phase = Phase::RcptTo;
                    assert(texts(self.recipients@) =~= texts(old(self).recipients@).push(
                        address@,
                    ));
                    Reply::Accepted
                } else {
                    Reply::OutOfSequence
                }
            },
            Command::BeginData => {
                if self.phase == Phase::RcptTo {
                    self.phase = Phase::Data;
                    Reply::SendData
                } else {
                    Reply::OutOfSequence
                }
            },
            Command::Terminate => {
                if self.phase == Phase::Init {
                    Reply::OutOfSequence
                } else {
                    self.clear_to(Phase::Closed);
                    Reply::Closing
                }
            },
        }
    }

    /// Completes the message under construction.
    fn complete_message(&mut self)
        ensures
            final(self)@ == (SessionView {
                messages: old(self)@.messages.push(completed_message(old(self)@)),
                ..old(self)@.cleared(Phase::MessageComplete)
            }),
    {
        let data = body_string(&self.body);
        let mut sender = String::new();
        core::mem::swap(&mut self.sender, &mut sender);
        let mut recipients: Vec<String> = Vec::new();
        core::mem::swap(&mut self.recipients, &mut recipients);
        let message = Message::assemble(sender, recipients, data);
        self.messages.push(message);
        assert(message_views(self.messages@) =~= message_views(old(self).messages@).push(
            message@,
        ));
        self.clear_to(Phase::MessageComplete);
    }

    /// Takes one line of the stream, with its line break, and says what to
    /// answer.
    pub fn feed_line(&mut self, line: &str) -> (reply: Reply)
        ensures
            final(self)@ == step(old(self)@, line@).0,
            reply == step(old(self)@, line@).1,
            old(self)@.wf() ==> final(self)@.wf(),
    {
        if self.is_finished() {
            Reply::OutOfSequence
        } else if self.phase == Phase::Data {
            let chars = to_chars(line);
            let n = content_len(&chars);
            if n == 1 && chars[0] == '.' {
                assert(content(line@) =~= seq!['.']);
                self.complete_message();
                Reply::Accepted
            } else {
                assert(!is_terminator(line@)) by {
                    if is_terminator(line@) {
                        assert(content(line@).len() == 1);
                        assert(content(line@)[0] == '.');
                    }
                }
                self.body.push(String::from_str(line));
                assert(texts(self.body@) =~= texts(old(self).body@).push(line@));
                Reply::Captured
            }
        } else {
            match parse_command(line) {
                Some(command) => self.apply_command(command),
                None => {
                    self.phase = Phase::Aborted;
                    Reply::Unrecognized
                },
            }
        }
    }

    /// Ends the session and hands out its connection, or says why there is
    /// none.
    pub fn conclude(self, end: StreamEnd) -> (r: Result<Connection, SessionError>)
        ensures
            match r {
                Ok(connection) => outcome(self@, end) == Ok::<ConnectionView, SessionError>(
                    connection@,
                ),
                Err(error) => outcome(self@, end) == Err::<ConnectionView, SessionError>(error),
            },
            self@.wf() ==> (r matches Ok(connection) ==> connection@.wf()),
    {
        if end == StreamEnd::Failed {
            Err(SessionError::Transport)
        } else if self.phase == Phase::Aborted {
            Err(SessionError::MalformedCommand)
        } else if self.phase == Phase::Init {
            Err(SessionError::MissingGreeting)
        } else if self.phase == Phase::Data {
            Err(SessionError::TruncatedData)
        } else {
            Ok(Connection::new(self.sender_domain, self.messages))
        }
    }
}

/// The session after the lines of `lines`, read in order for as long as the
/// session is not finished.
pub open spec fn run(s: SessionView, lines: Seq<Seq<char>>) -> SessionView
    decreases lines.len(),
{
    if lines.len() == 0 || s.finished() {
        s
    } else {
        run(step(s, lines[0]).0, lines.drop_first())
    }
}

/// The replies to the lines of `lines`, read in order for as long as the
/// session is not finished.
pub open spec fn replies(s: SessionView, lines: Seq<Seq<char>>) -> Seq<Reply>
    decreases lines.len(),
{
    if lines.len() == 0 || s.finished() {
        Seq::empty()
    } else {
        seq![step(s, lines[0]).1] + replies(step(s, lines[0]).0, lines.drop_first())
    }
}

impl Connection {
    /// Runs one whole session over a stream that is already at hand: `lines`
    /// are the lines of the stream, each with its line break, and the stream
    /// ends after the last. Returns the replies to the lines that were read,
    /// and the connection or the reason why there is none.
    pub fn handle(lines: &Vec<String>) -> (r: (Vec<Reply>, Result<Connection, SessionError>))
        ensures
            r.0@ == replies(initial(), texts(lines@)),
            match r.1 {
                Ok(connection) => outcome(run(initial(), texts(lines@)), StreamEnd::Closed)
                    == Ok::<ConnectionView, SessionError>(connection@) && connection@.wf(),
                Err(error) => outcome(run(initial(), texts(lines@)), StreamEnd::Closed)
                    == Err::<ConnectionView, SessionError>(error),
            },
    {
        let ghost all = texts(lines@);
        let mut session = Session::new();
        let mut sent: Vec<Reply> = Vec::new();
        let mut i: usize = 0;
        assert(all.skip(0) =~= all);
        while i < lines.len() && !session.is_finished()
            invariant
                i <= lines.len(),
                all == texts(lines@),
                session@.wf(),
                run(initial(), all) == run(session@, all.skip(i as int)),
                replies(initial(), all) == sent@ + replies(session@, all.skip(i as int)),
            decreases lines.len() - i,
        {
            let reply = session.feed_line(lines[i].as_str());
            assert(all.skip(i as int).drop_first() =~= all.skip(i + 1));
            sent.push(reply);
            i = i + 1;
        }
        (sent, session.conclude(StreamEnd::Closed))
    }
}

/// Every line leaves a well-formed session well-formed.
pub proof fn lemma_step_keeps_wf(s: SessionView, line: Seq<char>)
    requires
        s.wf(),
    ensures
        step(s, line).0.wf(),
{
}

/// Every run of lines leaves a well-formed session well-formed.
pub proof fn lemma_run_keeps_wf(s: SessionView, lines: Seq<Seq<char>>)
    requires
        s.wf(),
    ensures
        run(s, lines).wf(),
    decreases lines.len(),
{
    if lines.len() > 0 && !s.finished() {
        lemma_step_keeps_wf(s, lines[0]);
        lemma_run_keeps_wf(step(s, lines[0]).0, lines.drop_first());
    }
}

/// The connection of a well-formed session has a domain and complete messages
/// only.
pub proof fn lemma_outcome_is_wf(s: SessionView, end: StreamEnd)
    requires
        s.wf(),
    ensures
        outcome(s, end) matches Ok(connection) ==> connection.wf()
            && connection.sender_domain.len() > 0,
{
}

/// A recipient given while no message is under construction is refused: the
/// reply is the sequencing error, and the session, its messages with it, is
/// what it was.
pub proof fn lemma_recipient_needs_message(s: SessionView, line: Seq<char>)
    requires
        s.idle(),
        parse_line(line) matches Some(CommandView::AddRecipient(_)),
    ensures
        step(s, line) == (s, Reply::OutOfSequence),
{
}

/// Begin-data while the message under construction has no recipient is
/// refused: the reply is the sequencing error, and the session is what it was,
/// so no line is taken as message text.
pub proof fn lemma_data_needs_recipient(s: SessionView, line: Seq<char>)
    requires
        s.wf(),
        s.phase != Phase::Data,
        s.recipients.len() == 0,
        parse_line(line) == Some(CommandView::BeginData),
    ensures
        step(s, line) == (s, Reply::OutOfSequence),
        step(s, line).0.phase != Phase::Data,
{
}

/// Every line is answered but a line of message text: nothing is sent
/// exactly for the lines that are taken as text.
pub proof fn lemma_every_command_is_answered(s: SessionView, line: Seq<char>)
    ensures
        reply_text(step(s, line).1) is None <==> s.phase == Phase::Data && !is_terminator(line),
        step(s, line).1 == Reply::Captured <==> s.phase == Phase::Data && !is_terminator(line),
{
}

/// A command that is refused as out of sequence changes nothing.
pub proof fn lemma_refusal_changes_nothing(s: SessionView, line: Seq<char>)
    ensures
        step(s, line).1 == Reply::OutOfSequence ==> step(s, line).0 == s,
{
}

/// Once a greeting has been accepted, the domain of the session stays what it
/// is.
pub proof fn lemma_domain_is_set_once(s: SessionView, line: Seq<char>)
    requires
        s.phase != Phase::Init,
    ensures
        step(s, line).0.sender_domain == s.sender_domain,
        step(s, line).0.phase != Phase::Init,
{
}

/// A line adds at most one message, after those that are there: completed
/// messages stay, in their order.
pub proof fn lemma_messages_are_kept(s: SessionView, line: Seq<char>)
    ensures
        step(s, line).0.messages == s.messages || step(s, line).0.messages == s.messages.push(
            completed_message(s),
        ),
        s.messages.is_prefix_of(step(s, line).0.messages),
{
}

/// A session whose stream ends inside the text of a message leaves no
/// connection, however the stream ended.
pub proof fn lemma_cut_off_text_leaves_nothing(s: SessionView, end: StreamEnd)
    requires
        s.phase == Phase::Data,
    ensures
        outcome(s, end) is Err,
        end == StreamEnd::Closed ==> outcome(s, end) == Err::<ConnectionView, SessionError>(
            SessionError::TruncatedData,
        ),
{
}

} // verus!
