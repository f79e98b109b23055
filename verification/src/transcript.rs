//! Whole sessions: what a stream of lines that follows the protocol yields.
//!
//! A stream that follows the protocol is a greeting, any number of
//! submissions, and then either terminate or the end of the stream. The laws
//! of this module say that such a stream yields one connection with the
//! domain of the greeting and one message for each submission, in order.

use vstd::prelude::*;
use crate::command::{parse_line, CommandView};
use crate::record::{ConnectionView, MessageView};
use crate::session::{
    body_text, completed_message, initial, is_terminator, outcome, run, step, Phase, SessionError,
    SessionView, StreamEnd,
};

verus! {

/// The argument of the command that a line holds.
pub open spec fn argument_of(line: Seq<char>) -> Seq<char> {
    match parse_line(line) {
        Some(CommandView::Greeting(domain)) => domain,
        Some(CommandView::BeginMessage(address)) => address,
        Some(CommandView::AddRecipient(address)) => address,
        _ => Seq::empty(),
    }
}

/// Whether a line holds a greeting.
pub open spec fn greets(line: Seq<char>) -> bool {
    parse_line(line) matches Some(CommandView::Greeting(_))
}

/// Whether a line holds add-recipient.
pub open spec fn names_recipient(line: Seq<char>) -> bool {
    parse_line(line) matches Some(CommandView::AddRecipient(_))
}

/// The lines by which a client submits one message.
pub struct Submission {
    /// The begin-message line.
    pub begin: Seq<char>,
    /// The add-recipient lines.
    pub recipients: Seq<Seq<char>>,
    /// The begin-data line.
    pub data: Seq<char>,
    /// The lines of text.
    pub body: Seq<Seq<char>>,
    /// The line that ends the text.
    pub terminator: Seq<char>,
}

impl Submission {
    /// Whether each line is what its place asks for: the commands in their
    /// order, at least one recipient, and no terminator before the last line.
    pub open spec fn in_order(self) -> bool {
        &&& parse_line(self.begin) matches Some(CommandView::BeginMessage(_))
        &&& self.recipients.len() >= 1
        &&& forall|i: int|
            0 <= i < self.recipients.len() ==> names_recipient(#[trigger] self.recipients[i])
        &&& parse_line(self.data) == Some(CommandView::BeginData)
        &&& forall|i: int| 0 <= i < self.body.len() ==> !is_terminator(#[trigger] self.body[i])
        &&& is_terminator(self.terminator)
    }

    /// The lines in the order in which they are sent.
    pub open spec fn lines(self) -> Seq<Seq<char>> {
        seq![self.begin] + self.recipients + seq![self.data] + self.body + seq![self.terminator]
    }

    /// The message that is submitted.
    pub open spec fn message(self) -> MessageView {
        MessageView {
            sender: argument_of(self.begin),
            recipients: self.recipients.map_values(|line: Seq<char>| argument_of(line)),
            data: body_text(self.body),
        }
    }
}

/// The lines of several submissions, one submission after the other.
pub open spec fn all_lines(submissions: Seq<Submission>) -> Seq<Seq<char>>
    decreases submissions.len(),
{
    if submissions.len() == 0 {
        Seq::empty()
    } else {
        all_lines(submissions.drop_last()) + submissions.last().lines()
    }
}

/// The messages of several submissions, in order.
pub open spec fn all_messages(submissions: Seq<Submission>) -> Seq<MessageView> {
    submissions.map_values(|submission: Submission| submission.message())
}

/// Reading one stream after another is reading both as one.
pub proof fn lemma_run_concat(s: SessionView, first: Seq<Seq<char>>, second: Seq<Seq<char>>)
    ensures
        run(s, first + second) == run(run(s, first), second),
    decreases first.len(),
{
    if first.len() > 0 && !s.finished() {
        assert((first + second).drop_first() =~= first.drop_first() + second);
        lemma_run_concat(step(s, first[0]).0, first.drop_first(), second);
    }
}

/// Reading a single line is one step.
pub proof fn lemma_run_one(s: SessionView, line: Seq<char>)
    ensures
        run(s, seq![line]) == step(s, line).0,
{
    reveal_with_fuel(run, 2);
}

/// While a message is under construction, add-recipient lines add their
/// addresses to its recipients, in order, and nothing else changes but the
/// phase.
pub proof fn lemma_run_recipients(s: SessionView, lines: Seq<Seq<char>>)
    requires
        s.phase == Phase::MailFrom || s.phase == Phase::RcptTo,
        forall|i: int| 0 <= i < lines.len() ==> names_recipient(#[trigger] lines[i]),
    ensures
        lines.len() == 0 ==> run(s, lines) == s,
        lines.len() > 0 ==> run(s, lines) == (SessionView {
            phase: Phase::RcptTo,
            recipients: s.recipients + lines.map_values(|line: Seq<char>| argument_of(line)),
            ..s
        }),
    decreases lines.len(),
{
    if lines.len() > 0 {
        let next = step(s, lines[0]).0;
        let rest = lines.drop_first();
        lemma_run_recipients(next, rest);
        let f = |line: Seq<char>| argument_of(line);
        assert(next.recipients + rest.map_values(f) =~= s.recipients + lines.map_values(f));
    }
}

/// While text is awaited, lines that are no terminator are added to the text,
/// in order, and nothing else changes.
pub proof fn lemma_run_text(s: SessionView, lines: Seq<Seq<char>>)
    requires
        s.phase == Phase::Data,
        forall|i: int| 0 <= i < lines.len() ==> !is_terminator(#[trigger] lines[i]),
    ensures
        run(s, lines) == (SessionView { body: s.body + lines, ..s }),
    decreases lines.len(),
{
    if lines.len() > 0 {
        let next = step(s, lines[0]).0;
        let rest = lines.drop_first();
        lemma_run_text(next, rest);
        assert(next.body + rest =~= s.body + lines);
    }
}

/// One submission in order, sent while no message is under construction, adds
/// exactly its message, after those that are there, and leaves the domain as
/// it is.
pub proof fn lemma_submission_adds_its_message(s: SessionView, submission: Submission)
    requires
        s.phase == Phase::Greeted || s.phase == Phase::MessageComplete,
        submission.in_order(),
    ensures
        run(s, submission.lines()) == (SessionView {
            messages: s.messages.push(submission.message()),
            ..s.cleared(Phase::MessageComplete)
        }),
{
    let c = submission;
    let s1 = step(s, c.begin).0;
    lemma_run_one(s, c.begin);
    lemma_run_recipients(s1, c.recipients);
    let s2 = run(s1, c.recipients);
    lemma_run_concat(s, seq![c.begin], c.recipients);
    let s3 = step(s2, c.data).0;
    lemma_run_one(s2, c.data);
    lemma_run_concat(s, seq![c.begin] + c.recipients, seq![c.data]);
    lemma_run_text(s3, c.body);
    let s4 = run(s3, c.body);
    lemma_run_concat(s, seq![c.begin] + c.recipients + seq![c.data], c.body);
    lemma_run_one(s4, c.terminator);
    lemma_run_concat(
        s,
        seq![c.begin] + c.recipients + seq![c.data] + c.body,
        seq![c.terminator],
    );
}

/// Submissions in order, sent one after the other, add their messages in that
/// order, after those that are there.
pub proof fn lemma_submissions_add_their_messages(s: SessionView, submissions: Seq<Submission>)
    requires
        s.phase == Phase::Greeted || s.phase == Phase::MessageComplete,
        forall|i: int| 0 <= i < submissions.len() ==> (#[trigger] submissions[i]).in_order(),
    ensures
        submissions.len() == 0 ==> run(s, all_lines(submissions)) == s,
        submissions.len() > 0 ==> run(s, all_lines(submissions)) == (SessionView {
            messages: s.messages + all_messages(submissions),
            ..s.cleared(Phase::MessageComplete)
        }),
    decreases submissions.len(),
{
    if submissions.len() > 0 {
        let front = submissions.drop_last();
        let last = submissions.last();
        lemma_submissions_add_their_messages(s, front);
        lemma_run_concat(s, all_lines(front), last.lines());
        let middle = run(s, all_lines(front));
        lemma_submission_adds_its_message(middle, last);
        if front.len() == 0 {
            assert(s.messages.push(last.message()) =~= s.messages + all_messages(submissions));
        } else {
            assert((s.messages + all_messages(front)).push(last.message()) =~= s.messages
                + all_messages(submissions));
        }
    }
}

/// The session after a greeting and submissions in order: the domain of the
/// greeting, the messages of the submissions, and no message under
/// construction.
pub proof fn lemma_greeted_session(greeting: Seq<char>, submissions: Seq<Submission>)
    requires
        greets(greeting),
        forall|i: int| 0 <= i < submissions.len() ==> (#[trigger] submissions[i]).in_order(),
    ensures
        run(initial(), seq![greeting] + all_lines(submissions)) == (SessionView {
            phase: if submissions.len() == 0 {
                Phase::Greeted
            } else {
                Phase::MessageComplete
            },
            sender_domain: argument_of(greeting),
            messages: all_messages(submissions),
            ..initial()
        }),
{
    let greeted = step(initial(), greeting).0;
    lemma_run_one(initial(), greeting);
    lemma_run_concat(initial(), seq![greeting], all_lines(submissions));
    lemma_submissions_add_their_messages(greeted, submissions);
}

/// A session that greets, submits messages in order and terminates yields one
/// connection: the domain is that of the greeting, and the messages are those
/// of the submissions, as many and in the same order.
pub proof fn lemma_terminated_session_yields_its_messages(
    greeting: Seq<char>,
    submissions: Seq<Submission>,
    terminate: Seq<char>,
)
    requires
        greets(greeting),
        forall|i: int| 0 <= i < submissions.len() ==> (#[trigger] submissions[i]).in_order(),
        parse_line(terminate) == Some(CommandView::Terminate),
    ensures
        outcome(
            run(initial(), seq![greeting] + all_lines(submissions) + seq![terminate]),
            StreamEnd::Closed,
        ) == Ok::<ConnectionView, SessionError>(
            ConnectionView {
                sender_domain: argument_of(greeting),
                messages: all_messages(submissions),
            },
        ),
        run(initial(), seq![greeting] + all_lines(submissions) + seq![terminate]).phase
            == Phase::Closed,
{
    lemma_greeted_session(greeting, submissions);
    let before = run(initial(), seq![greeting] + all_lines(submissions));
    lemma_run_concat(initial(), seq![greeting] + all_lines(submissions), seq![terminate]);
    lemma_run_one(before, terminate);
}

/// A session that greets, submits messages in order and then just closes its
/// stream yields the same connection as one that terminates.
pub proof fn lemma_closed_stream_yields_its_messages(
    greeting: Seq<char>,
    submissions: Seq<Submission>,
)
    requires
        greets(greeting),
        forall|i: int| 0 <= i < submissions.len() ==> (#[trigger] submissions[i]).in_order(),
    ensures
        outcome(run(initial(), seq![greeting] + all_lines(submissions)), StreamEnd::Closed) == Ok::<
            ConnectionView,
            SessionError,
        >(
            ConnectionView {
                sender_domain: argument_of(greeting),
                messages: all_messages(submissions),
            },
        ),
{
    lemma_greeted_session(greeting, submissions);
}

/// A session whose stream ends inside the text of a message yields nothing,
/// whatever it had submitted before: the submissions that were complete are
/// dropped with the one that is not.
pub proof fn lemma_cut_off_session_yields_nothing(
    greeting: Seq<char>,
    submissions: Seq<Submission>,
    begin: Seq<char>,
    recipients: Seq<Seq<char>>,
    data: Seq<char>,
    body: Seq<Seq<char>>,
)
    requires
        greets(greeting),
        forall|i: int| 0 <= i < submissions.len() ==> (#[trigger] submissions[i]).in_order(),
        parse_line(begin) matches Some(CommandView::BeginMessage(_)),
        recipients.len() >= 1,
        forall|i: int| 0 <= i < recipients.len() ==> names_recipient(#[trigger] recipients[i]),
        parse_line(data) == Some(CommandView::BeginData),
        forall|i: int| 0 <= i < body.len() ==> !is_terminator(#[trigger] body[i]),
    ensures
        outcome(
            run(
                initial(),
                seq![greeting] + all_lines(submissions) + seq![begin] + recipients + seq![data]
                    + body,
            ),
            StreamEnd::Closed,
        ) == Err::<ConnectionView, SessionError>(SessionError::TruncatedData),
{
    lemma_greeted_session(greeting, submissions);
    let head = seq![greeting] + all_lines(submissions);
    let s = run(initial(), head);
    let s1 = step(s, begin).0;
    lemma_run_one(s, begin);
    lemma_run_concat(initial(), head, seq![begin]);
    lemma_run_recipients(s1, recipients);
    let s2 = run(s1, recipients);
    lemma_run_concat(initial(), head + seq![begin], recipients);
    let s3 = step(s2, data).0;
    lemma_run_one(s2, data);
    lemma_run_concat(initial(), head + seq![begin] + recipients, seq![data]);
    lemma_run_text(s3, body);
    lemma_run_concat(initial(), head + seq![begin] + recipients + seq![data], body);
}

} // verus!
