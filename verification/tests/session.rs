use smtp_capture::record::Connection;
use smtp_capture::session::{Phase, Reply, Session, SessionError, StreamEnd};

fn lines(raw: &[&str]) -> Vec<String> {
    raw.iter().map(|l| l.to_string()).collect()
}

fn feed_all(session: &mut Session, raw: &[&str]) -> Vec<Reply> {
    raw.iter().map(|l| session.feed_line(l)).collect()
}

#[test]
fn one_message_is_captured() {
    let stream = lines(&[
        "HELO a.com\r\n",
        "MAIL FROM:x@a.com\r\n",
        "RCPT TO:y@b.com\r\n",
        "DATA\r\n",
        "hello\r\n",
        ".\r\n",
        "QUIT\r\n",
    ]);
    let (replies, result) = Connection::handle(&stream);
    assert_eq!(
        replies,
        vec![
            Reply::Accepted,
            Reply::Accepted,
            Reply::Accepted,
            Reply::SendData,
            Reply::Captured,
            Reply::Accepted,
            Reply::Closing,
        ]
    );
    let connection = result.unwrap();
    assert_eq!(connection.get_sender_domain(), "a.com");
    assert_eq!(connection.get_messages().len(), 1);
    let message = &connection.get_messages()[0];
    assert_eq!(message.get_sender(), "x@a.com");
    assert_eq!(message.get_recipients(), &vec!["y@b.com".to_string()]);
    assert_eq!(message.get_data(), "hello");
}

#[test]
fn one_message_line_by_line() {
    let mut session = Session::new();
    assert_eq!(session.phase(), Phase::Init);
    assert_eq!(session.feed_line("HELO a.com\r\n"), Reply::Accepted);
    assert_eq!(session.phase(), Phase::Greeted);
    assert_eq!(session.feed_line("MAIL FROM:x@a.com\r\n"), Reply::Accepted);
    assert_eq!(session.phase(), Phase::MailFrom);
    assert_eq!(session.feed_line("RCPT TO:y@b.com\r\n"), Reply::Accepted);
    assert_eq!(session.phase(), Phase::RcptTo);
    assert_eq!(session.feed_line("DATA\r\n"), Reply::SendData);
    assert_eq!(session.phase(), Phase::Data);
    assert_eq!(session.feed_line("hello\r\n"), Reply::Captured);
    assert_eq!(session.phase(), Phase::Data);
    assert_eq!(session.feed_line(".\r\n"), Reply::Accepted);
    assert_eq!(session.phase(), Phase::MessageComplete);
    assert!(!session.is_finished());
    assert_eq!(session.feed_line("QUIT\r\n"), Reply::Closing);
    assert_eq!(session.phase(), Phase::Closed);
    assert!(session.is_finished());
    let connection = session.conclude(StreamEnd::Closed).unwrap();
    assert_eq!(connection.get_sender_domain(), "a.com");
    assert_eq!(connection.get_messages().len(), 1);
    assert_eq!(connection.get_messages()[0].get_data(), "hello");
}

#[test]
fn two_messages_keep_their_order_and_share_the_domain() {
    let stream = lines(&[
        "EHLO client.example\r\n",
        "MAIL FROM:first@a.com\r\n",
        "RCPT TO:one@b.com\r\n",
        "DATA\r\n",
        "first body\r\n",
        ".\r\n",
        "MAIL FROM:second@a.com\r\n",
        "RCPT TO:two@b.com\r\n",
        "RCPT TO:three@c.com\r\n",
        "DATA\r\n",
        "second body\r\n",
        ".\r\n",
        "QUIT\r\n",
    ]);
    let (replies, result) = Connection::handle(&stream);
    assert_eq!(replies.len(), 13);
    let connection = result.unwrap();
    assert_eq!(connection.get_sender_domain(), "client.example");
    let messages = connection.get_messages();
    assert_eq!(messages.len(), 2);
    assert_eq!(messages[0].get_sender(), "first@a.com");
    assert_eq!(messages[0].get_recipients(), &vec!["one@b.com".to_string()]);
    assert_eq!(messages[0].get_data(), "first body");
    assert_eq!(messages[1].get_sender(), "second@a.com");
    assert_eq!(
        messages[1].get_recipients(),
        &vec!["two@b.com".to_string(), "three@c.com".to_string()]
    );
    assert_eq!(messages[1].get_data(), "second body");
}

#[test]
fn recipient_before_message_is_refused() {
    let mut session = Session::new();
    assert_eq!(session.feed_line("HELO a.com\r\n"), Reply::Accepted);
    assert_eq!(session.feed_line("RCPT TO:y@b.com\r\n"), Reply::OutOfSequence);
    assert_eq!(session.phase(), Phase::Greeted);
    assert_eq!(session.feed_line("QUIT\r\n"), Reply::Closing);
    let connection = session.conclude(StreamEnd::Closed).unwrap();
    assert_eq!(connection.get_messages().len(), 0);
}

#[test]
fn recipient_after_a_completed_message_is_refused() {
    let mut session = Session::new();
    feed_all(
        &mut session,
        &["HELO a.com\n", "MAIL FROM:x@a.com\n", "RCPT TO:y@b.com\n", "DATA\n", "hi\n", ".\n"],
    );
    assert_eq!(session.phase(), Phase::MessageComplete);
    assert_eq!(session.feed_line("RCPT TO:z@b.com\n"), Reply::OutOfSequence);
    assert_eq!(session.phase(), Phase::MessageComplete);
    let connection = session.conclude(StreamEnd::Closed).unwrap();
    assert_eq!(connection.get_messages().len(), 1);
    assert_eq!(connection.get_messages()[0].get_recipients().len(), 1);
}

#[test]
fn recipient_before_greeting_is_refused() {
    let mut session = Session::new();
    assert_eq!(session.feed_line("RCPT TO:y@b.com\r\n"), Reply::OutOfSequence);
    assert_eq!(session.phase(), Phase::Init);
}

#[test]
fn data_without_recipient_is_refused() {
    let mut session = Session::new();
    assert_eq!(session.feed_line("HELO a.com\r\n"), Reply::Accepted);
    assert_eq!(session.feed_line("MAIL FROM:x@a.com\r\n"), Reply::Accepted);
    assert_eq!(session.feed_line("DATA\r\n"), Reply::OutOfSequence);
    assert_eq!(session.phase(), Phase::MailFrom);
    // Still in command mode: a recipient is taken as a command, not as text.
    assert_eq!(session.feed_line("RCPT TO:y@b.com\r\n"), Reply::Accepted);
    assert_eq!(session.phase(), Phase::RcptTo);
    assert_eq!(session.feed_line("DATA\r\n"), Reply::SendData);
    assert_eq!(session.phase(), Phase::Data);
}

#[test]
fn data_before_any_message_is_refused() {
    let mut session = Session::new();
    assert_eq!(session.feed_line("DATA\r\n"), Reply::OutOfSequence);
    assert_eq!(session.phase(), Phase::Init);
    assert_eq!(session.feed_line("HELO a.com\r\n"), Reply::Accepted);
    assert_eq!(session.feed_line("DATA\r\n"), Reply::OutOfSequence);
    assert_eq!(session.phase(), Phase::Greeted);
}

#[test]
fn session_cut_off_inside_the_text_is_discarded() {
    let stream = lines(&[
        "HELO a.com\r\n",
        "MAIL FROM:x@a.com\r\n",
        "RCPT TO:y@b.com\r\n",
        "DATA\r\n",
        "hello\r\n",
    ]);
    let (replies, result) = Connection::handle(&stream);
    assert_eq!(replies.len(), 5);
    assert!(matches!(result, Err(SessionError::TruncatedData)));
}

#[test]
fn cut_off_after_an_earlier_message_discards_both() {
    let stream = lines(&[
        "HELO a.com\n",
        "MAIL FROM:x@a.com\n",
        "RCPT TO:y@b.com\n",
        "DATA\n",
        "one\n",
        ".\n",
        "MAIL FROM:x@a.com\n",
        "RCPT TO:y@b.com\n",
        "DATA\n",
        "two\n",
    ]);
    let (_, result) = Connection::handle(&stream);
    assert!(matches!(result, Err(SessionError::TruncatedData)));
}

#[test]
fn greeting_verbs_are_read_without_regard_to_case() {
    for line in ["HELO a.com\r\n", "EHLO a.com\r\n", "helo a.com\r\n", "eHlO   a.com  \r\n"] {
        let mut session = Session::new();
        assert_eq!(session.feed_line(line), Reply::Accepted);
        let connection = session.conclude(StreamEnd::Closed).unwrap();
        assert_eq!(connection.get_sender_domain(), "a.com");
    }
}

#[test]
fn second_greeting_is_refused_and_the_domain_stays() {
    let mut session = Session::new();
    assert_eq!(session.feed_line("HELO a.com\r\n"), Reply::Accepted);
    assert_eq!(session.feed_line("HELO other.org\r\n"), Reply::OutOfSequence);
    assert_eq!(session.phase(), Phase::Greeted);
    let connection = session.conclude(StreamEnd::Closed).unwrap();
    assert_eq!(connection.get_sender_domain(), "a.com");
}

#[test]
fn message_before_greeting_is_refused() {
    let mut session = Session::new();
    assert_eq!(session.feed_line("MAIL FROM:x@a.com\r\n"), Reply::OutOfSequence);
    assert_eq!(session.phase(), Phase::Init);
}

#[test]
fn second_begin_message_is_refused() {
    let mut session = Session::new();
    feed_all(&mut session, &["HELO a.com\n", "MAIL FROM:x@a.com\n"]);
    assert_eq!(session.feed_line("MAIL FROM:other@a.com\n"), Reply::OutOfSequence);
    assert_eq!(session.phase(), Phase::MailFrom);
    feed_all(&mut session, &["RCPT TO:y@b.com\n", "DATA\n", ".\n"]);
    let connection = session.conclude(StreamEnd::Closed).unwrap();
    assert_eq!(connection.get_messages()[0].get_sender(), "x@a.com");
}

#[test]
fn terminate_before_greeting_is_refused() {
    let mut session = Session::new();
    assert_eq!(session.feed_line("QUIT\r\n"), Reply::OutOfSequence);
    assert_eq!(session.phase(), Phase::Init);
    assert!(!session.is_finished());
}

#[test]
fn line_that_is_no_command_aborts_the_session() {
    let mut session = Session::new();
    assert_eq!(session.feed_line("HELO a.com\r\n"), Reply::Accepted);
    assert_eq!(session.feed_line("NOOP\r\n"), Reply::Unrecognized);
    assert_eq!(session.phase(), Phase::Aborted);
    assert!(session.is_finished());
    assert_eq!(session.feed_line("QUIT\r\n"), Reply::OutOfSequence);
    assert_eq!(session.phase(), Phase::Aborted);
    assert!(matches!(session.conclude(StreamEnd::Closed), Err(SessionError::MalformedCommand)));
}

#[test]
fn empty_line_in_command_mode_aborts_the_session() {
    let (replies, result) = Connection::handle(&lines(&["HELO a.com\r\n", "\r\n", "QUIT\r\n"]));
    assert_eq!(replies, vec![Reply::Accepted, Reply::Unrecognized]);
    assert!(matches!(result, Err(SessionError::MalformedCommand)));
}

#[test]
fn session_without_messages_is_a_connection() {
    let (replies, result) = Connection::handle(&lines(&["HELO a.com\r\n", "QUIT\r\n"]));
    assert_eq!(replies, vec![Reply::Accepted, Reply::Closing]);
    let connection = result.unwrap();
    assert_eq!(connection.get_sender_domain(), "a.com");
    assert!(connection.get_messages().is_empty());
}

#[test]
fn stream_closed_after_greeting_is_a_connection() {
    let (_, result) = Connection::handle(&lines(&["HELO a.com\r\n"]));
    let connection = result.unwrap();
    assert_eq!(connection.get_sender_domain(), "a.com");
    assert!(connection.get_messages().is_empty());
}

#[test]
fn stream_closed_before_greeting_is_no_connection() {
    let (replies, result) = Connection::handle(&Vec::new());
    assert!(replies.is_empty());
    assert!(matches!(result, Err(SessionError::MissingGreeting)));
    let (_, result) = Connection::handle(&lines(&["QUIT\r\n"]));
    assert!(matches!(result, Err(SessionError::MissingGreeting)));
}

#[test]
fn failed_stream_is_no_connection() {
    let mut session = Session::new();
    feed_all(&mut session, &["HELO a.com\r\n", "QUIT\r\n"]);
    assert!(matches!(session.conclude(StreamEnd::Failed), Err(SessionError::Transport)));
    let session = Session::new();
    assert!(matches!(session.conclude(StreamEnd::Failed), Err(SessionError::Transport)));
}

#[test]
fn terminate_inside_a_message_drops_the_message() {
    let (replies, result) = Connection::handle(&lines(&[
        "HELO a.com\r\n",
        "MAIL FROM:x@a.com\r\n",
        "RCPT TO:y@b.com\r\n",
        "QUIT\r\n",
    ]));
    assert_eq!(replies[3], Reply::Closing);
    assert!(result.unwrap().get_messages().is_empty());
}

#[test]
fn stream_closed_inside_a_message_drops_the_message() {
    let (_, result) = Connection::handle(&lines(&[
        "HELO a.com\r\n",
        "MAIL FROM:x@a.com\r\n",
        "RCPT TO:y@b.com\r\n",
    ]));
    assert!(result.unwrap().get_messages().is_empty());
}

#[test]
fn text_keeps_its_line_breaks_but_for_the_last() {
    let (_, result) = Connection::handle(&lines(&[
        "HELO a.com\r\n",
        "MAIL FROM:x@a.com\r\n",
        "RCPT TO:y@b.com\r\n",
        "DATA\r\n",
        "a\r\n",
        "b\n",
        "\r\n",
        "  c  \r\n",
        ".\r\n",
        "QUIT\r\n",
    ]));
    let connection = result.unwrap();
    assert_eq!(connection.get_messages()[0].get_data(), "a\r\nb\n\r\n  c  ");
}

#[test]
fn empty_text_is_a_message() {
    let (_, result) = Connection::handle(&lines(&[
        "HELO a.com\r\n",
        "MAIL FROM:x@a.com\r\n",
        "RCPT TO:y@b.com\r\n",
        "DATA\r\n",
        ".\r\n",
    ]));
    let connection = result.unwrap();
    assert_eq!(connection.get_messages().len(), 1);
    assert_eq!(connection.get_messages()[0].get_data(), "");
}

#[test]
fn only_a_lone_dot_ends_the_text() {
    let mut session = Session::new();
    feed_all(
        &mut session,
        &["HELO a.com\r\n", "MAIL FROM:x@a.com\r\n", "RCPT TO:y@b.com\r\n", "DATA\r\n"],
    );
    for line in [". \r\n", " .\r\n", "..\r\n", ".x\r\n", "QUIT\r\n", "DATA\r\n", ".\r\r\n"] {
        assert_eq!(session.feed_line(line), Reply::Captured);
        assert_eq!(session.phase(), Phase::Data);
    }
    assert_eq!(session.feed_line(".\n"), Reply::Accepted);
    let connection = session.conclude(StreamEnd::Closed).unwrap();
    assert_eq!(
        connection.get_messages()[0].get_data(),
        ". \r\n .\r\n..\r\n.x\r\nQUIT\r\nDATA\r\n.\r"
    );
}

#[test]
fn dot_without_line_break_ends_the_text() {
    let mut session = Session::new();
    feed_all(
        &mut session,
        &["HELO a.com\n", "MAIL FROM:x@a.com\n", "RCPT TO:y@b.com\n", "DATA\n", "text\n"],
    );
    assert_eq!(session.feed_line("."), Reply::Accepted);
    let connection = session.conclude(StreamEnd::Closed).unwrap();
    assert_eq!(connection.get_messages()[0].get_data(), "text");
}

#[test]
fn text_outside_ascii_is_kept() {
    let (_, result) = Connection::handle(&lines(&[
        "HELO bücher.example\r\n",
        "MAIL FROM:jürgen@bücher.example\r\n",
        "RCPT TO:zoë@b.com\r\n",
        "DATA\r\n",
        "Grüße – 你好\r\n",
        ".\r\n",
    ]));
    let connection = result.unwrap();
    assert_eq!(connection.get_sender_domain(), "bücher.example");
    assert_eq!(connection.get_messages()[0].get_sender(), "jürgen@bücher.example");
    assert_eq!(connection.get_messages()[0].get_recipients()[0], "zoë@b.com");
    assert_eq!(connection.get_messages()[0].get_data(), "Grüße – 你好");
}

#[test]
fn lines_after_the_end_are_not_read() {
    let (replies, result) = Connection::handle(&lines(&[
        "HELO a.com\r\n",
        "QUIT\r\n",
        "MAIL FROM:x@a.com\r\n",
        "garbage\r\n",
    ]));
    assert_eq!(replies, vec![Reply::Accepted, Reply::Closing]);
    assert!(result.is_ok());
}

#[test]
fn finished_session_refuses_every_line() {
    let mut session = Session::new();
    feed_all(&mut session, &["HELO a.com\r\n", "QUIT\r\n"]);
    assert_eq!(session.feed_line("MAIL FROM:x@a.com\r\n"), Reply::OutOfSequence);
    assert_eq!(session.feed_line("garbage\r\n"), Reply::OutOfSequence);
    assert_eq!(session.phase(), Phase::Closed);
}

#[test]
fn arguments_are_kept_as_written() {
    let (_, result) = Connection::handle(&lines(&[
        "HELO   mail.a.com   \r\n",
        "mail from: <x@a.com> SIZE=12 \r\n",
        "rcpt to:<y@b.com>\r\n",
        "data\r\n",
        ".\r\n",
        "quit\r\n",
    ]));
    let connection = result.unwrap();
    assert_eq!(connection.get_sender_domain(), "mail.a.com");
    assert_eq!(connection.get_messages()[0].get_sender(), "<x@a.com> SIZE=12");
    assert_eq!(connection.get_messages()[0].get_recipients()[0], "<y@b.com>");
}

#[test]
fn reply_texts() {
    assert_eq!(Reply::Accepted.text(), Some("250 OK"));
    assert_eq!(Reply::SendData.text(), Some("354 Start mail input; end with <CRLF>.<CRLF>"));
    assert_eq!(Reply::Closing.text(), Some("221 Bye"));
    assert_eq!(Reply::OutOfSequence.text(), Some("503 Bad sequence of commands"));
    assert_eq!(Reply::Unrecognized.text(), Some("500 Syntax error, command unrecognized"));
    assert_eq!(Reply::Captured.text(), None);
    assert_eq!(Session::banner(), "220 Service ready");
}

#[test]
fn error_messages() {
    assert_eq!(SessionError::MalformedCommand.message(), "a line that is no command was received");
    assert_eq!(
        SessionError::TruncatedData.message(),
        "the stream ended inside the text of a message"
    );
    assert_eq!(SessionError::MissingGreeting.message(), "the stream ended before any greeting");
    assert_eq!(SessionError::Transport.message(), "reading from or writing to the stream failed");
}

#[test]
fn faults_of_framing_and_of_transport_are_told_apart() {
    assert!(SessionError::MalformedCommand.is_framing());
    assert!(SessionError::TruncatedData.is_framing());
    assert!(SessionError::MissingGreeting.is_framing());
    assert!(!SessionError::Transport.is_framing());
}
