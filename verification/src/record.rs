//! The records that a session leaves behind: messages and connections.

use vstd::prelude::*;
use vstd::string::*;

verus! {

/// The character sequences that a vector of strings holds, in order.
pub open spec fn texts(v: Seq<String>) -> Seq<Seq<char>> {
    v.map_values(|s: String| s@)
}

/// One mail submission: who sent it, to whom, and its text.
#[derive(Debug)]
pub struct Message {
    sender: String,
    recipients: Vec<String>,
    data: String,
}

/// The mathematical value of a [`Message`].
pub struct MessageView {
    pub sender: Seq<char>,
    pub recipients: Seq<Seq<char>>,
    pub data: Seq<char>,
}

impl MessageView {
    /// A complete message has at least one recipient.
    pub open spec fn wf(self) -> bool {
        self.recipients.len() >= 1
    }
}

impl View for Message {
    type V = MessageView;

    closed spec fn view(&self) -> MessageView {
        MessageView {
            sender: self.sender@,
            recipients: texts(self.recipients@),
            data: self.data@,
        }
    }
}

impl Message {
    /// Makes a message. A message needs a recipient: with none, there is no
    /// message.
    pub fn new(sender: String, recipients: Vec<String>, data: String) -> (r: Option<Message>)
        ensures
            match r {
                Some(m) => recipients@.len() > 0 && m@.wf() && m@ == (MessageView {
                    sender: sender@,
                    recipients: texts(recipients@),
                    data: data@,
                }),
                None => recipients@.len() == 0,
            },
    {
        if recipients.len() == 0 {
            None
        } else {
            Some(Message { sender, recipients, data })
        }
    }

    /// Puts a message together from the parts that a session has collected.
    pub(crate) fn assemble(sender: String, recipients: Vec<String>, data: String) -> (m: Message)
        ensures
            m@ == (MessageView {
                sender: sender@,
                recipients: texts(recipients@),
                data: data@,
            }),
    {
        Message { sender, recipients, data }
    }

    /// The sender's address.
    pub fn get_sender(&self) -> (r: &String)
        ensures
            r@ == self@.sender,
    {
        &self.sender
    }

    /// The recipients' addresses, in the order in which they were given.
    pub fn get_recipients(&self) -> (r: &Vec<String>)
        ensures
            texts(r@) == self@.recipients,
    {
        &self.recipients
    }

    /// The text of the message.
    pub fn get_data(&self) -> (r: &String)
        ensures
            r@ == self@.data,
    {
        &self.data
    }
}

impl Clone for Message {
    fn clone(&self) -> (r: Self)
        ensures
            r@ == self@,
    {
        let recipients = self.recipients.clone();
        Message { sender: self.sender.clone(), recipients, data: self.data.clone() }
    }
}

/// The values of the messages that a vector holds, in order.
pub open spec fn message_views(v: Seq<Message>) -> Seq<MessageView> {
    v.map_values(|m: Message| m@)
}

/// One completed session: the domain that the client gave in its greeting and
/// the messages that it submitted, in the order of submission.
#[derive(Debug)]
pub struct Connection {
    sender_domain: String,
    messages: Vec<Message>,
}

/// The mathematical value of a [`Connection`].
pub struct ConnectionView {
    pub sender_domain: Seq<char>,
    pub messages: Seq<MessageView>,
}

impl ConnectionView {
    /// Every message of a connection is complete.
    pub open spec fn wf(self) -> bool {
        forall|i: int| 0 <= i < self.messages.len() ==> (#[trigger] self.messages[i]).wf()
    }
}

impl View for Connection {
    type V = ConnectionView;

    closed spec fn view(&self) -> ConnectionView {
        ConnectionView {
            sender_domain: self.sender_domain@,
            messages: message_views(self.messages@),
        }
    }
}

impl Connection {
    /// Makes the record of a session that gave `sender_domain` and submitted
    /// `messages`. A session may have submitted none.
    pub fn new(sender_domain: String, messages: Vec<Message>) -> (c: Connection)
        ensures
            c@ == (ConnectionView {
                sender_domain: sender_domain@,
                messages: message_views(messages@),
            }),
    {
        Connection { sender_domain, messages }
    }

    /// The domain that the client gave in its greeting.
    pub fn get_sender_domain(&self) -> (r: &String)
        ensures
            r@ == self@.sender_domain,
    {
        &self.sender_domain
    }

    /// The messages of the session, in the order of submission.
    pub fn get_messages(&self) -> (r: &Vec<Message>)
        ensures
            message_views(r@) == self@.messages,
    {
        &self.messages
    }
}

impl Clone for Connection {
    fn clone(&self) -> (r: Self)
        ensures
            r@ == self@,
    {
        let messages = self.messages.clone();
        assert(message_views(messages@) =~= message_views(self.messages@));
        Connection { sender_domain: self.sender_domain.clone(), messages }
    }
}

/// The values of the connections that a vector holds, in order.
pub open spec fn connection_views(v: Seq<Connection>) -> Seq<ConnectionView> {
    v.map_values(|c: Connection| c@)
}

/// Copies a sequence of connections, record by record.
pub fn clone_connections(v: &Vec<Connection>) -> (r: Vec<Connection>)
    ensures
        connection_views(r@) == connection_views(v@),
{
    let r = v.clone();
    r
}

/// The items one after the other, with the separator between each two.
pub open spec fn joined(items: Seq<Seq<char>>, separator: Seq<char>) -> Seq<char>
    decreases items.len(),
{
    if items.len() == 0 {
        Seq::empty()
    } else if items.len() == 1 {
        items[0]
    } else {
        joined(items.drop_last(), separator) + separator + items.last()
    }
}

/// Joins strings, with the separator between each two.
pub fn join(items: &Vec<String>, separator: &str) -> (r: String)
    ensures
        r@ == joined(texts(items@), separator@),
{
    let ghost all = texts(items@);
    let mut r = String::new();
    let mut i: usize = 0;
    while i < items.len()
        invariant
            i <= items.len(),
            all == texts(items@),
            r@ == joined(all.take(i as int), separator@),
        decreases items.len() - i,
    {
        if i > 0 {
            r.append(separator);
        }
        r.append(items[i].as_str());
        assert(all.take(i + 1).drop_last() =~= all.take(i as int));
        i = i + 1;
    }
    assert(all.take(i as int) =~= all);
    r
}

/// What is reported of a message: its sender, its recipients, its text.
pub open spec fn message_report(m: MessageView) -> Seq<Seq<char>> {
    seq!["Message from: "@ + m.sender, "To: "@ + joined(m.recipients, ", "@), m.data]
}

/// What is reported of a sequence of messages: the report of each, in order.
pub open spec fn messages_report(messages: Seq<MessageView>) -> Seq<Seq<char>>
    decreases messages.len(),
{
    if messages.len() == 0 {
        Seq::empty()
    } else {
        messages_report(messages.drop_last()) + message_report(messages.last())
    }
}

/// What is reported of a connection: its domain, then its messages.
pub open spec fn connection_report(c: ConnectionView) -> Seq<Seq<char>> {
    seq!["Sender domain: "@ + c.sender_domain] + messages_report(c.messages)
}

impl Message {
    /// The three entries that report this message.
    pub fn report(&self) -> (r: Vec<String>)
        ensures
            texts(r@) == message_report(self@),
    {
        let mut from = String::from_str("Message from: ");
        from.append(self.sender.as_str());
        let mut to = String::from_str("To: ");
        let list = join(&self.recipients, ", ");
        to.append(list.as_str());
        let mut r: Vec<String> = Vec::new();
        r.push(from);
        r.push(to);
        r.push(self.data.clone());
        r
    }
}

impl Connection {
    /// The entries that report this connection, for a log.
    pub fn report(&self) -> (r: Vec<String>)
        ensures
            texts(r@) == connection_report(self@),
    {
        let ghost all = message_views(self.messages@);
        let mut head = String::from_str("Sender domain: ");
        head.append(self.sender_domain.as_str());
        let mut r: Vec<String> = Vec::new();
        r.push(head);
        let mut i: usize = 0;
        while i < self.messages.len()
            invariant
                i <= self.messages.len(),
                all == message_views(self.messages@),
                texts(r@) == seq!["Sender domain: "@ + self.sender_domain@] + messages_report(
                    all.take(i as int),
                ),
            decreases self.messages.len() - i,
        {
            let ghost before = texts(r@);
            let mut entries = self.messages[i].report();
            let ghost added = texts(entries@);
            r.append(&mut entries);
            proof {
                assert(all.take(i + 1).drop_last() =~= all.take(i as int));
                assert(before + added =~= seq!["Sender domain: "@ + self.sender_domain@]
                    + messages_report(all.take(i + 1)));
            }
            i = i + 1;
        }
        assert(all.take(i as int) =~= all);
        r
    }
}

} // verus!
