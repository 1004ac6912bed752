use vstd::prelude::*;
use vstd::string::StringExecFns;
use crate::domain::data_stores::sent_after;
use crate::domain::data_stores::EmailClient;
use crate::domain::data_stores::EmailView;
use crate::domain::email::Email;

verus! {

/// The line that stands for a message to `recipient`.
pub open spec fn email_line(recipient: Seq<char>, subject: Seq<char>, content: Seq<char>) -> Seq<
    char,
> {
    "Sending email to "@ + recipient + " with subject: "@ + subject + " and content: "@ + content
}

/// A message that the mock client was given.
#[derive(Debug)]
pub struct SentEmail {
    pub recipient: String,
    pub subject: String,
    pub content: String,
}

impl View for SentEmail {
    type V = EmailView;

    open spec fn view(&self) -> EmailView {
        EmailView { recipient: self.recipient@, subject: self.subject@, content: self.content@ }
    }
}

/// An email client that hands nothing to any transport: it keeps each
/// message it is given, and always succeeds.
pub struct MockEmailClient {
    outbox: Vec<SentEmail>,
}

impl MockEmailClient {
    pub fn new() -> (client: MockEmailClient)
        ensures
            client.sent() == Seq::<EmailView>::empty(),
    {
        MockEmailClient { outbox: Vec::new() }
    }

    /// The messages given so far, oldest first.
    pub fn outbox(&self) -> (messages: &Vec<SentEmail>)
        ensures
            messages@.map_values(|message: SentEmail| message@) == self.sent(),
    {
        &self.outbox
    }

    /// The line that describes a message, for whoever wants to show it.
    pub fn describe(recipient: &Email, subject: &str, content: &str) -> (line: String)
        ensures
            line@ == email_line(recipient@, subject@, content@),
    {
        String::from_str("Sending email to ").concat(recipient.as_str()).concat(
            " with subject: ",
        ).concat(subject).concat(" and content: ").concat(content)
    }
}

impl Default for MockEmailClient {
    fn default() -> (client: Self)
        ensures
            client.sent() == Seq::<EmailView>::empty(),
    {
        MockEmailClient::new()
    }
}

impl EmailClient for MockEmailClient {
    closed spec fn sent(&self) -> Seq<EmailView> {
        self.outbox@.map_values(|message: SentEmail| message@)
    }

    open spec fn always_delivers(&self) -> bool {
        true
    }

    fn send_email(&mut self, recipient: &Email, subject: &str, content: &str) -> (r: Result<
        (),
        String,
    >)
        ensures
            r is Ok,
    {
        self.outbox.push(
            SentEmail {
                recipient: String::from_str(recipient.as_str()),
                subject: String::from_str(subject),
                content: String::from_str(content),
            },
        );
        Ok(())
    }
}

} // verus!
