use crate::domain::subscriber_email::SubscriberEmail;
use vstd::prelude::*;

verus! {

/// The settings under which emails are sent: who sends them, where the mail service is
/// reached, and how long one attempt may take. It composes what is to be sent and reads
/// what came of it; the request itself is the transport's to make.
#[derive(Clone, Debug)]
pub struct EmailClient {
    sender: SubscriberEmail,
    base_url: String,
    timeout_millis: u64,
}

/// One email on its way out: everything the transport needs for the one request that
/// delivers it.
#[derive(Clone, Debug, PartialEq, Eq)]
pub struct OutboundEmail {
    pub base_url: String,
    pub sender: String,
    pub recipient: String,
    pub subject: String,
    pub html_body: String,
    pub text_body: String,
    /// After this many milliseconds the attempt is given up as timed out.
    pub timeout_millis: u64,
}

/// What the transport reports of one attempt to deliver.
#[derive(Clone, Copy, Debug, PartialEq, Eq, Structural)]
pub enum TransportReport {
    /// The mail service answered with this HTTP status.
    Status(u16),
    /// The request did not get through, or no answer came back.
    Failed,
    /// The time allowed for the attempt ran out.
    TimedOut,
}

/// Why an email was not delivered.
#[derive(Clone, Copy, Debug, PartialEq, Eq, Structural)]
pub enum NotificationError {
    /// The request did not get through.
    Transport,
    /// The mail service answered with this status, which is not a success.
    Rejected(u16),
    /// The attempt took longer than allowed.
    Timeout,
}

/// The statuses by which the mail service says that it took the email.
pub open spec fn is_success(status: u16) -> bool {
    200 <= status < 300
}

/// What a report means for the caller: only a success status delivers the email.
pub open spec fn delivery_of(report: TransportReport) -> Result<(), NotificationError> {
    match report {
        TransportReport::Status(status) => if is_success(status) {
            Ok(())
        } else {
            Err(NotificationError::Rejected(status))
        },
        TransportReport::Failed => Err(NotificationError::Transport),
        TransportReport::TimedOut => Err(NotificationError::Timeout),
    }
}

/// What an `EmailClient` holds, as plain values.
pub struct EmailClientView {
    pub sender: Seq<char>,
    pub base_url: Seq<char>,
    pub timeout_millis: u64,
}

impl View for EmailClient {
    type V = EmailClientView;

    closed spec fn view(&self) -> EmailClientView {
        EmailClientView {
            sender: self.sender@,
            base_url: self.base_url@,
            timeout_millis: self.timeout_millis,
        }
    }
}

impl EmailClient {
    /// A client that sends as `sender` through the service at `base_url`, and gives up an
    /// attempt after `timeout_millis` milliseconds.
    pub fn new(
        sender: SubscriberEmail,
        base_url: String,
        timeout_millis: u64,
    ) -> (client: EmailClient)
        ensures
            client@ == (EmailClientView { sender: sender@, base_url: base_url@, timeout_millis }),
    {
        EmailClient { sender, base_url, timeout_millis }
    }

    /// Who the emails are sent as.
    pub fn sender(&self) -> (sender: &SubscriberEmail)
        ensures
            sender@ == self@.sender,
    {
        &self.sender
    }

    /// Where the mail service is reached.
    pub fn base_url(&self) -> (base_url: &str)
        ensures
            base_url@ == self@.base_url,
    {
        self.base_url.as_str()
    }

    /// How many milliseconds one attempt may take.
    pub fn timeout_millis(&self) -> (millis: u64)
        ensures
            millis == self@.timeout_millis,
    {
        self.timeout_millis
    }

    /// The email to `recipient` with these contents, ready for the transport. It goes out
    /// under the client's sender, to the client's service, within the client's time limit.
    pub fn compose(
        &self,
        recipient: &SubscriberEmail,
        subject: &str,
        html_content: &str,
        text_content: &str,
    ) -> (email: OutboundEmail)
        ensures
            email.base_url@ == self@.base_url,
            email.sender@ == self@.sender,
            email.recipient@ == recipient@,
            email.subject@ == subject@,
            email.html_body@ == html_content@,
            email.text_body@ == text_content@,
            email.timeout_millis == self@.timeout_millis,
    {
        OutboundEmail {
            base_url: self.base_url.clone(),
            sender: self.sender.as_ref().to_owned(),
            recipient: recipient.as_ref().to_owned(),
            subject: subject.to_owned(),
            html_body: html_content.to_owned(),
            text_body: text_content.to_owned(),
            timeout_millis: self.timeout_millis,
        }
    }

    /// Turns the transport's report of the one attempt into the result of sending.
    pub fn delivery(report: TransportReport) -> (res: Result<(), NotificationError>)
        ensures
            res == delivery_of(report),
    {
        match report {
            TransportReport::Status(status) => {
                if 200 <= status && status < 300 {
                    Ok(())
                } else {
                    Err(NotificationError::Rejected(status))
                }
            },
            TransportReport::Failed => Err(NotificationError::Transport),
            TransportReport::TimedOut => Err(NotificationError::Timeout),
        }
    }
}

} // verus!
