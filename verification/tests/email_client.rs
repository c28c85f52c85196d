use zero2prod::domain::subscriber_email::SubscriberEmail;
use zero2prod::email_client::{EmailClient, NotificationError, OutboundEmail, TransportReport};

fn client(base_url: &str) -> EmailClient {
    let sender = SubscriberEmail::parse("newsletter@example.com".to_string()).unwrap();
    EmailClient::new(sender, base_url.to_string(), 10_000)
}

#[test]
fn send_email_fires_a_request_to_base_url() {
    let email_client = client("http://127.0.0.1:8025");
    let recipient = SubscriberEmail::parse("gianni@gianni.it".to_string()).unwrap();
    let subject = "Welcome";
    let content = "Thank you for subscribing to the newsletter.";

    let email = email_client.compose(&recipient, subject, content, content);
    assert_eq!(email.base_url, "http://127.0.0.1:8025");

    // The mail service answers 200.
    assert_eq!(EmailClient::delivery(TransportReport::Status(200)), Ok(()));
}

#[test]
fn an_email_carries_what_it_was_composed_of() {
    let email_client = client("https://mail.example.com/api");
    let recipient = SubscriberEmail::parse("gianni@gianni.it".to_string()).unwrap();
    let email = email_client.compose(&recipient, "Welcome", "<p>Hello</p>", "Hello");
    assert_eq!(
        email,
        OutboundEmail {
            base_url: "https://mail.example.com/api".to_string(),
            sender: "newsletter@example.com".to_string(),
            recipient: "gianni@gianni.it".to_string(),
            subject: "Welcome".to_string(),
            html_body: "<p>Hello</p>".to_string(),
            text_body: "Hello".to_string(),
            timeout_millis: 10_000,
        }
    );
}

#[test]
fn every_email_has_a_time_limit() {
    let sender = SubscriberEmail::parse("newsletter@example.com".to_string()).unwrap();
    let email_client = EmailClient::new(sender, "http://localhost".to_string(), 200);
    assert_eq!(email_client.timeout_millis(), 200);
    let recipient = SubscriberEmail::parse("gianni@gianni.it".to_string()).unwrap();
    assert_eq!(email_client.compose(&recipient, "", "", "").timeout_millis, 200);
    assert_eq!(email_client.clone().timeout_millis(), 200);
}

#[test]
fn a_client_holds_what_it_was_made_with() {
    let email_client = client("http://localhost:9000");
    assert_eq!(email_client.sender().as_ref(), "newsletter@example.com");
    assert_eq!(email_client.base_url(), "http://localhost:9000");
    assert_eq!(email_client.timeout_millis(), 10_000);
}

#[test]
fn only_a_success_status_delivers() {
    for status in [200u16, 201, 202, 204, 299] {
        assert_eq!(EmailClient::delivery(TransportReport::Status(status)), Ok(()));
    }
    for status in [0u16, 100, 199, 300, 301, 400, 404, 500, 503, u16::MAX] {
        assert_eq!(
            EmailClient::delivery(TransportReport::Status(status)),
            Err(NotificationError::Rejected(status))
        );
    }
}

#[test]
fn a_failed_transport_is_an_error() {
    assert_eq!(EmailClient::delivery(TransportReport::Failed), Err(NotificationError::Transport));
}

#[test]
fn a_timeout_is_an_error() {
    assert_eq!(EmailClient::delivery(TransportReport::TimedOut), Err(NotificationError::Timeout));
}
