use zero2prod::domain::error::ValidationError;
use zero2prod::domain::subscriber_email::{email_is_valid, SubscriberEmail};

#[test]
fn empty_email_is_rejected() {
    assert_eq!(SubscriberEmail::parse(String::new()).unwrap_err(), ValidationError::InvalidEmail);
}

#[test]
fn email_missing_at_symbol_is_rejected() {
    let email = "ursuladomain.com".to_string();
    assert_eq!(SubscriberEmail::parse(email).unwrap_err(), ValidationError::InvalidEmail);
}

#[test]
fn email_missing_subject_is_rejected() {
    let email = "@domain.com".to_string();
    assert_eq!(SubscriberEmail::parse(email).unwrap_err(), ValidationError::InvalidEmail);
}

#[test]
fn email_with_two_at_symbols_is_rejected() {
    for email in ["a@b@c.com", "a@@b.com", "@a@b.com", "a@b.com@"] {
        assert!(SubscriberEmail::parse(email.to_string()).is_err(), "{}", email);
    }
}

#[test]
fn email_without_a_dot_in_the_domain_is_rejected() {
    for email in ["ursula@localhost", "ursula.le.guin@gmail", "a.b@c", "ursula@"] {
        assert!(SubscriberEmail::parse(email.to_string()).is_err(), "{}", email);
    }
}

#[test]
fn email_with_whitespace_is_rejected() {
    for email in [
        "ursula le_guin@gmail.com",
        " ursula@gmail.com",
        "ursula@gmail.com ",
        "ursula@gm ail.com",
        "ursula@gmail.com\n",
        "ursula\t@gmail.com",
        "ursula@gmail\u{a0}.com",
    ] {
        assert!(SubscriberEmail::parse(email.to_string()).is_err(), "{:?}", email);
    }
}

#[test]
fn something_that_is_no_address_is_rejected() {
    let email = "definitely-not-an-email".to_string();
    assert_eq!(SubscriberEmail::parse(email).unwrap_err(), ValidationError::InvalidEmail);
}

#[test]
fn valid_emails_are_parsed_successfully() {
    for email in ["ursula_le_guin@gmail.com", "gianni@gianni.it", "a@b.c", "first.last@sub.domain.org"]
    {
        let parsed = SubscriberEmail::parse(email.to_string()).unwrap();
        assert_eq!(parsed.as_ref(), email);
        assert_eq!(parsed.clone().as_ref(), email);
    }
}

#[test]
fn the_scan_agrees_with_the_grammar_on_short_texts() {
    // Every text of up to five characters over a small alphabet, against the grammar
    // written out with the standard library.
    let alphabet = ['a', '@', '.', ' '];
    let mut texts = vec![String::new()];
    let mut start = 0;
    for _ in 0..5 {
        let end = texts.len();
        for i in start..end {
            for c in alphabet {
                let mut longer = texts[i].clone();
                longer.push(c);
                texts.push(longer);
            }
        }
        start = end;
    }
    assert_eq!(texts.len(), 1 + 4 + 16 + 64 + 256 + 1024);
    for text in texts {
        let parts: Vec<&str> = text.split('@').collect();
        let expected = parts.len() == 2
            && !parts[0].is_empty()
            && parts[1].contains('.')
            && !text.chars().any(char::is_whitespace);
        assert_eq!(email_is_valid(&text), expected, "{:?}", text);
    }
}
