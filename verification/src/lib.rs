//! Intake of newsletter subscriptions: validated names and email addresses, the
//! conversion of a submitted form into a subscriber, the decisions of the handler that
//! stores one, and the composing of emails for a mail service.
//!
//! Nothing here reads a socket or a database. The handler is given what was decoded and
//! says what is to be stored; it is given the store's answer and says what the client
//! gets. The email client says what is to be sent and what the transport's report means.

pub mod domain;
pub mod email_client;
pub mod routes;
