pub mod error;
pub mod new_subscriber;
pub mod subscriber_email;
pub mod subscriber_name;
pub mod text;

pub use error::ValidationError;
pub use new_subscriber::NewSubscriber;
pub use subscriber_email::SubscriberEmail;
pub use subscriber_name::SubscriberName;
