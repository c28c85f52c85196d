pub mod subscriptions;

pub use subscriptions::{conclude, subscribe, FormData, HttpOutcome, PersistenceError, Step};
pub use subscriptions::{StoredSubscription, Timestamp};
