pub mod health_check;
pub mod outcome;
pub mod subscriptions;

pub use health_check::health_check;
pub use outcome::Outcome;
pub use subscriptions::{conclude, validate_form, FormData, SubscriptionRecord, Timestamp};
