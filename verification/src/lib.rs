//! Client logic for an rxqlite cluster: connection settings, leader routing,
//! notification subscriptions and the interpretation of SQL replies.
pub mod external;
pub mod reply;
pub mod routing;
pub mod notify;
pub mod client;

pub use client::{ClientBuildError, ClientTlsConfig, RXQLiteClient, RXQLiteClientBuilder};
pub use notify::{ListenStep, NetStreamManager, NotificationCommand};
pub use reply::{QueryError, SqlReply};
pub use routing::{Endpoint, HttpMethod, LeaderHint, Operation, RedirectDecision, Route, VacancyDecision};
