//! Reconciliation of payment-provider subscription events into one
//! canonical subscription record per provider subscription id.
//!
//! The store keeps one record per provider subscription id. Three independent
//! flows write into it: checkout sessions set buyer, offer and shop; lifecycle
//! events set period, status and cancellation under a per-record watermark;
//! paid invoices set the payment window. After each write the record is
//! forwarded downstream once it is complete.

pub mod cors;
pub mod credentials;
pub mod error;
pub mod event;
pub mod ids;
pub mod laws;
pub mod metadata;
pub mod notifier;
pub mod policy;
pub mod service;
pub mod settings;
pub mod store;
pub mod subscription;
pub mod time;

pub use cors::allowed_origins;
pub use credentials::Credential;
pub use error::{EventError, HttpError};
pub use event::{
    CheckoutSession, Event, EventObject, EventType, Invoice, InvoiceLine, Period,
    ProviderSubscription,
};
pub use metadata::{metadata_get, Metadata};
pub use notifier::{notifications, snapshot, SubscriptionSnapshot};
pub use service::{fresh_ids_needed, EventService};
pub use settings::AppSettings;
pub use store::{IdConflict, SubscriptionStore};
pub use subscription::{LifecycleUpdate, Subscription};
