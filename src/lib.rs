//! Parcel tracking for the La Poste tracking API: validation of tracking
//! numbers, decoding of event codes, inference of the delivery phase from a
//! timeline, and queries over the events of a shipment.
pub mod errors;
pub mod status;
pub mod tracking;
pub mod shipment;
pub mod client;

pub use client::Client;
pub use errors::{ClientError, ClientResult};
pub use shipment::{delivery_status, event_status, Event, Shipment, TimelineEvent, TrackingInfo};
pub use status::{DeliveryStatus, EventStatus};
pub use tracking::TrackingNumber;
