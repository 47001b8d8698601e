//! A relay that forwards short text messages between live client
//! connections and one of several interchangeable text-generation
//! back-ends, substituting a failed primary back-end with a secondary
//! automatically.
//!
//! The crate holds the two parts of the system with real ordering and
//! failure-handling concerns, each with a machine-checked contract:
//! the connection registry ([`registry`]) that tracks live clients and
//! delivers replies, and the provider failover router ([`model_router`])
//! that health-checks a primary/secondary candidate pair and selects a
//! live back-end.  Transport handshakes, wire decoding and the HTTP
//! calls themselves live outside the crate and hand in plain values.

pub mod conn;
pub mod http;
pub mod model_router;
pub mod providers;
pub mod registry;
pub mod settings;
pub mod text;
