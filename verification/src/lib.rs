//! Bridges container lifecycle events to mDNS registrations.
//!
//! The crate holds the decisions of the bridge: how an event kind is
//! classified, how container labels become a publishing configuration, and
//! which requests a publish or an unpublish consists of. It does not talk to
//! the daemon or to the container runtime. A caller hands it events, carries
//! out the requests that it hands back, and reports the replies:
//!
//! 1. [`handler`] takes an event and makes the first [`Step`], and so does
//!    [`reconcile`] for the containers that run when the bridge starts;
//! 2. for a [`Step::Perform`], the caller carries out the [`Request`] and
//!    gives the [`Reply`] to [`Dbus::advance`], which makes the next step;
//! 3. a [`Step::Finished`] ends the exchange.
//!
//! What whole exchanges come to is stated and proved in [`exchange`].

pub mod action;
pub mod addresses;
pub mod bus;
pub mod dispatch;
pub mod docker;
pub mod exchange;
pub mod mdns;
pub mod mdnsconfig;
pub mod text;

pub use action::Action;
pub use bus::Dbus;
pub use bus::Reply;
pub use bus::Request;
pub use bus::Step;
pub use dispatch::handler;
pub use dispatch::reconcile;
