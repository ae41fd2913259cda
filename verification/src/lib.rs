//! The core of a Convex client for mobile hosts.
//!
//! A foreign host (Kotlin, Swift, ...) calls Convex functions through synchronous entry points and
//! receives JSON text. This crate holds what such a client decides: which calls it admits, how it
//! reads arguments and replies, what a subscriber is told, which subscriptions are alive, and how
//! a subscription is cancelled. Sockets, threads and timers are driven from outside, one step at a
//! time.
pub mod args;
pub mod client;
pub mod error;
pub mod handle;
pub mod laws;
pub mod listener;
pub mod outside;
pub mod reply;
pub mod state;
pub mod subscription;

pub use client::MobileConvexClient;
pub use error::ClientError;
pub use handle::SubscriptionHandle;
pub use subscription::QuerySubscriber;
