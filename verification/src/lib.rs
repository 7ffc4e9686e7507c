//! A pay-to-view content ledger: a catalog of priced videos, the set of
//! identities entitled to view each of them, and the rules that turn a
//! settled payment into an access grant.
//!
//! The ledger checks and records. It verifies no signatures, moves no funds
//! and keeps no clock: whoever drives it names the identities that signed
//! the invocation, carries out the transfers that the ledger asks for, and
//! tells the time. A purchase therefore takes two steps, with the payment
//! between them:
//!
//! 1. [`PayToViewContract::quote`] admits or refuses the purchase and names
//!    the payment that it takes;
//! 2. [`PayToViewContract::buy`] is told how the payment went, and grants
//!    access if and only if it settled.
//!
//! Every operation is specified over [`Ledger`], the mathematical content of
//! the state. The module [`laws`] proves what holds of every ledger after
//! every sequence of calls.

pub mod contract;
pub mod error;
pub mod event;
pub mod identity;
pub mod laws;
pub mod model;
pub mod payment;
pub mod video;

pub use contract::PayToViewContract;
pub use error::Error;
pub use event::{Event, EventLog, Fact, VideoPurchasedEvent, VideoUploadedEvent};
pub use identity::{Authorization, Identity};
pub use model::{Call, Ledger};
pub use payment::{Payment, Transfer, TransferView};
pub use video::{Video, VideoInfo, VideoInfoView, VideoView};
