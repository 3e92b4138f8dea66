//! Ticket registration for an event: a fee schedule with a normal and a VIP
//! price, and the two participant lists that paying callers are entered in.
//!
//! The contracts keep no hold of the chain they run on. The runtime describes
//! each invocation in a [`CallContext`], and the contract answers with its new
//! storage and with what the runtime is to carry out: a [`Transfer`] to the
//! owner and, for the ticketed contract, a [`MintRequest`].
//!
//! * [`ledger`] and [`tickets`] state the rules on mathematical values, and
//!   [`laws`] proves what follows from them.
//! * [`contract`] and [`project`] are the two contracts; [`dispatch`] runs
//!   the operations of the first by name.
//! * [`amount`], [`account`], [`call`] and [`errors`] hold the values that
//!   the contracts work on.
//! * [`driver`] and [`state`] serve the program that deploys the contract.

pub mod account;
pub mod amount;
pub mod call;
pub mod contract;
pub mod dispatch;
pub mod driver;
pub mod errors;
pub mod laws;
pub mod ledger;
pub mod project;
pub mod state;
pub mod tickets;

pub use account::{AccountId, ParticipantSet};
pub use amount::Amount;
pub use call::{CallContext, Tier, Transfer};
pub use contract::MyNeversea2025;
pub use dispatch::{Command, Reply};
pub use driver::DriverCommand;
pub use errors::ContractError;
pub use project::{MintRequest, Project, TicketOrder};
pub use state::State;
