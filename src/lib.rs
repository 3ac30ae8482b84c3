//! Decoding and dispatch of gardening and premium-subscription actions.
//!
//! An instruction is a short byte buffer in one of two layouts. It is
//! decoded, checked against the authority of the acting account, and
//! carried out: gardening actions yield an audit record whose geolocation
//! is masked, a premium subscription yields a record and a price-and-expiry
//! quote. Nothing here reads a clock or writes state; the host supplies the
//! time and takes the records.
use vstd::prelude::*;

pub mod dispatch;
pub mod instruction;
pub mod redact;
pub mod subscription;

pub use dispatch::{
    dispatch, process_instruction, process_premium_subscription, Action, ActorAccount,
    AuditRecord, DispatchError, Emission, InstructionError, SubscriptionQuote,
};
pub use instruction::{parse_instruction, DecodeError, DecodedInstruction, WireFormat};
pub use redact::censor_geolocation;
pub use subscription::{calculate_expiry_time, PeriodCode};

verus! {

} // verus!
