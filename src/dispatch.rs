//! Authority check, routing by action code, and the records each action
//! emits.
use vstd::prelude::*;
use vstd::utf8::*;

use crate::instruction::{
    geolocation_bytes, min_len, parse_instruction, DecodeError, DecodedInstruction, WireFormat,
};
use crate::redact::{censor_geolocation, redacted};
use crate::subscription::{
    calculate_expiry_time, expiry_at, payment_of, period_of, PeriodCode,
};

verus! {

/// A known action.
#[derive(Clone, Copy, Debug, PartialEq, Eq, Structural)]
pub enum Action {
    PlantPicture,
    Watering,
    Harvest,
    SubscribePremium,
}

/// The action that a wire code selects, if any.
pub open spec fn action_of(code: u8) -> Option<Action> {
    if code == 0 {
        Some(Action::PlantPicture)
    } else if code == 1 {
        Some(Action::Watering)
    } else if code == 2 {
        Some(Action::Harvest)
    } else if code == 3 {
        Some(Action::SubscribePremium)
    } else {
        None
    }
}

/// The words an audit record uses for an action.
pub open spec fn description_of(action: Action) -> Seq<char> {
    match action {
        Action::PlantPicture => "planted a picture"@,
        Action::Watering => "watered a plant"@,
        Action::Harvest => "harvested a plant"@,
        Action::SubscribePremium => "subscribed to premium"@,
    }
}

impl Action {
    /// Reads an action from its wire code; codes above 3 are no action.
    pub fn from_code(code: u8) -> (r: Option<Action>)
        ensures
            r == action_of(code),
    {
        match code {
            0 => Some(Action::PlantPicture),
            1 => Some(Action::Watering),
            2 => Some(Action::Harvest),
            3 => Some(Action::SubscribePremium),
            _ => None,
        }
    }

    /// The words an audit record uses for this action.
    pub fn description(&self) -> (r: &'static str)
        ensures
            r@ == description_of(*self),
    {
        match self {
            Action::PlantPicture => "planted a picture",
            Action::Watering => "watered a plant",
            Action::Harvest => "harvested a plant",
            Action::SubscribePremium => "subscribed to premium",
        }
    }
}

/// The account an instruction acts for, as the host supplies it.
#[derive(Clone, Copy, Debug)]
pub struct ActorAccount {
    /// The account's public key.
    pub key: [u8; 32],
    /// Whether this program controls the account.
    pub authorized: bool,
}

/// What is logged for one successful action.
#[derive(Clone, Debug, PartialEq, Eq)]
pub struct AuditRecord {
    pub actor: [u8; 32],
    pub description: String,
    /// Seconds since the epoch.
    pub timestamp: i64,
    /// The masked geolocation, for gardening actions in the rich layout.
    pub geolocation: Option<String>,
}

/// Price and end of a premium subscription. No funds are moved here.
#[derive(Clone, Copy, Debug, PartialEq, Eq, Structural)]
pub struct SubscriptionQuote {
    pub period: PeriodCode,
    /// In the smallest token unit.
    pub payment: u64,
    /// Seconds since the epoch.
    pub expiry: u64,
}

/// Everything one successful action emits.
#[derive(Clone, Debug, PartialEq, Eq)]
pub struct Emission {
    pub record: AuditRecord,
    /// Present exactly for a premium subscription.
    pub quote: Option<SubscriptionQuote>,
}

/// Why a decoded instruction was not carried out.
#[derive(Clone, Copy, Debug, PartialEq, Eq, Structural)]
pub enum DispatchError {
    NotAuthorized,
    UnknownAction,
    UnknownPeriod,
}

/// Why an instruction failed, at whichever stage.
#[derive(Clone, Copy, Debug, PartialEq, Eq, Structural)]
pub enum InstructionError {
    Decode(DecodeError),
    Dispatch(DispatchError),
}

/// The characters of an optional text.
pub open spec fn text_view(text: Option<String>) -> Option<Seq<char>> {
    match text {
        Some(t) => Some(t@),
        None => None,
    }
}

/// An optional text with its last characters masked.
pub open spec fn redacted_opt(text: Option<Seq<char>>) -> Option<Seq<char>> {
    match text {
        Some(t) => Some(redacted(t)),
        None => None,
    }
}

/// `record` logs `action` by `actor` at `now`, with the given location.
pub open spec fn record_of(
    record: AuditRecord,
    actor: ActorAccount,
    action: Action,
    now: int,
    geolocation: Option<Seq<char>>,
) -> bool {
    &&& record.actor == actor.key
    &&& record.description@ == description_of(action)
    &&& record.timestamp == now
    &&& text_view(record.geolocation) == geolocation
}

/// The outcome `r` of dispatching an instruction with these codes and
/// geolocation, for `actor` at `now`.
pub open spec fn dispatched(
    action: u8,
    period: u8,
    geolocation: Option<Seq<char>>,
    actor: ActorAccount,
    now: int,
    r: Result<Emission, DispatchError>,
) -> bool {
    if !actor.authorized {
        r == Err::<Emission, DispatchError>(DispatchError::NotAuthorized)
    } else {
        match action_of(action) {
            None => r == Err::<Emission, DispatchError>(DispatchError::UnknownAction),
            Some(Action::SubscribePremium) => match period_of(period) {
                None => r == Err::<Emission, DispatchError>(DispatchError::UnknownPeriod),
                Some(p) => {
                    &&& r matches Ok(out)
                    &&& record_of(out.record, actor, Action::SubscribePremium, now, None)
                    &&& out.quote == Some(
                        SubscriptionQuote {
                            period: p,
                            payment: payment_of(p) as u64,
                            expiry: expiry_at(p, now) as u64,
                        },
                    )
                },
            },
            Some(a) => {
                &&& r matches Ok(out)
                &&& record_of(out.record, actor, a, now, redacted_opt(geolocation))
                &&& out.quote is None
            },
        }
    }
}

/// Carries out a decoded instruction for `actor` at `now`. The actor must be
/// controlled by this program; gardening actions emit a record with the
/// masked geolocation, a premium subscription emits a record and a quote.
pub fn dispatch(ins: DecodedInstruction, actor: &ActorAccount, now: i64) -> (r: Result<
    Emission,
    DispatchError,
>)
    requires
        now >= 0,
    ensures
        dispatched(ins.action, ins.period, text_view(ins.geolocation), *actor, now as int, r),
        !actor.authorized ==> r == Err::<Emission, DispatchError>(DispatchError::NotAuthorized),
{
    if !actor.authorized {
        return Err(DispatchError::NotAuthorized);
    }
    let action = match Action::from_code(ins.action) {
        Some(a) => a,
        None => return Err(DispatchError::UnknownAction),
    };
    match action {
        Action::SubscribePremium => {
            let period = match PeriodCode::from_code(ins.period) {
                Some(p) => p,
                None => return Err(DispatchError::UnknownPeriod),
            };
            let quote = process_premium_subscription(period, now);
            let record = AuditRecord {
                actor: actor.key,
                description: action.description().to_owned(),
                timestamp: now,
                geolocation: None,
            };
            Ok(Emission { record, quote: Some(quote) })
        },
        _ => {
            let record = log_action_with_metadata(actor, action, now, &ins.geolocation);
            Ok(Emission { record, quote: None })
        },
    }
}

/// The record of a gardening action, with the geolocation masked.
fn log_action_with_metadata(
    actor: &ActorAccount,
    action: Action,
    now: i64,
    geolocation: &Option<String>,
) -> (r: AuditRecord)
    ensures
        record_of(r, *actor, action, now as int, redacted_opt(text_view(*geolocation))),
{
    let censored = match geolocation {
        Some(g) => Some(censor_geolocation(g.as_str())),
        None => None,
    };
    AuditRecord {
        actor: actor.key,
        description: action.description().to_owned(),
        timestamp: now,
        geolocation: censored,
    }
}

/// Price and expiry of a subscription of `period` bought at `now`.
pub fn process_premium_subscription(period: PeriodCode, now: i64) -> (r: SubscriptionQuote)
    requires
        now >= 0,
    ensures
        r == (SubscriptionQuote {
            period,
            payment: payment_of(period) as u64,
            expiry: expiry_at(period, now as int) as u64,
        }),
{
    let payment = period.payment();
    let expiry = calculate_expiry_time(period, now as u64);
    SubscriptionQuote { period, payment, expiry }
}

/// The characters of the geolocation that a buffer in `format` carries.
pub open spec fn wire_geolocation(format: WireFormat, data: Seq<u8>) -> Option<Seq<char>> {
    match format {
        WireFormat::Rich => Some(decode_utf8(geolocation_bytes(data))),
        WireFormat::Minimal => None,
    }
}

/// The dispatch outcome inside the result of a whole instruction. Only
/// meaningful when decoding succeeded; a decode error has no dispatch
/// outcome and is mapped to an arbitrary one.
pub open spec fn dispatch_part(r: Result<Emission, InstructionError>) -> Result<
    Emission,
    DispatchError,
> {
    match r {
        Ok(out) => Ok(out),
        Err(InstructionError::Dispatch(e)) => Err(e),
        Err(InstructionError::Decode(_)) => Err(DispatchError::UnknownAction),
    }
}

/// Decodes `data` in `format` and carries it out for `actor` at `now`.
/// A buffer that does not decode fails with its decode error; otherwise the
/// outcome is that of dispatching its codes and geolocation.
pub fn process_instruction(
    format: WireFormat,
    data: &[u8],
    actor: &ActorAccount,
    now: i64,
) -> (r: Result<Emission, InstructionError>)
    requires
        now >= 0,
    ensures
        data@.len() < min_len(format) ==> r == Err::<Emission, InstructionError>(
            InstructionError::Decode(DecodeError::TooShort),
        ),
        data@.len() >= min_len(format) && format == WireFormat::Rich && !valid_utf8(
            geolocation_bytes(data@),
        ) ==> r == Err::<Emission, InstructionError>(
            InstructionError::Decode(DecodeError::InvalidText),
        ),
        data@.len() >= min_len(format) && (format == WireFormat::Minimal || valid_utf8(
            geolocation_bytes(data@),
        )) ==> {
            &&& !(r matches Err(InstructionError::Decode(_)))
            &&& dispatched(
                data@[0],
                data@[1],
                wire_geolocation(format, data@),
                *actor,
                now as int,
                dispatch_part(r),
            )
        },
{
    let ins = match parse_instruction(format, data) {
        Ok(ins) => ins,
        Err(e) => return Err(InstructionError::Decode(e)),
    };
    proof {
        if ins.geolocation is Some {
            encode_utf8_decode_utf8(ins.geolocation->0@);
        }
    }
    match dispatch(ins, actor, now) {
        Ok(out) => Ok(out),
        Err(e) => Err(InstructionError::Dispatch(e)),
    }
}

} // verus!
