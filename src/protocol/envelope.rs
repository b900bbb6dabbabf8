//! Message envelope for reliable delivery.
//!
//! An envelope wraps a payload with a per-direction sequence number, an
//! optional piggyback acknowledgment of the peer's messages, and the sender's
//! wall-clock time. Peers that have not opted into sequencing exchange bare
//! payloads instead; [`MaybeEnveloped`] holds either form.

use vstd::prelude::*;

verus! {

/// Message envelope wrapping a payload with delivery metadata.
#[derive(Debug, Clone)]
pub struct Envelope<T> {
    /// Sequence number, strictly increasing and gap-free per connection
    /// direction.
    pub seq: u64,
    /// Highest sequence number of the peer's messages that has been received.
    pub ack: Option<u64>,
    /// Sender's wall-clock time in milliseconds since the Unix epoch; zero
    /// when the clock could not be read. Advisory only, never used to order.
    pub timestamp: u64,
    /// The message itself.
    pub payload: T,
}

#[verifier::external_type_specification]
#[verifier::external_body]
pub struct ExSystemTime(std::time::SystemTime);

#[verifier::external_type_specification]
#[verifier::external_body]
pub struct ExSystemTimeError(std::time::SystemTimeError);

/// Relies on `SystemTime::now`: the wall clock's reading. Nothing is promised
/// of it.
pub assume_specification[ std::time::SystemTime::now ]() -> std::time::SystemTime;

/// Relies on `SystemTime::duration_since`: the time elapsed since `earlier`,
/// or an error when `earlier` is later. Nothing is promised of the value.
pub assume_specification[ std::time::SystemTime::duration_since ](
    t: &std::time::SystemTime,
    earlier: std::time::SystemTime,
) -> Result<core::time::Duration, std::time::SystemTimeError>;

/// Relies on `std::time::UNIX_EPOCH`: the instant the wall clock counts from.
#[verifier::external_body]
fn unix_epoch() -> std::time::SystemTime {
    std::time::UNIX_EPOCH
}

/// Relies on `Duration::as_millis`: the whole milliseconds of a duration.
pub assume_specification[ core::time::Duration::as_millis ](d: &core::time::Duration) -> u128;

/// The timestamp stamped for a clock reading: the whole milliseconds since
/// the Unix epoch (kept to their low 64 bits), or the sentinel 0 when the
/// clock could not be read.
pub open spec fn stamp_of(elapsed_ms: Option<u128>) -> u64 {
    match elapsed_ms {
        Some(ms) => ms as u64,
        None => 0u64,
    }
}

/// The timestamp for a clock reading (see [`stamp_of`]).
pub fn millis_or_zero(elapsed_ms: Option<u128>) -> (r: u64)
    ensures
        r == stamp_of(elapsed_ms),
{
    match elapsed_ms {
        Some(ms) => ms as u64,
        None => 0,
    }
}

/// Milliseconds elapsed since the Unix epoch by the wall clock, or `None`
/// when the clock reads earlier than the epoch.
fn clock_reading() -> Option<u128> {
    match std::time::SystemTime::now().duration_since(unix_epoch()) {
        Ok(elapsed) => Some(elapsed.as_millis()),
        Err(_) => None,
    }
}

impl<T> Envelope<T> {
    /// Envelope stamped with a given clock reading.
    pub fn stamped(seq: u64, ack: Option<u64>, payload: T, elapsed_ms: Option<u128>) -> (r: Self)
        ensures
            r.seq == seq,
            r.ack == ack,
            r.payload == payload,
            r.timestamp == stamp_of(elapsed_ms),
    {
        Envelope { seq, ack, timestamp: millis_or_zero(elapsed_ms), payload }
    }

    /// Envelope with the given sequence number and payload, no
    /// acknowledgment, stamped with the current time.
    pub fn new(seq: u64, payload: T) -> (r: Self)
        ensures
            r.seq == seq,
            r.ack is None,
            r.payload == payload,
    {
        Envelope::stamped(seq, None, payload, clock_reading())
    }

    /// Envelope carrying a piggyback acknowledgment, stamped with the
    /// current time.
    pub fn with_ack(seq: u64, ack: u64, payload: T) -> (r: Self)
        ensures
            r.seq == seq,
            r.ack == Some(ack),
            r.payload == payload,
    {
        Envelope::stamped(seq, Some(ack), payload, clock_reading())
    }

    /// Replace the payload by `f` of it, keeping `seq`, `ack` and `timestamp`.
    pub fn map<U, F>(self, f: F) -> (r: Envelope<U>)
        where
            F: FnOnce(T) -> U,
        requires
            f.requires((self.payload,)),
        ensures
            r.seq == self.seq,
            r.ack == self.ack,
            r.timestamp == self.timestamp,
            f.ensures((self.payload,), r.payload),
    {
        Envelope { seq: self.seq, ack: self.ack, timestamp: self.timestamp, payload: f(self.payload) }
    }
}

/// Either an enveloped message or a bare payload from a legacy peer.
#[derive(Debug, Clone)]
pub enum MaybeEnveloped<T> {
    /// Sequenced format.
    Enveloped(Envelope<T>),
    /// Legacy format without delivery metadata.
    Raw(T),
}

impl<T> MaybeEnveloped<T> {
    /// The payload, whatever the format.
    pub open spec fn spec_payload(self) -> T {
        match self {
            MaybeEnveloped::Enveloped(env) => env.payload,
            MaybeEnveloped::Raw(payload) => payload,
        }
    }

    /// The sequence number, present only when enveloped.
    pub open spec fn spec_seq(self) -> Option<u64> {
        match self {
            MaybeEnveloped::Enveloped(env) => Some(env.seq),
            MaybeEnveloped::Raw(_) => None,
        }
    }

    /// The piggyback acknowledgment, present only when enveloped and sent.
    pub open spec fn spec_ack(self) -> Option<u64> {
        match self {
            MaybeEnveloped::Enveloped(env) => env.ack,
            MaybeEnveloped::Raw(_) => None,
        }
    }

    /// Extract the payload regardless of format.
    pub fn into_payload(self) -> (r: T)
        ensures
            r == self.spec_payload(),
    {
        match self {
            MaybeEnveloped::Enveloped(env) => env.payload,
            MaybeEnveloped::Raw(payload) => payload,
        }
    }

    /// Sequence number if enveloped, `None` otherwise.
    pub fn seq(&self) -> (r: Option<u64>)
        ensures
            r == self.spec_seq(),
    {
        match self {
            MaybeEnveloped::Enveloped(env) => Some(env.seq),
            MaybeEnveloped::Raw(_) => None,
        }
    }

    /// Acknowledgment if enveloped and present, `None` otherwise.
    pub fn ack(&self) -> (r: Option<u64>)
        ensures
            r == self.spec_ack(),
    {
        match self {
            MaybeEnveloped::Enveloped(env) => env.ack,
            MaybeEnveloped::Raw(_) => None,
        }
    }

    /// Whether this is an enveloped message.
    pub fn is_enveloped(&self) -> (r: bool)
        ensures
            r == (self is Enveloped),
    {
        matches!(self, MaybeEnveloped::Enveloped(_))
    }
}

} // verus!
