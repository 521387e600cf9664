//! Configuration of the I2C controller, and the mapping of the bus driver's
//! errors onto the kernel's I2C errors.

use vstd::prelude::*;

verus! {

/// I2C bus frequency.
#[derive(Clone, Copy, Debug, PartialEq, Eq, Structural)]
#[allow(non_camel_case_types)]
pub enum Frequency {
    /// Standard mode.
    _100k,
    /// Fast mode.
    _400k,
}

/// I2C bus configuration.
#[non_exhaustive]
#[derive(Clone, Copy, Debug, PartialEq, Eq, Structural)]
pub struct Config {
    /// The frequency at which the bus should operate.
    pub frequency: Frequency,
}

impl Default for Config {
    fn default() -> (c: Config)
        ensures
            c.frequency == Frequency::_100k,
    {
        Config { frequency: Frequency::_100k }
    }
}

pub open spec fn khz_of(f: Frequency) -> u32 {
    match f {
        Frequency::_100k => 100,
        Frequency::_400k => 400,
    }
}

/// Relies on fugit's `HertzU32::kHz`, which stores `khz * 1000` hertz
/// (overflow panics, hence the bound), and on `raw`, which returns that count.
#[verifier::external_body]
fn khz_to_hz(khz: u32) -> (hz: u32)
    requires
        khz <= 4_294_967,
    ensures
        hz == khz * 1000,
{
    fugit::HertzU32::kHz(khz).raw()
}

impl Frequency {
    #[must_use]
    pub fn first() -> (f: Frequency)
        ensures
            f == Frequency::_100k,
    {
        Frequency::_100k
    }

    #[must_use]
    pub fn last() -> (f: Frequency)
        ensures
            f == Frequency::_400k,
    {
        Frequency::_400k
    }

    /// The next faster frequency, if any.
    #[must_use]
    pub fn next(self) -> (f: Option<Frequency>)
        ensures
            f == (match self {
                Frequency::_100k => Some(Frequency::_400k),
                Frequency::_400k => None,
            }),
    {
        match self {
            Frequency::_100k => Some(Frequency::_400k),
            Frequency::_400k => None,
        }
    }

    /// The next slower frequency, if any.
    #[must_use]
    pub fn prev(self) -> (f: Option<Frequency>)
        ensures
            f == (match self {
                Frequency::_100k => None,
                Frequency::_400k => Some(Frequency::_100k),
            }),
    {
        match self {
            Frequency::_100k => None,
            Frequency::_400k => Some(Frequency::_100k),
        }
    }

    #[must_use]
    pub fn khz(self) -> (k: u32)
        ensures
            k == khz_of(self),
    {
        match self {
            Frequency::_100k => 100,
            Frequency::_400k => 400,
        }
    }

    /// The frequency in hertz.
    #[must_use]
    pub fn hz(self) -> (h: u32)
        ensures
            h == khz_of(self) * 1000,
    {
        khz_to_hz(self.khz())
    }
}

/// Why the bus driver saw no acknowledge.
#[derive(Clone, Copy, Debug, PartialEq, Eq, Structural)]
pub enum AcknowledgeCheckFailedReason {
    Address,
    Data,
    Unknown,
}

/// The errors that the bus driver reports.
#[derive(Clone, Copy, Debug, PartialEq, Eq, Structural)]
pub enum BusError {
    FifoExceeded,
    AcknowledgeCheckFailed(AcknowledgeCheckFailedReason),
    Timeout,
    ArbitrationLost,
    ExecutionIncomplete,
    CommandNumberExceeded,
    ZeroLengthInvalid,
    /// Any error the driver may add later.
    Other,
}

/// What was not acknowledged.
#[derive(Clone, Copy, Debug, PartialEq, Eq, Structural)]
pub enum NoAcknowledgeSource {
    Address,
    Data,
    Unknown,
}

/// The kernel's I2C errors.
#[derive(Clone, Copy, Debug, PartialEq, Eq, Structural)]
pub enum Error {
    Overrun,
    NoAcknowledge(NoAcknowledgeSource),
    Timeout,
    ArbitrationLoss,
    Other,
}

pub open spec fn error_of(err: BusError) -> Error {
    match err {
        BusError::FifoExceeded => Error::Overrun,
        BusError::AcknowledgeCheckFailed(reason) => Error::NoAcknowledge(
            match reason {
                AcknowledgeCheckFailedReason::Address => NoAcknowledgeSource::Address,
                AcknowledgeCheckFailedReason::Data => NoAcknowledgeSource::Data,
                AcknowledgeCheckFailedReason::Unknown => NoAcknowledgeSource::Unknown,
            },
        ),
        BusError::Timeout => Error::Timeout,
        BusError::ArbitrationLost => Error::ArbitrationLoss,
        _ => Error::Other,
    }
}

/// Maps a bus driver error onto the kernel's I2C error.
pub fn from_error(err: BusError) -> (e: Error)
    ensures
        e == error_of(err),
{
    match err {
        BusError::FifoExceeded => Error::Overrun,
        BusError::AcknowledgeCheckFailed(reason) => {
            let source = match reason {
                AcknowledgeCheckFailedReason::Address => NoAcknowledgeSource::Address,
                AcknowledgeCheckFailedReason::Data => NoAcknowledgeSource::Data,
                AcknowledgeCheckFailedReason::Unknown => NoAcknowledgeSource::Unknown,
            };
            Error::NoAcknowledge(source)
        },
        BusError::Timeout => Error::Timeout,
        BusError::ArbitrationLost => Error::ArbitrationLoss,
        BusError::ExecutionIncomplete | BusError::CommandNumberExceeded
        | BusError::ZeroLengthInvalid => Error::Other,
        BusError::Other => Error::Other,
    }
}

} // verus!
