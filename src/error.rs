use vstd::prelude::*;

verus! {

/// The status the engine reports for a call that succeeded; every other status is
/// an error.
pub const ERR_NOERROR: i32 = 0;

/// A status code returned by the measurement engine.
#[derive(Debug, Clone, Copy, PartialEq, Eq, Structural)]
pub struct ErrCode {
    pub code: i32,
}

/// What is wrong with a builder's settings.
#[derive(Debug, Clone, Copy, PartialEq, Eq, Structural)]
pub enum ConfigIssue {
    MissingInterface,
    MissingAddress,
    InvalidAddress,
}

/// What the engine handed back that the protocol does not allow.
#[derive(Debug, Clone, Copy, PartialEq, Eq, Structural)]
pub enum ProtocolIssue {
    /// A text result was not valid UTF-8.
    InvalidText,
    /// The engine reported a negative number of available samples.
    NegativeCount,
    /// The engine reported more transferred samples than the buffers hold, or a
    /// negative number.
    TransferOverrun,
    /// The transferred samples do not make up whole rows of the channel catalog.
    PartialRow,
}

/// Why an operation on a sensor failed.
#[derive(Debug, Clone, Copy, PartialEq, Eq, Structural)]
pub enum SensorError {
    /// Missing or invalid settings, found before any engine call.
    Configuration(ConfigIssue),
    /// An engine call failed with this status.
    Engine(ErrCode),
    Protocol(ProtocolIssue),
}

impl ErrCode {
    pub open spec fn is_success(self) -> bool {
        self.code == ERR_NOERROR
    }

    /// Whether this is the success status.
    pub fn is_ok(&self) -> (r: bool)
        ensures
            r == self.is_success(),
    {
        self.code == ERR_NOERROR
    }

    /// `Ok` for the success status, else the engine error carrying this code.
    pub fn to_result(self) -> (r: Result<(), SensorError>)
        ensures
            r == (if self.is_success() {
                Ok::<(), SensorError>(())
            } else {
                Err(SensorError::Engine(self))
            }),
    {
        if self.code == ERR_NOERROR {
            Ok(())
        } else {
            Err(SensorError::Engine(self))
        }
    }
}

} // verus!
