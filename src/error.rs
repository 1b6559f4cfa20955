use vstd::prelude::*;

verus! {

/// Errors found before any hardware is touched. The caller can always recover
/// from them.
#[derive(Clone, Copy, Debug, PartialEq, Eq, Structural)]
pub enum ConfigError {
    /// An I2C address outside the 7-bit range.
    InvalidAddress,
    /// A transfer the DMA engine cannot perform: too long, or larger than
    /// its buffer.
    DegenerateTransfer,
    /// A channel index past the last channel.
    NoSuchChannel,
    /// The channel's handle is already held.
    ChannelTaken,
    /// A descriptor table base that is not suitably aligned.
    MisalignedTable,
    /// The DMA controller is already enabled.
    AlreadyEnabled,
    /// The DMA controller is not enabled.
    NotEnabled,
}

/// Faults reported by the bus while a master transaction runs.
#[derive(Clone, Copy, Debug, PartialEq, Eq, Structural)]
pub enum BusFault {
    /// No slave acknowledged the address.
    NackAddress,
    /// The slave did not acknowledge a data byte.
    NackData,
    /// Another master won arbitration.
    ArbitrationLost,
    /// A START or STOP appeared where the protocol does not allow one.
    StartStopError,
    /// The DMA engine aborted the data phase.
    TransferAborted,
    /// The bus did not complete in the time the caller allowed.
    Timeout,
}

} // verus!
