use vstd::prelude::*;

verus! {

/// Every way a descriptor transfer can fail, as one inspectable value.
///
/// The first three variants report an operating-system failure and carry the
/// raw system error code; the remaining five are the receive-side validation
/// failures, mutually exclusive and ordered as the decoder applies them.
#[derive(Clone, Copy, Debug, PartialEq, Eq, Structural)]
pub enum TransferError {
    /// The operating system could not allocate the connected endpoint pair.
    SystemResource(i32),
    /// The send call failed at the operating-system level.
    Transmit(i32),
    /// The receive call failed at the operating-system level.
    Receive(i32),
    /// The data or control portion of the received message was truncated.
    TruncatedMessage,
    /// No ancillary record was present, or its declared length does not
    /// exactly cover one descriptor value.
    MalformedRecord,
    /// The record's category or type is not "pass descriptor rights" on the
    /// socket-level category.
    UnexpectedRecordKind,
    /// The one-byte data payload is not the agreed sentinel.
    UnexpectedPayload,
    /// A second ancillary record follows the first.
    ExtraRecord,
}

} // verus!
