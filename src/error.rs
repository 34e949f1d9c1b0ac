use vstd::prelude::*;

verus! {

/// Why a wire payload could not be turned into the domain value a call expects.
#[derive(Debug, Clone, PartialEq, Eq, Structural)]
pub enum ConversionError {
    /// The reply payload has a different shape than the call expects.
    UnexpectedResponseType,
    /// A vertex identifier on the wire does not hold exactly sixteen bytes.
    InvalidUuid { len: usize },
}

/// A failure reported by the remote peer: its status code and message.
#[derive(Debug, Clone, PartialEq, Eq)]
pub struct RemoteStatus {
    pub code: i32,
    pub message: String,
}

/// The error returned if a client operation failed.
#[derive(Debug, Clone, PartialEq, Eq)]
pub enum ClientError {
    /// Conversion between a domain value and its wire form failed.
    Conversion { inner: ConversionError },
    /// A reply carried another call identifier than the call awaiting it.
    UnexpectedResponseId { expected: u32, actual: u32 },
    /// The stream ended, or a reply had no body, where a payload was required.
    UnexpectedEmptyResponse { request_id: u32 },
    /// The remote peer reported a failure of the operation.
    Grpc { inner: RemoteStatus },
    /// The connection failed.
    Transport { message: String },
    /// The outbound queue no longer accepts requests.
    ChannelClosed,
}

impl From<ConversionError> for ClientError {
    fn from(err: ConversionError) -> (r: ClientError)
        ensures
            r == (ClientError::Conversion { inner: err }),
    {
        ClientError::Conversion { inner: err }
    }
}

impl vstd::std_specs::convert::FromSpecImpl<ConversionError> for ClientError {
    open spec fn obeys_from_spec() -> bool {
        true
    }

    open spec fn from_spec(err: ConversionError) -> ClientError {
        ClientError::Conversion { inner: err }
    }
}

/// Fails with `UnexpectedResponseId` unless a reply carries the identifier
/// of the call that awaits it.
pub fn check_request_id(expected: u32, actual: u32) -> (r: Result<(), ClientError>)
    ensures
        expected == actual ==> r is Ok,
        expected != actual ==> r == Err::<(), ClientError>(
            ClientError::UnexpectedResponseId { expected, actual },
        ),
{
    if expected != actual {
        Err(ClientError::UnexpectedResponseId { expected, actual })
    } else {
        Ok(())
    }
}

} // verus!
