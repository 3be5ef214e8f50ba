//! The decisions of one request/reply exchange. Whoever owns the socket
//! sends the frame of `encode_request`, reports what the transport did, and
//! is told whether to wait for a reply and, after it, what the exchange
//! yields.
use vstd::prelude::*;

use crate::packet::{decode_reply, reply_of, DecodeError, NtpTimestamp, PACKET_SIZE};

verus! {

/// Seconds that sending and receiving may each take unless told otherwise.
pub const DEFAULT_TIMEOUT_SECS: u64 = 1;

/// Why one exchange with a time server failed.
#[derive(Clone, Debug, PartialEq, Eq)]
pub enum ExchangeError {
    /// Binding, sending or receiving failed; carries the transport's message.
    TransportError(String),
    /// The transport took fewer or more than 48 bytes; carries how many.
    ShortWrite(usize),
    /// No datagram came within the receive timeout.
    Timeout,
    /// The datagram received is not 48 bytes long; carries its length.
    ShortRead(usize),
    /// The datagram is not a valid server reply.
    Decode(DecodeError),
}

/// What the transport reports of the one send of the request.
pub enum SendOutcome {
    /// The send went through and took this many bytes.
    Sent(usize),
    /// The send failed; carries the transport's message.
    Failed(String),
}

/// What the transport reports of the wait for the reply.
pub enum ReceiveOutcome {
    /// One datagram arrived, with these bytes.
    Datagram(Vec<u8>),
    /// Nothing arrived before the receive timeout.
    TimedOut,
    /// Receiving failed; carries the transport's message.
    Failed(String),
}

/// Whether the exchange goes on to wait for a reply after a send.
pub open spec fn send_verdict(o: SendOutcome) -> Result<(), ExchangeError> {
    match o {
        SendOutcome::Sent(n) => if n == 48 {
            Ok(())
        } else {
            Err(ExchangeError::ShortWrite(n))
        },
        SendOutcome::Failed(cause) => Err(ExchangeError::TransportError(cause)),
    }
}

/// What the exchange yields once the wait for a reply is over.
pub open spec fn receive_verdict(o: ReceiveOutcome) -> Result<NtpTimestamp, ExchangeError> {
    match o {
        ReceiveOutcome::Datagram(bytes) => if bytes@.len() != 48 {
            Err(ExchangeError::ShortRead(bytes@.len() as usize))
        } else {
            match reply_of(bytes@) {
                Ok(fields) => Ok(fields.transmit_timestamp),
                Err(e) => Err(ExchangeError::Decode(e)),
            }
        },
        ReceiveOutcome::TimedOut => Err(ExchangeError::Timeout),
        ReceiveOutcome::Failed(cause) => Err(ExchangeError::TransportError(cause)),
    }
}

/// Decides after the send of the request: `Ok` exactly when all 48 bytes
/// went out in one datagram, so that the reply is to be awaited.
pub fn after_send(outcome: SendOutcome) -> (r: Result<(), ExchangeError>)
    ensures
        r == send_verdict(outcome),
{
    match outcome {
        SendOutcome::Sent(n) => if n == PACKET_SIZE {
            Ok(())
        } else {
            Err(ExchangeError::ShortWrite(n))
        },
        SendOutcome::Failed(cause) => Err(ExchangeError::TransportError(cause)),
    }
}

/// Decides after the wait for the reply: the server's transmit timestamp
/// when a valid 48-byte reply came, else the failure.
pub fn after_receive(outcome: ReceiveOutcome) -> (r: Result<NtpTimestamp, ExchangeError>)
    ensures
        r == receive_verdict(outcome),
{
    match outcome {
        ReceiveOutcome::Datagram(bytes) => {
            if bytes.len() != PACKET_SIZE {
                Err(ExchangeError::ShortRead(bytes.len()))
            } else {
                match decode_reply(bytes.as_slice()) {
                    Ok(fields) => Ok(fields.transmit_timestamp),
                    Err(e) => Err(ExchangeError::Decode(e)),
                }
            }
        },
        ReceiveOutcome::TimedOut => Err(ExchangeError::Timeout),
        ReceiveOutcome::Failed(cause) => Err(ExchangeError::TransportError(cause)),
    }
}

} // verus!
