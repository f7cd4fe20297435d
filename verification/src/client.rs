//! The decisions of a client that talks to an instance over RPC: how to read the value
//! that a simulated call hands back, and what to do while a submitted transaction waits
//! for its confirmation. The client makes the requests; what it got back it hands to the
//! functions here.

use vstd::prelude::*;
use vstd::utf8::{decode_utf8, encode_utf8, encode_utf8_decode_utf8, valid_utf8};

verus! {

/// The seconds to wait before asking again for the status of a transaction.
pub const POLL_INTERVAL_SECS: u64 = 1;

/// Why a client gave up.
#[derive(Clone, Copy, Debug, PartialEq, Eq, Structural)]
pub enum ClientError {
    /// The simulation handed back no result.
    NoResults,
    /// The value handed back is not a string.
    NotAString,
    /// The string handed back is not UTF-8.
    InvalidUtf8,
    /// The node answered the submission with an error.
    SendRejected,
    /// The transaction was taken up and failed on the network.
    TransactionFailed,
}

/// The value that a simulated call hands back, as far as a reader of messages cares.
#[derive(Debug, PartialEq, Eq)]
pub enum ReturnValue {
    /// A string, by its bytes.
    String(Vec<u8>),
    /// A value of any other kind.
    Other,
}

/// How a node answers the submission of a transaction.
#[derive(Clone, Copy, Debug, PartialEq, Eq, Structural)]
pub enum SendStatus {
    Pending,
    Duplicate,
    Error,
    TryAgainLater,
}

/// What a node says of a transaction that was submitted to it.
#[derive(Clone, Copy, Debug, PartialEq, Eq, Structural)]
pub enum TransactionStatus {
    Success,
    NotFound,
    Failed,
}

/// What a client that waits for a confirmation does next.
#[derive(Clone, Copy, Debug, PartialEq, Eq, Structural)]
pub enum PollStep {
    /// The transaction is confirmed: stop.
    Confirmed,
    /// Nothing is known yet: wait for so many seconds, then ask again.
    Retry { wait_secs: u64 },
    /// The transaction failed: give up.
    GiveUp(ClientError),
}

impl ClientError {
    /// The words in which the failure is reported.
    pub open spec fn spec_message(self) -> Seq<char> {
        match self {
            ClientError::NoResults => "La simulación no devolvió resultados"@,
            ClientError::NotAString => "El valor de retorno no era un string"@,
            ClientError::InvalidUtf8 => "El mensaje no es UTF-8 válido"@,
            ClientError::SendRejected => "Error en el envío de la transacción"@,
            ClientError::TransactionFailed => "La transacción falló en la red"@,
        }
    }

    /// The words in which the failure is reported.
    pub fn message(self) -> (message: &'static str)
        ensures
            message@ == self.spec_message(),
    {
        match self {
            ClientError::NoResults => "La simulación no devolvió resultados",
            ClientError::NotAString => "El valor de retorno no era un string",
            ClientError::InvalidUtf8 => "El mensaje no es UTF-8 válido",
            ClientError::SendRejected => "Error en el envío de la transacción",
            ClientError::TransactionFailed => "La transacción falló en la red",
        }
    }
}

/// `String::from_utf8` of std, with its error dropped: the text whose UTF-8 encoding is
/// `bytes`, if `bytes` are the encoding of a text, and nothing if they are not.
#[verifier::external_body]
fn string_from_utf8(bytes: Vec<u8>) -> (text: Option<String>)
    ensures
        text is Some <==> valid_utf8(bytes@),
        text matches Some(s) ==> encode_utf8(s@) == bytes@,
{
    match String::from_utf8(bytes) {
        Ok(text) => Some(text),
        Err(_) => None,
    }
}

/// Reads the message out of the result of a simulated call.
///
/// Fails with `NoResults` if there is no result, with `NotAString` if the result is not
/// a string, and with `InvalidUtf8` if the string's bytes are not UTF-8. Otherwise the
/// message is the text that those bytes encode.
pub fn decode_message(value: Option<ReturnValue>) -> (message: Result<String, ClientError>)
    ensures
        value is None ==> message == Err::<String, ClientError>(ClientError::NoResults),
        value == Some(ReturnValue::Other) ==> message == Err::<String, ClientError>(
            ClientError::NotAString,
        ),
        value matches Some(ReturnValue::String(bytes)) ==> (if valid_utf8(bytes@) {
            message is Ok && message.unwrap()@ == decode_utf8(bytes@)
        } else {
            message == Err::<String, ClientError>(ClientError::InvalidUtf8)
        }),
{
    match value {
        None => Err(ClientError::NoResults),
        Some(ReturnValue::Other) => Err(ClientError::NotAString),
        Some(ReturnValue::String(bytes)) => {
            match string_from_utf8(bytes) {
                None => Err(ClientError::InvalidUtf8),
                Some(text) => {
                    proof {
                        encode_utf8_decode_utf8(text@);
                    }
                    Ok(text)
                },
            }
        },
    }
}

/// Whether a submission that the node answered with `status` goes on to wait for its
/// confirmation: it does unless the node answered with an error.
pub fn check_send(status: SendStatus) -> (outcome: Result<(), ClientError>)
    ensures
        outcome == (if status == SendStatus::Error {
            Err::<(), ClientError>(ClientError::SendRejected)
        } else {
            Ok(())
        }),
{
    match status {
        SendStatus::Error => Err(ClientError::SendRejected),
        _ => Ok(()),
    }
}

/// What to do after asking for the status of a submitted transaction.
pub open spec fn spec_poll_step(reply: Option<TransactionStatus>) -> PollStep {
    match reply {
        Some(TransactionStatus::Success) => PollStep::Confirmed,
        Some(TransactionStatus::Failed) => PollStep::GiveUp(ClientError::TransactionFailed),
        Some(TransactionStatus::NotFound) | None => PollStep::Retry {
            wait_secs: POLL_INTERVAL_SECS,
        },
    }
}

/// What to do after asking for the status of a submitted transaction; `reply` is the
/// status that the node gave, or nothing if the request itself failed.
///
/// On `Success` the client stops, on `Failed` it gives up with `TransactionFailed`. On
/// `NotFound`, and when the request failed, it waits `POLL_INTERVAL_SECS` and asks again:
/// no number of such replies makes it give up.
pub fn poll_step(reply: Option<TransactionStatus>) -> (step: PollStep)
    ensures
        step == spec_poll_step(reply),
{
    match reply {
        Some(TransactionStatus::Success) => PollStep::Confirmed,
        Some(TransactionStatus::Failed) => PollStep::GiveUp(ClientError::TransactionFailed),
        Some(TransactionStatus::NotFound) => PollStep::Retry { wait_secs: POLL_INTERVAL_SECS },
        None => PollStep::Retry { wait_secs: POLL_INTERVAL_SECS },
    }
}

} // verus!
