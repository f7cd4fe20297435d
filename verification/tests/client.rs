use blocks_resources::client::{
    check_send, decode_message, poll_step, ClientError, PollStep, ReturnValue, SendStatus,
    TransactionStatus, POLL_INTERVAL_SECS,
};

#[test]
fn message_is_decoded_from_its_bytes() {
    let bytes = "Hola desde Rust 🦀".as_bytes().to_vec();
    assert_eq!(bytes.len(), 20);
    assert_eq!(
        decode_message(Some(ReturnValue::String(bytes))),
        Ok("Hola desde Rust 🦀".to_string())
    );
}

#[test]
fn empty_message_is_a_message() {
    assert_eq!(decode_message(Some(ReturnValue::String(vec![]))), Ok(String::new()));
}

#[test]
fn two_byte_scalar_is_one_character() {
    let message = decode_message(Some(ReturnValue::String(vec![0xc3, 0xb1]))).unwrap();
    assert_eq!(message.chars().count(), 1);
    assert_eq!(message, "ñ");
}

#[test]
fn no_result_is_an_error() {
    assert_eq!(decode_message(None), Err(ClientError::NoResults));
}

#[test]
fn other_value_is_an_error() {
    assert_eq!(decode_message(Some(ReturnValue::Other)), Err(ClientError::NotAString));
}

#[test]
fn invalid_utf8_is_an_error() {
    assert_eq!(
        decode_message(Some(ReturnValue::String(vec![0xff]))),
        Err(ClientError::InvalidUtf8)
    );
    assert_eq!(
        decode_message(Some(ReturnValue::String(vec![b'a', 0xc3]))),
        Err(ClientError::InvalidUtf8)
    );
    assert_eq!(
        decode_message(Some(ReturnValue::String(vec![0xed, 0xa0, 0x80]))),
        Err(ClientError::InvalidUtf8)
    );
}

#[test]
fn send_goes_on_unless_rejected() {
    assert_eq!(check_send(SendStatus::Pending), Ok(()));
    assert_eq!(check_send(SendStatus::Duplicate), Ok(()));
    assert_eq!(check_send(SendStatus::TryAgainLater), Ok(()));
    assert_eq!(check_send(SendStatus::Error), Err(ClientError::SendRejected));
}

#[test]
fn poll_stops_on_success() {
    assert_eq!(poll_step(Some(TransactionStatus::Success)), PollStep::Confirmed);
}

#[test]
fn poll_gives_up_on_failure() {
    assert_eq!(
        poll_step(Some(TransactionStatus::Failed)),
        PollStep::GiveUp(ClientError::TransactionFailed)
    );
}

#[test]
fn poll_waits_one_second_and_asks_again() {
    assert_eq!(POLL_INTERVAL_SECS, 1);
    assert_eq!(poll_step(Some(TransactionStatus::NotFound)), PollStep::Retry { wait_secs: 1 });
    assert_eq!(poll_step(None), PollStep::Retry { wait_secs: 1 });
}

#[test]
fn client_error_messages() {
    assert_eq!(ClientError::NoResults.message(), "La simulación no devolvió resultados");
    assert_eq!(ClientError::NotAString.message(), "El valor de retorno no era un string");
    assert_eq!(ClientError::InvalidUtf8.message(), "El mensaje no es UTF-8 válido");
    assert_eq!(ClientError::SendRejected.message(), "Error en el envío de la transacción");
    assert_eq!(ClientError::TransactionFailed.message(), "La transacción falló en la red");
}
