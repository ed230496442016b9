//! One request and its reply: which command an operation sends, and what a
//! received datagram means for the operation that is waiting for it.
//!
//! The caller owns the socket. It sends the text of the command, receives one
//! datagram, and hands the received bytes (or the fact that receiving
//! failed) to the function that settles the operation.

use vstd::prelude::*;
use crate::codec::{
    decode_response, document_of_bytes, field_bool, lemma_tag_decides_payload, payload_of,
    response_of_bytes,
};
use crate::json::{lookup, Json};
use crate::wire::{
    ColorDto, CommandDto, Error, PayloadView, Pilot, ResponseDto, ResponsePayloadDto,
    ResponseView, UserConfigDto, UserConfigView,
};

verus! {

/// The command that switches the bulb on or off: a `SetPilot` with only the
/// power state set.
pub fn turned_on_command(turned_on: bool) -> (command: CommandDto)
    ensures
        command == CommandDto::SetPilot(
            Pilot { color: None, dimming: None, state: Some(turned_on) },
        ),
{
    CommandDto::SetPilot(Pilot { color: None, dimming: None, state: Some(turned_on) })
}

/// The command that sets colour and brightness: a `SetPilot` with the colour
/// and the dimming level set, and the power state left unspecified.
pub fn color_command(color: ColorDto, dimming: u32) -> (command: CommandDto)
    ensures
        command == CommandDto::SetPilot(
            Pilot { color: Some(color), dimming: Some(dimming), state: None },
        ),
{
    CommandDto::SetPilot(Pilot { color: Some(color), dimming: Some(dimming), state: None })
}

/// The command that asks the bulb for its settings.
pub fn config_command() -> (command: CommandDto)
    ensures
        command == (CommandDto::GetUserConfig {  }),
{
    CommandDto::GetUserConfig {  }
}

/// The command that the pilot query sends. It asks for the bulb's settings,
/// as [`config_command`] does, not for the live pilot state.
pub fn pilot_command() -> (command: CommandDto)
    ensures
        command == (CommandDto::GetUserConfig {  }),
{
    CommandDto::GetUserConfig {  }
}

/// The reply that a reception stands for: a failed reception (`None`) is a
/// network error, and bytes that are not a reply are a parse error.
pub open spec fn received_response(received: Option<Seq<u8>>) -> Result<ResponseView, Error> {
    match received {
        None => Err(Error::NetWorkError),
        Some(bytes) => match response_of_bytes(bytes) {
            None => Err(Error::ParseError),
            Some(response) => Ok(response),
        },
    }
}

/// What a reply means to an operation that sent `SetPilot`: confirmed,
/// rejected by the bulb, or not an answer to that command.
pub open spec fn set_pilot_outcome(payload: PayloadView) -> Result<(), Error> {
    match payload {
        PayloadView::SetPilot { success } => if success {
            Ok(())
        } else {
            Err(Error::ServerError)
        },
        PayloadView::GetUserConfig(_) => Err(Error::UnexpectedError),
    }
}

/// What a received datagram, or the failure to receive one (`None`), means
/// to an operation that sent `SetPilot`.
pub open spec fn set_pilot_settled(received: Option<Seq<u8>>) -> Result<(), Error> {
    match received {
        None => Err(Error::NetWorkError),
        Some(bytes) => match response_of_bytes(bytes) {
            None => Err(Error::ParseError),
            Some(response) => set_pilot_outcome(response.payload),
        },
    }
}

/// What a reply means to an operation that sent `GetUserConfig`: the
/// settings it carries, or not an answer to that command.
pub open spec fn user_config_outcome(payload: PayloadView) -> Result<UserConfigView, Error> {
    match payload {
        PayloadView::GetUserConfig(config) => Ok(config),
        PayloadView::SetPilot { .. } => Err(Error::UnexpectedError),
    }
}

/// What a received datagram, or the failure to receive one (`None`), means
/// to an operation that sent `GetUserConfig`.
pub open spec fn user_config_settled(received: Option<Seq<u8>>) -> Result<
    UserConfigView,
    Error,
> {
    match received {
        None => Err(Error::NetWorkError),
        Some(bytes) => match response_of_bytes(bytes) {
            None => Err(Error::ParseError),
            Some(response) => user_config_outcome(response.payload),
        },
    }
}

/// The bytes of a reception, as a mathematical value.
pub open spec fn received_bytes(received: Option<&[u8]>) -> Option<Seq<u8>> {
    match received {
        Some(bytes) => Some(bytes@),
        None => None,
    }
}

/// A reply tagged `setPilot` that carries a `success` flag and an
/// environment label settles a `SetPilot` operation by its flag: success
/// when it is `true`, a server error when it is `false`.
pub proof fn lemma_confirmation_settles(bytes: Seq<u8>, success: bool)
    requires
        document_of_bytes(bytes) is Some,
        lookup(document_of_bytes(bytes).unwrap(), "method"@) == Some(Json::Text("setPilot"@)),
        lookup(document_of_bytes(bytes).unwrap(), "result"@) is Some,
        field_bool(lookup(document_of_bytes(bytes).unwrap(), "result"@).unwrap(), "success"@)
            == Some(success),
        lookup(document_of_bytes(bytes).unwrap(), "env"@) is Some,
        lookup(document_of_bytes(bytes).unwrap(), "env"@).unwrap() is Text,
    ensures
        success ==> set_pilot_settled(Some(bytes)) == Ok::<(), Error>(()),
        !success ==> set_pilot_settled(Some(bytes)) == Err::<(), Error>(Error::ServerError),
{
}

/// A reply tagged `getUserConfig` never settles a `SetPilot` operation
/// with success: if it decodes at all, it is an unexpected response.
pub proof fn lemma_config_reply_is_unexpected(bytes: Seq<u8>)
    requires
        document_of_bytes(bytes) is Some,
        lookup(document_of_bytes(bytes).unwrap(), "method"@) == Some(
            Json::Text("getUserConfig"@),
        ),
    ensures
        set_pilot_settled(Some(bytes)) == Err::<(), Error>(
            if response_of_bytes(bytes) is Some {
                Error::UnexpectedError
            } else {
                Error::ParseError
            },
        ),
{
    let doc = document_of_bytes(bytes).unwrap();
    if payload_of(doc) is Some {
        lemma_tag_decides_payload(doc);
    }
}

/// A reply is never taken for success unless it is the one the command
/// calls for: `SetPilot` succeeds exactly on a received confirmation whose
/// flag is `true`, and the settings query exactly on a received settings
/// reply.
pub proof fn lemma_success_needs_matching_reply(received: Option<Seq<u8>>)
    ensures
        set_pilot_settled(received) is Ok <==> received is Some && response_of_bytes(
            received.unwrap(),
        ) is Some && response_of_bytes(received.unwrap()).unwrap().payload
            == (PayloadView::SetPilot { success: true }),
        user_config_settled(received) is Ok <==> received is Some && response_of_bytes(
            received.unwrap(),
        ) is Some && response_of_bytes(received.unwrap()).unwrap().payload is GetUserConfig,
{
}

/// Bytes that are not UTF-8, or whose text is not JSON, settle every
/// operation with a parse error.
pub proof fn lemma_malformed_is_parse_error(bytes: Seq<u8>)
    requires
        document_of_bytes(bytes) is None,
    ensures
        response_of_bytes(bytes) is None,
        set_pilot_settled(Some(bytes)) == Err::<(), Error>(Error::ParseError),
        user_config_settled(Some(bytes)) == Err::<UserConfigView, Error>(Error::ParseError),
{
}

/// Interprets a decoded reply for an operation that sent `SetPilot`.
pub fn confirm_set_pilot(response: &ResponseDto) -> (r: Result<(), Error>)
    ensures
        r == set_pilot_outcome(response@.payload),
{
    match response.response_payload {
        ResponsePayloadDto::SetPilot { success } => {
            if success {
                Ok(())
            } else {
                Err(Error::ServerError)
            }
        },
        ResponsePayloadDto::GetUserConfig(_) => Err(Error::UnexpectedError),
    }
}

/// Interprets a decoded reply for an operation that sent `GetUserConfig`:
/// the settings it carries, or an unexpected-response error for any other
/// payload.
pub fn expect_user_config(response: &ResponseDto) -> (r: Result<UserConfigDto, Error>)
    ensures
        match r {
            Ok(config) => user_config_outcome(response@.payload) == Ok::<UserConfigView, Error>(
                config@,
            ),
            Err(error) => user_config_outcome(response@.payload) == Err::<UserConfigView, Error>(
                error,
            ),
        },
{
    match response.response_payload {
        ResponsePayloadDto::GetUserConfig(config) => Ok(config),
        ResponsePayloadDto::SetPilot { .. } => Err(Error::UnexpectedError),
    }
}

/// Decodes what was received: a failed reception is a network error, and
/// bytes that are not a reply are a parse error.
pub fn receive_response(received: Option<&[u8]>) -> (r: Result<ResponseDto, Error>)
    ensures
        match r {
            Ok(response) => received_response(received_bytes(received)) == Ok::<
                ResponseView,
                Error,
            >(response@),
            Err(error) => received_response(received_bytes(received)) == Err::<
                ResponseView,
                Error,
            >(error),
        },
{
    match received {
        Some(bytes) => decode_response(bytes),
        None => Err(Error::NetWorkError),
    }
}

/// Settles an operation that sent `SetPilot`, given what was received.
pub fn settle_set_pilot(received: Option<&[u8]>) -> (r: Result<(), Error>)
    ensures
        r == set_pilot_settled(received_bytes(received)),
{
    match receive_response(received) {
        Ok(response) => confirm_set_pilot(&response),
        Err(error) => Err(error),
    }
}

/// Settles an operation that sent `GetUserConfig`, given what was received.
///
/// The settings are returned exactly when the bytes decode to a reply that
/// carries them. Otherwise the error tells why: nothing was received, the
/// bytes are not a reply, or the reply answers another command.
pub fn settle_user_config(received: Option<&[u8]>) -> (r: Result<UserConfigDto, Error>)
    ensures
        match r {
            Ok(config) => user_config_settled(received_bytes(received)) == Ok::<
                UserConfigView,
                Error,
            >(config@),
            Err(error) => user_config_settled(received_bytes(received)) == Err::<
                UserConfigView,
                Error,
            >(error),
        },
{
    match receive_response(received) {
        Ok(response) => expect_user_config(&response),
        Err(error) => Err(error),
    }
}

} // verus!
