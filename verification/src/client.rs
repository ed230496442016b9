//! The bulb client without its socket: it tracks the one request that may
//! be in flight, hands out the text to send, and settles the operation when
//! the caller reports what came back.
//!
//! The protocol has no request identifiers, so a reply can only be matched
//! to the request before it. The client therefore starts a request only
//! when none is in flight, and settles exactly the request it started.

use vstd::prelude::*;
use crate::codec::{command_text, encode_command};
use crate::exchange::{
    color_command, config_command, pilot_command, received_bytes, set_pilot_settled,
    settle_set_pilot, settle_user_config, turned_on_command, user_config_settled,
};
use crate::wire::{ColorDto, CommandDto, Error, Pilot, UserConfigDto, UserConfigView};

verus! {

/// The kind of reply that a request in flight waits for.
#[derive(Debug, Clone, Copy, PartialEq, Eq, Structural)]
pub enum Awaited {
    /// The confirmation of a `SetPilot`.
    Confirmation,
    /// The settings asked for by a `GetUserConfig`.
    Settings,
}

/// The state of the conversation with one bulb.
#[derive(Debug)]
pub struct Client {
    awaited: Option<Awaited>,
}

/// What starting a request does. Where the command has a text, that text
/// is handed out to be sent, and the request is in flight and waits for
/// `awaited`. Where it has none, nothing is handed out and nothing changes.
pub open spec fn started(
    before: Client,
    after: Client,
    message: Option<String>,
    command: CommandDto,
    awaited: Awaited,
) -> bool {
    match command_text(command) {
        Some(text) => message is Some && message.unwrap()@ == text && after.awaited() == Some(
            awaited,
        ),
        None => message is None && after.awaited() == before.awaited(),
    }
}

impl Client {
    /// The reply that the request in flight waits for; `None` when no
    /// request is in flight.
    pub closed spec fn awaited(&self) -> Option<Awaited> {
        self.awaited
    }

    /// A client with no request in flight.
    pub fn new() -> (client: Client)
        ensures
            client.awaited() is None,
    {
        Client { awaited: None }
    }

    /// The reply that the request in flight waits for, if there is one.
    pub fn awaiting(&self) -> (awaited: Option<Awaited>)
        ensures
            awaited == self.awaited(),
    {
        self.awaited
    }

    fn start(&mut self, command: &CommandDto, awaited: Awaited) -> (message: Option<String>)
        requires
            old(self).awaited() is None,
        ensures
            started(*old(self), *final(self), message, *command, awaited),
    {
        let message = encode_command(command);
        if message.is_some() {
            self.awaited = Some(awaited);
        }
        message
    }

    /// Starts switching the bulb on or off: the text to send is that of a
    /// `SetPilot` with only the power state set.
    pub fn set_turned_on(&mut self, turned_on: bool) -> (message: Option<String>)
        requires
            old(self).awaited() is None,
        ensures
            started(
                *old(self),
                *final(self),
                message,
                CommandDto::SetPilot(Pilot { color: None, dimming: None, state: Some(turned_on) }),
                Awaited::Confirmation,
            ),
    {
        let command = turned_on_command(turned_on);
        self.start(&command, Awaited::Confirmation)
    }

    /// Starts setting colour and brightness: the text to send is that of a
    /// `SetPilot` with only the colour and the dimming level set.
    pub fn set_color(&mut self, color: ColorDto, dimming: u32) -> (message: Option<String>)
        requires
            old(self).awaited() is None,
        ensures
            started(
                *old(self),
                *final(self),
                message,
                CommandDto::SetPilot(
                    Pilot { color: Some(color), dimming: Some(dimming), state: None },
                ),
                Awaited::Confirmation,
            ),
    {
        let command = color_command(color, dimming);
        self.start(&command, Awaited::Confirmation)
    }

    /// Starts asking for the bulb's settings.
    pub fn get_config(&mut self) -> (message: Option<String>)
        requires
            old(self).awaited() is None,
        ensures
            started(
                *old(self),
                *final(self),
                message,
                CommandDto::GetUserConfig {  },
                Awaited::Settings,
            ),
    {
        let command = config_command();
        self.start(&command, Awaited::Settings)
    }

    /// Starts the pilot query. It sends the same request as
    /// [`Client::get_config`] and waits for the same reply: the bulb's
    /// settings, not its live pilot state.
    pub fn get_pilot(&mut self) -> (message: Option<String>)
        requires
            old(self).awaited() is None,
        ensures
            started(
                *old(self),
                *final(self),
                message,
                CommandDto::GetUserConfig {  },
                Awaited::Settings,
            ),
    {
        let command = pilot_command();
        self.start(&command, Awaited::Settings)
    }

    /// Settles the `SetPilot` in flight with what was received (`None`: the
    /// transport failed). Afterwards no request is in flight.
    pub fn confirm(&mut self, received: Option<&[u8]>) -> (r: Result<(), Error>)
        requires
            old(self).awaited() == Some(Awaited::Confirmation),
        ensures
            final(self).awaited() is None,
            r == set_pilot_settled(received_bytes(received)),
    {
        self.awaited = None;
        settle_set_pilot(received)
    }

    /// Settles the settings query in flight with what was received (`None`:
    /// the transport failed). Afterwards no request is in flight.
    pub fn settings(&mut self, received: Option<&[u8]>) -> (r: Result<UserConfigDto, Error>)
        requires
            old(self).awaited() == Some(Awaited::Settings),
        ensures
            final(self).awaited() is None,
            match r {
                Ok(config) => user_config_settled(received_bytes(received)) == Ok::<
                    UserConfigView,
                    Error,
                >(config@),
                Err(error) => user_config_settled(received_bytes(received)) == Err::<
                    UserConfigView,
                    Error,
                >(error),
            },
    {
        self.awaited = None;
        settle_user_config(received)
    }
}

} // verus!
