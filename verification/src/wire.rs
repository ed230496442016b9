//! The data carried by requests and replies.

use vstd::prelude::*;

verus! {

/// The closed set of ways an operation on the bulb can fail.
#[derive(Debug, Clone, Copy, PartialEq, Eq, Structural)]
pub enum Error {
    /// The transport failed to connect or to receive.
    NetWorkError,
    /// The reply was not UTF-8, not JSON, or not a known reply shape.
    ParseError,
    /// The bulb understood the request and reported failure.
    ServerError,
    /// The reply was well formed but answers a different kind of request.
    UnexpectedError,
}

/// A colour as three 8-bit channels.
#[derive(Debug, Clone, Copy, PartialEq, Eq, Structural)]
pub struct ColorDto {
    pub r: u8,
    pub g: u8,
    pub b: u8,
}

/// The desired state of the bulb. A field that is `None` is unspecified and
/// never appears on the wire.
#[derive(Debug, Clone, Copy, PartialEq, Eq, Structural)]
pub struct Pilot {
    pub color: Option<ColorDto>,
    pub dimming: Option<u32>,
    pub state: Option<bool>,
}

/// The settings a bulb reports about itself.
#[derive(Debug, Clone, Copy, PartialEq, Eq)]
pub struct UserConfigDto {
    pub fade_in: u32,
    pub fade_out: u32,
    pub fade_night: bool,
    pub dft_dim: u32,
    pub pwm_range: [u32; 2],
    pub white_range: [u32; 2],
    pub ext_range: [u32; 2],
    pub po: bool,
}

/// Mathematical value of a [`UserConfigDto`]: each range is the sequence of
/// its two bounds, in wire order.
pub struct UserConfigView {
    pub fade_in: u32,
    pub fade_out: u32,
    pub fade_night: bool,
    pub dft_dim: u32,
    pub pwm_range: Seq<u32>,
    pub white_range: Seq<u32>,
    pub ext_range: Seq<u32>,
    pub po: bool,
}

impl View for UserConfigDto {
    type V = UserConfigView;

    open spec fn view(&self) -> UserConfigView {
        UserConfigView {
            fade_in: self.fade_in,
            fade_out: self.fade_out,
            fade_night: self.fade_night,
            dft_dim: self.dft_dim,
            pwm_range: self.pwm_range@,
            white_range: self.white_range@,
            ext_range: self.ext_range@,
            po: self.po,
        }
    }
}

/// A request to the bulb.
#[derive(Debug, Clone, Copy, PartialEq, Eq, Structural)]
pub enum CommandDto {
    SetPilot(Pilot),
    GetPilot(Pilot),
    GetUserConfig {  },
}

/// What a reply carries, by the kind of request it answers.
#[derive(Debug, Clone, Copy, PartialEq, Eq)]
pub enum ResponsePayloadDto {
    SetPilot { success: bool },
    GetUserConfig(UserConfigDto),
}

/// Mathematical value of a [`ResponsePayloadDto`].
pub enum PayloadView {
    SetPilot { success: bool },
    GetUserConfig(UserConfigView),
}

impl View for ResponsePayloadDto {
    type V = PayloadView;

    open spec fn view(&self) -> PayloadView {
        match *self {
            ResponsePayloadDto::SetPilot { success } => PayloadView::SetPilot { success },
            ResponsePayloadDto::GetUserConfig(config) => PayloadView::GetUserConfig(config@),
        }
    }
}

/// A decoded reply: the payload together with the environment label that
/// every reply carries.
#[derive(Debug, Clone, PartialEq, Eq)]
pub struct ResponseDto {
    pub response_payload: ResponsePayloadDto,
    pub env: String,
}

/// Mathematical value of a [`ResponseDto`].
pub struct ResponseView {
    pub payload: PayloadView,
    pub env: Seq<char>,
}

impl View for ResponseDto {
    type V = ResponseView;

    open spec fn view(&self) -> ResponseView {
        ResponseView { payload: self.response_payload@, env: self.env@ }
    }
}

} // verus!
