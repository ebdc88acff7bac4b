use vstd::prelude::*;
use crate::codec::convert_rgb;
use crate::codec::raw_rgb;
use crate::codec::CodecError;
use crate::environment::env_value;
use crate::environment::get_env_typed;
use crate::models::DisplayFormat;
use crate::models::Upload;

verus! {

/// The largest bitmap, in bytes, that is sent to the monochrome display. A packed bitmap
/// has 1024 bytes; anything longer than this ceiling was not packed.
pub const MAX_MONOCHROME_PAYLOAD: usize = 1025;

/// The variable of the environment that holds the address of the monochrome display.
pub const MONOCHROME_ENDPOINT_KEY: &'static str = "ESP_ENDPOINT";

/// The variable of the environment that holds the address of the colour display.
pub const RGB_ENDPOINT_KEY: &'static str = "ESP_RGB_ENDPOINT";

/// Why bytes did not reach a display.
#[derive(Debug, Clone, Copy, PartialEq, Eq, Structural)]
pub enum PushError {
    /// The display did not answer, answered with a failure, or has no address. This is
    /// what happens whenever the device is switched off.
    DeviceUnreachable,
    /// The bitmap for the monochrome display is longer than the ceiling.
    PayloadTooLarge,
    /// The address of the display is no address.
    MalformedEndpoint,
}

/// Why a stored picture did not reach its display.
#[derive(Debug, Clone, Copy, PartialEq, Eq, Structural)]
pub enum UploadError {
    /// The picture could not be converted for the display.
    Codec(CodecError),
    /// The bytes could not be delivered.
    Push(PushError),
}

/// One delivery to make: the bytes to send, in one call, to the address of a display.
pub struct PushRequest {
    pub endpoint: String,
    pub body: Vec<u8>,
}

/// How a delivery ended.
#[derive(Debug, Clone, Copy, PartialEq, Eq, Structural)]
pub enum Delivery {
    /// The display answered with this status.
    Answered(u16),
    /// No answer came: the connection failed or the time ran out.
    NoAnswer,
    /// The call could not be made, because the address is no address.
    BadEndpoint,
}

/// The way to the two displays: the address of each, as the environment gives it. An
/// address that is not set is the empty text.
pub struct DeviceChannel {
    pub monochrome_endpoint: String,
    pub rgb_endpoint: String,
}

/// Whether a status stands for success: 200 to 299.
pub open spec fn is_success(status: u16) -> bool {
    200 <= status <= 299
}

/// What a delivery that ended in the given way counts as.
pub open spec fn delivery_result(delivery: Delivery) -> Result<(), PushError> {
    match delivery {
        Delivery::Answered(status) => if is_success(status) {
            Ok(())
        } else {
            Err(PushError::DeviceUnreachable)
        },
        Delivery::NoAnswer => Err(PushError::DeviceUnreachable),
        Delivery::BadEndpoint => Err(PushError::MalformedEndpoint),
    }
}

/// The text of a variable that holds an address: its value, or the empty text where it is
/// not set.
pub open spec fn endpoint_in(vars: Seq<(String, String)>, key: Seq<char>) -> Seq<char> {
    match env_value(vars, key) {
        Some(text) => text,
        None => Seq::<char>::empty(),
    }
}

impl DeviceChannel {
    /// The address of the display of the given kind.
    pub open spec fn endpoint(&self, target: DisplayFormat) -> Seq<char> {
        match target {
            DisplayFormat::Monochrome128x64 => self.monochrome_endpoint@,
            DisplayFormat::RGB320x240 => self.rgb_endpoint@,
        }
    }

    /// Why the given bytes are not sent to the given display, if they are not: a bitmap
    /// for the monochrome display that is longer than the ceiling is refused first; then
    /// a display without an address counts as unreachable.
    pub open spec fn refusal(&self, bytes: Seq<u8>, target: DisplayFormat) -> Option<PushError> {
        if target == DisplayFormat::Monochrome128x64 && bytes.len() > 1025 {
            Some(PushError::PayloadTooLarge)
        } else if self.endpoint(target).len() == 0 {
            Some(PushError::DeviceUnreachable)
        } else {
            None
        }
    }

    /// The channel that the environment describes.
    pub fn from_env(vars: &Vec<(String, String)>) -> (channel: Self)
        ensures
            channel.monochrome_endpoint@ == endpoint_in(vars@, MONOCHROME_ENDPOINT_KEY@),
            channel.rgb_endpoint@ == endpoint_in(vars@, RGB_ENDPOINT_KEY@),
    {
        DeviceChannel {
            monochrome_endpoint: get_env_typed(vars, MONOCHROME_ENDPOINT_KEY, String::new()),
            rgb_endpoint: get_env_typed(vars, RGB_ENDPOINT_KEY, String::new()),
        }
    }

    /// Prepares the delivery of bytes that are ready for the display of the given kind.
    /// Nothing is sent here: the answer is the one call to make, or the reason why none
    /// is made.
    pub fn push(&self, bytes: Vec<u8>, target: DisplayFormat) -> (r: Result<PushRequest, PushError>)
        ensures
            match r {
                Ok(request) => self.refusal(bytes@, target).is_none() && request.endpoint@
                    == self.endpoint(target) && request.body@ == bytes@,
                Err(e) => self.refusal(bytes@, target) == Some(e),
            },
            target == DisplayFormat::Monochrome128x64 && bytes@.len() > 1025 ==> r is Err
                && r->Err_0 == PushError::PayloadTooLarge,
    {
        let monochrome: bool = match target {
            DisplayFormat::Monochrome128x64 => true,
            DisplayFormat::RGB320x240 => false,
        };
        if monochrome && bytes.len() > MAX_MONOCHROME_PAYLOAD {
            return Err(PushError::PayloadTooLarge);
        }
        let endpoint: String = if monochrome {
            self.monochrome_endpoint.clone()
        } else {
            self.rgb_endpoint.clone()
        };
        if endpoint.as_str().is_empty() {
            return Err(PushError::DeviceUnreachable);
        }
        Ok(PushRequest { endpoint, body: bytes })
    }

    /// Names the outcome of a delivery that was made: success for an answer with a status
    /// from 200 to 299; an unreachable device for any other answer and for none; a
    /// malformed address where the call could not be made.
    pub fn classify(delivery: Delivery) -> (r: Result<(), PushError>)
        ensures
            r == delivery_result(delivery),
    {
        match delivery {
            Delivery::Answered(status) => if status >= 200 && status <= 299 {
                Ok(())
            } else {
                Err(PushError::DeviceUnreachable)
            },
            Delivery::NoAnswer => Err(PushError::DeviceUnreachable),
            Delivery::BadEndpoint => Err(PushError::MalformedEndpoint),
        }
    }
}

/// The display that a stored picture is sent to: the colour display for a picture that is
/// tagged for it, the monochrome display for every other.
pub open spec fn push_target(upload: &Upload) -> DisplayFormat {
    if upload.is_for(DisplayFormat::RGB320x240) {
        DisplayFormat::RGB320x240
    } else {
        DisplayFormat::Monochrome128x64
    }
}

/// The bytes that a stored picture is sent as, if it can be sent: raw red, green and blue
/// for the colour display, the stored bytes as they are for the monochrome display.
pub open spec fn push_body(upload: &Upload) -> Option<Seq<u8>> {
    if upload.is_for(DisplayFormat::RGB320x240) {
        raw_rgb(upload.data@)
    } else {
        Some(upload.data@)
    }
}

/// Prepares the delivery of a stored picture to the display it is meant for. A picture
/// for the colour display is decoded first; a picture that does not decode is not sent.
/// Nothing is sent here: the answer is the one call to make, or the reason why none is
/// made.
pub fn push_upload_to_device(upload: &Upload, channel: &DeviceChannel) -> (r: Result<
    PushRequest,
    UploadError,
>)
    ensures
        match push_body(upload) {
            None => r is Err && r->Err_0 == UploadError::Codec(CodecError::DecodeFailed),
            Some(body) => match channel.refusal(body, push_target(upload)) {
                Some(e) => r is Err && r->Err_0 == UploadError::Push(e),
                None => r is Ok && r->Ok_0.body@ == body && r->Ok_0.endpoint@ == channel.endpoint(
                    push_target(upload),
                ),
            },
        },
{
    let (body, target) = if upload.targets(DisplayFormat::RGB320x240) {
        match convert_rgb(upload.data.as_slice()) {
            Ok(pixels) => (pixels, DisplayFormat::RGB320x240),
            Err(_) => {
                return Err(UploadError::Codec(CodecError::DecodeFailed));
            },
        }
    } else {
        (upload.data.clone(), DisplayFormat::Monochrome128x64)
    };
    match channel.push(body, target) {
        Ok(request) => Ok(request),
        Err(e) => Err(UploadError::Push(e)),
    }
}

} // verus!
