//! Reading what a lamp answers.
//!
//! A reply is a JSON object with a `result` object in it. The reply to
//! `getPilot` reports what the lamp shows: `temp`, `dimming` and `state` where
//! it shows a white, `r`, `g`, `b`, `dimming` and `state` where it shows a
//! colour. The reply to `getUserConfig` reports `fadeIn` and `fadeOut`.

use vstd::prelude::*;
use crate::device::{DeviceCommandParams, DeviceState, ProtocolError};
use crate::json::{
    as_bool, as_u64, is_object, json_bool, json_document, json_is_object, json_member, json_u64,
    member, parse,
};

verus! {

/// What stands under one key of a result object, as far as a lamp's state
/// is read from it.
#[derive(Clone, Copy, Debug, PartialEq, Eq, Structural)]
pub enum Field {
    /// The object has no such key.
    Absent,
    /// A whole number that is not negative.
    Number(u64),
    /// `true` or `false`.
    Flag(bool),
    /// Anything else.
    Other,
}

/// The fields of a reply to `getPilot` that describe what the lamp shows.
#[derive(Clone, Copy, Debug, PartialEq, Eq, Structural)]
pub struct PilotFields {
    pub temp: Field,
    pub r: Field,
    pub g: Field,
    pub b: Field,
    pub dimming: Field,
    pub state: Field,
}

/// The fields of a reply to `getUserConfig` that describe the fade timing.
#[derive(Clone, Copy, Debug, PartialEq, Eq, Structural)]
pub struct UserConfigFields {
    pub fade_in: Field,
    pub fade_out: Field,
}

/// What the parsed object holds under `key`.
pub open spec fn field_of(object: serde_json::Value, key: Seq<char>) -> Field {
    match json_member(object, key) {
        None => Field::Absent,
        Some(value) => match json_u64(value) {
            Some(n) => Field::Number(n),
            None => match json_bool(value) {
                Some(b) => Field::Flag(b),
                None => Field::Other,
            },
        },
    }
}

/// The `result` object of a reply, where the text is JSON and has one.
pub open spec fn result_of(text: Seq<char>) -> Option<serde_json::Value> {
    match json_document(text) {
        None => None,
        Some(document) => match json_member(document, "result"@) {
            None => None,
            Some(result) => if json_is_object(result) {
                Some(result)
            } else {
                None
            },
        },
    }
}

/// The pilot fields of a reply, where it has a result object.
pub open spec fn pilot_fields_of(text: Seq<char>) -> Option<PilotFields> {
    match result_of(text) {
        None => None,
        Some(result) => Some(
            PilotFields {
                temp: field_of(result, "temp"@),
                r: field_of(result, "r"@),
                g: field_of(result, "g"@),
                b: field_of(result, "b"@),
                dimming: field_of(result, "dimming"@),
                state: field_of(result, "state"@),
            },
        ),
    }
}

/// The fade fields of a reply, where it has a result object.
pub open spec fn user_config_fields_of(text: Seq<char>) -> Option<UserConfigFields> {
    match result_of(text) {
        None => None,
        Some(result) => Some(
            UserConfigFields {
                fade_in: field_of(result, "fadeIn"@),
                fade_out: field_of(result, "fadeOut"@),
            },
        ),
    }
}

/// What a lamp shows according to the fields of its reply. A `temp` field
/// selects the white mode, whatever else the reply holds; without it the
/// three colour channels are read. Brightness and power are needed in both
/// modes.
pub open spec fn params_of_fields(fields: PilotFields) -> Result<DeviceCommandParams, ProtocolError> {
    if fields.temp is Absent {
        if fields.r is Number && fields.g is Number && fields.b is Number && fields.dimming is Number
            && fields.state is Flag {
            Ok(
                DeviceCommandParams::RgbMode {
                    r: fields.r->Number_0,
                    g: fields.g->Number_0,
                    b: fields.b->Number_0,
                    dimming: fields.dimming->Number_0,
                    state: fields.state->Flag_0,
                },
            )
        } else {
            Err(ProtocolError::Malformed)
        }
    } else {
        if fields.temp is Number && fields.dimming is Number && fields.state is Flag {
            Ok(
                DeviceCommandParams::TempMode {
                    temp: fields.temp->Number_0,
                    dimming: fields.dimming->Number_0,
                    state: fields.state->Flag_0,
                },
            )
        } else {
            Err(ProtocolError::Malformed)
        }
    }
}

/// The fade timing according to the fields of a reply: both values are needed.
pub open spec fn fade_of_fields(fields: UserConfigFields) -> Result<(u64, u64), ProtocolError> {
    if fields.fade_in is Number && fields.fade_out is Number {
        Ok((fields.fade_in->Number_0, fields.fade_out->Number_0))
    } else {
        Err(ProtocolError::Malformed)
    }
}

/// What a reply to `getPilot` says that the lamp shows.
pub open spec fn decoded_pilot(text: Seq<char>) -> Result<DeviceCommandParams, ProtocolError> {
    match pilot_fields_of(text) {
        None => Err(ProtocolError::Malformed),
        Some(fields) => params_of_fields(fields),
    }
}

/// What a reply to `getUserConfig` says of the fade timing.
pub open spec fn decoded_user_config(text: Seq<char>) -> Result<(u64, u64), ProtocolError> {
    match user_config_fields_of(text) {
        None => Err(ProtocolError::Malformed),
        Some(fields) => fade_of_fields(fields),
    }
}

/// The state of a lamp according to its two replies.
pub open spec fn decoded_state(pilot: Seq<char>, user_config: Seq<char>) -> Result<DeviceState, ProtocolError> {
    match decoded_pilot(pilot) {
        Err(e) => Err(e),
        Ok(params) => match decoded_user_config(user_config) {
            Err(e) => Err(e),
            Ok(fade) => Ok(DeviceState { params, fade_in: fade.0, fade_out: fade.1 }),
        },
    }
}

fn read_field(object: &serde_json::Value, key: &str) -> (field: Field)
    ensures
        field == field_of(*object, key@),
{
    match member(object, key) {
        None => Field::Absent,
        Some(value) => match as_u64(value) {
            Some(n) => Field::Number(n),
            None => match as_bool(value) {
                Some(b) => Field::Flag(b),
                None => Field::Other,
            },
        },
    }
}

fn result_object<'a>(document: &'a serde_json::Value) -> (r: Option<&'a serde_json::Value>)
    ensures
        r.is_some() <==> (json_member(*document, "result"@) matches Some(result) && json_is_object(result)),
        r matches Some(result) ==> json_member(*document, "result"@) == Some(*result),
{
    match member(document, "result") {
        None => None,
        Some(result) => if is_object(result) {
            Some(result)
        } else {
            None
        },
    }
}

/// Reads the pilot fields of a reply. There are none where the text is no
/// JSON or holds no result object; the empty text is such a text.
pub fn pilot_fields(reply: &str) -> (fields: Option<PilotFields>)
    ensures
        fields == pilot_fields_of(reply@),
        reply@.len() == 0 ==> fields is None,
{
    match parse(reply) {
        Err(_) => None,
        Ok(document) => match result_object(&document) {
            None => None,
            Some(result) => Some(
                PilotFields {
                    temp: read_field(result, "temp"),
                    r: read_field(result, "r"),
                    g: read_field(result, "g"),
                    b: read_field(result, "b"),
                    dimming: read_field(result, "dimming"),
                    state: read_field(result, "state"),
                },
            ),
        },
    }
}

/// Reads the fade fields of a reply. There are none where the text is no
/// JSON or holds no result object; the empty text is such a text.
pub fn user_config_fields(reply: &str) -> (fields: Option<UserConfigFields>)
    ensures
        fields == user_config_fields_of(reply@),
        reply@.len() == 0 ==> fields is None,
{
    match parse(reply) {
        Err(_) => None,
        Ok(document) => match result_object(&document) {
            None => None,
            Some(result) => Some(
                UserConfigFields {
                    fade_in: read_field(result, "fadeIn"),
                    fade_out: read_field(result, "fadeOut"),
                },
            ),
        },
    }
}

impl DeviceCommandParams {
    /// What a lamp shows according to the fields of its reply.
    pub fn from_fields(fields: &PilotFields) -> (r: Result<DeviceCommandParams, ProtocolError>)
        ensures
            r == params_of_fields(*fields),
    {
        match fields.temp {
            Field::Absent => match (fields.r, fields.g, fields.b, fields.dimming, fields.state) {
                (
                    Field::Number(r),
                    Field::Number(g),
                    Field::Number(b),
                    Field::Number(dimming),
                    Field::Flag(state),
                ) => Ok(DeviceCommandParams::RgbMode { r, g, b, dimming, state }),
                _ => Err(ProtocolError::Malformed),
            },
            Field::Number(temp) => match (fields.dimming, fields.state) {
                (Field::Number(dimming), Field::Flag(state)) => Ok(
                    DeviceCommandParams::TempMode { temp, dimming, state },
                ),
                _ => Err(ProtocolError::Malformed),
            },
            _ => Err(ProtocolError::Malformed),
        }
    }
}

impl UserConfigFields {
    /// The fade-in and fade-out time that the fields hold.
    pub fn fade(&self) -> (r: Result<(u64, u64), ProtocolError>)
        ensures
            r == fade_of_fields(*self),
    {
        match (self.fade_in, self.fade_out) {
            (Field::Number(fade_in), Field::Number(fade_out)) => Ok((fade_in, fade_out)),
            _ => Err(ProtocolError::Malformed),
        }
    }
}

/// Decodes the reply to `getPilot`.
pub fn decode_pilot(reply: &str) -> (r: Result<DeviceCommandParams, ProtocolError>)
    ensures
        r == decoded_pilot(reply@),
        reply@.len() == 0 ==> r == Err::<DeviceCommandParams, ProtocolError>(ProtocolError::Malformed),
{
    match pilot_fields(reply) {
        None => Err(ProtocolError::Malformed),
        Some(fields) => DeviceCommandParams::from_fields(&fields),
    }
}

/// Decodes the reply to `getUserConfig` into fade-in and fade-out time.
pub fn decode_user_config(reply: &str) -> (r: Result<(u64, u64), ProtocolError>)
    ensures
        r == decoded_user_config(reply@),
        reply@.len() == 0 ==> r == Err::<(u64, u64), ProtocolError>(ProtocolError::Malformed),
{
    match user_config_fields(reply) {
        None => Err(ProtocolError::Malformed),
        Some(fields) => fields.fade(),
    }
}

/// Decodes the state of a lamp from its replies to `getPilot` and to
/// `getUserConfig`: what it shows from the first, the fade timing from the
/// second.
pub fn decode_state(pilot_reply: &str, user_config_reply: &str) -> (r: Result<DeviceState, ProtocolError>)
    ensures
        r == decoded_state(pilot_reply@, user_config_reply@),
        pilot_reply@.len() == 0 || user_config_reply@.len() == 0 ==> r == Err::<DeviceState, ProtocolError>(
            ProtocolError::Malformed,
        ),
{
    match decode_pilot(pilot_reply) {
        Err(e) => Err(e),
        Ok(params) => match decode_user_config(user_config_reply) {
            Err(e) => Err(e),
            Ok((fade_in, fade_out)) => Ok(DeviceState { params, fade_in, fade_out }),
        },
    }
}

} // verus!
