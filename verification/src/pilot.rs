//! The commands that a lamp understands and the text they travel as.
//!
//! A command is a method name and a list of named parameters. On the wire it
//! is one JSON object without white space, its parameters in alphabetical
//! order: `{"method":"setPilot","params":{"dimming":100,"state":true,"temp":2700}}`.

use vstd::prelude::*;
use vstd::string::*;
use crate::text::{bool_text, decimal_text, push_bool, push_decimal};
use crate::device::{DeviceCommandParams, ProtocolError};
use crate::reply::{decode_pilot, decoded_pilot};

verus! {

/// The value of one parameter of a command.
#[derive(Clone, Copy, Debug, PartialEq, Eq, Structural)]
pub enum ParamValue {
    Number(u64),
    Flag(bool),
}

/// One named parameter of a command.
pub struct Param {
    pub name: Seq<char>,
    pub value: ParamValue,
}

/// A command as a lamp sees it: the method and its parameters, in the order
/// in which they are written.
pub struct Command {
    pub method: Seq<char>,
    pub params: Seq<Param>,
}

/// The text of a parameter's value.
pub open spec fn value_text(value: ParamValue) -> Seq<char> {
    match value {
        ParamValue::Number(n) => decimal_text(n as nat),
        ParamValue::Flag(b) => bool_text(b),
    }
}

/// The text of one parameter: its quoted name, a colon, its value.
pub open spec fn param_text(param: Param) -> Seq<char> {
    "\""@ + param.name + "\":"@ + value_text(param.value)
}

/// The text of a list of parameters, separated by commas.
pub open spec fn params_text(params: Seq<Param>) -> Seq<char>
    decreases params.len(),
{
    if params.len() == 0 {
        Seq::empty()
    } else if params.len() == 1 {
        param_text(params[0])
    } else {
        params_text(params.drop_last()) + ","@ + param_text(params.last())
    }
}

/// The text that precedes the parameters of a command.
pub open spec fn head_text(method: Seq<char>) -> Seq<char> {
    "{\"method\":\""@ + method + "\",\"params\":{"@
}

impl Command {
    /// Whether the command carries a parameter of this name.
    pub open spec fn has_param(self, name: Seq<char>) -> bool {
        exists|i: int| 0 <= i < self.params.len() && (#[trigger] self.params[i]).name == name
    }

    /// The command as it is sent.
    pub open spec fn text(self) -> Seq<char> {
        head_text(self.method) + params_text(self.params) + "}}"@
    }
}

/// `setPilot` with a colour mixed from red, green and blue.
pub open spec fn rgb_command(r: u64, g: u64, b: u64, dimming: u64, state: bool) -> Command {
    Command {
        method: "setPilot"@,
        params: seq![
            Param { name: "b"@, value: ParamValue::Number(b) },
            Param { name: "dimming"@, value: ParamValue::Number(dimming) },
            Param { name: "g"@, value: ParamValue::Number(g) },
            Param { name: "r"@, value: ParamValue::Number(r) },
            Param { name: "state"@, value: ParamValue::Flag(state) },
        ],
    }
}

/// `setPilot` with a white of the given temperature.
pub open spec fn temperature_command(temp: u64, dimming: u64, state: bool) -> Command {
    Command {
        method: "setPilot"@,
        params: seq![
            Param { name: "dimming"@, value: ParamValue::Number(dimming) },
            Param { name: "state"@, value: ParamValue::Flag(state) },
            Param { name: "temp"@, value: ParamValue::Number(temp) },
        ],
    }
}

/// `getPilot`: the query for what the lamp shows.
pub open spec fn get_pilot_command() -> Command {
    Command { method: "getPilot"@, params: Seq::empty() }
}

/// `getUserConfig`: the query for the lamp's fade timing.
pub open spec fn get_user_config_command() -> Command {
    Command { method: "getUserConfig"@, params: Seq::empty() }
}

/// `setUserConfig` with the fade timing in milliseconds.
pub open spec fn set_user_config_command(fade_in: u64, fade_out: u64) -> Command {
    Command {
        method: "setUserConfig"@,
        params: seq![
            Param { name: "fadeIn"@, value: ParamValue::Number(fade_in) },
            Param { name: "fadeOut"@, value: ParamValue::Number(fade_out) },
        ],
    }
}

/// The `setPilot` command that makes a lamp show `params`.
pub open spec fn pilot_command(params: DeviceCommandParams) -> Command {
    match params {
        DeviceCommandParams::RgbMode { r, g, b, dimming, state } => rgb_command(r, g, b, dimming, state),
        DeviceCommandParams::TempMode { temp, dimming, state } => temperature_command(temp, dimming, state),
    }
}

/// The command for a colour given both ways: the temperature wins where it is
/// not zero, and the mixed colour is sent otherwise.
pub open spec fn color_command(rgb: (u64, u64, u64), temp: u64, dimming: u64, state: bool) -> Command {
    if temp != 0 {
        temperature_command(temp, dimming, state)
    } else {
        rgb_command(rgb.0, rgb.1, rgb.2, dimming, state)
    }
}

fn begin(method: &str) -> (out: String)
    ensures
        out@ == head_text(method@),
{
    let mut out = String::from_str("{\"method\":\"");
    out.append(method);
    out.append("\",\"params\":{");
    out
}

fn push_param(
    out: &mut String,
    name: &str,
    value: ParamValue,
    first: bool,
    Ghost(head): Ghost<Seq<char>>,
    Ghost(done): Ghost<Seq<Param>>,
)
    requires
        old(out)@ == head + params_text(done),
        first == (done.len() == 0),
    ensures
        final(out)@ == head + params_text(done.push(Param { name: name@, value })),
{
    let ghost param = Param { name: name@, value };
    let ghost all = done.push(param);
    if !first {
        out.append(",");
    }
    out.append("\"");
    out.append(name);
    out.append("\":");
    match value {
        ParamValue::Number(n) => push_decimal(out, n),
        ParamValue::Flag(b) => push_bool(out, b),
    }
    proof {
        assert(all.drop_last() =~= done);
        assert(all.last() == param);
        if first {
            assert(params_text(done) =~= Seq::<char>::empty());
            assert(params_text(all) == param_text(param));
            assert(out@ =~= head + param_text(param));
        } else {
            assert(params_text(all) == params_text(done) + ","@ + param_text(param));
            assert(out@ =~= head + (params_text(done) + ","@ + param_text(param)));
        }
    }
}

fn finish(out: &mut String, Ghost(command): Ghost<Command>)
    requires
        old(out)@ == head_text(command.method) + params_text(command.params),
    ensures
        final(out)@ == command.text(),
{
    out.append("}}");
}

/// The text of `setPilot` for a colour mixed from red, green and blue.
pub fn set_pilot_message(r: u64, g: u64, b: u64, dimming: u64, state: bool) -> (msg: String)
    ensures
        msg@ == rgb_command(r, g, b, dimming, state).text(),
{
    let ghost command = rgb_command(r, g, b, dimming, state);
    let ghost head = head_text(command.method);
    let ghost ps = command.params;
    let mut out = begin("setPilot");
    assert(out@ =~= head + params_text(ps.take(0)));
    push_param(&mut out, "b", ParamValue::Number(b), true, Ghost(head), Ghost(ps.take(0)));
    assert(ps.take(0).push(ps[0]) =~= ps.take(1));
    push_param(&mut out, "dimming", ParamValue::Number(dimming), false, Ghost(head), Ghost(ps.take(1)));
    assert(ps.take(1).push(ps[1]) =~= ps.take(2));
    push_param(&mut out, "g", ParamValue::Number(g), false, Ghost(head), Ghost(ps.take(2)));
    assert(ps.take(2).push(ps[2]) =~= ps.take(3));
    push_param(&mut out, "r", ParamValue::Number(r), false, Ghost(head), Ghost(ps.take(3)));
    assert(ps.take(3).push(ps[3]) =~= ps.take(4));
    push_param(&mut out, "state", ParamValue::Flag(state), false, Ghost(head), Ghost(ps.take(4)));
    assert(ps.take(4).push(ps[4]) =~= ps);
    finish(&mut out, Ghost(command));
    out
}

/// The text of `setPilot` for a white of the given temperature.
pub fn set_temperature_message(temp: u64, dimming: u64, state: bool) -> (msg: String)
    ensures
        msg@ == temperature_command(temp, dimming, state).text(),
{
    let ghost command = temperature_command(temp, dimming, state);
    let ghost head = head_text(command.method);
    let ghost ps = command.params;
    let mut out = begin("setPilot");
    assert(out@ =~= head + params_text(ps.take(0)));
    push_param(&mut out, "dimming", ParamValue::Number(dimming), true, Ghost(head), Ghost(ps.take(0)));
    assert(ps.take(0).push(ps[0]) =~= ps.take(1));
    push_param(&mut out, "state", ParamValue::Flag(state), false, Ghost(head), Ghost(ps.take(1)));
    assert(ps.take(1).push(ps[1]) =~= ps.take(2));
    push_param(&mut out, "temp", ParamValue::Number(temp), false, Ghost(head), Ghost(ps.take(2)));
    assert(ps.take(2).push(ps[2]) =~= ps);
    finish(&mut out, Ghost(command));
    out
}

/// The text of `getPilot`.
pub fn get_pilot_message() -> (msg: String)
    ensures
        msg@ == get_pilot_command().text(),
{
    let ghost command = get_pilot_command();
    let mut out = begin("getPilot");
    assert(out@ =~= head_text(command.method) + params_text(command.params));
    finish(&mut out, Ghost(command));
    out
}

/// The text of `getUserConfig`.
pub fn get_user_config_message() -> (msg: String)
    ensures
        msg@ == get_user_config_command().text(),
{
    let ghost command = get_user_config_command();
    let mut out = begin("getUserConfig");
    assert(out@ =~= head_text(command.method) + params_text(command.params));
    finish(&mut out, Ghost(command));
    out
}

/// The text of `setUserConfig` with the fade timing in milliseconds.
pub fn set_user_config_message(fade_in: u64, fade_out: u64) -> (msg: String)
    ensures
        msg@ == set_user_config_command(fade_in, fade_out).text(),
{
    let ghost command = set_user_config_command(fade_in, fade_out);
    let ghost head = head_text(command.method);
    let ghost ps = command.params;
    let mut out = begin("setUserConfig");
    assert(out@ =~= head + params_text(ps.take(0)));
    push_param(&mut out, "fadeIn", ParamValue::Number(fade_in), true, Ghost(head), Ghost(ps.take(0)));
    assert(ps.take(0).push(ps[0]) =~= ps.take(1));
    push_param(&mut out, "fadeOut", ParamValue::Number(fade_out), false, Ghost(head), Ghost(ps.take(1)));
    assert(ps.take(1).push(ps[1]) =~= ps);
    finish(&mut out, Ghost(command));
    out
}

impl DeviceCommandParams {
    /// The text of the `setPilot` command that makes a lamp show `self`. The
    /// mode of `self` decides which parameters are written.
    pub fn message(&self) -> (msg: String)
        ensures
            msg@ == pilot_command(*self).text(),
    {
        match *self {
            DeviceCommandParams::RgbMode { r, g, b, dimming, state } => set_pilot_message(r, g, b, dimming, state),
            DeviceCommandParams::TempMode { temp, dimming, state } => set_temperature_message(temp, dimming, state),
        }
    }
}

/// The text of the `setPilot` command that puts a lamp back into the state
/// that it reported in `previous_state`, its reply to `getPilot`. A reply
/// that cannot be decoded gives no command.
pub fn set_pilot_message_from_previous_state(previous_state: String) -> (msg: Result<String, ProtocolError>)
    ensures
        match decoded_pilot(previous_state@) {
            Ok(params) => msg matches Ok(text) && text@ == pilot_command(params).text(),
            Err(error) => msg matches Err(e) && e == error,
        },
{
    match decode_pilot(previous_state.as_str()) {
        Ok(params) => Ok(params.message()),
        Err(error) => Err(error),
    }
}

/// A temperature command names the temperature and none of the three colour
/// channels; a colour command names the three channels and no temperature.
/// Both are `setPilot` commands.
pub proof fn lemma_modes_exclusive(params: DeviceCommandParams)
    ensures
        pilot_command(params).method == "setPilot"@,
        params is TempMode ==> {
            &&& pilot_command(params).has_param("temp"@)
            &&& !pilot_command(params).has_param("r"@)
            &&& !pilot_command(params).has_param("g"@)
            &&& !pilot_command(params).has_param("b"@)
        },
        params is RgbMode ==> {
            &&& !pilot_command(params).has_param("temp"@)
            &&& pilot_command(params).has_param("r"@)
            &&& pilot_command(params).has_param("g"@)
            &&& pilot_command(params).has_param("b"@)
        },
{
    reveal_strlit("temp");
    reveal_strlit("r");
    reveal_strlit("g");
    reveal_strlit("b");
    reveal_strlit("dimming");
    reveal_strlit("state");
    let command = pilot_command(params);
    assert("temp"@.len() == 4 && "dimming"@.len() == 7 && "state"@.len() == 5);
    assert("r"@[0] == 'r' && "g"@[0] == 'g' && "b"@[0] == 'b');
    match params {
        DeviceCommandParams::TempMode { .. } => {
            assert(command.params.len() == 3);
            assert(command.params[0].name == "dimming"@);
            assert(command.params[1].name == "state"@);
            assert(command.params[2].name == "temp"@);
        },
        DeviceCommandParams::RgbMode { .. } => {
            assert(command.params.len() == 5);
            assert(command.params[0].name == "b"@);
            assert(command.params[1].name == "dimming"@);
            assert(command.params[2].name == "g"@);
            assert(command.params[3].name == "r"@);
            assert(command.params[4].name == "state"@);
        },
    }
}

} // verus!
