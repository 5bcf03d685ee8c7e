//! The dispatcher: the memoryless state machine that turns each decoded
//! command into the one action the bridge takes, and builds the response the
//! structured protocol owes.

use vstd::prelude::*;
use crate::codec::{DecodeError, Response, StructuredCommand};
use crate::codec;
use crate::json;

verus! {

/// Which wire protocol the bridge speaks; chosen once at startup.
#[derive(Clone, Copy, Debug, PartialEq, Eq)]
pub enum ProtocolMode {
    /// JSON command objects in, JSON response objects out.
    Structured,
    /// Opcode-prefixed binary commands, with the power-on opcode honoured.
    RawWithPower,
    /// Opcode-prefixed binary commands with no power-on capability.
    RawMinimal,
}

/// A decoded command of either protocol generation.
#[derive(Debug, PartialEq, Eq)]
pub enum Command {
    /// A command object of the structured protocol.
    Structured(StructuredCommand),
    /// A raw binary command: the first byte is the opcode.
    Raw(Vec<u8>),
}

/// The one action a command calls for.
#[derive(Debug, PartialEq, Eq)]
pub enum Action {
    /// Write these bytes to the serial link.
    Forward(Vec<u8>),
    /// Pulse the power-on hardware line; nothing goes to the serial link.
    PowerOn,
    /// Do nothing and read the next frame.
    Ignore,
}

/// A protocol-contract violation: the loop stops and the process exits, so
/// the supervising host can detect the failure and restart the bridge.
#[derive(Clone, Copy, Debug, PartialEq, Eq)]
pub enum FatalError {
    /// A structured message type the dispatcher does not act on.
    UnknownMessageType(u8),
    /// A raw frame with no opcode byte at all.
    EmptyFrame,
}

/// The open-port handshake: answered before the dispatch loop starts and
/// never re-sent inside it.
pub const MSG_OPEN_PORT: u8 = 1;

/// The execute command: the only structured type the dispatcher acts on.
pub const MSG_EXECUTE: u8 = 3;

/// Raw opcode of a sensor packet: ignored, no response.
pub const OP_SENSOR: u8 = 0x8E;

/// Raw opcode of a power-on request: hardware action, no serial write.
pub const OP_POWER_ON: u8 = 0x01;

/// The success message text.
pub open spec fn msg_ok() -> Seq<u8> {
    seq![111u8, 107u8]
}

/// The serial-write-failure message text.
pub open spec fn msg_write_failed() -> Seq<u8> {
    seq![
        117u8,
        110u8,
        97u8,
        98u8,
        108u8,
        101u8,
        32u8,
        116u8,
        111u8,
        32u8,
        119u8,
        114u8,
        105u8,
        116u8,
        101u8,
        32u8,
        98u8,
        121u8,
        116u8,
        101u8,
        115u8,
    ]
}

/// Decide the action for a structured command. Only the execute type is
/// acted on: its data bytes go to the serial link. Every other type is a
/// version-skew fault the bridge must not guess about.
pub fn plan_structured(cmd: &StructuredCommand) -> (r: Result<Action, FatalError>)
    ensures
        cmd.message_type == MSG_EXECUTE ==> (r matches Ok(a) && a matches Action::Forward(b)
            && b@ == cmd.data@),
        cmd.message_type != MSG_EXECUTE ==> r == Err::<Action, FatalError>(
            FatalError::UnknownMessageType(cmd.message_type),
        ),
{
    if cmd.message_type == MSG_EXECUTE {
        Ok(Action::Forward(json::copy_bytes(&cmd.data)))
    } else {
        Err(FatalError::UnknownMessageType(cmd.message_type))
    }
}

/// Decide the action for a raw command: the first payload byte is the
/// opcode. Sensor packets are ignored; the power-on opcode pulses the
/// hardware line where that capability exists; every other payload is
/// forwarded to the serial link whole, opcode included.
pub fn plan_raw(power_enabled: bool, payload: &Vec<u8>) -> (r: Result<Action, FatalError>)
    ensures
        payload@.len() == 0 ==> r == Err::<Action, FatalError>(FatalError::EmptyFrame),
        payload@.len() > 0 && payload@[0] == OP_SENSOR ==> r == Ok::<Action, FatalError>(
            Action::Ignore,
        ),
        payload@.len() > 0 && payload@[0] == OP_POWER_ON && power_enabled ==> r == Ok::<
            Action,
            FatalError,
        >(Action::PowerOn),
        payload@.len() > 0 && payload@[0] != OP_SENSOR && !(payload@[0] == OP_POWER_ON
            && power_enabled) ==> (r matches Ok(a) && a matches Action::Forward(b) && b@
            == payload@),
{
    if payload.len() == 0 {
        return Err(FatalError::EmptyFrame);
    }
    let op = payload[0];
    if op == OP_SENSOR {
        Ok(Action::Ignore)
    } else if op == OP_POWER_ON && power_enabled {
        Ok(Action::PowerOn)
    } else {
        Ok(Action::Forward(json::copy_bytes(payload)))
    }
}

/// Decode one frame payload under the given protocol mode: the structured
/// protocol parses the payload as a command object, the raw protocols take
/// the bytes as the command itself.
pub fn decode_command(mode: ProtocolMode, payload: &Vec<u8>) -> (r: Result<Command, DecodeError>)
    ensures
        !(mode is Structured) ==> (r matches Ok(c) && c matches Command::Raw(b) && b@
            == payload@),
        mode is Structured && !codec::utf8_ok(payload@) ==> r == Err::<Command, DecodeError>(
            DecodeError::Encoding,
        ),
        mode is Structured && codec::utf8_ok(payload@) && json::parse_command(payload@) is None
            ==> r == Err::<Command, DecodeError>(DecodeError::Schema),
        mode is Structured && codec::utf8_ok(payload@) ==> (json::parse_command(payload@) matches
            Some(c) ==> (r matches Ok(cmd) && cmd matches Command::Structured(sc)
            && sc.message_type == c.0 && sc.subtype == c.1 && sc.data@ == c.2)),
{
    match mode {
        ProtocolMode::Structured => match codec::decode_structured(payload) {
            Ok(sc) => Ok(Command::Structured(sc)),
            Err(e) => Err(e),
        },
        _ => Ok(Command::Raw(json::copy_bytes(payload))),
    }
}

/// Decide the one action a decoded command calls for, under the given
/// protocol mode. The command must come from `decode_command` under the
/// same mode, so the variant agrees with the mode.
pub fn plan(mode: ProtocolMode, cmd: &Command) -> (r: Result<Action, FatalError>)
    requires
        mode is Structured <==> cmd is Structured,
    ensures
        cmd matches Command::Structured(sc) ==> (sc.message_type == MSG_EXECUTE ==> (r matches
            Ok(a) && a matches Action::Forward(b) && b@ == sc.data@)),
        cmd matches Command::Structured(sc) ==> (sc.message_type != MSG_EXECUTE ==> r == Err::<
            Action,
            FatalError,
        >(FatalError::UnknownMessageType(sc.message_type))),
        cmd matches Command::Raw(p) ==> {
            &&& p@.len() == 0 ==> r == Err::<Action, FatalError>(FatalError::EmptyFrame)
            &&& p@.len() > 0 && p@[0] == OP_SENSOR ==> r == Ok::<Action, FatalError>(
                Action::Ignore,
            )
            &&& p@.len() > 0 && p@[0] == OP_POWER_ON && mode is RawWithPower ==> r == Ok::<
                Action,
                FatalError,
            >(Action::PowerOn)
            &&& p@.len() > 0 && p@[0] != OP_SENSOR && !(p@[0] == OP_POWER_ON
                && mode is RawWithPower) ==> (r matches Ok(a) && a matches Action::Forward(b)
                && b@ == p@)
        },
{
    match cmd {
        Command::Structured(sc) => plan_structured(sc),
        Command::Raw(p) => {
            let power_enabled = match mode {
                ProtocolMode::RawWithPower => true,
                _ => false,
            };
            plan_raw(power_enabled, p)
        },
    }
}

/// Answer the open-port handshake: if the first structured command of a
/// session is the open-port type, the bridge replies with an immediate
/// success response to signal readiness. Any other first command gets no
/// handshake answer and goes through ordinary dispatch.
pub fn open_port_response(cmd: &StructuredCommand) -> (r: Option<Response>)
    ensures
        cmd.message_type == MSG_OPEN_PORT ==> (r matches Some(resp) && resp.message_type == 1
            && resp.subtype == cmd.subtype && resp.message@ == msg_ok() && resp.data@.len() == 0
            && codec::response_wf(resp)),
        cmd.message_type != MSG_OPEN_PORT ==> r is None,
{
    if cmd.message_type == MSG_OPEN_PORT {
        Some(execute_response(cmd.subtype, true))
    } else {
        None
    }
}

/// Build the one response owed for an execute command, from the outcome of
/// the serial write: success is type 1 with message "ok", failure is type 2
/// with the write-failure message; data is empty either way.
pub fn execute_response(subtype: u8, write_ok: bool) -> (r: Response)
    ensures
        r.subtype == subtype,
        r.data@ == Seq::<u8>::empty(),
        codec::response_wf(r),
        write_ok ==> r.message_type == 1 && r.message@ == msg_ok(),
        !write_ok ==> r.message_type == 2 && r.message@ == msg_write_failed(),
{
    if write_ok {
        let mut m: Vec<u8> = Vec::new();
        m.push(111);
        m.push(107);
        proof {
            assert(m@ =~= msg_ok());
        }
        Response { message_type: 1, subtype, message: m, data: Vec::new() }
    } else {
        let mut m: Vec<u8> = Vec::new();
        m.push(117);
        m.push(110);
        m.push(97);
        m.push(98);
        m.push(108);
        m.push(101);
        m.push(32);
        m.push(116);
        m.push(111);
        m.push(32);
        m.push(119);
        m.push(114);
        m.push(105);
        m.push(116);
        m.push(101);
        m.push(32);
        m.push(98);
        m.push(121);
        m.push(116);
        m.push(101);
        m.push(115);
        proof {
            assert(m@ =~= msg_write_failed());
        }
        Response { message_type: 2, subtype, message: m, data: Vec::new() }
    }
}

} // verus!
