use roomba_port::codec::{decode_structured, encode_response_frame, StructuredCommand};
use roomba_port::dispatch::{
    decode_command, execute_response, open_port_response, plan, plan_raw, plan_structured,
    Action, Command, FatalError, ProtocolMode,
};
use roomba_port::frame::{decode_frame, encode_frame};

fn bytes(text: &str) -> Vec<u8> {
    text.as_bytes().to_vec()
}

#[test]
fn execute_command_forwards_its_data() {
    let cmd = StructuredCommand { message_type: 3, subtype: 0, data: vec![0x80u8, 0x07] };
    let action = plan_structured(&cmd).unwrap();
    assert_eq!(action, Action::Forward(vec![0x80u8, 0x07]));
}

#[test]
fn unknown_message_type_is_fatal() {
    let cmd = StructuredCommand { message_type: 9, subtype: 0, data: Vec::new() };
    assert_eq!(plan_structured(&cmd), Err(FatalError::UnknownMessageType(9)));
}

#[test]
fn reserved_message_types_are_not_acted_on() {
    for mt in [1u8, 2, 4] {
        let cmd = StructuredCommand { message_type: mt, subtype: 0, data: vec![1u8] };
        assert_eq!(plan_structured(&cmd), Err(FatalError::UnknownMessageType(mt)));
    }
}

#[test]
fn successful_write_gets_ok_response() {
    let r = execute_response(0, true);
    assert_eq!(r.message_type, 1);
    assert_eq!(r.subtype, 0);
    assert_eq!(r.message, bytes("ok"));
    assert_eq!(r.data, Vec::<u8>::new());
}

#[test]
fn failed_write_gets_error_response() {
    let r = execute_response(5, false);
    assert_eq!(r.message_type, 2);
    assert_eq!(r.subtype, 5);
    assert_eq!(r.message, bytes("unable to write bytes"));
    assert_eq!(r.data, Vec::<u8>::new());
}

#[test]
fn sensor_packet_is_ignored() {
    let payload = vec![0x8eu8, 1, 2, 3];
    assert_eq!(plan_raw(true, &payload), Ok(Action::Ignore));
    assert_eq!(plan_raw(false, &payload), Ok(Action::Ignore));
}

#[test]
fn power_on_opcode_invokes_the_capability() {
    let payload = vec![0x01u8];
    assert_eq!(plan_raw(true, &payload), Ok(Action::PowerOn));
}

#[test]
fn power_on_opcode_without_capability_is_forwarded() {
    let payload = vec![0x01u8, 5];
    assert_eq!(plan_raw(false, &payload), Ok(Action::Forward(vec![0x01u8, 5])));
}

#[test]
fn other_opcodes_forward_the_whole_payload() {
    let payload = vec![0x89u8, 0, 0, 0, 0];
    assert_eq!(plan_raw(true, &payload), Ok(Action::Forward(vec![0x89u8, 0, 0, 0, 0])));
}

#[test]
fn empty_raw_frame_is_fatal() {
    let payload: Vec<u8> = Vec::new();
    assert_eq!(plan_raw(true, &payload), Err(FatalError::EmptyFrame));
}

#[test]
fn raw_mode_passes_payload_through_decode() {
    let payload = vec![0x8eu8, 9];
    let cmd = decode_command(ProtocolMode::RawWithPower, &payload).unwrap();
    assert_eq!(cmd, Command::Raw(vec![0x8eu8, 9]));
    assert_eq!(plan(ProtocolMode::RawWithPower, &cmd), Ok(Action::Ignore));
}

#[test]
fn structured_mode_decodes_through_dispatcher() {
    let payload = bytes("{\"message_type\":3,\"subtype\":1,\"data\":[7]}");
    let cmd = decode_command(ProtocolMode::Structured, &payload).unwrap();
    assert_eq!(
        cmd,
        Command::Structured(StructuredCommand { message_type: 3, subtype: 1, data: vec![7u8] })
    );
    assert_eq!(plan(ProtocolMode::Structured, &cmd), Ok(Action::Forward(vec![7u8])));
}

#[test]
fn raw_minimal_mode_forwards_power_opcode() {
    let payload = vec![0x01u8];
    let cmd = decode_command(ProtocolMode::RawMinimal, &payload).unwrap();
    assert_eq!(plan(ProtocolMode::RawMinimal, &cmd), Ok(Action::Forward(vec![0x01u8])));
}

#[test]
fn open_port_handshake_gets_immediate_success() {
    let cmd = StructuredCommand { message_type: 1, subtype: 3, data: Vec::new() };
    let r = open_port_response(&cmd).unwrap();
    assert_eq!(r.message_type, 1);
    assert_eq!(r.subtype, 3);
    assert_eq!(r.message, bytes("ok"));
}

#[test]
fn non_handshake_first_command_gets_no_handshake_answer() {
    let cmd = StructuredCommand { message_type: 3, subtype: 0, data: vec![1u8] };
    assert_eq!(open_port_response(&cmd), None);
}

#[test]
fn execute_scenario_end_to_end() {
    // One whole loop iteration of the structured protocol, with a serial
    // link that accepts the write.
    let json_in = bytes("{\"message_type\":3,\"subtype\":0,\"data\":[1,2,3]}");
    let mut input = vec![(json_in.len() / 256) as u8, (json_in.len() % 256) as u8];
    input.extend_from_slice(&json_in);

    let (payload, consumed) = decode_frame(&input).unwrap();
    assert_eq!(consumed, input.len());
    let cmd = decode_structured(&payload).unwrap();
    let action = plan_structured(&cmd).unwrap();
    assert_eq!(action, Action::Forward(vec![1u8, 2, 3]));

    // The serial write succeeds, so exactly one ok response goes out.
    let response = execute_response(cmd.subtype, true);
    let out_frame = encode_response_frame(&response).unwrap();

    let json_out = bytes("{\"message_type\":1,\"subtype\":0,\"message\":\"ok\",\"data\":[]}");
    assert_eq!(out_frame, encode_frame(&json_out));
    assert_eq!(out_frame[0] as usize, 0);
    assert_eq!(out_frame[1] as usize, json_out.len());
}
