use roomba_port::codec::{
    decode_structured, encode_response, encode_response_frame, DecodeError, Response,
};

fn bytes(text: &str) -> Vec<u8> {
    text.as_bytes().to_vec()
}

#[test]
fn decode_execute_command() {
    let payload = bytes("{\"message_type\":3,\"subtype\":0,\"data\":[1,2,3]}");
    let cmd = decode_structured(&payload).unwrap();
    assert_eq!(cmd.message_type, 3);
    assert_eq!(cmd.subtype, 0);
    assert_eq!(cmd.data, vec![1u8, 2, 3]);
}

#[test]
fn decode_with_whitespace() {
    let payload = bytes("{ \"message_type\" : 3 ,\n\t\"subtype\" : 7 , \"data\" : [ 10 , 200 ] }\n");
    let cmd = decode_structured(&payload).unwrap();
    assert_eq!(cmd.message_type, 3);
    assert_eq!(cmd.subtype, 7);
    assert_eq!(cmd.data, vec![10u8, 200]);
}

#[test]
fn decode_empty_data_array() {
    let payload = bytes("{\"message_type\":2,\"subtype\":1,\"data\":[]}");
    let cmd = decode_structured(&payload).unwrap();
    assert_eq!(cmd.message_type, 2);
    assert_eq!(cmd.data, Vec::<u8>::new());
}

#[test]
fn decode_rejects_invalid_utf8() {
    let payload = vec![0xffu8, 0xfe, 0x20];
    assert_eq!(decode_structured(&payload), Err(DecodeError::Encoding));
}

#[test]
fn decode_rejects_truncated_object() {
    let payload = bytes("{\"message_type\":3,\"subtype\":0");
    assert_eq!(decode_structured(&payload), Err(DecodeError::Schema));
}

#[test]
fn decode_rejects_wrong_key() {
    let payload = bytes("{\"message_type\":3,\"subtipe\":0,\"data\":[]}");
    assert_eq!(decode_structured(&payload), Err(DecodeError::Schema));
}

#[test]
fn decode_rejects_value_out_of_byte_range() {
    let payload = bytes("{\"message_type\":256,\"subtype\":0,\"data\":[]}");
    assert_eq!(decode_structured(&payload), Err(DecodeError::Schema));
    let payload = bytes("{\"message_type\":3,\"subtype\":0,\"data\":[999]}");
    assert_eq!(decode_structured(&payload), Err(DecodeError::Schema));
}

#[test]
fn decode_rejects_trailing_garbage() {
    let payload = bytes("{\"message_type\":3,\"subtype\":0,\"data\":[]}x");
    assert_eq!(decode_structured(&payload), Err(DecodeError::Schema));
}

#[test]
fn decode_rejects_empty_payload() {
    let payload: Vec<u8> = Vec::new();
    assert_eq!(decode_structured(&payload), Err(DecodeError::Schema));
}

#[test]
fn encode_success_response() {
    let r = Response { message_type: 1, subtype: 0, message: bytes("ok"), data: Vec::new() };
    assert_eq!(
        encode_response(&r),
        bytes("{\"message_type\":1,\"subtype\":0,\"message\":\"ok\",\"data\":[]}")
    );
}

#[test]
fn encode_failure_response() {
    let r = Response {
        message_type: 2,
        subtype: 9,
        message: bytes("unable to write bytes"),
        data: Vec::new(),
    };
    assert_eq!(
        encode_response(&r),
        bytes(
            "{\"message_type\":2,\"subtype\":9,\"message\":\"unable to write bytes\",\"data\":[]}"
        )
    );
}

#[test]
fn encode_renders_multi_digit_numbers_and_data() {
    let r = Response {
        message_type: 200,
        subtype: 255,
        message: bytes("hi"),
        data: vec![0u8, 7, 45, 255],
    };
    assert_eq!(
        encode_response(&r),
        bytes("{\"message_type\":200,\"subtype\":255,\"message\":\"hi\",\"data\":[0,7,45,255]}")
    );
}

#[test]
fn response_frame_carries_length_prefix() {
    let r = Response { message_type: 1, subtype: 0, message: bytes("ok"), data: Vec::new() };
    let body = encode_response(&r);
    let frame = encode_response_frame(&r).unwrap();
    assert_eq!(frame.len(), body.len() + 2);
    assert_eq!(frame[0] as usize, body.len() / 256);
    assert_eq!(frame[1] as usize, body.len() % 256);
    assert_eq!(&frame[2..], &body[..]);
}

#[test]
fn oversized_response_frame_is_refused() {
    // Around four JSON bytes per data byte: 20000 data bytes overrun the
    // 16-bit frame length budget.
    let r = Response {
        message_type: 1,
        subtype: 0,
        message: bytes("ok"),
        data: vec![200u8; 20000],
    };
    assert_eq!(encode_response_frame(&r), None);
}

#[test]
fn decode_then_encode_round_trips_field_values() {
    let payload = bytes("{\"message_type\":1,\"subtype\":42,\"data\":[5,6]}");
    let cmd = decode_structured(&payload).unwrap();
    let r = Response {
        message_type: cmd.message_type,
        subtype: cmd.subtype,
        message: Vec::new(),
        data: cmd.data,
    };
    assert_eq!(
        encode_response(&r),
        bytes("{\"message_type\":1,\"subtype\":42,\"message\":\"\",\"data\":[5,6]}")
    );
}
