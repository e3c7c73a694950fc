use webpty::codec::{encode_output, DecodeError, WindowSize};
use webpty::pump::{inbound_effect, output_message, Effect, Inbound, Outbound};

#[test]
fn heartbeat_enqueues_one_reply() {
    let effect = inbound_effect(Inbound::Binary(vec![2]), None);
    assert_eq!(effect, Ok(Effect::Send(Outbound::Binary(vec![1]))));
    let effect = inbound_effect(Inbound::Binary(vec![2, 4, 5]), None);
    assert_eq!(effect, Ok(Effect::Send(Outbound::Binary(vec![1]))));
}

#[test]
fn heartbeat_reply_queued_before_later_output() {
    let mut queue: Vec<Outbound> = Vec::new();
    if let Ok(Effect::Send(m)) = inbound_effect(Inbound::Binary(vec![2]), None) {
        queue.push(m);
    }
    if let Some(m) = output_message(b"out") {
        queue.push(m);
    }
    assert_eq!(
        queue,
        vec![Outbound::Binary(vec![1]), Outbound::Binary(vec![0, b'o', b'u', b't'])]
    );
}

#[test]
fn echoed_input_comes_back_as_output() {
    let frame = encode_output(b"hello");
    let written = match inbound_effect(Inbound::Binary(frame), None) {
        Ok(Effect::WritePty(bytes)) => bytes,
        other => panic!("unexpected effect {:?}", other),
    };
    assert_eq!(written, b"hello".to_vec());
    // The process echoes what it was given.
    let sent = output_message(&written);
    assert_eq!(sent, Some(Outbound::Binary(vec![0, b'h', b'e', b'l', b'l', b'o'])));
}

#[test]
fn empty_input_writes_nothing() {
    assert_eq!(inbound_effect(Inbound::Binary(vec![0]), None), Ok(Effect::Nothing));
}

#[test]
fn resize_frame_resizes() {
    let size = WindowSize { cols: 120, rows: 40 };
    let raw = br#"{"cols":120,"rows":40}"#;
    let mut frame = vec![1];
    frame.extend_from_slice(raw);
    assert_eq!(inbound_effect(Inbound::Binary(frame.clone()), Some(size)), Ok(Effect::ResizePty(size)));
    assert_eq!(inbound_effect(Inbound::Binary(frame), None), Err(DecodeError::MalformedResize));
}

#[test]
fn empty_binary_message_ends_pump() {
    assert_eq!(inbound_effect(Inbound::Binary(vec![]), None), Err(DecodeError::Empty));
}

#[test]
fn ping_is_answered_with_same_payload() {
    let effect = inbound_effect(Inbound::Ping(vec![9, 8, 7]), None);
    assert_eq!(effect, Ok(Effect::Send(Outbound::Pong(vec![9, 8, 7]))));
}

#[test]
fn other_messages_are_ignored() {
    assert_eq!(inbound_effect(Inbound::Text("ls".to_string()), None), Ok(Effect::Nothing));
    assert_eq!(inbound_effect(Inbound::Other, None), Ok(Effect::Nothing));
    assert_eq!(inbound_effect(Inbound::Binary(vec![7, 1]), None), Ok(Effect::Nothing));
}

#[test]
fn empty_read_ends_output() {
    assert_eq!(output_message(&[]), None);
}

#[test]
fn output_chunk_of_full_buffer() {
    let chunk = vec![b'x'; 1023];
    match output_message(&chunk) {
        Some(Outbound::Binary(frame)) => {
            assert_eq!(frame.len(), 1024);
            assert_eq!(frame[0], 0);
            assert_eq!(&frame[1..], &chunk[..]);
        }
        other => panic!("unexpected message {:?}", other),
    }
}

#[test]
fn resize_between_outputs_keeps_output_intact() {
    let first = output_message(b"abc");
    let size = WindowSize { cols: 80, rows: 24 };
    let effect = inbound_effect(Inbound::Binary(vec![1, b'{', b'}']), Some(size));
    let second = output_message(b"def");
    assert_eq!(effect, Ok(Effect::ResizePty(size)));
    assert_eq!(first, Some(Outbound::Binary(vec![0, b'a', b'b', b'c'])));
    assert_eq!(second, Some(Outbound::Binary(vec![0, b'd', b'e', b'f'])));
}
