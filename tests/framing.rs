use nopea_git::framing::{encode_frame, frame_length, start, step, Action, Event, Phase};

#[test]
fn frame_is_length_then_payload() {
    let frame = encode_frame(b"abc").unwrap();
    assert_eq!(frame, vec![0, 0, 0, 3, b'a', b'b', b'c']);
    assert_eq!(encode_frame(b"").unwrap(), vec![0, 0, 0, 0]);
}

#[test]
fn frame_length_is_big_endian() {
    assert_eq!(frame_length(&[0, 0, 1, 2]), 258);
    assert_eq!(frame_length(&[1, 2, 3, 4]), 0x01020304);
    assert_eq!(frame_length(&[255, 255, 255, 255]), u32::MAX);
    let payload = vec![7u8; 300];
    let frame = encode_frame(&payload).unwrap();
    assert_eq!(frame_length(&frame[..4]), 300);
    assert_eq!(&frame[4..], &payload[..]);
}

#[test]
fn loop_starts_reading_a_prefix() {
    let (phase, action) = start();
    assert_eq!(phase, Phase::AwaitingLength);
    assert!(matches!(action, Action::Read(4)));
}

#[test]
fn one_request_one_response() {
    let (phase, action) = step(Phase::AwaitingLength, Event::Received(vec![0, 0, 0, 2]));
    assert_eq!(phase, Phase::AwaitingPayload(2));
    assert!(matches!(action, Action::Read(2)));
    let (phase, action) = step(phase, Event::Received(vec![9, 8]));
    assert_eq!(phase, Phase::Dispatching);
    assert!(matches!(action, Action::Dispatch(ref p) if p == &vec![9, 8]));
    let (phase, action) = step(phase, Event::Responded(vec![1]));
    assert_eq!(phase, Phase::WritingResponse);
    assert!(matches!(action, Action::Write(ref f) if f == &vec![0, 0, 0, 1, 1]));
    let (phase, action) = step(phase, Event::Written);
    assert_eq!(phase, Phase::AwaitingLength);
    assert!(matches!(action, Action::Read(4)));
}

#[test]
fn truncated_prefix_closes_without_response() {
    let (phase, action) = step(Phase::AwaitingLength, Event::Received(vec![0, 0]));
    assert_eq!(phase, Phase::Closed);
    assert!(matches!(action, Action::Stop));
    let (phase, action) = step(Phase::AwaitingLength, Event::ReadFailed);
    assert_eq!(phase, Phase::Closed);
    assert!(matches!(action, Action::Stop));
}

#[test]
fn truncated_payload_closes() {
    let (phase, action) = step(Phase::AwaitingPayload(5), Event::Received(vec![1, 2]));
    assert_eq!(phase, Phase::Closed);
    assert!(matches!(action, Action::Stop));
}

#[test]
fn undecodable_payload_closes_without_response() {
    let (phase, action) = step(Phase::Dispatching, Event::Undecodable);
    assert_eq!(phase, Phase::Closed);
    assert!(matches!(action, Action::Stop));
    let (phase, action) = step(phase, Event::Responded(vec![1]));
    assert_eq!(phase, Phase::Closed);
    assert!(matches!(action, Action::Stop));
}

#[test]
fn failed_write_closes() {
    let (phase, action) = step(Phase::WritingResponse, Event::WriteFailed);
    assert_eq!(phase, Phase::Closed);
    assert!(matches!(action, Action::Stop));
}

#[test]
fn pipelined_requests_are_answered_in_order() {
    let mut stream: Vec<u8> = Vec::new();
    for i in 0..5u8 {
        stream.extend(encode_frame(&[i, i]).unwrap());
    }
    let mut pos = 0usize;
    let mut written: Vec<Vec<u8>> = Vec::new();
    let (mut phase, mut action) = start();
    loop {
        let event = match action {
            Action::Read(n) => {
                let n = n as usize;
                if pos + n > stream.len() {
                    Event::ReadFailed
                } else {
                    pos += n;
                    Event::Received(stream[pos - n..pos].to_vec())
                }
            }
            Action::Dispatch(payload) => Event::Responded(vec![payload[0] + 100]),
            Action::Write(frame) => {
                written.push(frame);
                Event::Written
            }
            Action::Stop => break,
        };
        let next = step(phase, event);
        phase = next.0;
        action = next.1;
    }
    assert_eq!(phase, Phase::Closed);
    let expected: Vec<Vec<u8>> = (0..5u8).map(|i| vec![0, 0, 0, 1, i + 100]).collect();
    assert_eq!(written, expected);
}
