use fractal_dispatch::envelope::{envelope, envelope_prefix, kind_name, open_envelope, FragmentKind};
use fractal_dispatch::framing::{write_frame, FramingError};
use fractal_dispatch::wire::{
    get_task_from_server, read_message, read_message_from_client, send_message, Message,
};

const KINDS: [FragmentKind; 3] =
    [FragmentKind::FragmentResult, FragmentKind::FragmentRequest, FragmentKind::FragmentTask];

#[test]
fn envelope_is_an_object_with_the_variant_as_its_key() {
    let body = b"{\"worker_name\":\"w\",\"maximal_work_load\":10}";
    assert_eq!(
        envelope(FragmentKind::FragmentRequest, body),
        b"{\"FragmentRequest\":{\"worker_name\":\"w\",\"maximal_work_load\":10}}".to_vec()
    );
    assert_eq!(envelope(FragmentKind::FragmentTask, b"{}"), b"{\"FragmentTask\":{}}".to_vec());
    assert_eq!(envelope(FragmentKind::FragmentResult, b"1"), b"{\"FragmentResult\":1}".to_vec());
    assert_eq!(envelope_prefix(FragmentKind::FragmentTask), b"{\"FragmentTask\":".to_vec());
    assert_eq!(kind_name(FragmentKind::FragmentResult), "FragmentResult");
}

#[test]
fn envelope_round_trip() {
    for kind in KINDS {
        for body in [&b"{}"[..], &b""[..], &b"{\"a\":{\"b\":[1,2]}}"[..], &b"}"[..]] {
            let json = envelope(kind, body);
            assert_eq!(open_envelope(&json), Some((kind, body.to_vec())));
        }
    }
}

#[test]
fn envelope_of_an_emitted_fragment_has_one_key() {
    for kind in KINDS {
        let json = envelope(kind, b"{\"id\":{\"offset\":0,\"count\":16}}");
        let value: serde_json::Value = serde_json::from_slice(&json).unwrap();
        let object = value.as_object().unwrap();
        assert_eq!(object.len(), 1);
        assert!(object.contains_key(kind_name(kind)));
    }
}

#[test]
fn unknown_variant_is_not_opened() {
    assert_eq!(open_envelope(b"{\"FragmentOther\":{}}"), None);
    assert_eq!(open_envelope(b"{\"FragmentTask\":}"), Some((FragmentKind::FragmentTask, Vec::new())));
    assert_eq!(open_envelope(b"{\"FragmentTask\" :{}}"), None);
    assert_eq!(open_envelope(b" {\"FragmentTask\":{}}"), None);
    assert_eq!(open_envelope(b"{\"FragmentTask\":"), None);
    assert_eq!(open_envelope(b""), None);
    assert_eq!(open_envelope(b"{}"), None);
    assert_eq!(open_envelope(b"[\"FragmentTask\"]"), None);
}

#[test]
fn message_round_trip() {
    for kind in KINDS {
        let body = "{\"worker_name\":\"caf\u{e9}\",\"maximal_work_load\":10}";
        let data = vec![0u8, 255, 7];
        let frame = send_message(kind, body, &data).unwrap();
        assert_eq!(
            read_message(&frame),
            Ok(Message { kind, body: body.to_string(), data: data.clone() })
        );
    }
}

#[test]
fn request_travels_with_empty_payload() {
    let frame = send_message(FragmentKind::FragmentRequest, "{}", &Vec::new()).unwrap();
    let json = b"{\"FragmentRequest\":{}}";
    assert_eq!(&frame[0..4], &(json.len() as u32).to_be_bytes());
    assert_eq!(&frame[4..8], &(json.len() as u32).to_be_bytes());
    assert_eq!(&frame[8..], &json[..]);
    let message = read_message(&frame).unwrap();
    assert_eq!(message.kind, FragmentKind::FragmentRequest);
    assert_eq!(message.body, "{}");
    assert!(message.data.is_empty());
}

#[test]
fn framing_rejection() {
    let mut frame = vec![0u8, 0, 0, 10, 0, 0, 0, 20];
    frame.extend_from_slice(&[b' '; 20]);
    assert_eq!(read_message(&frame), Err(FramingError::JsonLargerThanTotal));
    assert_eq!(read_message_from_client(&frame), Err(FramingError::JsonLargerThanTotal));
    assert_eq!(get_task_from_server(&frame), Err(FramingError::JsonLargerThanTotal));
}

#[test]
fn unknown_variant_is_refused() {
    let frame = write_frame(b"{\"Other\":{}}", &[]).unwrap();
    assert_eq!(read_message(&frame), Err(FramingError::UnknownVariant));
    let frame = write_frame(b"not json", &[1, 2]).unwrap();
    assert_eq!(read_message(&frame), Err(FramingError::UnknownVariant));
}

#[test]
fn json_that_is_not_utf8_is_refused() {
    let json = envelope(FragmentKind::FragmentRequest, &[b'"', 0xff, 0xfe, b'"']);
    let frame = write_frame(&json, &[]).unwrap();
    assert_eq!(read_message(&frame), Err(FramingError::InvalidUtf8));
    let json = envelope(FragmentKind::FragmentTask, &[0xc3]);
    let frame = write_frame(&json, &[]).unwrap();
    assert_eq!(read_message(&frame), Err(FramingError::InvalidUtf8));
}

#[test]
fn truncated_message_is_refused() {
    let frame = send_message(FragmentKind::FragmentTask, "{}", &vec![1, 2, 3]).unwrap();
    assert_eq!(read_message(&frame[..frame.len() - 1].to_vec()), Err(FramingError::Truncated));
    assert_eq!(read_message(&frame[..5].to_vec()), Err(FramingError::Truncated));
}

#[test]
fn dispatcher_takes_requests_and_results_only() {
    let request = send_message(FragmentKind::FragmentRequest, "{}", &Vec::new()).unwrap();
    let result = send_message(FragmentKind::FragmentResult, "{}", &vec![1]).unwrap();
    let task = send_message(FragmentKind::FragmentTask, "{}", &vec![2]).unwrap();
    assert_eq!(read_message_from_client(&request).unwrap().kind, FragmentKind::FragmentRequest);
    assert_eq!(read_message_from_client(&result).unwrap().data, vec![1]);
    assert_eq!(read_message_from_client(&task), Err(FramingError::UnexpectedFragment));
}

#[test]
fn worker_takes_tasks_only() {
    let request = send_message(FragmentKind::FragmentRequest, "{}", &Vec::new()).unwrap();
    let result = send_message(FragmentKind::FragmentResult, "{}", &vec![1]).unwrap();
    let task = send_message(FragmentKind::FragmentTask, "{\"a\":1}", &vec![2; 16]).unwrap();
    let message = get_task_from_server(&task).unwrap();
    assert_eq!(message.kind, FragmentKind::FragmentTask);
    assert_eq!(message.body, "{\"a\":1}");
    assert_eq!(message.data, vec![2; 16]);
    assert_eq!(get_task_from_server(&request), Err(FramingError::UnexpectedFragment));
    assert_eq!(get_task_from_server(&result), Err(FramingError::UnexpectedFragment));
}
