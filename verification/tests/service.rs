use std::cell::RefCell;

use fusion_ipc_service::buffer::Buffer;
use fusion_ipc_service::error::{DecodeError, FusionResult, UNKNOWN_ACTION, UNKNOWN_INTENTION};
use fusion_ipc_service::identity::{compose_param_id, CommonAction, Intention, PARAM_MASK};
use fusion_ipc_service::service::{decode_request, on_remote_request, IDeviceStatus, Request};

const ACTIONS: [CommonAction; 9] = [
    CommonAction::Enable,
    CommonAction::Disable,
    CommonAction::Start,
    CommonAction::Stop,
    CommonAction::AddWatch,
    CommonAction::RemoveWatch,
    CommonAction::SetParam,
    CommonAction::GetParam,
    CommonAction::Control,
];

const NAMES: [&str; 9] = [
    "enable",
    "disable",
    "start",
    "stop",
    "add_watch",
    "remove_watch",
    "set_param",
    "get_param",
    "control",
];

fn intention(id: u32) -> Intention {
    Intention::new(id).expect("an id in range")
}

#[derive(Debug, PartialEq)]
struct Call {
    name: &'static str,
    intention: u32,
    id: Option<u32>,
    data: Vec<u8>,
}

struct Recorder {
    calls: RefCell<Vec<Call>>,
    answer: FusionResult<i32>,
    payload: Vec<u8>,
}

impl Recorder {
    fn new(answer: FusionResult<i32>, payload: &[u8]) -> Recorder {
        Recorder { calls: RefCell::new(Vec::new()), answer, payload: payload.to_vec() }
    }

    fn record(
        &self,
        name: &'static str,
        intention: Intention,
        id: Option<u32>,
        data: &Buffer,
        reply: &mut Buffer,
    ) -> FusionResult<i32> {
        self.calls.borrow_mut().push(Call {
            name,
            intention: intention.id(),
            id,
            data: data.as_slice().to_vec(),
        });
        assert!(reply.write_buffer(&self.payload));
        self.answer
    }
}

impl IDeviceStatus for Recorder {
    fn enable(&self, intention: Intention, data: &Buffer, reply: &mut Buffer) -> FusionResult<i32> {
        self.record("enable", intention, None, data, reply)
    }

    fn disable(&self, intention: Intention, data: &Buffer, reply: &mut Buffer) -> FusionResult<i32> {
        self.record("disable", intention, None, data, reply)
    }

    fn start(&self, intention: Intention, data: &Buffer, reply: &mut Buffer) -> FusionResult<i32> {
        self.record("start", intention, None, data, reply)
    }

    fn stop(&self, intention: Intention, data: &Buffer, reply: &mut Buffer) -> FusionResult<i32> {
        self.record("stop", intention, None, data, reply)
    }

    fn add_watch(
        &self,
        intention: Intention,
        id: u32,
        data: &Buffer,
        reply: &mut Buffer,
    ) -> FusionResult<i32> {
        self.record("add_watch", intention, Some(id), data, reply)
    }

    fn remove_watch(
        &self,
        intention: Intention,
        id: u32,
        data: &Buffer,
        reply: &mut Buffer,
    ) -> FusionResult<i32> {
        self.record("remove_watch", intention, Some(id), data, reply)
    }

    fn set_param(
        &self,
        intention: Intention,
        id: u32,
        data: &Buffer,
        reply: &mut Buffer,
    ) -> FusionResult<i32> {
        self.record("set_param", intention, Some(id), data, reply)
    }

    fn get_param(
        &self,
        intention: Intention,
        id: u32,
        data: &Buffer,
        reply: &mut Buffer,
    ) -> FusionResult<i32> {
        self.record("get_param", intention, Some(id), data, reply)
    }

    fn control(
        &self,
        intention: Intention,
        id: u32,
        data: &Buffer,
        reply: &mut Buffer,
    ) -> FusionResult<i32> {
        self.record("control", intention, Some(id), data, reply)
    }
}

fn request(bytes: &[u8]) -> Buffer {
    let mut buffer = Buffer::new(bytes.len());
    assert!(buffer.write_buffer(bytes));
    buffer
}

#[test]
fn decode_request_reads_all_three_fields() {
    assert_eq!(
        decode_request(0x403_005),
        Ok(Request { action: CommonAction::AddWatch, intention: intention(3), id: 5 })
    );
    assert_eq!(
        decode_request(0),
        Ok(Request { action: CommonAction::Enable, intention: intention(0), id: 0 })
    );
    assert_eq!(
        decode_request(0x8fe_fff),
        Ok(Request { action: CommonAction::Control, intention: intention(0xfe), id: 0xfff })
    );
}

#[test]
fn decode_request_keeps_the_param_of_an_action_without_one() {
    let decoded = decode_request(0x001_007).expect("a code that decodes");
    assert_eq!(decoded.action, CommonAction::Enable);
    assert_eq!(decoded.id, 7);
    assert_eq!(decoded.handler_id(), 0);
    let decoded = decode_request(0x401_007).expect("a code that decodes");
    assert_eq!(decoded.action, CommonAction::AddWatch);
    assert_eq!(decoded.handler_id(), 7);
}

#[test]
fn decode_request_reports_each_unknown_field() {
    assert_eq!(decode_request(0x900_000), Err(DecodeError::UnknownAction));
    assert_eq!(decode_request(0xf00_000), Err(DecodeError::UnknownAction));
    assert_eq!(decode_request(0x0ff_000), Err(DecodeError::UnknownIntention));
}

#[test]
fn decode_request_reports_the_intention_first() {
    assert_eq!(decode_request(0x9ff_000), Err(DecodeError::UnknownIntention));
    assert_eq!(decode_request(0xffff_ffff), Err(DecodeError::UnknownIntention));
}

#[test]
fn every_action_reaches_its_own_handler_once() {
    for (action, name) in ACTIONS.iter().zip(NAMES.iter()) {
        let stub = Recorder::new(Ok(11), &[]);
        let data = request(&[1, 2, 3]);
        let mut reply = Buffer::new(8);
        let code = compose_param_id(*action, intention(6), 0x2a);
        assert_eq!(on_remote_request(&stub, code, &data, &mut reply), Ok(11));
        let calls = stub.calls.borrow();
        assert_eq!(calls.len(), 1);
        assert_eq!(calls[0].name, *name);
        assert_eq!(calls[0].intention, 6);
        assert_eq!(calls[0].id, if action.takes_param() { Some(0x2a) } else { None });
        assert_eq!(calls[0].data, vec![1u8, 2, 3]);
    }
}

#[test]
fn handler_gets_the_smallest_and_the_largest_param() {
    for param in [0, PARAM_MASK] {
        let stub = Recorder::new(Ok(0), &[]);
        let data = request(&[]);
        let mut reply = Buffer::new(0);
        let code = compose_param_id(CommonAction::GetParam, intention(0xfe), param);
        assert_eq!(on_remote_request(&stub, code, &data, &mut reply), Ok(0));
        assert_eq!(
            *stub.calls.borrow(),
            vec![Call { name: "get_param", intention: 0xfe, id: Some(param), data: vec![] }]
        );
    }
}

#[test]
fn handler_answer_is_handed_on_unchanged() {
    for answer in [Ok(0), Ok(42), Ok(-5), Err(-1), Err(-2), Err(-3), Err(77), Err(i32::MIN)] {
        let stub = Recorder::new(answer, &[]);
        let data = request(&[]);
        let mut reply = Buffer::new(0);
        let code = compose_param_id(CommonAction::Stop, intention(1), 0);
        assert_eq!(on_remote_request(&stub, code, &data, &mut reply), answer);
        assert_eq!(stub.calls.borrow().len(), 1);
    }
}

#[test]
fn handler_payload_stays_in_the_reply() {
    let stub = Recorder::new(Ok(0), &[0xde, 0xad, 0xbe, 0xef]);
    let data = request(&[5]);
    let mut reply = Buffer::new(4);
    let code = compose_param_id(CommonAction::Control, intention(2), 1);
    assert_eq!(on_remote_request(&stub, code, &data, &mut reply), Ok(0));
    assert_eq!(reply.as_slice(), &[0xdeu8, 0xad, 0xbe, 0xef][..]);
    assert_eq!(data.as_slice(), &[5u8][..]);
}

#[test]
fn unknown_action_is_refused_before_any_handler() {
    for n in 9u32..=15 {
        let stub = Recorder::new(Ok(0), &[1]);
        let data = request(&[1, 2]);
        let mut reply = Buffer::new(4);
        let code = (n << 20) | (3 << 12) | 7;
        assert_eq!(on_remote_request(&stub, code, &data, &mut reply), Err(UNKNOWN_ACTION));
        assert!(stub.calls.borrow().is_empty());
        assert_eq!(reply.get_data_size(), 0);
    }
}

#[test]
fn unknown_intention_is_refused_before_any_handler() {
    let stub = Recorder::new(Ok(0), &[1]);
    let data = request(&[1, 2]);
    let mut reply = Buffer::new(4);
    let code = (4 << 20) | (0xff << 12) | 7;
    assert_eq!(on_remote_request(&stub, code, &data, &mut reply), Err(UNKNOWN_INTENTION));
    assert!(stub.calls.borrow().is_empty());
    assert_eq!(reply.get_data_size(), 0);
}

#[test]
fn refused_code_leaves_earlier_reply_bytes() {
    let stub = Recorder::new(Ok(0), &[1]);
    let data = request(&[]);
    let mut reply = Buffer::new(4);
    assert!(reply.write_buffer(&[8, 9]));
    assert_eq!(on_remote_request(&stub, 0xa00_000, &data, &mut reply), Err(UNKNOWN_ACTION));
    assert_eq!(reply.as_slice(), &[8u8, 9][..]);
    assert_eq!(reply.get_read_position(), 0);
}

#[test]
fn refusal_statuses_are_the_decode_errors() {
    assert_eq!(UNKNOWN_ACTION, DecodeError::UnknownAction.status());
    assert_eq!(UNKNOWN_INTENTION, DecodeError::UnknownIntention.status());
}
