use splice_core::actions::ActionKey;
use splice_core::dispatch::ContextFrame;
use splice_core::dispatch::DispatchValue;
use splice_core::dispatch::HostCallback;
use splice_core::dispatch::Payload;
use splice_core::dispatch::SpliceError;
use splice_core::dispatch::WasmRuntime;
use splice_core::frame::header_action_id;
use std::cell::RefCell;
use std::rc::Rc;

#[derive(Clone)]
struct TestCb {
    label: i64,
    fail: bool,
    frames: Rc<RefCell<Vec<([u8; 3], String)>>>,
    data: Rc<RefCell<Vec<i64>>>,
}

impl TestCb {
    fn new(label: i64) -> TestCb {
        TestCb {
            label,
            fail: false,
            frames: Rc::new(RefCell::new(Vec::new())),
            data: Rc::new(RefCell::new(Vec::new())),
        }
    }

    fn failing(label: i64) -> TestCb {
        TestCb { fail: true, ..TestCb::new(label) }
    }

    fn frame_count(&self) -> usize {
        self.frames.borrow().len()
    }
}

impl HostCallback for TestCb {
    type Value = i64;

    fn invoke_frame(&self, frame: &ContextFrame<i64>) -> Result<i64, i64> {
        self.frames.borrow_mut().push((frame.header, frame.object_type.clone()));
        if self.fail {
            Err(-self.label)
        } else {
            Ok(self.label)
        }
    }

    fn invoke_data(&self, data: &i64) -> Result<i64, i64> {
        self.data.borrow_mut().push(*data);
        if self.fail {
            Err(-self.label)
        } else {
            Ok(self.label)
        }
    }
}

fn objects() -> Option<Vec<String>> {
    Some(vec!["Object".to_string(), "Array".to_string()])
}

#[test]
fn empty_cell_without_fallback_degrades() {
    let mut rt: WasmRuntime<TestCb> = WasmRuntime::new(objects(), 8);
    let r = rt.dispatch_signal("get", "Object", Payload::Bytes(vec![1, 2, 3, 4]));
    assert_eq!(r, Ok(DispatchValue::Undefined));
    let m = rt.metrics();
    assert_eq!(m.frames, 1);
    assert_eq!(m.dispatched, 1);
    assert_eq!(m.errors, 1);
    assert_eq!(m.signals, 0);
}

#[test]
fn echo_decodes_little_endian() {
    let mut rt: WasmRuntime<TestCb> = WasmRuntime::new(objects(), 8);
    rt.register_builtin("Object", "set", "Echo").unwrap();
    let r = rt.dispatch_signal("set", "Object", Payload::Bytes(vec![0x01, 0x02, 0x03, 0x04, 0xFF]));
    assert_eq!(r, Ok(DispatchValue::Num(0x04030201)));
    let m = rt.metrics();
    assert_eq!(m.errors, 0);
    assert_eq!(m.frames, 1);
    assert_eq!(m.dispatched, 1);
}

#[test]
fn echo_short_payload_degrades_to_zero() {
    let mut rt: WasmRuntime<TestCb> = WasmRuntime::new(objects(), 8);
    rt.register_builtin("Object", "set", "echo").unwrap();
    let r = rt.dispatch_signal("set", "Object", Payload::Bytes(vec![1, 2, 3]));
    assert_eq!(r, Ok(DispatchValue::Num(0)));
    assert_eq!(rt.metrics().errors, 1);
    assert_eq!(rt.metrics().dispatched, 1);
}

#[test]
fn echo_opaque_payload_degrades_to_zero() {
    let mut rt: WasmRuntime<TestCb> = WasmRuntime::new(objects(), 8);
    rt.register_builtin("Object", "set", "Echo").unwrap();
    let r = rt.dispatch_signal("set", "Object", Payload::Opaque(7));
    assert_eq!(r, Ok(DispatchValue::Num(0)));
    assert_eq!(rt.metrics().errors, 1);
}

#[test]
fn second_registration_wins() {
    let mut rt: WasmRuntime<TestCb> = WasmRuntime::new(objects(), 8);
    let first = TestCb::new(1);
    let second = TestCb::new(2);
    rt.register_js_handler("Object", "call", first.clone()).unwrap();
    rt.register_js_handler("Object", "call", second.clone()).unwrap();
    let r = rt.dispatch_signal("call", "Object", Payload::Bytes(vec![]));
    assert_eq!(r, Ok(DispatchValue::Host(2)));
    assert_eq!(first.frame_count(), 0);
    assert_eq!(second.frame_count(), 1);
}

#[test]
fn builtin_overwrites_external() {
    let mut rt: WasmRuntime<TestCb> = WasmRuntime::new(objects(), 8);
    let cb = TestCb::new(1);
    rt.register_js_handler("Object", "set", cb.clone()).unwrap();
    rt.register_builtin("Object", "set", "Echo").unwrap();
    let r = rt.dispatch_signal("set", "Object", Payload::Bytes(vec![9, 0, 0, 0]));
    assert_eq!(r, Ok(DispatchValue::Num(9)));
    assert_eq!(cb.frame_count(), 0);
}

#[test]
fn subscriber_notified_exactly_once_on_degraded_dispatch() {
    let mut rt: WasmRuntime<TestCb> = WasmRuntime::new(objects(), 8);
    let sub = TestCb::new(10);
    rt.subscribe(ActionKey::Name("get".to_string()), sub.clone()).unwrap();
    let r = rt.dispatch_signal("get", "Object", Payload::Bytes(vec![]));
    assert_eq!(r, Ok(DispatchValue::Undefined));
    let frames = sub.frames.borrow();
    assert_eq!(frames.len(), 1);
    let (header, object) = &frames[0];
    assert_eq!(header_action_id(header[0]), 1);
    assert_eq!(*header, [0x81, 0xA0, 60]);
    assert_eq!(object, "Object");
}

#[test]
fn subscriber_notified_exactly_once_on_successful_dispatch() {
    let mut rt: WasmRuntime<TestCb> = WasmRuntime::new(objects(), 8);
    rt.register_builtin("Object", "get", "Echo").unwrap();
    let sub = TestCb::new(10);
    rt.subscribe(ActionKey::Name("get".to_string()), sub.clone()).unwrap();
    let r = rt.dispatch_signal("get", "Object", Payload::Bytes(vec![1, 0, 0, 0]));
    assert_eq!(r, Ok(DispatchValue::Num(1)));
    let frames = sub.frames.borrow();
    assert_eq!(frames.len(), 1);
    let (header, _) = &frames[0];
    assert_eq!(header_action_id(header[0]), 1);
    assert_eq!(*header, [0x81, 0xA0, 0]);
}

#[test]
fn unknown_action_leaves_metrics_untouched() {
    let mut rt: WasmRuntime<TestCb> = WasmRuntime::new(objects(), 8);
    let before = rt.metrics();
    let r = rt.dispatch_signal("frobnicate", "Object", Payload::Bytes(vec![1, 2, 3, 4]));
    assert_eq!(r, Err(SpliceError::UnknownAction));
    assert_eq!(rt.metrics(), before);
    assert_eq!(rt.register_builtin("Object", "nope", "Echo"), Err(SpliceError::UnknownAction));
    assert_eq!(
        rt.subscribe(ActionKey::Name("nope".to_string()), TestCb::new(1)),
        Err(SpliceError::UnknownAction)
    );
    assert_eq!(rt.emit_signal(ActionKey::Name("nope".to_string()), &0), Err(SpliceError::UnknownAction));
    assert_eq!(rt.metrics(), before);
}

#[test]
fn unknown_object_type_is_refused() {
    let mut rt: WasmRuntime<TestCb> = WasmRuntime::new(objects(), 8);
    let r = rt.dispatch_signal("get", "Widget", Payload::Bytes(vec![]));
    assert_eq!(r, Err(SpliceError::UnknownObjectType));
    assert_eq!(rt.metrics().frames, 0);
    assert_eq!(
        rt.register_builtin("Widget", "get", "Echo"),
        Err(SpliceError::UnknownObjectType)
    );
    assert_eq!(
        rt.register_js_handler("Widget", "get", TestCb::new(1)),
        Err(SpliceError::UnknownObjectType)
    );
}

#[test]
fn unsupported_builtin_kind_is_refused() {
    let mut rt: WasmRuntime<TestCb> = WasmRuntime::new(objects(), 8);
    assert_eq!(
        rt.register_builtin("Object", "get", "Logger"),
        Err(SpliceError::UnsupportedBuiltinKind)
    );
    let r = rt.dispatch_signal("get", "Object", Payload::Bytes(vec![1, 2, 3, 4]));
    assert_eq!(r, Ok(DispatchValue::Undefined));
    assert_eq!(rt.metrics().errors, 1);
}

#[test]
fn invalid_action_key_is_refused() {
    let mut rt: WasmRuntime<TestCb> = WasmRuntime::new(objects(), 8);
    assert_eq!(
        rt.subscribe(ActionKey::Other, TestCb::new(1)),
        Err(SpliceError::InvalidActionKey)
    );
    assert_eq!(rt.emit_signal(ActionKey::Other, &0), Err(SpliceError::InvalidActionKey));
}

#[test]
fn handler_failure_propagates_and_counts() {
    let mut rt: WasmRuntime<TestCb> = WasmRuntime::new(objects(), 8);
    rt.register_js_handler("Object", "delete", TestCb::failing(5)).unwrap();
    let r = rt.dispatch_signal("delete", "Object", Payload::Bytes(vec![]));
    assert_eq!(r, Err(SpliceError::HandlerInvocationFailed(-5)));
    let m = rt.metrics();
    assert_eq!(m.frames, 1);
    assert_eq!(m.dispatched, 1);
    assert_eq!(m.errors, 1);
}

#[test]
fn failing_handler_still_notifies_subscribers_with_failure_header() {
    let mut rt: WasmRuntime<TestCb> = WasmRuntime::new(objects(), 8);
    rt.register_js_handler("Object", "observe", TestCb::failing(5)).unwrap();
    let sub = TestCb::new(9);
    rt.subscribe(ActionKey::Id(7), sub.clone()).unwrap();
    let r = rt.dispatch_signal("observe", "Object", Payload::Bytes(vec![]));
    assert_eq!(r, Err(SpliceError::HandlerInvocationFailed(-5)));
    let frames = sub.frames.borrow();
    assert_eq!(frames.len(), 1);
    assert_eq!(frames[0].0, [0x80 | 7, 0xA0, 60]);
}

#[test]
fn fallback_handles_empty_cell() {
    let mut rt: WasmRuntime<TestCb> = WasmRuntime::new(objects(), 8);
    let fb = TestCb::new(42);
    rt.set_fallback(Some(fb.clone()));
    let r = rt.dispatch_signal("transform", "Array", Payload::Bytes(vec![]));
    assert_eq!(r, Ok(DispatchValue::Host(42)));
    assert_eq!(fb.frame_count(), 1);
    assert_eq!(rt.metrics().errors, 0);
}

#[test]
fn fallback_failure_propagates() {
    let mut rt: WasmRuntime<TestCb> = WasmRuntime::new(objects(), 8);
    rt.set_fallback(Some(TestCb::failing(3)));
    let r = rt.dispatch_signal("clone", "Array", Payload::Bytes(vec![]));
    assert_eq!(r, Err(SpliceError::HandlerInvocationFailed(-3)));
    assert_eq!(rt.metrics().errors, 1);
}

#[test]
fn fallback_not_used_when_cell_filled() {
    let mut rt: WasmRuntime<TestCb> = WasmRuntime::new(objects(), 8);
    let fb = TestCb::new(42);
    rt.set_fallback(Some(fb.clone()));
    rt.register_builtin("Object", "set", "Echo").unwrap();
    let r = rt.dispatch_signal("set", "Object", Payload::Bytes(vec![8, 0, 0, 0]));
    assert_eq!(r, Ok(DispatchValue::Num(8)));
    assert_eq!(fb.frame_count(), 0);
}

#[test]
fn metrics_snapshot_is_idempotent() {
    let mut rt: WasmRuntime<TestCb> = WasmRuntime::new(objects(), 8);
    rt.dispatch_signal("get", "Object", Payload::Bytes(vec![])).unwrap();
    let m1 = rt.metrics();
    let m2 = rt.metrics();
    assert_eq!(m1, m2);
}

#[test]
fn emit_signal_reaches_numeric_subscribers() {
    let mut rt: WasmRuntime<TestCb> = WasmRuntime::new(objects(), 8);
    let sub = TestCb::new(1);
    rt.subscribe(ActionKey::Id(3), sub.clone()).unwrap();
    rt.emit_signal(ActionKey::Id(3), &99).unwrap();
    rt.emit_signal(ActionKey::Id(4), &100).unwrap();
    assert_eq!(*sub.data.borrow(), vec![99]);
}

#[test]
fn emit_signal_swallows_subscriber_failures() {
    let mut rt: WasmRuntime<TestCb> = WasmRuntime::new(objects(), 8);
    let bad = TestCb::failing(1);
    let good = TestCb::new(2);
    rt.subscribe(ActionKey::Name("call".to_string()), bad.clone()).unwrap();
    rt.subscribe(ActionKey::Name("call".to_string()), good.clone()).unwrap();
    assert_eq!(rt.emit_signal(ActionKey::Name("call".to_string()), &7), Ok(()));
    assert_eq!(*bad.data.borrow(), vec![7]);
    assert_eq!(*good.data.borrow(), vec![7]);
}

#[test]
fn on_signal_and_emit_by_name_round_trip() {
    let mut rt: WasmRuntime<TestCb> = WasmRuntime::new(objects(), 8);
    let sub = TestCb::new(1);
    rt.on_signal("define", sub.clone()).unwrap();
    rt.emit_signal_by_name("define", &5).unwrap();
    assert_eq!(*sub.data.borrow(), vec![5]);
    assert_eq!(rt.emit_signal_by_name("bogus", &5), Err(SpliceError::UnknownAction));
}

#[test]
fn default_object_list_is_object_and_array() {
    let mut rt: WasmRuntime<TestCb> = WasmRuntime::new(None, 8);
    assert_eq!(rt.register_builtin("Object", "get", "Echo"), Ok(()));
    assert_eq!(rt.register_builtin("Array", "get", "Echo"), Ok(()));
    assert_eq!(
        rt.register_builtin("Map", "get", "Echo"),
        Err(SpliceError::UnknownObjectType)
    );
}

#[test]
fn duplicate_object_name_still_resolves() {
    let mut rt: WasmRuntime<TestCb> = WasmRuntime::new(
        Some(vec!["A".to_string(), "B".to_string(), "A".to_string()]),
        8,
    );
    rt.register_builtin("A", "set", "Echo").unwrap();
    let r = rt.dispatch_signal("set", "A", Payload::Bytes(vec![2, 0, 0, 0]));
    assert_eq!(r, Ok(DispatchValue::Num(2)));
}

#[test]
fn get_summary_reports_counts() {
    let mut rt: WasmRuntime<TestCb> = WasmRuntime::new(objects(), 8);
    rt.register_builtin("Object", "set", "Echo").unwrap();
    rt.dispatch_signal("set", "Object", Payload::Bytes(vec![1, 2, 3, 4])).unwrap();
    rt.dispatch_signal("get", "Object", Payload::Bytes(vec![])).unwrap();
    assert_eq!(
        rt.get_summary(),
        "1 handlers, 0 signals, 2 frames, 2 dispatched, 1 errors"
    );
}

#[test]
fn use_logger_does_not_change_behaviour() {
    let mut rt: WasmRuntime<TestCb> = WasmRuntime::new(objects(), 8);
    rt.use_logger(Some("info".to_string()));
    rt.register_builtin("Object", "set", "Echo").unwrap();
    let r = rt.dispatch_signal("set", "Object", Payload::Bytes(vec![1, 0, 0, 0]));
    assert_eq!(r, Ok(DispatchValue::Num(1)));
}

#[test]
fn end_to_end_echo_dispatch() {
    let mut rt: WasmRuntime<TestCb> = WasmRuntime::new(objects(), 8);
    rt.register_builtin("Object", "set", "Echo").unwrap();
    let sub = TestCb::new(0);
    rt.subscribe(ActionKey::Name("set".to_string()), sub.clone()).unwrap();
    let r = rt.dispatch_signal("set", "Object", Payload::Bytes(vec![5, 0, 0, 0]));
    assert_eq!(r, Ok(DispatchValue::Num(5)));
    let frames = sub.frames.borrow();
    assert_eq!(frames.len(), 1);
    assert_eq!(frames[0].0, [0x82, 0xA0, 0x00]);
    let m = rt.metrics();
    assert_eq!(m.frames, 1);
    assert_eq!(m.dispatched, 1);
    assert_eq!(m.errors, 0);
}

#[test]
fn over_bound_action_still_reports_resolution_errors() {
    // A table too small for action id 8 ("define"): resolution failures are
    // still reported before the table would ever be indexed.
    let mut rt: WasmRuntime<TestCb> = WasmRuntime::new(objects(), 1);
    let r = rt.dispatch_signal("define", "Widget", Payload::Bytes(vec![]));
    assert_eq!(r, Err(SpliceError::UnknownObjectType));
    assert_eq!(rt.metrics().frames, 0);
    assert_eq!(
        rt.register_builtin("Widget", "define", "Echo"),
        Err(SpliceError::UnknownObjectType)
    );
    assert_eq!(
        rt.register_builtin("Object", "define", "Logger"),
        Err(SpliceError::UnsupportedBuiltinKind)
    );
    assert_eq!(
        rt.register_js_handler("Widget", "define", TestCb::new(1)),
        Err(SpliceError::UnknownObjectType)
    );
}
