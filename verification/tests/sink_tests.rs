use trace_sinks::payload::MqStreamingPayload;
use trace_sinks::proxy_tracer::ProxyTracer;
use trace_sinks::sink::AccumulatingTracer;
use trace_sinks::sink::FlatTrace;
use trace_sinks::sink::Tracer;
use trace_sinks::streaming_tracer::NoopStreamingTracer;
use trace_sinks::types::ActionParams;
use trace_sinks::types::Address;
use trace_sinks::types::CallType;
use trace_sinks::types::RewardType;
use trace_sinks::types::U256;
use trace_sinks::types::VmError;

fn addr(b: u8) -> Address {
    Address::new([b; 20])
}

fn sample_params(sender: u8, recipient: u8) -> ActionParams {
    ActionParams {
        code_address: addr(0xAA),
        sender: addr(sender),
        address: addr(recipient),
        origin: addr(0x01),
        gas: U256::from_u64(100_000),
        gas_price: U256::from_u64(5),
        value: U256::from_u64(7),
        data: Some(vec![1, 2, 3]),
        call_type: CallType::Call,
    }
}

fn drive_all_events<T: Tracer>(t: &mut T) {
    let p1 = sample_params(0x11, 0x22);
    let p2 = sample_params(0x33, 0x44);
    let p3 = sample_params(0x55, 0x66);
    t.prepare_trace_call(&p1, 0, false);
    t.prepare_trace_create(&p2);
    t.done_trace_create(U256::from_u64(500), &[0xFE], addr(0x77));
    t.done_trace_call(U256::from_u64(21_000), &[]);
    t.prepare_trace_call(&p3, 1, true);
    t.done_trace_failed(&VmError::Reverted);
    t.trace_suicide(addr(0xAB), U256::from_u64(100), addr(0xCD));
    t.trace_reward(addr(0xEF), U256::from_u64(3), RewardType::Uncle);
}

#[test]
fn composite_relays_every_event_to_every_member_in_order() {
    let mut composite = ProxyTracer::create_with(AccumulatingTracer::new(), AccumulatingTracer::new());
    drive_all_events(&mut composite);
    let ProxyTracer { inner_tracer, streaming_tracer } = composite;
    let a = inner_tracer.drain();
    let b = streaming_tracer.drain();
    assert_eq!(a.len(), 8);
    assert_eq!(a, b);
}

#[test]
fn composite_relays_identical_argument_values() {
    let mut composite = ProxyTracer::create_with(AccumulatingTracer::new(), AccumulatingTracer::new());
    drive_all_events(&mut composite);
    let records = composite.drain();
    match &records[0] {
        FlatTrace::EnterCall { params, depth, is_builtin } => {
            assert_eq!(*params, sample_params(0x11, 0x22));
            assert_eq!(*depth, 0);
            assert!(!*is_builtin);
        },
        other => panic!("expected an enter-call record, got {:?}", other),
    }
    match &records[2] {
        FlatTrace::ExitCreate { gas_used, code, address } => {
            assert_eq!(*gas_used, U256::from_u64(500));
            assert_eq!(code.as_slice(), &[0xFE]);
            assert_eq!(*address, addr(0x77));
        },
        other => panic!("expected an exit-create record, got {:?}", other),
    }
    match &records[6] {
        FlatTrace::SelfDestruct { address, balance, refund_address } => {
            assert_eq!(*address, addr(0xAB));
            assert_eq!(*balance, U256::from_u64(100));
            assert_eq!(*refund_address, addr(0xCD));
        },
        other => panic!("expected a self-destruct record, got {:?}", other),
    }
    match &records[7] {
        FlatTrace::Reward { author, value, reward_type } => {
            assert_eq!(*author, addr(0xEF));
            assert_eq!(*value, U256::from_u64(3));
            assert_eq!(*reward_type, RewardType::Uncle);
        },
        other => panic!("expected a reward record, got {:?}", other),
    }
}

#[test]
fn composite_drain_surfaces_primary_member_records_only() {
    let mut composite = ProxyTracer::create(AccumulatingTracer::new());
    let p = sample_params(0x10, 0x20);
    composite.prepare_trace_call(&p, 0, false);
    composite.done_trace_call(U256::from_u64(1), &[9]);
    let records = composite.drain();
    assert_eq!(records.len(), 2);
}

#[test]
fn composite_over_noop_members_drains_empty() {
    let mut composite =
        ProxyTracer::create_with(NoopStreamingTracer::default(), NoopStreamingTracer::default());
    drive_all_events(&mut composite);
    let records = composite.drain();
    assert!(records.is_empty());
}

#[test]
fn accumulator_records_events_in_arrival_order() {
    let mut acc = AccumulatingTracer::new();
    drive_all_events(&mut acc);
    let records = acc.drain();
    assert_eq!(records.len(), 8);
    assert!(matches!(records[0], FlatTrace::EnterCall { .. }));
    assert!(matches!(records[1], FlatTrace::EnterCreate { .. }));
    assert!(matches!(records[2], FlatTrace::ExitCreate { .. }));
    assert!(matches!(records[3], FlatTrace::ExitCall { .. }));
    assert!(matches!(records[4], FlatTrace::EnterCall { .. }));
    assert!(matches!(records[5], FlatTrace::ExitFailed { error: VmError::Reverted }));
    assert!(matches!(records[6], FlatTrace::SelfDestruct { .. }));
    assert!(matches!(records[7], FlatTrace::Reward { .. }));
}

#[test]
fn noop_sink_drains_empty() {
    let mut noop = NoopStreamingTracer::default();
    drive_all_events(&mut noop);
    let records = noop.drain();
    assert!(records.is_empty());
}

#[test]
fn payload_default_is_all_zero() {
    let p = MqStreamingPayload::default();
    assert_eq!(p.code_address, Address::zero());
    assert_eq!(p.from, Address::zero());
    assert_eq!(p.to, Address::zero());
    assert_eq!(p.origin, Address::zero());
    assert_eq!(p.gas, U256::zero());
    assert_eq!(p.gas_price, U256::zero());
    assert_eq!(p.gas_used, U256::zero());
    assert_eq!(p.value, U256::zero());
    assert_eq!(p.input_data, None);
    assert_eq!(p.output_data, None);
    assert_eq!(p.call_type, CallType::NoCall);
    assert_eq!(p.reward_type, RewardType::EmptyStep);
}

#[test]
fn payload_from_params_maps_each_field() {
    let params = sample_params(0x11, 0x22);
    let p = MqStreamingPayload::from(params);
    assert_eq!(p.code_address, addr(0xAA));
    assert_eq!(p.from, addr(0x11));
    assert_eq!(p.to, addr(0x22));
    assert_eq!(p.origin, addr(0x01));
    assert_eq!(p.gas, U256::from_u64(100_000));
    assert_eq!(p.gas_price, U256::from_u64(5));
    assert_eq!(p.gas_used, U256::zero());
    assert_eq!(p.value, U256::from_u64(7));
    assert_eq!(p.input_data, Some(vec![1, 2, 3]));
    assert_eq!(p.output_data, None);
    assert_eq!(p.call_type, CallType::Call);
    assert_eq!(p.reward_type, RewardType::EmptyStep);
}

#[test]
fn default_composite_accumulates_into_its_primary_member() {
    let mut composite = <ProxyTracer<AccumulatingTracer, NoopStreamingTracer>>::default();
    let p = sample_params(0x10, 0x20);
    composite.prepare_trace_call(&p, 0, false);
    let records = composite.drain();
    assert_eq!(records.len(), 1);
}
