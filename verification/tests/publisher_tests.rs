use trace_sinks::encode::address_hex;
use trace_sinks::encode::u256_text;
use trace_sinks::payload::MqStreamingPayload;
use trace_sinks::sink::Tracer;
use trace_sinks::streaming_tracer::BootstrapStep;
use trace_sinks::streaming_tracer::ConnState;
use trace_sinks::streaming_tracer::MqStreamingTracer;
use trace_sinks::streaming_tracer::exchange_name;
use trace_sinks::types::ActionParams;
use trace_sinks::types::Address;
use trace_sinks::types::CallType;
use trace_sinks::types::RewardType;
use trace_sinks::types::U256;
use trace_sinks::types::VmError;

fn addr(b: u8) -> Address {
    Address::new([b; 20])
}

fn sample_params(sender: u8, recipient: u8) -> ActionParams {
    ActionParams {
        code_address: addr(0xAA),
        sender: addr(sender),
        address: addr(recipient),
        origin: addr(0x01),
        gas: U256::from_u64(100_000),
        gas_price: U256::from_u64(5),
        value: U256::from_u64(7),
        data: Some(vec![1, 2, 3]),
        call_type: CallType::Call,
    }
}

fn ready_publisher() -> MqStreamingTracer {
    let mut t = MqStreamingTracer::create("amqp://127.0.0.1:5672/%2f".to_string());
    t.step_ok();
    t.step_ok();
    t.step_ok();
    assert!(t.is_ready());
    t
}

#[test]
fn bootstrap_walks_every_state_to_ready() {
    let mut t = MqStreamingTracer::create("amqp://127.0.0.1:5672/%2f".to_string());
    assert_eq!(t.state, ConnState::Connecting);
    assert_eq!(t.next_step(), Some(BootstrapStep::EstablishChannel));
    t.step_ok();
    assert_eq!(t.state, ConnState::ChannelOpen);
    assert_eq!(t.next_step(), Some(BootstrapStep::DeclareExchange));
    t.step_ok();
    assert_eq!(t.state, ConnState::ExchangeDeclared);
    assert_eq!(t.next_step(), Some(BootstrapStep::PublishPing));
    t.step_ok();
    assert_eq!(t.state, ConnState::Ready);
    assert_eq!(t.next_step(), None);
}

#[test]
fn bootstrap_failure_at_any_step_disconnects() {
    for failing_step in 0..3 {
        let mut t = MqStreamingTracer::create("amqp://10.255.255.1:5672/%2f".to_string());
        for _ in 0..failing_step {
            t.step_ok();
        }
        t.step_failed();
        assert_eq!(t.state, ConnState::Disconnected);
        assert_eq!(t.next_step(), None);
        assert!(!t.is_ready());
    }
}

#[test]
fn disconnected_publisher_skips_publishes_with_diagnostic() {
    let mut t = MqStreamingTracer::create("amqp://10.255.255.1:5672/%2f".to_string());
    t.step_failed();
    let p = sample_params(0x11, 0x22);
    t.prepare_trace_call(&p, 0, false);
    t.done_trace_call(U256::from_u64(21_000), &[]);
    t.trace_reward(addr(0xEF), U256::from_u64(3), RewardType::Block);
    assert_eq!(t.state, ConnState::Disconnected);
    assert!(t.take_outgoing().is_empty());
    assert_eq!(t.skipped_publishes, 2);
    assert_eq!(t.buffer_misses, 0);
}

#[test]
fn one_enter_one_exit_emits_exactly_one_payload() {
    let mut t = ready_publisher();
    let p = sample_params(0x11, 0x22);
    t.prepare_trace_call(&p, 0, false);
    t.done_trace_call(U256::from_u64(21_000), &[]);
    let out = t.take_outgoing();
    assert_eq!(out.len(), 1);
    let payload = &out[0];
    assert_eq!(payload.from, addr(0x11));
    assert_eq!(payload.to, addr(0x22));
    assert_eq!(payload.gas_used, U256::from_u64(21_000));
    assert_eq!(payload.output_data, Some(vec![]));
    assert_eq!(payload.input_data, Some(vec![1, 2, 3]));
    let text = payload.to_string();
    assert!(text.contains("\"input_data\":\"input_data\""));
    assert!(text.contains("\"output_data\":\"output_data\""));
    assert!(t.take_outgoing().is_empty());
}

#[test]
fn nested_enter_overwrites_buffered_create_parameters() {
    // The enter-event buffer is a single slot, not a stack: the nested
    // call's parameters overwrite the creation frame's, so the create's
    // exit publishes the nested call's parameters. This documents the
    // publisher's known depth-unaware buffering.
    let mut t = ready_publisher();
    let create_params = sample_params(0x11, 0x22);
    let nested_call_params = sample_params(0x33, 0x44);
    t.prepare_trace_create(&create_params);
    t.prepare_trace_call(&nested_call_params, 1, false);
    t.done_trace_create(U256::from_u64(500), &[], addr(0x55));
    let out = t.take_outgoing();
    assert_eq!(out.len(), 1);
    let payload = &out[0];
    assert_eq!(payload.from, addr(0x33));
    assert_eq!(payload.to, addr(0x44));
    assert_eq!(payload.code_address, addr(0x55));
    assert_eq!(payload.gas_used, U256::from_u64(500));
}

#[test]
fn exit_without_buffered_enter_is_dropped_and_counted() {
    let mut t = ready_publisher();
    t.done_trace_call(U256::from_u64(21_000), &[]);
    assert!(t.take_outgoing().is_empty());
    assert_eq!(t.buffer_misses, 1);
}

#[test]
fn failed_exit_publishes_buffered_parameters_with_default_outcome() {
    let mut t = ready_publisher();
    let p = sample_params(0x11, 0x22);
    t.prepare_trace_call(&p, 0, false);
    t.done_trace_failed(&VmError::OutOfGas);
    let out = t.take_outgoing();
    assert_eq!(out.len(), 1);
    assert_eq!(out[0].from, addr(0x11));
    assert_eq!(out[0].gas_used, U256::zero());
    assert_eq!(out[0].output_data, None);
}

#[test]
fn self_destruct_payload_is_independent_of_buffered_state() {
    let mut t = ready_publisher();
    let p = sample_params(0x11, 0x22);
    t.prepare_trace_call(&p, 0, false);
    t.trace_suicide(addr(0xA1), U256::from_u64(100), addr(0xB2));
    let out = t.take_outgoing();
    assert_eq!(out.len(), 1);
    let payload = &out[0];
    assert_eq!(payload.code_address, addr(0xA1));
    assert_eq!(payload.to, addr(0xB2));
    assert_eq!(payload.value, U256::from_u64(100));
    assert_eq!(payload.from, Address::zero());
    // The buffer is untouched: the paired exit still publishes the call.
    t.done_trace_call(U256::from_u64(1), &[]);
    assert_eq!(t.take_outgoing().len(), 1);
    assert_eq!(t.buffer_misses, 0);
}

#[test]
fn reward_payload_carries_beneficiary_value_and_kind() {
    let mut t = ready_publisher();
    t.trace_reward(addr(0xEF), U256::from_u64(3), RewardType::Uncle);
    let out = t.take_outgoing();
    assert_eq!(out.len(), 1);
    assert_eq!(out[0].to, addr(0xEF));
    assert_eq!(out[0].value, U256::from_u64(3));
    assert_eq!(out[0].reward_type, RewardType::Uncle);
}

#[test]
fn enter_overwrites_previous_buffered_parameters() {
    let mut t = ready_publisher();
    t.prepare_trace_call(&sample_params(0x11, 0x22), 0, false);
    t.prepare_trace_call(&sample_params(0x33, 0x44), 0, false);
    t.done_trace_call(U256::from_u64(9), &[5]);
    let out = t.take_outgoing();
    assert_eq!(out.len(), 1);
    assert_eq!(out[0].from, addr(0x33));
}

#[test]
fn publisher_drain_contributes_no_records() {
    let mut t = ready_publisher();
    t.prepare_trace_call(&sample_params(0x11, 0x22), 0, false);
    t.done_trace_call(U256::from_u64(1), &[]);
    let records = t.drain();
    assert!(records.is_empty());
}

#[test]
fn exchange_name_is_fixed() {
    assert_eq!(exchange_name(), "MqStreamingTracer");
}

#[test]
fn default_payload_serializes_to_exact_wire_text() {
    let text = MqStreamingPayload::default().to_string();
    let zeros = "0x0000000000000000000000000000000000000000";
    let expected = format!(
        "{{\"call_type\":\"None\",\"code_address\":\"{z}\",\"from\":\"{z}\",\"gas\":\"0\",\"gas_price\":\"0\",\"gas_used\":\"0\",\"input_data\":\"input_data\",\"origin\":\"{z}\",\"output_data\":\"output_data\",\"reward_type\":\"EmptyStep\",\"to\":\"{z}\",\"value\":\"0\"}}",
        z = zeros
    );
    assert_eq!(text, expected);
}

#[test]
fn call_payload_serializes_decimal_and_hex_fields() {
    let mut t = ready_publisher();
    t.prepare_trace_call(&sample_params(0x12, 0x34), 0, false);
    t.done_trace_call(U256::from_u64(21_000), &[]);
    let out = t.take_outgoing();
    let text = out[0].to_string();
    assert!(text.contains("\"gas_used\":\"21000\""));
    assert!(text.contains("\"gas\":\"100000\""));
    assert!(text.contains("\"from\":\"0x1212121212121212121212121212121212121212\""));
    assert!(text.contains("\"call_type\":\"Call\""));
}

#[test]
fn address_hex_writes_prefix_and_lowercase_digits() {
    let mut bytes = [0u8; 20];
    bytes[0] = 0xDE;
    bytes[1] = 0xAD;
    bytes[19] = 0x0F;
    let text = address_hex(&Address::new(bytes));
    assert_eq!(text, "0xdead00000000000000000000000000000000000f");
}

#[test]
fn u256_text_writes_plain_decimal() {
    assert_eq!(u256_text(&U256::zero()), "0");
    assert_eq!(u256_text(&U256::from_u64(21_000)), "21000");
    let one_word_high = U256 { w0: 0, w1: 1, w2: 0, w3: 0 };
    assert_eq!(u256_text(&one_word_high), "18446744073709551616");
}

#[test]
fn default_publisher_is_permanently_inert() {
    let mut t = MqStreamingTracer::default();
    assert_eq!(t.state, ConnState::Disconnected);
    assert_eq!(t.next_step(), None);
    t.prepare_trace_call(&sample_params(0x11, 0x22), 0, false);
    t.done_trace_call(U256::from_u64(21_000), &[]);
    assert!(t.take_outgoing().is_empty());
    assert_eq!(t.skipped_publishes, 1);
}
