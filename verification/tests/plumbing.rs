use brc20::channel::{BroadcastBuffer, FanoutQueue};
use brc20::shutdown::{LoopDecision, ShutdownSignal};
use brc20::types::{BitcoinClient, BitcoinRpcResponse, ChainState};

#[test]
fn shutdown_signal_starts_armed_and_loops_proceed() {
    let signal = ShutdownSignal::new();
    assert!(!signal.is_triggered());
    assert!(matches!(signal.next_iteration(), LoopDecision::Proceed));
}

#[test]
fn shutdown_trigger_stops_every_loop() {
    let mut signal = ShutdownSignal::new();
    signal.trigger();
    assert!(signal.is_triggered());
    assert!(matches!(signal.next_iteration(), LoopDecision::Exit));
}

#[test]
fn shutdown_trigger_twice_is_safe() {
    let mut signal = ShutdownSignal::new();
    signal.trigger();
    signal.trigger();
    assert!(signal.is_triggered());
    assert!(matches!(signal.next_iteration(), LoopDecision::Exit));
}

#[test]
fn broadcast_buffer_delivers_in_publish_order() {
    let mut buf: BroadcastBuffer<u64> = BroadcastBuffer::new(5);
    buf.publish(1);
    buf.publish(2);
    buf.publish(3);
    assert_eq!(buf.len(), 3);
    assert_eq!(buf.recv(), Some(1));
    assert_eq!(buf.recv(), Some(2));
    assert_eq!(buf.recv(), Some(3));
    assert_eq!(buf.recv(), None);
}

#[test]
fn broadcast_buffer_overflow_drops_oldest() {
    let mut buf: BroadcastBuffer<u64> = BroadcastBuffer::new(2);
    buf.publish(10);
    buf.publish(11);
    buf.publish(12);
    assert_eq!(buf.len(), 2);
    assert_eq!(buf.recv(), Some(11));
    assert_eq!(buf.recv(), Some(12));
    assert_eq!(buf.recv(), None);
}

#[test]
fn broadcast_buffer_of_capacity_one_keeps_only_the_newest() {
    let mut buf: BroadcastBuffer<u64> = BroadcastBuffer::new(1);
    buf.publish(1);
    buf.publish(2);
    assert_eq!(buf.len(), 1);
    assert_eq!(buf.recv(), Some(2));
    assert_eq!(buf.recv(), None);
}

#[test]
fn fanout_queue_never_drops() {
    let mut queue: FanoutQueue<u64> = FanoutQueue::new();
    for v in 0..100u64 {
        queue.push(v);
    }
    assert_eq!(queue.len(), 100);
    for v in 0..100u64 {
        assert_eq!(queue.pop_front(), Some(v));
    }
    assert_eq!(queue.pop_front(), None);
}

#[test]
fn client_keeps_the_rpc_url() {
    let client = BitcoinClient::new("http://localhost:8332");
    assert_eq!(client.rpc_url, "http://localhost:8332");
    let copy = client.clone();
    assert_eq!(copy.rpc_url, "http://localhost:8332");
}

#[test]
fn rpc_response_unwraps_to_its_payload() {
    let response = BitcoinRpcResponse {
        result: ChainState { height: 840_000, verification_progress_ppm: 1_000_000 },
        error: None,
        id: Some(String::from("1")),
    };
    let state = response.into_result();
    assert_eq!(state.height, 840_000);
}
