use remote_desktop_core::performance::{
    BufferPool, FrameBuffer, FrameBufferManager, FrameFormat, InputEventEntry, InputEventType, InputOptimizer,
    TransmissionOptimizer,
};

fn frame(i: u64) -> FrameBuffer {
    FrameBuffer { id: i, timestamp: i, data: vec![0u8; 1024], width: 1920, height: 1080, format: FrameFormat::RGBA }
}

fn entry(t: InputEventType, ts: u64) -> InputEventEntry {
    InputEventEntry { event_type: t, timestamp: ts, priority: t.default_priority(), data: vec![] }
}

#[test]
fn test_buffer_pool() {
    let mut pool = BufferPool::new(1024, 10);
    let buf1 = pool.acquire();
    let _buf2 = pool.acquire();
    let (allocated, reused) = pool.stats();
    assert_eq!(allocated, 2);
    assert_eq!(reused, 0);
    pool.release(buf1);
    let _buf3 = pool.acquire();
    let (allocated, reused) = pool.stats();
    assert_eq!(allocated, 2);
    assert_eq!(reused, 1);
}

#[test]
fn test_frame_buffer_manager() {
    let mut manager = FrameBufferManager::new(3);
    for i in 0..5 {
        manager.push_frame(frame(i));
    }
    let (count, bytes, dropped) = manager.stats();
    assert_eq!(count, 3);
    assert_eq!(dropped, 2);
    assert_eq!(bytes, 3 * 1024);
    assert_eq!(manager.pop_frame().unwrap().id, 2);
}

#[test]
fn test_transmission_optimizer() {
    let mut optimizer = TransmissionOptimizer::new(500_000, 10_000_000, 4_000_000);
    for _ in 0..10 {
        optimizer.record_latency(30);
        optimizer.record_bandwidth(8_000_000);
    }
    let bitrate = optimizer.adapt_bitrate();
    assert!((500_000..=10_000_000).contains(&bitrate));
    for _ in 0..10 {
        optimizer.record_latency(200);
        optimizer.record_bandwidth(1_000_000);
    }
    let bitrate = optimizer.adapt_bitrate();
    assert!(bitrate < 4_000_000);
}

#[test]
fn test_input_optimizer() {
    let mut optimizer = InputOptimizer::new(100, 16, 0);
    optimizer.queue_event(InputEventEntry {
        event_type: InputEventType::MouseMove,
        timestamp: 1,
        priority: InputEventType::MouseMove.default_priority(),
        data: vec![1, 2, 3, 4],
    });
    optimizer.queue_event(InputEventEntry {
        event_type: InputEventType::KeyDown,
        timestamp: 2,
        priority: InputEventType::KeyDown.default_priority(),
        data: vec![5, 6],
    });
    let batch = optimizer.get_batch(20);
    assert_eq!(batch.len(), 2);
    assert_eq!(batch[0].event_type, InputEventType::KeyDown);
}

#[test]
fn test_input_latency_requirement() {
    let mut optimizer = InputOptimizer::new(100, 16, 0);
    for _ in 0..10 {
        optimizer.record_latency(50);
    }
    assert!(optimizer.meets_latency_requirement());
    for _ in 0..20 {
        optimizer.record_latency(150);
    }
    assert!(!optimizer.meets_latency_requirement());
}

#[test]
fn batch_waits_for_interval_and_coalesces_moves() {
    let mut optimizer = InputOptimizer::new(100, 16, 100);
    optimizer.queue_event(entry(InputEventType::MouseMove, 101));
    optimizer.queue_event(entry(InputEventType::MouseMove, 102));
    optimizer.queue_event(entry(InputEventType::MouseClick, 103));
    assert!(optimizer.get_batch(110).is_empty());
    let batch = optimizer.get_batch(116);
    assert_eq!(batch.len(), 2);
    assert_eq!(batch[0].event_type, InputEventType::MouseClick);
    assert_eq!(batch[1].event_type, InputEventType::MouseMove);
    assert_eq!(batch[1].timestamp, 102);
    assert!(optimizer.get_batch(117).is_empty());
}

#[test]
fn full_queue_drops_lowest_priority() {
    let mut optimizer = InputOptimizer::new(2, 0, 0);
    optimizer.queue_event(entry(InputEventType::MouseMove, 1));
    optimizer.queue_event(entry(InputEventType::KeyDown, 2));
    optimizer.queue_event(entry(InputEventType::KeyUp, 3));
    let batch = optimizer.get_batch(10);
    assert_eq!(batch.len(), 2);
    assert_eq!(batch[0].event_type, InputEventType::KeyDown);
    assert_eq!(batch[1].event_type, InputEventType::KeyUp);
}

#[test]
fn default_priorities() {
    assert_eq!(InputEventType::KeyDown.default_priority(), 1);
    assert_eq!(InputEventType::KeyUp.default_priority(), 1);
    assert_eq!(InputEventType::MouseClick.default_priority(), 2);
    assert_eq!(InputEventType::KeyPress.default_priority(), 3);
    assert_eq!(InputEventType::MouseScroll.default_priority(), 4);
    assert_eq!(InputEventType::MouseMove.default_priority(), 5);
}

#[test]
fn transmission_steps() {
    let mut t = TransmissionOptimizer::new(1_000, 1_000_000, 500_000);
    assert_eq!(t.adapt_bitrate(), 500_000);
    t.record_latency(120);
    t.record_bandwidth(2_000_000);
    assert_eq!(t.adapt_bitrate(), 450_000);
    let mut u = TransmissionOptimizer::new(1_000, 1_000_000, 500_000);
    u.set_target_bitrate(900_000);
    u.record_latency(10);
    u.record_bandwidth(2_000_000);
    assert_eq!(u.adapt_bitrate(), 550_000);
    assert_eq!(u.get_avg_latency(), 10);
}
