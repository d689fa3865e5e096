use telemetry_collector::collector::channel::CollectorChannel;
use telemetry_collector::collector::worker::{EncoderWorker, WorkerAction, WorkerState};
use telemetry_collector::collector::{CollectorThread, PipelineConfig, DEFAULT_CAPACITY};
use telemetry_collector::messaging::data_types::{DataValue, Encoding, RawDataPoint, Timestamp};
use telemetry_collector::messaging::errors::{CodecError, IoCause, SubmitError};

const T0: Timestamp = Timestamp { seconds: 1_700_000_000, nanos: 42 };

fn pipeline(capacity: usize, encoding: Encoding) -> CollectorThread {
    CollectorThread::with_config(PipelineConfig { capacity, encoding }).unwrap()
}

fn numbered(n: i64) -> RawDataPoint {
    RawDataPoint {
        location: "host1".to_string(),
        path: "seq".to_string(),
        component: format!("item{}", n),
        timestamp: T0,
        value: DataValue::Integer(n),
    }
}

fn decoded(action: WorkerAction) -> RawDataPoint {
    match action {
        WorkerAction::Forward(bytes) => RawDataPoint::from_bytes(&bytes, Encoding::Packed).unwrap(),
        other => panic!("nothing to forward: {:?}", other),
    }
}

#[test]
fn example_scenario() {
    let mut p = pipeline(4, Encoding::Packed);
    let mut handle = p.new_collector(T0).unwrap();
    let load = DataValue::Float(0.42f64.to_bits());
    assert_eq!(handle.collect(&mut p, "host1", "cpu.load", "core0", load.clone()), Ok(()));
    let used = DataValue::Integer(1_048_576);
    assert_eq!(handle.collect(&mut p, "host1", "mem.used", "heap", used.clone()), Ok(()));

    let first = decoded(p.step());
    assert_eq!(
        first,
        RawDataPoint {
            location: "host1".to_string(),
            path: "cpu.load".to_string(),
            component: "core0".to_string(),
            timestamp: T0,
            value: load,
        }
    );
    let second = decoded(p.step());
    assert_eq!(
        second,
        RawDataPoint {
            location: "host1".to_string(),
            path: "mem.used".to_string(),
            component: "heap".to_string(),
            timestamp: T0,
            value: used,
        }
    );
    assert_eq!(p.step(), WorkerAction::Wait);
    assert_eq!(p.state(), WorkerState::Running);

    handle.close(&mut p);
    p.close();
    assert_eq!(p.step(), WorkerAction::Stop);
    assert_eq!(p.state(), WorkerState::Terminated);
}

#[test]
fn backpressure_at_capacity() {
    let mut p = pipeline(4, Encoding::Packed);
    for n in 0..4 {
        assert!(!p.is_full());
        assert_eq!(p.try_submit(numbered(n)), Ok(()));
    }
    assert!(p.is_full());
    assert!(p.must_wait());
    assert_eq!(p.queued(), 4);
    assert_eq!(p.try_submit(numbered(4)), Err(SubmitError::QueueFull));
    assert_eq!(p.queued(), 4);
    for n in 0..4 {
        assert_eq!(decoded(p.step()), numbered(n));
    }
    assert_eq!(p.step(), WorkerAction::Wait);
}

#[test]
fn room_comes_back_when_the_worker_takes_a_record() {
    let mut p = pipeline(1, Encoding::Packed);
    assert_eq!(p.try_submit(numbered(0)), Ok(()));
    assert_eq!(p.try_submit(numbered(1)), Err(SubmitError::QueueFull));
    assert_eq!(decoded(p.step()), numbered(0));
    assert_eq!(p.try_submit(numbered(1)), Ok(()));
    assert_eq!(decoded(p.step()), numbered(1));
}

#[test]
fn reference_configuration() {
    assert_eq!(DEFAULT_CAPACITY, 1000);
    let mut p = CollectorThread::spawn();
    assert_eq!(p.state(), WorkerState::Running);
    assert!(!p.is_closed());
    for n in 0..1000 {
        assert_eq!(p.try_submit(numbered(n)), Ok(()));
    }
    assert_eq!(p.try_submit(numbered(1000)), Err(SubmitError::QueueFull));
    assert_eq!(decoded(p.step()), numbered(0));
}

#[test]
fn zero_capacity_is_refused() {
    let config = PipelineConfig { capacity: 0, encoding: Encoding::Packed };
    assert!(CollectorThread::with_config(config).is_none());
    assert!(CollectorChannel::new(0).is_none());
}

#[test]
fn fifo_per_producer() {
    let mut p = pipeline(8, Encoding::Packed);
    let mut handle = p.new_collector(T0).unwrap();
    for name in ["a", "b", "c"] {
        assert_eq!(handle.collect(&mut p, "host1", "order", name, DataValue::Bool(true)), Ok(()));
    }
    for name in ["a", "b", "c"] {
        assert_eq!(decoded(p.step()).component, name);
    }
}

#[test]
fn fixed_handle_timestamp() {
    let mut p = pipeline(8, Encoding::Packed);
    let now = chrono::Utc::now();
    let made = Timestamp { seconds: now.timestamp(), nanos: now.timestamp_subsec_nanos() };
    assert!(made.is_valid());
    assert!(made.seconds > 1_577_836_800);
    let mut handle = p.new_collector(made).unwrap();
    assert_eq!(handle.timestamp(), made);
    assert_eq!(handle.collect(&mut p, "host1", "t", "first", DataValue::Integer(1)), Ok(()));
    let mut waited = 0u64;
    for i in 0..2_000_000u64 {
        waited = waited.wrapping_add(i * i);
    }
    assert_ne!(waited, 1);
    assert_eq!(handle.collect(&mut p, "host1", "t", "second", DataValue::Integer(2)), Ok(()));
    assert_eq!(handle.timestamp(), made);
    let first = decoded(p.step());
    let second = decoded(p.step());
    assert_eq!(first.timestamp, made);
    assert_eq!(second.timestamp, made);
    assert_eq!(handle.stamp("h", "p", "c", DataValue::Bool(false)).timestamp, made);
}

#[test]
fn graceful_drain() {
    let mut p = pipeline(16, Encoding::Packed);
    let handle = p.new_collector(T0).unwrap();
    let other = handle.duplicate(&mut p).unwrap();
    for n in 0..5 {
        assert_eq!(p.try_submit(numbered(n)), Ok(()));
    }
    handle.close(&mut p);
    p.close();
    assert!(!p.is_closed());
    other.close(&mut p);
    assert!(p.is_closed());
    assert_eq!(p.state(), WorkerState::Running);

    let mut attempts = 0;
    loop {
        match p.step() {
            WorkerAction::Stop => break,
            action => {
                assert_eq!(decoded(action), numbered(attempts));
                assert_eq!(p.state(), WorkerState::Draining);
                attempts += 1;
            },
        }
    }
    assert_eq!(attempts, 5);
    assert_eq!(p.state(), WorkerState::Terminated);
    assert_eq!(p.queued(), 0);
    assert_eq!(p.step(), WorkerAction::Stop);
    assert_eq!(p.state(), WorkerState::Terminated);
}

#[test]
fn closing_an_empty_pipeline_terminates_at_once() {
    let mut p = pipeline(2, Encoding::Packed);
    assert_eq!(p.step(), WorkerAction::Wait);
    p.close();
    assert_eq!(p.step(), WorkerAction::Stop);
    assert_eq!(p.state(), WorkerState::Terminated);
}

#[test]
fn the_channel_closes_with_its_last_producer_end() {
    let mut p = pipeline(2, Encoding::Packed);
    let mut handle = p.new_collector(T0).unwrap();
    p.close();
    assert!(!p.is_closed());
    assert_eq!(handle.collect(&mut p, "h", "p", "c", DataValue::Bool(true)), Ok(()));
    let spare = handle.duplicate(&mut p).unwrap();
    assert_eq!(spare.timestamp(), handle.timestamp());
    handle.close(&mut p);
    assert!(!p.is_closed());
    spare.close(&mut p);
    assert!(p.is_closed());
    assert_eq!(p.try_submit(numbered(0)), Err(SubmitError::Closed));
    assert!(p.new_collector(T0).is_none());
    assert_eq!(p.queued(), 1);
    p.close();
    assert!(p.is_closed());
    assert!(matches!(p.step(), WorkerAction::Forward(_)));
    assert_eq!(p.step(), WorkerAction::Stop);
}

#[test]
fn closed_wins_over_full() {
    let mut p = pipeline(1, Encoding::Packed);
    assert!(!p.must_wait());
    assert_eq!(p.try_submit(numbered(0)), Ok(()));
    assert!(p.must_wait());
    p.close();
    assert!(p.is_full());
    assert!(!p.must_wait());
    assert_eq!(p.try_submit(numbered(1)), Err(SubmitError::Closed));
}

#[test]
fn a_handle_cannot_release_the_end_of_the_pipeline() {
    let mut p = pipeline(2, Encoding::Packed);
    let handle = p.new_collector(T0).unwrap();
    let mut q = pipeline(2, Encoding::Packed);
    handle.close(&mut q);
    assert!(!q.is_closed());
    assert_eq!(q.try_submit(numbered(0)), Ok(()));
}

#[test]
fn an_unencodable_record_is_reported_and_the_worker_goes_on() {
    let mut p = pipeline(4, Encoding::Plain);
    assert_eq!(p.try_submit(numbered(0)), Ok(()));
    assert_eq!(p.try_submit(numbered(1)), Ok(()));
    let refused = WorkerAction::Report(CodecError::EncodingNotImplemented(Encoding::Plain));
    assert_eq!(p.step(), refused);
    assert_eq!(p.state(), WorkerState::Running);
    assert_eq!(p.step(), refused);
    assert_eq!(p.step(), WorkerAction::Wait);
}

#[test]
fn failed_writes_are_reported_and_counted() {
    let mut p = pipeline(4, Encoding::Packed);
    assert_eq!(p.write_failures(), 0);
    let failed = Some(CodecError::IoFailure(IoCause::SinkWrite));
    assert_eq!(p.record_write(false), failed);
    assert_eq!(p.record_write(false), failed);
    assert_eq!(p.write_failures(), 2);
    assert_eq!(p.state(), WorkerState::Running);
    assert_eq!(p.try_submit(numbered(0)), Ok(()));
    assert_eq!(decoded(p.step()), numbered(0));
    assert_eq!(p.record_write(true), None);
    assert_eq!(p.write_failures(), 0);
}

#[test]
fn a_worker_on_a_channel_of_its_own() {
    let mut channel = CollectorChannel::new(3).unwrap();
    let mut worker = EncoderWorker::new(Encoding::Packed);
    assert_eq!(worker.encoding(), Encoding::Packed);
    assert_eq!(channel.capacity(), 3);
    assert_eq!(channel.producers(), 1);
    assert!(channel.is_empty());
    assert_eq!(worker.step(&mut channel), WorkerAction::Wait);
    assert_eq!(channel.try_submit(numbered(0)), Ok(()));
    assert_eq!(channel.try_submit(numbered(1)), Ok(()));
    assert_eq!(channel.len(), 2);
    assert!(!channel.is_full());
    assert!(!channel.must_wait());
    assert!(channel.join());
    assert_eq!(channel.producers(), 2);
    channel.leave();
    channel.leave();
    assert!(channel.is_closed());
    assert!(!channel.join());
    assert_eq!(decoded(worker.step(&mut channel)), numbered(0));
    assert_eq!(worker.state(), WorkerState::Draining);
    assert_eq!(channel.receive(), Some(numbered(1)));
    assert_eq!(channel.receive(), None);
    assert_eq!(worker.step(&mut channel), WorkerAction::Stop);
    assert_eq!(worker.state(), WorkerState::Terminated);
    assert_eq!(worker.write_failures(), 0);
    assert_eq!(worker.record_write(false), Some(CodecError::IoFailure(IoCause::SinkWrite)));
    assert_eq!(worker.write_failures(), 1);
}

#[test]
fn a_draining_worker_does_not_run_again() {
    let mut closed = CollectorChannel::new(2).unwrap();
    assert_eq!(closed.try_submit(numbered(0)), Ok(()));
    closed.leave();
    let mut worker = EncoderWorker::new(Encoding::Packed);
    assert_eq!(decoded(worker.step(&mut closed)), numbered(0));
    assert_eq!(worker.state(), WorkerState::Draining);
    let mut open = CollectorChannel::new(2).unwrap();
    assert_eq!(open.try_submit(numbered(1)), Ok(()));
    assert_eq!(decoded(worker.step(&mut open)), numbered(1));
    assert_eq!(worker.state(), WorkerState::Draining);
    assert_eq!(worker.step(&mut open), WorkerAction::Stop);
    assert_eq!(worker.state(), WorkerState::Terminated);
}
