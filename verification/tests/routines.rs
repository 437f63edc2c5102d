use crossbus::actor::HandleCounter;
use crossbus::blocker::{Blocker, BlockerState, BlockerStep, BlockingState};
use crossbus::delayer::{DelayIndicator, Delayer, DelayerState, DelayerStep, DelayingState, Indicator};
use crossbus::message::{MStreamState, MStreamStep, MStreaming, MStreamingState};
use crossbus::stream::{StreamState, StreamStep, Streaming, StreamingState};

#[test]
fn blocker_life_cycle() {
    let mut counter = HandleCounter::new();
    let mut b = Blocker::new("fut", &mut counter);
    assert_eq!(b.handle().inner(), 1);
    assert_eq!(b.state(), BlockerState::Created);
    let step = b.on_state_hook(BlockerState::Created, BlockingState::Continue);
    assert_eq!((b.state(), step), (BlockerState::Started, BlockerStep::Wake));
    let step = b.on_state_hook(BlockerState::Started, BlockingState::Continue);
    assert_eq!((b.state(), step), (BlockerState::Running, BlockerStep::CallStarted));
    let step = b.on_state_hook(BlockerState::Running, BlockingState::Continue);
    assert_eq!((b.state(), step), (BlockerState::Running, BlockerStep::PollInner));
    assert_eq!(b.on_inner_ready(), BlockerStep::Wake);
    assert_eq!(b.state(), BlockerState::Finished);
    assert_eq!(b.on_final_hook(BlockerState::Finished), BlockerStep::Complete);
}

#[test]
fn blocker_abort_and_changed_state() {
    let mut counter = HandleCounter::new();
    let mut b = Blocker::new((), &mut counter);
    let step = b.on_state_hook(BlockerState::Created, BlockingState::Abort);
    assert_eq!((b.state(), step), (BlockerState::Aborted, BlockerStep::Wake));
    // a poll that began in Running finds the blocker aborted: nothing changes
    let step = b.on_state_hook(BlockerState::Running, BlockingState::Continue);
    assert_eq!((b.state(), step), (BlockerState::Aborted, BlockerStep::Wake));
    assert_eq!(b.on_final_hook(BlockerState::Aborted), BlockerStep::Complete);
    b.set_state(BlockerState::Running);
    assert_eq!(b.on_final_hook(BlockerState::Aborted), BlockerStep::Wake);
}

#[test]
fn instant_delayer_delivers_once() {
    let mut counter = HandleCounter::new();
    let mut d: Delayer<u32, ()> = Delayer::instant(9, &mut counter);
    assert_eq!(d.handle().inner(), 1);
    assert!(matches!(d.on_state_hook(DelayerState::Created, DelayingState::Continue), DelayerStep::Wake));
    assert_eq!(d.state(), DelayerState::Started);
    assert!(matches!(d.on_state_hook(DelayerState::Started, DelayingState::Continue), DelayerStep::CallStarted));
    assert!(matches!(d.on_started_hook(), DelayerStep::Wake));
    assert_eq!(d.state(), DelayerState::Running);
    match d.on_state_hook(DelayerState::Running, DelayingState::Continue) {
        DelayerStep::DeliverStored(r) => {
            assert_eq!(r, Some(1));
            assert!(matches!(d.after_repeat_delivery(r), DelayerStep::Wake));
        }
        _ => panic!("expected a delivery"),
    }
    assert_eq!(d.delay.repeated(), 1);
    assert_eq!(d.state(), DelayerState::Finished);
    assert!(matches!(d.on_final_hook(DelayerState::Finished), DelayerStep::Complete));
}

#[test]
fn delayer_repeats_then_finishes() {
    let mut counter = HandleCounter::new();
    let mut d: Delayer<u32, &str> = Delayer::from_fn(Some(3), "cond", &mut counter);
    d.set_state(DelayerState::Running);
    assert!(matches!(d.on_state_hook(DelayerState::Running, DelayingState::Continue), DelayerStep::PollDelay));
    for i in 0..3 {
        match d.on_ready(Indicator::Repeation(Some(3))) {
            DelayerStep::DeliverStored(r) => {
                d.after_repeat_delivery(r);
            }
            _ => panic!("expected a delivery"),
        }
        let expected = if i < 2 { DelayerState::Running } else { DelayerState::Finished };
        assert_eq!(d.state(), expected);
    }
    assert_eq!(d.delay.repeated(), 3);
    // endless repetition never finishes
    let mut e: Delayer<u32, &str> = Delayer::from_fn(Some(3), "cond", &mut counter);
    e.set_state(DelayerState::Running);
    for _ in 0..5 {
        e.after_repeat_delivery(None);
    }
    assert_eq!(e.state(), DelayerState::Running);
    assert_eq!(e.delay.repeated(), 0);
}

#[test]
fn delayer_emit_and_given_message() {
    let mut counter = HandleCounter::new();
    let mut d: Delayer<u32, ()> = Delayer::from_fn(Some(4), (), &mut counter);
    d.set_state(DelayerState::Running);
    match d.on_state_hook(DelayerState::Running, DelayingState::Emit) {
        DelayerStep::DeliverEmitted(m) => assert_eq!(m, 4),
        _ => panic!("expected the emitted message"),
    }
    assert_eq!(d.state(), DelayerState::Emitted);
    assert!(d.inner.is_none());
    assert!(matches!(d.on_final_hook(DelayerState::Emitted), DelayerStep::Complete));
    assert_eq!(d.state(), DelayerState::Finished);

    let mut g: Delayer<u32, ()> = Delayer::from_fn(None, (), &mut counter);
    g.set_state(DelayerState::Running);
    assert!(matches!(g.on_ready(Indicator::Repeation(Some(1))), DelayerStep::Complete));
    match g.on_ready(Indicator::Message(11)) {
        DelayerStep::DeliverGiven(m) => assert_eq!(m, 11),
        _ => panic!("expected the given message"),
    }
    g.after_message_delivery();
    assert_eq!(g.state(), DelayerState::Finished);
    let ind = DelayIndicator::new(1u8);
    assert_eq!(ind.repeated(), 0);
}

#[test]
fn delayer_abort() {
    let mut counter = HandleCounter::new();
    let mut d: Delayer<u32, ()> = Delayer::instant(1, &mut counter);
    assert!(matches!(d.on_state_hook(DelayerState::Created, DelayingState::Abort), DelayerStep::Wake));
    assert_eq!(d.state(), DelayerState::Aborted);
    assert!(matches!(d.on_final_hook(DelayerState::Aborted), DelayerStep::Complete));
}

#[test]
fn stream_life_cycle() {
    let mut counter = HandleCounter::new();
    let mut s = Streaming::new(vec![1, 2], &mut counter);
    assert_eq!(s.handle().inner(), 1);
    assert_eq!(s.on_state_hook(StreamState::Created, StreamingState::Continue), StreamStep::Wake);
    assert_eq!(s.state(), StreamState::Started);
    assert_eq!(s.on_state_hook(StreamState::Started, StreamingState::Continue), StreamStep::CallStarted);
    assert_eq!(s.on_started_hook(), StreamStep::Wake);
    assert_eq!(s.state(), StreamState::Running);
    assert_eq!(s.on_state_hook(StreamState::Running, StreamingState::Continue), StreamStep::PollStream);
    assert_eq!(s.on_item(), StreamStep::Idle);
    assert_eq!(s.on_state_hook(StreamState::Running, StreamingState::Pause), StreamStep::Wake);
    assert_eq!(s.state(), StreamState::Paused);
    assert_eq!(s.on_paused_hooks(StreamingState::Continue), StreamStep::Idle);
    assert_eq!(s.on_paused_hooks(StreamingState::Resume), StreamStep::Wake);
    assert_eq!(s.state(), StreamState::Resumed);
    assert_eq!(s.on_resumed_hook(), StreamStep::Wake);
    assert_eq!(s.state(), StreamState::Running);
    assert_eq!(s.on_stream_end(), StreamStep::Wake);
    assert_eq!(s.state(), StreamState::Finished);
    assert_eq!(s.on_final_hook(StreamState::Finished), StreamStep::Complete);
    s.set_state(StreamState::Running);
    assert_eq!(s.on_final_hook(StreamState::Finished), StreamStep::Wake);
    assert_eq!(s.on_item(), StreamStep::Idle);
    s.set_state(StreamState::Aborted);
    assert_eq!(s.on_item(), StreamStep::Wake);
}

#[test]
fn message_stream_life_cycle() {
    let mut counter = HandleCounter::new();
    let mut s = MStreaming::new("items", &mut counter);
    assert_eq!(s.on_state_hook(MStreamState::Created, MStreamingState::Continue), MStreamStep::Wake);
    // a message stream runs before its started hook is called
    assert_eq!(s.on_state_hook(MStreamState::Started, MStreamingState::Continue), MStreamStep::CallStarted);
    assert_eq!(s.state(), MStreamState::Running);
    assert_eq!(s.on_started_hook(), MStreamStep::Wake);
    assert_eq!(s.on_state_hook(MStreamState::Running, MStreamingState::Abort), MStreamStep::Wake);
    assert_eq!(s.state(), MStreamState::Aborted);
    assert_eq!(s.on_final_hook(MStreamState::Aborted), MStreamStep::Complete);
    assert_eq!(s.handle().inner(), 1);
    s.set_state(MStreamState::Paused);
    assert_eq!(s.on_paused_hooks(MStreamingState::Resume), MStreamStep::Wake);
    assert_eq!(s.on_resumed_hook(), MStreamStep::Wake);
    assert_eq!(s.state(), MStreamState::Running);
}
