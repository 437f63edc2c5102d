use crossbus::actor::{ActingState, ActorState, Handle, HandleCounter, Localizer, Poll};
use crossbus::address::QueueError;
use crossbus::blocker::Blocker;
use crossbus::context::{locate_task, position_of, Context, ContextRunner, IntoTask, RunnerStep, TaskPlace};
use crossbus::delayer::Delayer;
use crossbus::message::{spawn_mstream, MStreaming};
use crossbus::stream::{spawn_stream, Streaming};

#[derive(Debug, PartialEq)]
enum Task {
    Plain(&'static str),
    Blocker(u64),
    Future(&'static str),
    Delayer(Option<u32>),
    Stream,
    MStream,
}

impl IntoTask<Task> for Blocker<u64> {
    fn into_task(self) -> Task {
        Task::Blocker(self.inner)
    }
}

impl IntoTask<Task> for Localizer<&'static str> {
    fn into_task(self) -> Task {
        Task::Future(self.future)
    }
}

impl IntoTask<Task> for Delayer<u32, ()> {
    fn into_task(self) -> Task {
        Task::Delayer(self.inner)
    }
}

impl IntoTask<Task> for Streaming<Vec<u8>> {
    fn into_task(self) -> Task {
        Task::Stream
    }
}

impl IntoTask<Task> for MStreaming<Vec<u32>> {
    fn into_task(self) -> Task {
        Task::MStream
    }
}

fn handles(v: &[crossbus::context::Pair<Task>]) -> Vec<usize> {
    v.iter().map(|p| p.handle.inner()).collect()
}

#[test]
fn context_spawns_under_fresh_handles() {
    let mut hc = HandleCounter::new();
    let mut ctx: Context<u32, Task> = Context::new();
    assert_eq!(ctx.id(), 0);
    ctx.set_id(7);
    assert_eq!(ctx.id(), 7);
    assert_eq!(ctx.state(), ActorState::Created);
    assert!(!ctx.is_started());
    let a = ctx.spawn(Task::Plain("a"), &mut hc);
    let b = ctx.blocking(5u64, &mut hc);
    let c = ctx.send_future("fut", &mut hc);
    let d = ctx.instant_message::<()>(3, &mut hc);
    let e = ctx.delay_message_fn(4, (), &mut hc);
    let f = ctx.delay_fn((), &mut hc);
    let g = ctx.streaming(vec![1u8], &mut hc);
    let h = ctx.streaming_message(vec![2u32], &mut hc);
    let all = [a, b, c, d, e, f, g, h];
    for (i, hd) in all.iter().enumerate() {
        assert_eq!(hd.inner(), i + 1);
    }
    assert_eq!(handles(&ctx.inner), vec![1, 3, 4, 5, 6, 7, 8]);
    assert_eq!(handles(&ctx.bloc), vec![2]);
    assert_eq!(ctx.bloc[0].inner, Task::Blocker(5));
    assert_eq!(ctx.inner[2].inner, Task::Delayer(Some(3)));
    assert_eq!(ctx.inner[4].inner, Task::Delayer(None));
    ctx.restart();
    assert_eq!(ctx.state(), ActorState::Started);
    assert!(ctx.inner.is_empty() && ctx.bloc.is_empty() && ctx.abortion.is_empty());
    ctx.stop();
    assert!(ctx.is_stopping());
    ctx.set_state(ActorState::Stopped);
    assert!(ctx.is_stopped());
    ctx.set_state(ActorState::Running);
    assert!(ctx.is_running());
}

#[test]
fn context_sends_to_its_own_queue() {
    let mut ctx: Context<u32, Task> = Context::new();
    assert!(ctx.send_message(1).is_ok());
    let rs = ctx.send_message_batch(vec![2, 3, 4]);
    assert_eq!(rs.len(), 3);
    assert!(rs.iter().all(|r| r.is_ok()));
    let mut rx = ctx.receiver();
    assert_eq!(rx.message_number(), 4);
    for expected in 1..=4 {
        match rx.next() {
            Poll::Ready(Some(m)) => assert_eq!(m, expected),
            _ => panic!("expected a message"),
        }
    }
    // a sender of the context opens a closed queue again
    rx.set_close();
    let rs = ctx.send_message_batch(vec![5, 6]);
    assert!(rs.iter().all(|r| r.is_ok()));
    assert_eq!(rx.message_number(), 2);
    // with a sender left the queue is only closing, and a delivery revives it
    let s = ctx.sender();
    rx.set_close();
    assert!(s.send(7).is_ok());
    assert_eq!(rx.message_number(), 3);
    // closed at once, it refuses messages
    rx.close();
    match s.send(8) {
        Err(QueueError::Closed(m)) => assert_eq!(m, 8),
        _ => panic!("expected Closed"),
    }
}

#[test]
fn runner_update_takes_routines_and_aborts() {
    let mut hc = HandleCounter::new();
    let mut ctx: Context<u32, Task> = Context::new();
    ctx.spawn(Task::Plain("a"), &mut hc);
    ctx.spawn(Task::Plain("b"), &mut hc);
    ctx.spawn(Task::Plain("c"), &mut hc);
    ctx.abort_future(Handle(1));
    let (_addr, mut runner) = ctx.run("actor");
    assert!(!runner.is_blocked());
    assert!(!runner.update());
    // routine 1 aborted: the last one takes its place
    assert_eq!(handles(&runner.inner), vec![3, 2]);
    assert!(runner.ctx.abortion.is_empty() && runner.ctx.inner.is_empty());
    assert!(runner.find_task(Handle(2)).is_some());
    assert!(runner.find_task(Handle(1)).is_none());
    runner.ctx.blocking(9u64, &mut hc);
    assert!(runner.update());
    assert!(runner.is_blocked());
    assert_eq!(runner.find_task(Handle(4)), Some(&Task::Blocker(9)));
}

#[test]
fn runner_drives_the_life_cycle() {
    let mut hc = HandleCounter::new();
    let ctx: Context<u32, Task> = Context::new();
    let mut runner = ContextRunner::new(ctx, ());
    assert!(runner.is_alive());
    assert_eq!(runner.on_created(ActingState::Continue), RunnerStep::Wake);
    assert_eq!(runner.ctx.state(), ActorState::Started);
    assert_eq!(runner.on_started(ActingState::Continue), RunnerStep::CallStarted);
    assert_eq!(runner.after_started_hook(), RunnerStep::Wake);
    assert_eq!(runner.ctx.state(), ActorState::Running);
    assert_eq!(runner.on_running(ActingState::Continue), RunnerStep::PullMessage);
    // a message handled, and a routine spawned by it
    runner.ctx.spawn(Task::Plain("x"), &mut hc);
    assert_eq!(runner.after_action(), RunnerStep::PollTask(0));
    assert_eq!(runner.after_task_pending(0), RunnerStep::Finish);
    assert_eq!(runner.after_no_message(), RunnerStep::PollTask(0));
    assert_eq!(runner.after_task_ready(0), RunnerStep::Finish);
    // no sender, no message, no routine: the actor stops at the end of the round
    assert_eq!(runner.finish_round(), RunnerStep::Idle);
    assert_eq!(runner.ctx.state(), ActorState::Stopped);
    assert!(!runner.is_alive());
    assert_eq!(runner.after_final_hook(ActorState::Stopped), RunnerStep::Close);
}

#[test]
fn runner_blocked_actor_polls_blocker_first() {
    let mut hc = HandleCounter::new();
    let mut ctx: Context<u32, Task> = Context::new();
    ctx.set_state(ActorState::Running);
    let mut runner = ContextRunner::new(ctx, ());
    runner.ctx.spawn(Task::Plain("a"), &mut hc);
    runner.ctx.spawn(Task::Plain("b"), &mut hc);
    runner.update();
    runner.ctx.blocking(1u64, &mut hc);
    // routine 0 is pending and a blocker came: routine 0 moves to the end
    assert_eq!(runner.after_task_pending(0), RunnerStep::PollBlocker);
    assert_eq!(handles(&runner.inner), vec![2, 1]);
    assert_eq!(runner.on_running(ActingState::Continue), RunnerStep::PollBlocker);
    assert_eq!(runner.after_blocker_ready(), RunnerStep::PullMessage);
    assert!(!runner.is_blocked());
}

#[test]
fn runner_stop_resume_and_abort() {
    let ctx: Context<u32, Task> = Context::new();
    let mut runner = ContextRunner::new(ctx, ());
    assert_eq!(runner.on_created(ActingState::Stop), RunnerStep::Wake);
    assert_eq!(runner.ctx.state(), ActorState::Stopping);
    assert!(runner.to_stop());
    assert_eq!(runner.on_stopping(ActingState::Resume), RunnerStep::Wake);
    assert_eq!(runner.ctx.state(), ActorState::Running);
    assert_eq!(runner.on_running(ActingState::Stop), RunnerStep::Wake);
    assert_eq!(runner.on_stopping(ActingState::Continue), RunnerStep::Wake);
    assert_eq!(runner.ctx.state(), ActorState::Stopped);
    runner.ctx.set_state(ActorState::Started);
    assert_eq!(runner.on_started(ActingState::Abort), RunnerStep::Wake);
    assert_eq!(runner.ctx.state(), ActorState::Aborted);
    assert_eq!(runner.after_final_hook(ActorState::Aborted), RunnerStep::Close);
    runner.ctx.set_state(ActorState::Running);
    assert_eq!(runner.after_final_hook(ActorState::Aborted), RunnerStep::Wake);
}

#[test]
fn stopped_actor_takes_no_stream() {
    let mut hc = HandleCounter::new();
    let mut ctx: Context<u32, Task> = Context::new();
    let h = spawn_stream(&mut ctx, vec![1u8], &mut hc);
    assert_eq!(h.inner(), 1);
    spawn_mstream(&mut ctx, vec![2u32], &mut hc);
    assert_eq!(ctx.inner.len(), 2);
    ctx.set_state(ActorState::Stopped);
    let h = spawn_stream(&mut ctx, vec![3u8], &mut hc);
    assert!(!h.is_valid());
    spawn_mstream(&mut ctx, vec![4u32], &mut hc);
    assert_eq!(ctx.inner.len(), 2);
    assert_eq!(hc.next, 3);
}

#[test]
fn start_registers_the_actor_and_hands_it_to_a_runner() {
    let mut reg: crossbus::register::Register<u32> = crossbus::register::Register::new();
    let mut ids = crossbus::actor::HandleCounter::new();
    let ctx: Context<u32, Task> = Context::new();
    let (addr, id, runner) =
        crossbus::context::start::<u32, u32, _, _, _>(ctx, 5u32, &mut reg, &mut ids);
    assert_eq!(id, 1);
    assert_eq!(runner.ctx.id(), 1);
    assert_eq!(reg.len(), 1);
    assert_eq!(*reg.get(1).unwrap().inner, 5);
    assert_eq!(*runner.act.actor(), 5);
    assert_eq!(reg.get(1).unwrap().name(), "Actor-1");
    let s = addr.sender();
    assert!(s.send(3).is_ok());
    assert_eq!(runner.ctx.receiver().message_number(), 1);
}

#[test]
fn routines_are_found_by_handle_in_order() {
    let mut hc = HandleCounter::new();
    let mut ctx: Context<u32, Task> = Context::new();
    let a = ctx.spawn(Task::Plain("a"), &mut hc);
    let b = ctx.blocking(5u64, &mut hc);
    let c = ctx.spawn(Task::Plain("c"), &mut hc);
    assert_eq!(position_of(&ctx.inner, a), Some(0));
    assert_eq!(position_of(&ctx.inner, c), Some(1));
    assert_eq!(position_of(&ctx.inner, b), None);
    let none: Vec<crossbus::context::Pair<Task>> = Vec::new();
    assert_eq!(locate_task(&none, &none, &ctx.inner, &ctx.bloc, c), Some(TaskPlace::Spawned(1)));
    assert_eq!(
        locate_task(&none, &none, &ctx.inner, &ctx.bloc, b),
        Some(TaskPlace::SpawnedBlocking(0))
    );
    let mut runner = ContextRunner::new(ctx, ());
    runner.update();
    let d = runner.ctx.spawn(Task::Plain("d"), &mut hc);
    assert_eq!(
        locate_task(&runner.inner, &runner.bloc, &runner.ctx.inner, &runner.ctx.bloc, c),
        Some(TaskPlace::Running(1))
    );
    assert_eq!(
        locate_task(&runner.inner, &runner.bloc, &runner.ctx.inner, &runner.ctx.bloc, b),
        Some(TaskPlace::Blocking(0))
    );
    assert_eq!(
        locate_task(&runner.inner, &runner.bloc, &runner.ctx.inner, &runner.ctx.bloc, d),
        Some(TaskPlace::Spawned(0))
    );
    assert_eq!(
        locate_task(&runner.inner, &runner.bloc, &runner.ctx.inner, &runner.ctx.bloc, Handle(99)),
        None
    );
}

#[test]
fn contexts_sharing_a_counter_hand_out_distinct_handles() {
    let mut hc = HandleCounter::new();
    let mut first: Context<u32, Task> = Context::new();
    let mut second: Context<u32, Task> = Context::new();
    let a = first.spawn(Task::Plain("a"), &mut hc);
    let b = second.spawn(Task::Plain("b"), &mut hc);
    let c = first.blocking(1u64, &mut hc);
    let d = second.streaming(vec![1u8], &mut hc);
    assert_eq!([a.inner(), b.inner(), c.inner(), d.inner()], [1, 2, 3, 4]);
    assert!(a != b && b != c && c != d && a != d);
}
