use native_renderer::{Action, EpochPolicy, EventKind, Phase, Runner, Step};

/// A scripted application: answers each forwarded event from a fixed table.
struct FakeDriver {
    should_redraw: bool,
    handled: Vec<String>,
}

#[derive(Clone)]
enum Ev {
    Close,
    Resize,
    Unrelated,
    RedrawEvent,
}

impl FakeDriver {
    fn new(should_redraw: bool) -> FakeDriver {
        FakeDriver { should_redraw, handled: Vec::new() }
    }

    fn handle_event(&mut self, e: &Ev) -> bool {
        match e {
            Ev::Resize => {
                self.handled.push("resize".to_string());
                true
            }
            Ev::Unrelated => {
                self.handled.push("unrelated".to_string());
                false
            }
            Ev::RedrawEvent => {
                self.handled.push("redraw".to_string());
                true
            }
            Ev::Close => panic!("a close request reached the application"),
        }
    }
}

fn kind_of(e: &Ev) -> EventKind {
    match e {
        Ev::Close => EventKind::Close,
        _ => EventKind::Other,
    }
}

/// Runs one iteration the way the window loop does; returns the actions, or
/// `None` when the batch closed the loop.
fn iterate(r: &mut Runner, d: &mut FakeDriver, batch: &[Ev]) -> Option<Vec<Action>> {
    r.begin_iteration(d.should_redraw);
    for e in batch {
        match r.on_event(kind_of(e)) {
            Step::Stop => return None,
            Step::Forward => {
                let answer = d.handle_event(e);
                r.record_reply(answer);
            }
        }
    }
    Some(r.end_iteration())
}

fn running(policy: EpochPolicy, epoch: u32) -> Runner {
    let mut r = Runner::new(policy, epoch);
    assert_eq!(r.phase(), Phase::Starting);
    r.start();
    assert_eq!(r.phase(), Phase::Running);
    r
}

fn count(actions: &[Action], a: Action) -> usize {
    actions.iter().filter(|x| **x == a).count()
}

#[test]
fn redraw_intent_of_scripted_batches() {
    let batches = vec![vec![], vec![Ev::Resize], vec![Ev::Unrelated, Ev::RedrawEvent]];
    let expected = [false, true, true];
    let mut r = running(EpochPolicy::Fixed, 0);
    let mut d = FakeDriver::new(false);
    for (batch, want) in batches.iter().zip(expected.iter()) {
        let actions = iterate(&mut r, &mut d, batch).unwrap();
        assert_eq!(actions.contains(&Action::SetWindowParameters), *want);
    }
}

#[test]
fn application_request_alone_redraws() {
    let mut r = running(EpochPolicy::Fixed, 3);
    let mut d = FakeDriver::new(true);
    let actions = iterate(&mut r, &mut d, &[Ev::Unrelated]).unwrap();
    assert_eq!(
        actions,
        vec![
            Action::SetWindowParameters,
            Action::SubmitDisplayList { epoch: 3 },
            Action::GenerateFrame,
            Action::Render,
            Action::Present,
        ]
    );
}

#[test]
fn intent_accumulates_within_batch() {
    let mut r = running(EpochPolicy::Fixed, 0);
    r.begin_iteration(false);
    assert!(!r.redraw_requested());
    assert_eq!(r.on_event(EventKind::Other), Step::Forward);
    r.record_reply(true);
    assert!(r.redraw_requested());
    assert_eq!(r.on_event(EventKind::Other), Step::Forward);
    r.record_reply(false);
    assert!(r.redraw_requested());
}

#[test]
fn quiet_iteration_only_renders() {
    let mut r = running(EpochPolicy::Incrementing, 5);
    let mut d = FakeDriver::new(false);
    let actions = iterate(&mut r, &mut d, &[Ev::Unrelated]).unwrap();
    assert_eq!(actions, vec![Action::GenerateFrame, Action::Render, Action::Present]);
    assert_eq!(r.epoch(), 5);
}

#[test]
fn window_parameters_follow_scripted_intent() {
    let pattern = [true, false, false, true, true, false, false, false, true, false];
    let mut r = running(EpochPolicy::Fixed, 0);
    let mut all = Vec::new();
    for p in pattern.iter() {
        let mut d = FakeDriver::new(*p);
        all.extend(iterate(&mut r, &mut d, &[Ev::Unrelated]).unwrap());
    }
    assert_eq!(count(&all, Action::SetWindowParameters), 4);
    assert_eq!(count(&all, Action::GenerateFrame), 10);
    assert_eq!(count(&all, Action::Render), 10);
    assert_eq!(count(&all, Action::Present), 10);
}

#[test]
fn batch_without_close_keeps_running() {
    let mut r = running(EpochPolicy::Fixed, 0);
    let mut d = FakeDriver::new(false);
    for _ in 0..5 {
        let batch = vec![Ev::Resize, Ev::Unrelated, Ev::RedrawEvent];
        assert!(iterate(&mut r, &mut d, &batch).is_some());
        assert_eq!(r.phase(), Phase::Running);
    }
    assert_eq!(d.handled.len(), 15);
}

#[test]
fn close_stops_rest_of_batch() {
    let mut r = running(EpochPolicy::Fixed, 0);
    let mut d = FakeDriver::new(false);
    let batch = vec![Ev::Unrelated, Ev::Close, Ev::RedrawEvent, Ev::Resize];
    assert!(iterate(&mut r, &mut d, &batch).is_none());
    assert_eq!(d.handled, vec!["unrelated".to_string()]);
    assert_eq!(r.phase(), Phase::Closing);
}

#[test]
fn close_first_in_batch_forwards_nothing() {
    let mut r = running(EpochPolicy::Fixed, 0);
    r.begin_iteration(true);
    assert_eq!(r.on_event(EventKind::Close), Step::Stop);
    assert_eq!(r.phase(), Phase::Closing);
}

#[test]
fn teardown_once_after_last_render() {
    let mut r = running(EpochPolicy::Fixed, 0);
    let mut d = FakeDriver::new(false);
    let mut trace = Vec::new();
    trace.extend(iterate(&mut r, &mut d, &[Ev::Resize]).unwrap());
    trace.extend(iterate(&mut r, &mut d, &[Ev::Unrelated]).unwrap());
    assert!(iterate(&mut r, &mut d, &[Ev::Close]).is_none());
    assert!(!r.is_torn_down());
    trace.extend(r.teardown());
    assert!(r.is_torn_down());
    trace.extend(r.teardown());
    assert_eq!(count(&trace, Action::Deinit), 1);
    assert_eq!(trace.last(), Some(&Action::Deinit));
    let last_render = trace.iter().rposition(|a| *a == Action::Render).unwrap();
    assert!(last_render < trace.len() - 1);
}

#[test]
fn fixed_epoch_never_moves() {
    let mut r = running(EpochPolicy::Fixed, 9);
    assert_eq!(r.policy(), EpochPolicy::Fixed);
    let mut d = FakeDriver::new(true);
    for _ in 0..3 {
        let actions = iterate(&mut r, &mut d, &[]).unwrap();
        assert!(actions.contains(&Action::SubmitDisplayList { epoch: 9 }));
    }
    assert_eq!(r.epoch(), 9);
}

#[test]
fn incrementing_epoch_advances_per_submission() {
    let mut r = running(EpochPolicy::Incrementing, 0);
    assert_eq!(r.policy(), EpochPolicy::Incrementing);
    let mut d = FakeDriver::new(false);
    let first = iterate(&mut r, &mut d, &[Ev::Resize]).unwrap();
    assert_eq!(first[1], Action::SubmitDisplayList { epoch: 0 });
    iterate(&mut r, &mut d, &[Ev::Unrelated]).unwrap();
    let second = iterate(&mut r, &mut d, &[Ev::RedrawEvent]).unwrap();
    assert_eq!(second[1], Action::SubmitDisplayList { epoch: 1 });
    assert_eq!(r.epoch(), 2);
}

#[test]
fn incrementing_epoch_stops_at_largest() {
    let mut r = running(EpochPolicy::Incrementing, u32::MAX - 1);
    let mut d = FakeDriver::new(true);
    iterate(&mut r, &mut d, &[]).unwrap();
    assert_eq!(r.epoch(), u32::MAX);
    let actions = iterate(&mut r, &mut d, &[]).unwrap();
    assert_eq!(actions[1], Action::SubmitDisplayList { epoch: u32::MAX });
    assert_eq!(r.epoch(), u32::MAX);
}
