use vstd::prelude::*;

use crate::runner::{
    event_seen, idle, iteration_begun, iteration_plan, next_epoch, reading, redraw_intent,
    reply_recorded, Action, EpochPolicy, EventKind, LoopState, Phase,
};

verus! {

/// A native event together with the answer the application gives if it is
/// handed the event.
pub struct Delivery {
    pub kind: EventKind,
    pub redraw: bool,
}

/// The state after the loop reads a batch through `on_event` and `record_reply`,
/// in arrival order, until the batch ends or a close request stops it.
pub open spec fn feed(s: LoopState, ds: Seq<Delivery>) -> LoopState
    decreases ds.len(),
{
    if ds.len() == 0 {
        s
    } else if ds[0].kind == EventKind::Close {
        event_seen(s, EventKind::Close)
    } else {
        feed(reply_recorded(event_seen(s, EventKind::Other), ds[0].redraw), ds.drop_first())
    }
}

pub open spec fn close_free(ds: Seq<Delivery>) -> bool {
    forall|j: int| 0 <= j < ds.len() ==> #[trigger] ds[j].kind != EventKind::Close
}

/// The answers the application gives to the given events.
pub open spec fn answers(ds: Seq<Delivery>) -> Seq<bool> {
    ds.map_values(|d: Delivery| d.redraw)
}

/// All actions of a run of iterations that end normally, the `i`-th of which
/// has redraw intent `intents[i]`; the first submission carries `epoch`.
pub open spec fn session_actions(intents: Seq<bool>, epoch: u32, policy: EpochPolicy) -> Seq<Action>
    decreases intents.len(),
{
    if intents.len() == 0 {
        Seq::empty()
    } else {
        iteration_plan(intents[0], epoch) + session_actions(
            intents.drop_first(),
            next_epoch(policy, epoch, intents[0]),
            policy,
        )
    }
}

/// Whether the action submits a display list.
pub open spec fn is_submission(a: Action) -> bool {
    a is SubmitDisplayList
}

/// The epoch a submission carries.
pub open spec fn epoch_of(a: Action) -> u32
    recommends
        is_submission(a),
{
    match a {
        Action::SubmitDisplayList { epoch } => epoch,
        _ => 0,
    }
}

/// How many times `a` occurs in `s`.
pub open spec fn occurrences(s: Seq<Action>, a: Action) -> nat
    decreases s.len(),
{
    if s.len() == 0 {
        0
    } else {
        (if s[0] == a { 1nat } else { 0nat }) + occurrences(s.drop_first(), a)
    }
}

/// How many of the flags are set.
pub open spec fn count_set(s: Seq<bool>) -> nat
    decreases s.len(),
{
    if s.len() == 0 {
        0
    } else {
        (if s[0] { 1nat } else { 0nat }) + count_set(s.drop_first())
    }
}

proof fn lemma_occurrences_append(a: Seq<Action>, b: Seq<Action>, x: Action)
    ensures
        occurrences(a + b, x) == occurrences(a, x) + occurrences(b, x),
    decreases a.len(),
{
    if a.len() == 0 {
        assert(a + b =~= b);
    } else {
        assert((a + b).drop_first() =~= a.drop_first() + b);
        lemma_occurrences_append(a.drop_first(), b, x);
    }
}

proof fn lemma_plan_occurrences(intent: bool, epoch: u32)
    ensures
        occurrences(iteration_plan(intent, epoch), Action::SetWindowParameters) == if intent {
            1nat
        } else {
            0nat
        },
        occurrences(iteration_plan(intent, epoch), Action::GenerateFrame) == 1,
        occurrences(iteration_plan(intent, epoch), Action::Render) == 1,
        occurrences(iteration_plan(intent, epoch), Action::Present) == 1,
        occurrences(iteration_plan(intent, epoch), Action::Deinit) == 0,
{
    let p = iteration_plan(intent, epoch);
    reveal_with_fuel(occurrences, 6);
    if intent {
        assert(p.drop_first() =~= seq![Action::SubmitDisplayList { epoch }, Action::GenerateFrame, Action::Render, Action::Present]);
        assert(p.drop_first().drop_first() =~= seq![Action::GenerateFrame, Action::Render, Action::Present]);
        assert(p.drop_first().drop_first().drop_first() =~= seq![Action::Render, Action::Present]);
        assert(p.drop_first().drop_first().drop_first().drop_first() =~= seq![Action::Present]);
        assert(p.drop_first().drop_first().drop_first().drop_first().drop_first() =~= Seq::<Action>::empty());
    } else {
        assert(p.drop_first() =~= seq![Action::Render, Action::Present]);
        assert(p.drop_first().drop_first() =~= seq![Action::Present]);
        assert(p.drop_first().drop_first().drop_first() =~= Seq::<Action>::empty());
    }
}

proof fn lemma_feed_close_free(s: LoopState, ds: Seq<Delivery>)
    requires
        reading(s),
        close_free(ds),
    ensures
        reading(feed(s, ds)),
        feed(s, ds) == (LoopState { replies: s.replies + answers(ds), ..s }),
    decreases ds.len(),
{
    if ds.len() == 0 {
        assert(s.replies + answers(ds) =~= s.replies);
    } else {
        assert(ds[0].kind != EventKind::Close);
        let t = reply_recorded(event_seen(s, EventKind::Other), ds[0].redraw);
        let rest = ds.drop_first();
        assert forall|j: int| 0 <= j < rest.len() implies #[trigger] rest[j].kind != EventKind::Close by {
            assert(rest[j] == ds[j + 1]);
        }
        lemma_feed_close_free(t, rest);
        assert(t.replies + answers(rest) =~= s.replies + answers(ds));
    }
}

/// A batch without a close request never closes the loop: after every prefix
/// of it the loop is still running and reading the batch.
pub proof fn lemma_no_close_keeps_running(s: LoopState, ds: Seq<Delivery>)
    requires
        reading(s),
        close_free(ds),
    ensures
        forall|k: int| 0 <= k <= ds.len() ==> #[trigger] reading(feed(s, ds.take(k))),
        feed(s, ds).phase == Phase::Running,
{
    assert forall|k: int| 0 <= k <= ds.len() implies #[trigger] reading(feed(s, ds.take(k))) by {
        let p = ds.take(k);
        assert forall|j: int| 0 <= j < p.len() implies #[trigger] p[j].kind != EventKind::Close by {
            assert(p[j] == ds[j]);
        }
        lemma_feed_close_free(s, p);
    }
    lemma_feed_close_free(s, ds);
}

/// A close request at position `i` of a batch closes the loop, and the events
/// after it never reach the application: the answers recorded are those of the
/// events before it and no others.
pub proof fn lemma_close_stops_batch(s: LoopState, ds: Seq<Delivery>, i: int)
    requires
        reading(s),
        0 <= i < ds.len(),
        ds[i].kind == EventKind::Close,
        close_free(ds.take(i)),
    ensures
        feed(s, ds).phase == Phase::Closing,
        !feed(s, ds).in_batch,
        feed(s, ds).replies == s.replies + answers(ds.take(i)),
        feed(s, ds).replies.len() == s.replies.len() + i,
    decreases i,
{
    if i == 0 {
        assert(s.replies + answers(ds.take(0)) =~= s.replies);
    } else {
        assert(ds.take(i)[0] == ds[0]);
        let t = reply_recorded(event_seen(s, EventKind::Other), ds[0].redraw);
        let rest = ds.drop_first();
        assert(rest[i - 1] == ds[i]);
        assert forall|j: int| 0 <= j < rest.take(i - 1).len() implies #[trigger] rest.take(i - 1)[j].kind
            != EventKind::Close by {
            assert(rest.take(i - 1)[j] == ds.take(i)[j + 1]);
        }
        lemma_close_stops_batch(t, rest, i - 1);
        assert(t.replies + answers(rest.take(i - 1)) =~= s.replies + answers(ds.take(i)));
    }
}

/// An iteration whose batch holds no close request redraws exactly when the
/// application asked for it beforehand or one of the events asked for it; and
/// then, and only then, its actions push the window parameters.
pub proof fn lemma_redraw_intent_of_batch(s: LoopState, should_redraw: bool, ds: Seq<Delivery>)
    requires
        idle(s),
        close_free(ds),
    ensures
        reading(feed(iteration_begun(s, should_redraw), ds)),
        ({
            let t = feed(iteration_begun(s, should_redraw), ds);
            &&& redraw_intent(t.seed, t.replies) == (should_redraw || exists|j: int|
                0 <= j < ds.len() && #[trigger] ds[j].redraw)
            &&& iteration_plan(redraw_intent(t.seed, t.replies), t.epoch).contains(
                Action::SetWindowParameters,
            ) == redraw_intent(t.seed, t.replies)
        }),
{
    let b = iteration_begun(s, should_redraw);
    lemma_feed_close_free(b, ds);
    let t = feed(b, ds);
    assert(t.replies =~= answers(ds));
    if exists|j: int| 0 <= j < ds.len() && #[trigger] ds[j].redraw {
        let j = choose|j: int| 0 <= j < ds.len() && #[trigger] ds[j].redraw;
        assert(t.replies[j]);
    }
    if exists|j: int| 0 <= j < t.replies.len() && #[trigger] t.replies[j] {
        let j = choose|j: int| 0 <= j < t.replies.len() && #[trigger] t.replies[j];
        assert(ds[j].redraw);
    }
    let p = iteration_plan(redraw_intent(t.seed, t.replies), t.epoch);
    if redraw_intent(t.seed, t.replies) {
        assert(p[0] == Action::SetWindowParameters);
    } else {
        assert forall|k: int| 0 <= k < p.len() implies p[k] != Action::SetWindowParameters by {}
    }
}

/// Over any run of iterations, the window parameters are pushed once for each
/// iteration that redraws and never otherwise, and a frame is generated,
/// rendered and presented once for every iteration.
pub proof fn lemma_session_counts(intents: Seq<bool>, epoch: u32, policy: EpochPolicy)
    ensures
        occurrences(session_actions(intents, epoch, policy), Action::SetWindowParameters)
            == count_set(intents),
        occurrences(session_actions(intents, epoch, policy), Action::GenerateFrame)
            == intents.len(),
        occurrences(session_actions(intents, epoch, policy), Action::Render) == intents.len(),
        occurrences(session_actions(intents, epoch, policy), Action::Present) == intents.len(),
        occurrences(session_actions(intents, epoch, policy), Action::Deinit) == 0,
    decreases intents.len(),
{
    if intents.len() > 0 {
        let p = iteration_plan(intents[0], epoch);
        let rest = session_actions(intents.drop_first(), next_epoch(policy, epoch, intents[0]), policy);
        lemma_session_counts(intents.drop_first(), next_epoch(policy, epoch, intents[0]), policy);
        lemma_occurrences_append(p, rest, Action::SetWindowParameters);
        lemma_occurrences_append(p, rest, Action::GenerateFrame);
        lemma_occurrences_append(p, rest, Action::Render);
        lemma_occurrences_append(p, rest, Action::Present);
        lemma_occurrences_append(p, rest, Action::Deinit);
        lemma_plan_occurrences(intents[0], epoch);
    }
}

/// A run of iterations followed by a teardown releases the compositor exactly
/// once, as the very last action, after every render.
pub proof fn lemma_teardown_last(intents: Seq<bool>, epoch: u32, policy: EpochPolicy)
    ensures
        ({
            let t = session_actions(intents, epoch, policy).push(Action::Deinit);
            &&& occurrences(t, Action::Deinit) == 1
            &&& t.last() == Action::Deinit
            &&& forall|k: int| 0 <= k < t.len() && #[trigger] t[k] == Action::Render ==> k < t.len() - 1
        }),
{
    let s = session_actions(intents, epoch, policy);
    lemma_session_counts(intents, epoch, policy);
    lemma_occurrences_append(s, seq![Action::Deinit], Action::Deinit);
    assert(s + seq![Action::Deinit] =~= s.push(Action::Deinit));
    reveal_with_fuel(occurrences, 2);
    assert(seq![Action::Deinit].drop_first() =~= Seq::<Action>::empty());
}

proof fn lemma_plan_submissions(intent: bool, epoch: u32)
    ensures
        forall|k: int|
            0 <= k < iteration_plan(intent, epoch).len() && is_submission(
                #[trigger] iteration_plan(intent, epoch)[k],
            ) ==> k == 1 && intent && epoch_of(iteration_plan(intent, epoch)[k]) == epoch,
{
}

/// Over any run of iterations, the epochs of the submitted display lists never
/// go back and never fall below the first one. With a fixed policy they all
/// carry the first epoch; with an incrementing one they strictly increase, as
/// long as the largest epoch is not reached.
pub proof fn lemma_session_epochs(intents: Seq<bool>, epoch: u32, policy: EpochPolicy)
    ensures
        ({
            let t = session_actions(intents, epoch, policy);
            &&& forall|k: int| 0 <= k < t.len() && is_submission(#[trigger] t[k]) ==> epoch_of(t[k]) >= epoch
            &&& policy == EpochPolicy::Fixed ==> forall|k: int|
                0 <= k < t.len() && is_submission(#[trigger] t[k]) ==> epoch_of(t[k]) == epoch
            &&& forall|i: int, j: int|
                0 <= i < j < t.len() && is_submission(#[trigger] t[i]) && is_submission(#[trigger] t[j])
                    ==> epoch_of(t[i]) <= epoch_of(t[j])
            &&& policy == EpochPolicy::Incrementing && epoch + count_set(intents) <= u32::MAX
                ==> forall|i: int, j: int|
                0 <= i < j < t.len() && is_submission(#[trigger] t[i]) && is_submission(#[trigger] t[j])
                    ==> epoch_of(t[i]) < epoch_of(t[j])
        }),
    decreases intents.len(),
{
    if intents.len() > 0 {
        let p = iteration_plan(intents[0], epoch);
        let e2 = next_epoch(policy, epoch, intents[0]);
        let r = session_actions(intents.drop_first(), e2, policy);
        let t = p + r;
        assert(t == session_actions(intents, epoch, policy));
        lemma_session_epochs(intents.drop_first(), e2, policy);
        lemma_plan_submissions(intents[0], epoch);
        assert(count_set(intents) == (if intents[0] { 1nat } else { 0nat }) + count_set(intents.drop_first()));
        assert forall|k: int| 0 <= k < t.len() && is_submission(#[trigger] t[k]) implies epoch_of(t[k]) >= epoch
            && (policy == EpochPolicy::Fixed ==> epoch_of(t[k]) == epoch) by {
            if k >= p.len() {
                assert(t[k] == r[k - p.len()]);
            }
        }
        assert forall|i: int, j: int|
            0 <= i < j < t.len() && is_submission(#[trigger] t[i]) && is_submission(#[trigger] t[j])
            implies epoch_of(t[i]) <= epoch_of(t[j]) && (policy == EpochPolicy::Incrementing && epoch
            + count_set(intents) <= u32::MAX ==> epoch_of(t[i]) < epoch_of(t[j])) by {
            if j < p.len() {
                assert(t[i] == p[i]);
                assert(t[j] == p[j]);
            } else if i < p.len() {
                assert(t[i] == p[i]);
                assert(t[j] == r[j - p.len()]);
            } else {
                assert(t[i] == r[i - p.len()]);
                assert(t[j] == r[j - p.len()]);
            }
        }
    }
}

} // verus!
