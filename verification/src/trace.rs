//! What a consumer does over a whole sequence of events, and the laws that
//! hold of every such sequence.

use vstd::prelude::*;
use crate::consumer::{
    Action, Consumer, Event, Failure, Phase, Role, SetupStep, acknowledges, delivery_actions, is_final,
    posts_to_slack, step_after, transition,
};

verus! {

/// The state reached and the actions asked for when `c` takes `events` in order.
pub open spec fn run(c: Consumer, events: Seq<Event>) -> (Consumer, Seq<Action>)
    decreases events.len(),
{
    if events.len() == 0 {
        (c, Seq::empty())
    } else {
        let first = transition(c, events[0]);
        let rest = run(first.0, events.drop_first());
        (rest.0, first.1 + rest.1)
    }
}

/// How many times `a` occurs in `s`.
pub open spec fn occurrences(s: Seq<Action>, a: Action) -> nat
    decreases s.len(),
{
    if s.len() == 0 {
        0
    } else {
        (if s[0] == a { 1nat } else { 0nat }) + occurrences(s.drop_first(), a)
    }
}

/// Whether an event ends consuming.
pub open spec fn ends_consuming(e: Event) -> bool {
    e is Shutdown || e is DeliveryError
}

/// The deliveries among `events` before the first one that ends consuming;
/// with `only_parsed`, only those whose body parsed.
pub open spec fn deliveries_before_end(events: Seq<Event>, only_parsed: bool) -> nat
    decreases events.len(),
{
    if events.len() == 0 || ends_consuming(events[0]) {
        0
    } else {
        (match events[0] {
            Event::Delivery { parsed } => if parsed || !only_parsed { 1nat } else { 0nat },
            _ => 0nat,
        }) + deliveries_before_end(events.drop_first(), only_parsed)
    }
}

/// The actions that bring a fresh consumer to consuming: every setup step in
/// order, then the first wait for a delivery.
pub open spec fn setup_plan() -> Seq<Action> {
    seq![
        Action::Perform(SetupStep::CreatePool),
        Action::Perform(SetupStep::GetConnection),
        Action::Perform(SetupStep::CreateChannel),
        Action::Perform(SetupStep::DeclareExchange),
        Action::Perform(SetupStep::DeclareQueue),
        Action::Perform(SetupStep::SetQos),
        Action::Perform(SetupStep::Subscribe),
        Action::AwaitNext,
    ]
}

/// Position of a setup step in the plan.
spec fn step_index(s: SetupStep) -> int {
    match s {
        SetupStep::CreatePool => 0,
        SetupStep::GetConnection => 1,
        SetupStep::CreateChannel => 2,
        SetupStep::DeclareExchange => 3,
        SetupStep::DeclareQueue => 4,
        SetupStep::SetQos => 5,
        SetupStep::Subscribe => 6,
    }
}

/// What is left of the plan in a phase before consuming.
spec fn plan_left(p: Phase) -> Seq<Action> {
    match p {
        Phase::Setup(s) => setup_plan().skip(step_index(s) + 1),
        _ => setup_plan(),
    }
}

proof fn lemma_occurrences_concat(s: Seq<Action>, t: Seq<Action>, a: Action)
    ensures
        occurrences(s + t, a) == occurrences(s, a) + occurrences(t, a),
    decreases s.len(),
{
    if s.len() > 0 {
        assert((s + t).drop_first() =~= s.drop_first() + t);
        lemma_occurrences_concat(s.drop_first(), t, a);
    } else {
        assert(s + t =~= t);
    }
}

proof fn lemma_occurrences_small(a: Action)
    ensures
        occurrences(Seq::<Action>::empty(), a) == 0,
        forall|x: Action| #[trigger] occurrences(seq![x], a) == if x == a { 1nat } else { 0nat },
{
    assert forall|x: Action| #[trigger] occurrences(seq![x], a) == if x == a { 1nat } else { 0nat } by {
        assert(seq![x].drop_first() =~= Seq::<Action>::empty());
        assert(occurrences(Seq::<Action>::empty(), a) == 0);
    }
}

proof fn lemma_delivery_counts(role: Role, parsed: bool, a: Action)
    ensures
        occurrences(delivery_actions(role, parsed), a) == (if a == Action::Report {
            if parsed { 1nat } else { 0nat }
        } else if a == Action::PostToSlack {
            if parsed && posts_to_slack(role) { 1nat } else { 0nat }
        } else if a == Action::Acknowledge {
            if acknowledges(role) { 1nat } else { 0nat }
        } else if a == Action::AwaitNext {
            1nat
        } else {
            0nat
        }),
{
    let r: Seq<Action> = if parsed { seq![Action::Report] } else { Seq::empty() };
    let p: Seq<Action> = if parsed && posts_to_slack(role) { seq![Action::PostToSlack] } else { Seq::empty() };
    let k: Seq<Action> = if acknowledges(role) { seq![Action::Acknowledge] } else { Seq::empty() };
    let w: Seq<Action> = seq![Action::AwaitNext];
    lemma_occurrences_small(a);
    lemma_occurrences_concat(r, p, a);
    lemma_occurrences_concat(r + p, k, a);
    lemma_occurrences_concat(r + p + k, w, a);
}

/// A consumer that has stopped or given up stays as it is and asks for
/// nothing more, whatever happens next.
pub proof fn lemma_final_is_absorbing(c: Consumer, events: Seq<Event>)
    requires
        is_final(c.phase),
    ensures
        run(c, events).0 == c,
        run(c, events).1 == Seq::<Action>::empty(),
    decreases events.len(),
{
    if events.len() > 0 {
        lemma_final_is_absorbing(c, events.drop_first());
        assert(run(c, events).1 =~= Seq::<Action>::empty());
    }
}

/// A shutdown while consuming stops the consumer at once, with no further
/// action ever.
pub proof fn lemma_shutdown_stops(c: Consumer, events: Seq<Event>)
    requires
        c.phase == Phase::Consuming,
    ensures
        run(c, seq![Event::Shutdown] + events).0 == (Consumer { phase: Phase::Stopped, ..c }),
        run(c, seq![Event::Shutdown] + events).1 == Seq::<Action>::empty(),
{
    let all = seq![Event::Shutdown] + events;
    let stopped = Consumer { phase: Phase::Stopped, ..c };
    assert(all[0] == Event::Shutdown);
    assert(all.drop_first() =~= events);
    lemma_final_is_absorbing(stopped, events);
    assert(run(c, all).1 =~= Seq::<Action>::empty());
}

/// A failed setup step makes the consumer give up with that step's failure,
/// as its only action, and it does nothing afterwards.
pub proof fn lemma_setup_failure_aborts(c: Consumer, s: SetupStep, events: Seq<Event>)
    requires
        c.phase == Phase::Setup(s),
    ensures
        run(c, seq![Event::StepFailed] + events).0
            == (Consumer { phase: Phase::Failed(Failure::Setup(s)), ..c }),
        run(c, seq![Event::StepFailed] + events).1 == seq![Action::Abort(Failure::Setup(s))],
{
    let all = seq![Event::StepFailed] + events;
    let failed = Consumer { phase: Phase::Failed(Failure::Setup(s)), ..c };
    assert(all[0] == Event::StepFailed);
    assert(all.drop_first() =~= events);
    lemma_final_is_absorbing(failed, events);
    assert(run(c, all).1 =~= seq![Action::Abort(Failure::Setup(s))]);
}

/// An error from the delivery stream makes a consuming consumer of any role
/// give up with the delivery failure as its only action, keeping its role.
pub proof fn lemma_delivery_error_aborts(c: Consumer, events: Seq<Event>)
    requires
        c.phase == Phase::Consuming,
    ensures
        transition(c, Event::DeliveryError).0
            == (Consumer { role: c.role, phase: Phase::Failed(Failure::Delivery) }),
        transition(c, Event::DeliveryError).1 == seq![Action::Abort(Failure::Delivery)],
        run(c, seq![Event::DeliveryError] + events).0
            == (Consumer { role: c.role, phase: Phase::Failed(Failure::Delivery) }),
        run(c, seq![Event::DeliveryError] + events).1 == seq![Action::Abort(Failure::Delivery)],
{
    let all = seq![Event::DeliveryError] + events;
    let failed = Consumer { role: c.role, phase: Phase::Failed(Failure::Delivery) };
    assert(all[0] == Event::DeliveryError);
    assert(all.drop_first() =~= events);
    lemma_final_is_absorbing(failed, events);
    assert(run(c, all).1 =~= seq![Action::Abort(Failure::Delivery)]);
}

/// What each role does with a delivery while consuming: the error relay
/// reports a parsed record, posts it to Slack and acknowledges; the activity
/// log reports a parsed record and acknowledges; the error watcher only
/// reports a parsed record. Every role acknowledges unparsed deliveries as it
/// does parsed ones, reports nothing for them, and then waits again; the
/// consumer stays as it is.
pub proof fn lemma_delivery_by_role(c: Consumer, parsed: bool)
    requires
        c.phase == Phase::Consuming,
    ensures
        transition(c, Event::Delivery { parsed }).0 == c,
        c.role == Role::ErrorAlerts && parsed ==> transition(c, Event::Delivery { parsed }).1
            == seq![Action::Report, Action::PostToSlack, Action::Acknowledge, Action::AwaitNext],
        c.role == Role::ErrorAlerts && !parsed ==> transition(c, Event::Delivery { parsed }).1
            == seq![Action::Acknowledge, Action::AwaitNext],
        c.role == Role::ActivityLog && parsed ==> transition(c, Event::Delivery { parsed }).1
            == seq![Action::Report, Action::Acknowledge, Action::AwaitNext],
        c.role == Role::ActivityLog && !parsed ==> transition(c, Event::Delivery { parsed }).1
            == seq![Action::Acknowledge, Action::AwaitNext],
        c.role == Role::ErrorWatch && parsed ==> transition(c, Event::Delivery { parsed }).1
            == seq![Action::Report, Action::AwaitNext],
        c.role == Role::ErrorWatch && !parsed ==> transition(c, Event::Delivery { parsed }).1
            == seq![Action::AwaitNext],
{
    let a = transition(c, Event::Delivery { parsed }).1;
    assert(a == delivery_actions(c.role, parsed));
    if c.role == Role::ErrorAlerts && parsed {
        assert(a =~= seq![Action::Report, Action::PostToSlack, Action::Acknowledge, Action::AwaitNext]);
    } else if c.role == Role::ErrorAlerts {
        assert(a =~= seq![Action::Acknowledge, Action::AwaitNext]);
    } else if c.role == Role::ActivityLog && parsed {
        assert(a =~= seq![Action::Report, Action::Acknowledge, Action::AwaitNext]);
    } else if c.role == Role::ActivityLog {
        assert(a =~= seq![Action::Acknowledge, Action::AwaitNext]);
    } else if parsed {
        assert(a =~= seq![Action::Report, Action::AwaitNext]);
    } else {
        assert(a =~= seq![Action::AwaitNext]);
    }
}

proof fn lemma_plan_left_step(c: Consumer, e: Event)
    requires
        c.phase is Idle || c.phase is Setup,
    ensures
        ({
            let t = transition(c, e);
            &&& (t.0.phase is Idle || t.0.phase is Setup) ==> plan_left(c.phase) == t.1 + plan_left(t.0.phase)
            &&& t.0.phase is Consuming ==> plan_left(c.phase) == t.1
            &&& (t.0.phase is Idle || t.0.phase is Setup || t.0.phase is Consuming || is_final(t.0.phase))
        }),
{
    let t = transition(c, e);
    let plan = setup_plan();
    match c.phase {
        Phase::Idle => {
            if e is Start {
                assert(plan =~= seq![Action::Perform(SetupStep::CreatePool)] + plan.skip(1));
            } else {
                assert(plan =~= Seq::<Action>::empty() + plan);
            }
        },
        Phase::Setup(s) => {
            let i = step_index(s);
            if e is StepSucceeded {
                match step_after(s) {
                    Some(n) => {
                        assert(step_index(n) == i + 1);
                        assert(plan.skip(i + 1) =~= seq![Action::Perform(n)] + plan.skip(i + 2));
                    },
                    None => {
                        assert(plan.skip(i + 1) =~= seq![Action::AwaitNext]);
                    },
                }
            } else if !(e is StepFailed) {
                assert(plan.skip(i + 1) =~= Seq::<Action>::empty() + plan.skip(i + 1));
            }
        },
        _ => {},
    }
}

proof fn lemma_plan_prefix(c: Consumer, events: Seq<Event>)
    requires
        c.phase is Idle || c.phase is Setup,
        run(c, events).0.phase == Phase::Consuming,
    ensures
        plan_left(c.phase).is_prefix_of(run(c, events).1),
    decreases events.len(),
{
    if events.len() > 0 {
        let t = transition(c, events[0]);
        let rest = events.drop_first();
        lemma_plan_left_step(c, events[0]);
        if is_final(t.0.phase) {
            lemma_final_is_absorbing(t.0, rest);
        } else if t.0.phase is Consuming {
            assert(plan_left(c.phase) =~= run(c, events).1.subrange(0, t.1.len() as int));
        } else {
            lemma_plan_prefix(t.0, rest);
            let r = run(t.0, rest).1;
            let left = plan_left(t.0.phase);
            assert(left =~= r.subrange(0, left.len() as int));
            assert(plan_left(c.phase) =~= (t.1 + r).subrange(0, (t.1.len() + left.len()) as int));
        }
    }
}

/// A consumer begins consuming only after it has asked, in order, for every
/// setup step and then for the first delivery: whatever the events, once a
/// fresh consumer is consuming, its actions begin with the whole setup plan.
pub proof fn lemma_consuming_follows_setup(role: Role, events: Seq<Event>)
    requires
        run(Consumer { role, phase: Phase::Idle }, events).0.phase == Phase::Consuming,
    ensures
        setup_plan().is_prefix_of(run(Consumer { role, phase: Phase::Idle }, events).1),
{
    lemma_plan_prefix(Consumer { role, phase: Phase::Idle }, events);
}

/// While consuming, up to the event that ends it: a consumer whose role
/// acknowledges does so exactly once per delivery, parsed or not, and one
/// whose role does not never does; every parsed delivery is reported exactly
/// once and no other is; Slack gets exactly one post per parsed delivery when
/// the role posts, and none otherwise. Consuming never leaves the consumer
/// for another phase than stopped or failed.
pub proof fn lemma_delivery_accounting(c: Consumer, events: Seq<Event>)
    requires
        c.phase == Phase::Consuming,
    ensures
        run(c, events).0.role == c.role,
        run(c, events).0.phase is Consuming || is_final(run(c, events).0.phase),
        occurrences(run(c, events).1, Action::Acknowledge)
            == (if acknowledges(c.role) { deliveries_before_end(events, false) } else { 0 }),
        occurrences(run(c, events).1, Action::Report) == deliveries_before_end(events, true),
        occurrences(run(c, events).1, Action::PostToSlack)
            == (if posts_to_slack(c.role) { deliveries_before_end(events, true) } else { 0 }),
    decreases events.len(),
{
    lemma_occurrences_small(Action::Acknowledge);
    lemma_occurrences_small(Action::Report);
    lemma_occurrences_small(Action::PostToSlack);
    if events.len() > 0 {
        let e = events[0];
        let rest = events.drop_first();
        let t = transition(c, e);
        if ends_consuming(e) {
            lemma_final_is_absorbing(t.0, rest);
            assert(run(c, events).1 == t.1 + Seq::<Action>::empty());
            assert(t.1 + Seq::<Action>::empty() =~= t.1);
        } else {
            lemma_delivery_accounting(t.0, rest);
            lemma_occurrences_concat(t.1, run(t.0, rest).1, Action::Acknowledge);
            lemma_occurrences_concat(t.1, run(t.0, rest).1, Action::Report);
            lemma_occurrences_concat(t.1, run(t.0, rest).1, Action::PostToSlack);
            match e {
                Event::Delivery { parsed } => {
                    lemma_delivery_counts(c.role, parsed, Action::Acknowledge);
                    lemma_delivery_counts(c.role, parsed, Action::Report);
                    lemma_delivery_counts(c.role, parsed, Action::PostToSlack);
                },
                _ => {},
            }
        }
    }
}

} // verus!
