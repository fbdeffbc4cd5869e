//! What holds of a plugin's life cycle on every state.
use crate::base_plugin::{
    retry_count_of, retry_interval_of, BasePluginView, HeartbeatLoopView, StartStepView, StopStepView,
};
use crate::protocol::RegistrationResponseView;
use vstd::prelude::*;

verus! {

/// What one registration attempt came to.
pub type Outcome = Result<RegistrationResponseView, Seq<char>>;

/// Stopping a plugin twice in a row succeeds both times; the second stop
/// finds the plugin stopped, changes nothing, signals nothing and notifies
/// nobody.
pub proof fn law_stop_is_idempotent(s: BasePluginView)
    ensures
        !s.stop().0.running,
        s.stop().0.stop() == (s.stop().0, StopStepView::AlreadyStopped),
{
}

/// Starting a plugin that runs changes nothing and succeeds.
pub proof fn law_start_is_idempotent(s: BasePluginView, local_id: Seq<char>, other_id: Seq<char>)
    requires
        s.config.is_some(),
    ensures
        s.start(local_id).0.running,
        s.start(local_id).0.start(other_id) == (s.start(local_id).0, StartStepView::AlreadyRunning),
{
}

/// A start fails only where the plugin was never initialized; with a
/// configuration it never ends without success, whatever the registration
/// attempts come to.
pub proof fn law_registration_failure_is_not_fatal(
    s: BasePluginView,
    outcome: Outcome,
    local_id: Seq<char>,
)
    ensures
        s.start(local_id).1 == StartStepView::NotInitialized <==> !s.running && s.config.is_none(),
        s.registration_result(outcome, local_id).1 != StartStepView::NotInitialized,
        s.registration_result(outcome, local_id).1.outcome() != Some(false),
{
}

/// A plugin that runs and is done registering keeps its identifier: neither
/// a further start, nor a late report of a registration attempt, nor a stop
/// changes it.
pub proof fn law_identifier_is_kept(s: BasePluginView, outcome: Outcome, local_id: Seq<char>)
    requires
        s.running,
        !s.registering,
    ensures
        s.start(local_id).0 == s,
        s.registration_result(outcome, local_id).0 == s,
        s.stop().0.info.id == s.info.id,
{
}

/// While a plugin is registering, a failed attempt leaves its identifier as
/// it was unless the plugin gives up; the identifier changes only when the
/// orchestrator issues one or the plugin gives itself one.
pub proof fn law_identifier_changes_once(s: BasePluginView, outcome: Outcome, local_id: Seq<char>)
    requires
        s.running,
        s.registering,
        s.config.is_some(),
    ensures
        ({
            let (end, step) = s.registration_result(outcome, local_id);
            if BasePluginView::accepted(outcome) {
                end.info.id == outcome->Ok_0.plugin_id && !end.registering
            } else if s.gives_up() {
                end.info.id == local_id && !end.registering
            } else {
                end.info.id == s.info.id && end.registering
            }
        }),
{
}

/// The plugin after `start` and after it was told the outcomes of its
/// registration attempts, one after the other; with every step that it
/// returned on the way.
pub open spec fn drive(s: BasePluginView, outcomes: Seq<Outcome>, local_id: Seq<char>) -> (
    BasePluginView,
    Seq<StartStepView>,
)
    decreases outcomes.len(),
{
    if outcomes.len() == 0 {
        (s.start(local_id).0, seq![s.start(local_id).1])
    } else {
        let (before, steps) = drive(s, outcomes.drop_last(), local_id);
        let (after, step) = before.registration_result(outcomes.last(), local_id);
        (after, steps.push(step))
    }
}

/// How many of `steps` send a registration.
pub open spec fn registrations(steps: Seq<StartStepView>) -> nat
    decreases steps.len(),
{
    if steps.len() == 0 {
        0
    } else {
        registrations(steps.drop_last()) + if steps.last().registers() {
            1nat
        } else {
            0nat
        }
    }
}

/// Whether none of the attempts registered the plugin.
pub open spec fn all_failed(outcomes: Seq<Outcome>) -> bool {
    forall|i: int| 0 <= i < outcomes.len() ==> !BasePluginView::accepted(#[trigger] outcomes[i])
}

/// As long as fewer attempts have failed than the budget allows, the plugin
/// is still registering, and it has sent one registration more than have
/// failed.
pub proof fn lemma_still_registering(s: BasePluginView, outcomes: Seq<Outcome>, local_id: Seq<char>)
    requires
        !s.running,
        s.config.is_some(),
        outcomes.len() < retry_count_of(s.config.unwrap()),
        all_failed(outcomes),
    ensures
        drive(s, outcomes, local_id).0 == (BasePluginView {
            running: true,
            registering: true,
            attempts: (outcomes.len() + 1) as u32,
            ..s
        }),
        drive(s, outcomes, local_id).1.len() == outcomes.len() + 1,
        registrations(drive(s, outcomes, local_id).1) == outcomes.len() + 1,
        forall|i: int|
            1 <= i <= outcomes.len() ==> #[trigger] drive(s, outcomes, local_id).1[i]
                == (StartStepView::RetryAfter {
                seconds: retry_interval_of(s.config.unwrap()),
                request: s.registration(),
            }),
    decreases outcomes.len(),
{
    if outcomes.len() == 0 {
        let steps = drive(s, outcomes, local_id).1;
        assert(steps.drop_last() =~= Seq::empty());
        assert(registrations(steps.drop_last()) == 0);
    } else {
        let front = outcomes.drop_last();
        assert(all_failed(front)) by {
            assert forall|i: int| 0 <= i < front.len() implies !BasePluginView::accepted(
                #[trigger] front[i],
            ) by {
                assert(front[i] == outcomes[i]);
            }
        }
        lemma_still_registering(s, front, local_id);
        let (before, steps) = drive(s, front, local_id);
        let (after, step) = before.registration_result(outcomes.last(), local_id);
        assert(!BasePluginView::accepted(outcomes[outcomes.len() - 1]));
        assert(steps.push(step).drop_last() =~= steps);
        assert forall|i: int| 1 <= i <= outcomes.len() implies #[trigger] drive(
            s,
            outcomes,
            local_id,
        ).1[i] == (StartStepView::RetryAfter {
            seconds: retry_interval_of(s.config.unwrap()),
            request: s.registration(),
        }) by {
            if i < outcomes.len() {
                assert(drive(s, front, local_id).1[i] == steps.push(step)[i]);
            }
        }
    }
}

/// Where every registration attempt fails, a plugin whose configuration
/// asks for `n` attempts, `n` being at least one, sends exactly `n`
/// registrations, with a pause before each but the first and none after the
/// last. It then runs all the same, under the identifier that it gave
/// itself, and its heartbeat is to be spawned.
pub proof fn law_registration_is_bounded(s: BasePluginView, outcomes: Seq<Outcome>, local_id: Seq<char>)
    requires
        !s.running,
        s.config.is_some(),
        retry_count_of(s.config.unwrap()) >= 1,
        outcomes.len() == retry_count_of(s.config.unwrap()),
        all_failed(outcomes),
    ensures
        ({
            let (end, steps) = drive(s, outcomes, local_id);
            &&& registrations(steps) == outcomes.len()
            &&& steps.len() == outcomes.len() + 1
            &&& steps[0] == StartStepView::Register(s.registration())
            &&& steps.last() == StartStepView::Heartbeat(end.heartbeat_plan())
            &&& steps.last().outcome() == Some(true)
            &&& end.running
            &&& !end.registering
            &&& end.standalone
            &&& end.heartbeat
            &&& end.info.id == local_id
            &&& end.attempts == outcomes.len()
            &&& end.heartbeat_plan().plugin_id == local_id
            &&& end.heartbeat_plan().reregister
        }),
{
    let front = outcomes.drop_last();
    assert(all_failed(front)) by {
        assert forall|i: int| 0 <= i < front.len() implies !BasePluginView::accepted(
            #[trigger] front[i],
        ) by {
            assert(front[i] == outcomes[i]);
        }
    }
    lemma_still_registering(s, front, local_id);
    let (before, steps) = drive(s, front, local_id);
    let (after, step) = before.registration_result(outcomes.last(), local_id);
    assert(!BasePluginView::accepted(outcomes[outcomes.len() - 1]));
    assert(steps.push(step).drop_last() =~= steps);
    if front.len() == 0 {
        assert(steps[0] == s.start(local_id).1);
    } else {
        lemma_first_step(s, front, local_id);
    }
}

/// The first step of a start is what `start` returned.
pub proof fn lemma_first_step(s: BasePluginView, outcomes: Seq<Outcome>, local_id: Seq<char>)
    ensures
        drive(s, outcomes, local_id).1.len() == outcomes.len() + 1,
        drive(s, outcomes, local_id).1[0] == s.start(local_id).1,
    decreases outcomes.len(),
{
    if outcomes.len() > 0 {
        lemma_first_step(s, outcomes.drop_last(), local_id);
    }
}

/// Where the orchestrator accepts the plugin, the plugin adopts the
/// identifier issued, and its heartbeat asks for no further registration.
pub proof fn law_accepted_registration(
    s: BasePluginView,
    response: RegistrationResponseView,
    local_id: Seq<char>,
)
    requires
        s.running,
        s.registering,
        s.config.is_some(),
        response.success,
    ensures
        ({
            let (end, step) = s.registration_result(Ok(response), local_id);
            &&& end.info.id == response.plugin_id
            &&& end.config.unwrap().plugin_id == response.plugin_id
            &&& end.running
            &&& !end.standalone
            &&& step == StartStepView::Heartbeat(end.heartbeat_plan())
            &&& !end.heartbeat_plan().reregister
        }),
{
}

/// A heartbeat task whose plugin was registered by the orchestrator never
/// asks to be registered again, and one in local mode stops asking once its
/// budget is used up.
pub proof fn law_reregistration_is_bounded(h: HeartbeatLoopView)
    ensures
        !h.reregister ==> !h.asks_again(),
        h.retries >= crate::base_plugin::MAX_REREGISTRATIONS ==> !h.asks_again(),
{
}

} // verus!
