//! What holds of the command over every set of windows.

use vstd::prelude::*;
use crate::command::{
    next_state, result_after, state_of, windows_after, OutcomeModel, PlayerState,
};
use crate::registry::{
    count, distinct_labels, has_label, lemma_count_at_most_one, lemma_count_positive,
    lemma_count_push, lemma_push_keeps_distinct, lookup,
};
use crate::window::{player_label, player_model, WindowModel};

verus! {

/// The command keeps the window set valid, and moves the player view
/// between `Absent` and `Present` as the state machine says.
pub proof fn law_state_machine(ws: Seq<WindowModel>, outcome: OutcomeModel)
    requires
        distinct_labels(ws),
    ensures
        distinct_labels(windows_after(ws, outcome)),
        state_of(windows_after(ws, outcome)) == next_state(state_of(ws), outcome),
        count(windows_after(ws, outcome), player_label()) <= 1,
{
    if state_of(ws) == PlayerState::Absent && outcome is Created {
        lemma_push_keeps_distinct(ws, player_model());
    }
    lemma_count_at_most_one(windows_after(ws, outcome), player_label());
}

/// Invoking the command twice in a row leaves exactly one window that
/// carries the player view's label, and the second invocation succeeds,
/// unless the runtime was asked both times and failed both times. After a
/// first success the second invocation changes nothing, whatever the runtime
/// would have answered.
pub proof fn law_idempotent(ws: Seq<WindowModel>, first: OutcomeModel, second: OutcomeModel)
    requires
        distinct_labels(ws),
        result_after(ws, first) is Ok || second is Created,
    ensures
        result_after(windows_after(ws, first), second) is Ok,
        count(windows_after(windows_after(ws, first), second), player_label()) == 1,
        distinct_labels(windows_after(windows_after(ws, first), second)),
        result_after(ws, first) is Ok ==> windows_after(windows_after(ws, first), second)
            == windows_after(ws, first),
{
    let once = windows_after(ws, first);
    let twice = windows_after(once, second);
    law_state_machine(ws, first);
    law_state_machine(once, second);
    assert(state_of(twice) == PlayerState::Present);
    lemma_count_positive(twice, player_label());
}

/// The command touches no window but the player view: every other label is
/// open afterwards exactly when it was open before, and as often.
pub proof fn law_other_windows_untouched(
    ws: Seq<WindowModel>,
    outcome: OutcomeModel,
    label: Seq<char>,
)
    requires
        label != player_label(),
    ensures
        count(windows_after(ws, outcome), label) == count(ws, label),
        has_label(windows_after(ws, outcome), label) == has_label(ws, label),
{
    lemma_count_push(ws, player_model(), label);
    lemma_count_positive(ws, label);
    lemma_count_positive(windows_after(ws, outcome), label);
}

/// After a success exactly one window carries the player view's label, and
/// where the command created it, it is titled "VTT - Player View" and
/// measures 1920 by 1080.
pub proof fn law_success_opens_player(ws: Seq<WindowModel>, outcome: OutcomeModel)
    requires
        distinct_labels(ws),
        result_after(ws, outcome) is Ok,
    ensures
        count(windows_after(ws, outcome), player_label()) == 1,
        lookup(windows_after(ws, outcome), player_label()) is Some,
        state_of(ws) == PlayerState::Absent ==> {
            let w = lookup(windows_after(ws, outcome), player_label())->Some_0;
            &&& w == player_model()
            &&& w.title == "VTT - Player View"@
            &&& w.width == 1920
            &&& w.height == 1080
            &&& windows_after(ws, outcome).len() == ws.len() + 1
        },
{
    let after = windows_after(ws, outcome);
    law_state_machine(ws, outcome);
    assert(state_of(after) == PlayerState::Present);
    lemma_count_positive(after, player_label());
    if state_of(ws) == PlayerState::Absent {
        lemma_push_keeps_distinct(ws, player_model());
    }
}

/// Where the runtime is asked and fails with a description, the command
/// fails with that description, and no window carries the player view's
/// label afterwards: the window set is as it was.
pub proof fn law_failure_propagates(ws: Seq<WindowModel>, description: Seq<char>)
    requires
        distinct_labels(ws),
        !has_label(ws, player_label()),
        description.len() > 0,
    ensures
        result_after(ws, OutcomeModel::Failed(description)) == Err::<(), Seq<char>>(description),
        result_after(ws, OutcomeModel::Failed(description))->Err_0.len() > 0,
        windows_after(ws, OutcomeModel::Failed(description)) == ws,
        !has_label(windows_after(ws, OutcomeModel::Failed(description)), player_label()),
        count(windows_after(ws, OutcomeModel::Failed(description)), player_label()) == 0,
{
    lemma_count_positive(ws, player_label());
}

/// The command fails only where the player view was absent and the runtime
/// failed to create it.
pub proof fn law_failure_only_from_runtime(ws: Seq<WindowModel>, outcome: OutcomeModel)
    ensures
        result_after(ws, outcome) is Err <==> (!has_label(ws, player_label())
            && outcome is Failed),
{
}

} // verus!
