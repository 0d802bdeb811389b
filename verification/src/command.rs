//! The command that opens the player view.
//!
//! The command is a state machine over whether the player view is open. It
//! alternates with the windowing runtime: the caller observes the state, asks
//! `plan` what to do, has the runtime do it, and hands what the runtime
//! answered to `settle`. `open_player_window` runs the same two steps against
//! a `WindowRegistry`.

use vstd::prelude::*;
use crate::laws::{law_state_machine, law_success_opens_player};
use crate::registry::{count, has_label, lemma_count_positive, lookup, WindowRegistry};
use crate::window::{player_label, player_model, WindowConfig, WindowModel};

verus! {

/// Whether the player view is open.
#[derive(Clone, Copy, Debug, PartialEq, Eq, Structural)]
pub enum PlayerState {
    Absent,
    Present,
}

/// What the command asks of the runtime.
#[derive(Debug, PartialEq, Eq)]
pub enum Action {
    /// The player view is open already: nothing is created.
    Nothing,
    /// Create a window from this description.
    Create(WindowConfig),
}

/// Mathematical value of an `Action`.
pub enum ActionModel {
    Nothing,
    Create(WindowModel),
}

impl View for Action {
    type V = ActionModel;

    open spec fn view(&self) -> ActionModel {
        match self {
            Action::Nothing => ActionModel::Nothing,
            Action::Create(config) => ActionModel::Create(config@),
        }
    }
}

/// What the runtime answered to a request to create a window.
#[derive(Debug, PartialEq, Eq)]
pub enum Outcome {
    /// The window exists now.
    Created,
    /// No window was created; the runtime's description of why.
    Failed(String),
}

/// Mathematical value of an `Outcome`.
pub enum OutcomeModel {
    Created,
    Failed(Seq<char>),
}

impl View for Outcome {
    type V = OutcomeModel;

    open spec fn view(&self) -> OutcomeModel {
        match self {
            Outcome::Created => OutcomeModel::Created,
            Outcome::Failed(description) => OutcomeModel::Failed(description@),
        }
    }
}

impl Clone for Action {
    fn clone(&self) -> (copy: Action)
        ensures
            copy@ == self@,
    {
        match self {
            Action::Nothing => Action::Nothing,
            Action::Create(config) => Action::Create(config.clone()),
        }
    }
}

impl Clone for Outcome {
    fn clone(&self) -> (copy: Outcome)
        ensures
            copy@ == self@,
    {
        match self {
            Outcome::Created => Outcome::Created,
            Outcome::Failed(description) => Outcome::Failed(description.clone()),
        }
    }
}

/// Mathematical value of the command's result.
pub open spec fn result_model(result: Result<(), String>) -> Result<(), Seq<char>> {
    match result {
        Ok(_) => Ok(()),
        Err(description) => Err(description@),
    }
}

/// State of the player view in a set of windows.
pub open spec fn state_of(ws: Seq<WindowModel>) -> PlayerState {
    if has_label(ws, player_label()) {
        PlayerState::Present
    } else {
        PlayerState::Absent
    }
}

/// The request that the command makes in each state.
pub open spec fn planned(state: PlayerState) -> ActionModel {
    match state {
        PlayerState::Present => ActionModel::Nothing,
        PlayerState::Absent => ActionModel::Create(player_model()),
    }
}

/// The command's result for each answer of the runtime.
pub open spec fn settled(outcome: OutcomeModel) -> Result<(), Seq<char>> {
    match outcome {
        OutcomeModel::Created => Ok(()),
        OutcomeModel::Failed(description) => Err(description),
    }
}

/// State after one invocation. `outcome` is what the runtime answers if it
/// is asked; in state `Present` it is not asked.
pub open spec fn next_state(state: PlayerState, outcome: OutcomeModel) -> PlayerState {
    match state {
        PlayerState::Present => PlayerState::Present,
        PlayerState::Absent => match outcome {
            OutcomeModel::Created => PlayerState::Present,
            OutcomeModel::Failed(_) => PlayerState::Absent,
        },
    }
}

/// The windows after one invocation on `ws`.
pub open spec fn windows_after(ws: Seq<WindowModel>, outcome: OutcomeModel) -> Seq<WindowModel> {
    if state_of(ws) == PlayerState::Absent && outcome is Created {
        ws.push(player_model())
    } else {
        ws
    }
}

/// The result of one invocation on `ws`.
pub open spec fn result_after(
    ws: Seq<WindowModel>,
    outcome: OutcomeModel,
) -> Result<(), Seq<char>> {
    match state_of(ws) {
        PlayerState::Present => Ok(()),
        PlayerState::Absent => settled(outcome),
    }
}

impl PlayerState {
    /// The state that an observation of the runtime stands for.
    pub fn observed(present: bool) -> (state: PlayerState)
        ensures
            state == if present {
                PlayerState::Present
            } else {
                PlayerState::Absent
            },
    {
        if present {
            PlayerState::Present
        } else {
            PlayerState::Absent
        }
    }

    /// State after one invocation of the command.
    pub fn advance(self, outcome: &Outcome) -> (next: PlayerState)
        ensures
            next == next_state(self, outcome@),
    {
        match self {
            PlayerState::Present => PlayerState::Present,
            PlayerState::Absent => match outcome {
                Outcome::Created => PlayerState::Present,
                Outcome::Failed(_) => PlayerState::Absent,
            },
        }
    }
}

impl WindowRegistry {
    /// Whether the player view is among the open windows.
    pub fn player_state(&self) -> (state: PlayerState)
        ensures
            state == state_of(self@),
    {
        PlayerState::observed(self.contains(WindowConfig::player_label()))
    }
}

/// First step of the command: what to ask of the runtime. Nothing while the
/// player view is open, else one window from the player view's description.
pub fn plan(state: PlayerState) -> (action: Action)
    ensures
        action@ == planned(state),
{
    match state {
        PlayerState::Present => Action::Nothing,
        PlayerState::Absent => Action::Create(WindowConfig::player()),
    }
}

/// Last step of the command: its result, from the runtime's answer. A
/// failure carries the runtime's description unchanged.
pub fn settle(outcome: Outcome) -> (result: Result<(), String>)
    ensures
        result_model(result) == settled(outcome@),
{
    match outcome {
        Outcome::Created => Ok(()),
        Outcome::Failed(description) => Err(description),
    }
}

/// Opens the player view in `registry` unless it is open already.
///
/// `outcome` is the runtime's answer to the one creation request that the
/// command may make. While the player view is open no request is made: the
/// command succeeds and the registry stays as it is. Otherwise the window is
/// added when the runtime created it, and a failure is handed on with the
/// registry untouched.
pub fn open_player_window(
    registry: &mut WindowRegistry,
    outcome: Outcome,
) -> (result: Result<(), String>)
    requires
        old(registry).wf(),
    ensures
        final(registry).wf(),
        final(registry)@ == windows_after(old(registry)@, outcome@),
        result_model(result) == result_after(old(registry)@, outcome@),
        state_of(final(registry)@) == next_state(state_of(old(registry)@), outcome@),
        result is Ok ==> count(final(registry)@, player_label()) == 1,
        result is Ok && !has_label(old(registry)@, player_label())
            ==> lookup(final(registry)@, player_label()) == Some(player_model()),
        result is Err ==> count(final(registry)@, player_label()) == 0,
{
    proof {
        law_state_machine(registry@, outcome@);
        if result_after(registry@, outcome@) is Ok {
            law_success_opens_player(registry@, outcome@);
        } else {
            lemma_count_positive(registry@, player_label());
        }
    }
    match plan(registry.player_state()) {
        Action::Nothing => Ok(()),
        Action::Create(config) => {
            match &outcome {
                Outcome::Created => {
                    registry.register(config);
                },
                Outcome::Failed(_) => {},
            }
            settle(outcome)
        },
    }
}

} // verus!
