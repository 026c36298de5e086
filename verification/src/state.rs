//! The loading state machine: pre-loading, loading, post-loading, playing,
//! strictly in that order.

use vstd::prelude::*;
use crate::resource::LoadingProgress;

verus! {

/// Frames rendered in `PreLoading` before loading starts.
pub const PRELOADING_FRAMES: u8 = 3;

/// The phase the application is in.
#[derive(Clone, Copy, Debug, PartialEq, Eq, Hash, Structural)]
pub enum GameState {
    /// The first frames: the loading screen is drawn, nothing is loaded yet.
    PreLoading,
    /// Meshes are generated and textures loaded.
    Loading,
    /// Everything is loaded; the sphere becomes visible.
    PostLoading,
    /// The application proper.
    Playing,
}

impl Default for GameState {
    fn default() -> (r: GameState)
        ensures
            r == GameState::PreLoading,
    {
        GameState::PreLoading
    }
}

impl GameState {
    /// Position of the state in the forward order.
    pub open spec fn rank(self) -> int {
        match self {
            GameState::PreLoading => 0,
            GameState::Loading => 1,
            GameState::PostLoading => 2,
            GameState::Playing => 3,
        }
    }

    /// The state after one tick. `frames_rendered` counts the frames drawn
    /// in `PreLoading`, the current one included.
    pub open spec fn spec_transition(
        self,
        progress: LoadingProgress,
        frames_rendered: u8,
    ) -> GameState {
        match self {
            GameState::PreLoading => if frames_rendered >= PRELOADING_FRAMES {
                GameState::Loading
            } else {
                GameState::PreLoading
            },
            GameState::Loading => if progress.spec_is_complete() {
                GameState::PostLoading
            } else {
                GameState::Loading
            },
            GameState::PostLoading => GameState::Playing,
            GameState::Playing => GameState::Playing,
        }
    }
}

/// The state that follows `state` after one tick: `PreLoading` ends with its
/// third frame, `Loading` ends once both counters have reached their
/// targets, `PostLoading` lasts one tick, `Playing` stays.
pub fn transition(
    state: GameState,
    progress: &LoadingProgress,
    frames_rendered: u8,
) -> (next: GameState)
    ensures
        next == state.spec_transition(*progress, frames_rendered),
        next.rank() == state.rank() || next.rank() == state.rank() + 1,
{
    match state {
        GameState::PreLoading => if frames_rendered >= PRELOADING_FRAMES {
            GameState::Loading
        } else {
            GameState::PreLoading
        },
        GameState::Loading => if progress.is_complete() {
            GameState::PostLoading
        } else {
            GameState::Loading
        },
        GameState::PostLoading => GameState::Playing,
        GameState::Playing => GameState::Playing,
    }
}

/// The state machine with its frame counter.
#[derive(Clone, Copy, Debug, PartialEq, Eq, Structural)]
pub struct LoadMachine {
    pub state: GameState,
    /// Frames drawn in `PreLoading`; it stops counting at the third.
    pub frames_rendered: u8,
}

impl LoadMachine {
    /// The machine at startup.
    pub open spec fn spec_new() -> LoadMachine {
        LoadMachine { state: GameState::PreLoading, frames_rendered: 0 }
    }

    /// The frame counter after a tick: a frame drawn in `PreLoading` is
    /// counted, up to the third.
    pub open spec fn frames_after_tick(self) -> u8 {
        if self.state == GameState::PreLoading && self.frames_rendered < PRELOADING_FRAMES {
            (self.frames_rendered + 1) as u8
        } else {
            self.frames_rendered
        }
    }

    /// The machine after one tick that sees the counters `progress`.
    pub open spec fn spec_tick(self, progress: LoadingProgress) -> LoadMachine {
        LoadMachine {
            state: self.state.spec_transition(progress, self.frames_after_tick()),
            frames_rendered: self.frames_after_tick(),
        }
    }

    /// The machine after the first `ticks` of the given ticks, each seeing
    /// its own counters.
    pub open spec fn spec_run(self, inputs: Seq<LoadingProgress>, ticks: int) -> LoadMachine
        decreases ticks,
    {
        if ticks <= 0 {
            self
        } else {
            self.spec_run(inputs, ticks - 1).spec_tick(inputs[ticks - 1])
        }
    }

    /// The machine at startup: `PreLoading`, no frame drawn.
    pub fn new() -> (r: LoadMachine)
        ensures
            r == LoadMachine::spec_new(),
    {
        LoadMachine { state: GameState::PreLoading, frames_rendered: 0 }
    }

    /// Advances the machine by one tick and returns the state it is in
    /// afterwards.
    pub fn tick(&mut self, progress: &LoadingProgress) -> (state: GameState)
        ensures
            *final(self) == old(self).spec_tick(*progress),
            state == final(self).state,
    {
        if self.state == GameState::PreLoading && self.frames_rendered < PRELOADING_FRAMES {
            self.frames_rendered = self.frames_rendered + 1;
        }
        self.state = transition(self.state, progress, self.frames_rendered);
        self.state
    }
}

/// A tick never moves backward and never skips a state.
pub proof fn lemma_tick_moves_forward(machine: LoadMachine, progress: LoadingProgress)
    ensures
        ({
            let next = machine.spec_tick(progress).state;
            next.rank() == machine.state.rank() || next.rank() == machine.state.rank() + 1
        }),
        machine.state == GameState::Playing ==> machine.spec_tick(progress).state
            == GameState::Playing,
{
}

/// A run never moves backward: after more ticks the state stands no earlier
/// in the order.
pub proof fn lemma_run_moves_forward(
    machine: LoadMachine,
    inputs: Seq<LoadingProgress>,
    earlier: int,
    later: int,
)
    requires
        0 <= earlier <= later,
    ensures
        machine.spec_run(inputs, earlier).state.rank() <= machine.spec_run(
            inputs,
            later,
        ).state.rank(),
    decreases later - earlier,
{
    if earlier < later {
        lemma_run_moves_forward(machine, inputs, earlier, later - 1);
        lemma_tick_moves_forward(machine.spec_run(inputs, later - 1), inputs[later - 1]);
    }
}

/// The course of loading. Ticks are numbered from 0, and tick `t` sees the
/// counters `inputs[t]`. Started afresh, the machine is in `PreLoading`
/// after fewer than three ticks, whatever the counters say, and in `Loading`
/// after the third. If `done` is the first tick from then on that sees both
/// counters at their targets, the machine is in `Loading` until that tick
/// has run, in `PostLoading` right after it, and in `Playing` one tick later
/// and ever after.
pub proof fn lemma_loading_sequence(inputs: Seq<LoadingProgress>, done: int, ticks: int)
    requires
        3 <= done,
        0 <= ticks,
        forall|t: int| 3 <= t < done ==> !(#[trigger] inputs[t]).spec_is_complete(),
        inputs[done].spec_is_complete(),
    ensures
        ({
            let state = LoadMachine::spec_new().spec_run(inputs, ticks).state;
            &&& ticks < 3 ==> state == GameState::PreLoading
            &&& 3 <= ticks <= done ==> state == GameState::Loading
            &&& ticks == done + 1 ==> state == GameState::PostLoading
            &&& ticks >= done + 2 ==> state == GameState::Playing
        }),
    decreases ticks,
{
    let start = LoadMachine::spec_new();
    if ticks > 0 {
        lemma_loading_sequence(inputs, done, ticks - 1);
        let before = start.spec_run(inputs, ticks - 1);
        lemma_frames_count_ticks(inputs, ticks - 1);
        assert(start.spec_run(inputs, ticks) == before.spec_tick(inputs[ticks - 1]));
    }
}

/// While the machine has seen fewer than three ticks, its frame counter is
/// the number of ticks.
proof fn lemma_frames_count_ticks(inputs: Seq<LoadingProgress>, ticks: int)
    requires
        0 <= ticks,
    ensures
        ticks < 3 ==> LoadMachine::spec_new().spec_run(inputs, ticks) == (LoadMachine {
            state: GameState::PreLoading,
            frames_rendered: ticks as u8,
        }),
    decreases ticks,
{
    if 0 < ticks {
        lemma_frames_count_ticks(inputs, ticks - 1);
    }
}

} // verus!
