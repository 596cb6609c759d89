use vstd::prelude::*;
use crate::event::Event;

verus! {

/// Where the construction of a window stands. The window has been created
/// when a session starts; it then gets its name, is mapped, waits for its
/// first exposure and has its position restated.
#[derive(PartialEq, Eq, Structural, Clone, Copy, Debug)]
pub enum BuildStage {
    Created,
    NameSet,
    Mapped,
    Exposed,
    Ready,
}

/// What the caller is to do next.
#[derive(PartialEq, Eq, Structural, Clone, Copy, Debug)]
pub enum BuildAction {
    SetName,
    MapWindow,
    AwaitEvent,
    ReassertPosition,
    Done,
}

/// What the caller reports back: the request it was asked for went through,
/// an event arrived, or the connection had no event to give.
#[derive(PartialEq, Eq, Structural, Clone, Copy, Debug)]
pub enum BuildInput {
    RequestDone,
    Received(Event),
    NoEvent,
}

/// The action each stage calls for.
pub open spec fn action_of(stage: BuildStage) -> BuildAction {
    match stage {
        BuildStage::Created => BuildAction::SetName,
        BuildStage::NameSet => BuildAction::MapWindow,
        BuildStage::Mapped => BuildAction::AwaitEvent,
        BuildStage::Exposed => BuildAction::ReassertPosition,
        BuildStage::Ready => BuildAction::Done,
    }
}

/// One step: a stage moves on only by what it waits for; a mapped window
/// moves on only by an exposure of that same window, and any other event is
/// dropped.
pub open spec fn next_stage(stage: BuildStage, window: u32, input: BuildInput) -> BuildStage {
    match (stage, input) {
        (BuildStage::Created, BuildInput::RequestDone) => BuildStage::NameSet,
        (BuildStage::NameSet, BuildInput::RequestDone) => BuildStage::Mapped,
        (BuildStage::Mapped, BuildInput::Received(e)) => if e.exposes(window) {
            BuildStage::Exposed
        } else {
            BuildStage::Mapped
        },
        (BuildStage::Exposed, BuildInput::RequestDone) => BuildStage::Ready,
        _ => stage,
    }
}

/// The stage reached from `stage` after the inputs, in order.
pub open spec fn run(stage: BuildStage, window: u32, inputs: Seq<BuildInput>) -> BuildStage
    decreases inputs.len(),
{
    if inputs.len() == 0 {
        stage
    } else {
        run(next_stage(stage, window, inputs[0]), window, inputs.drop_first())
    }
}

pub open spec fn before_exposure(stage: BuildStage) -> bool {
    stage == BuildStage::Created || stage == BuildStage::NameSet || stage == BuildStage::Mapped
}

/// The construction of one window, driven by its caller.
pub struct BuildSession {
    pub window: u32,
    pub stage: BuildStage,
}

impl BuildSession {
    /// A session for the freshly created window `window`.
    pub fn new(window: u32) -> (r: BuildSession)
        ensures
            r.window == window,
            r.stage == BuildStage::Created,
    {
        BuildSession { window, stage: BuildStage::Created }
    }

    /// The action the current stage calls for.
    pub fn next_action(&self) -> (r: BuildAction)
        ensures
            r == action_of(self.stage),
    {
        match self.stage {
            BuildStage::Created => BuildAction::SetName,
            BuildStage::NameSet => BuildAction::MapWindow,
            BuildStage::Mapped => BuildAction::AwaitEvent,
            BuildStage::Exposed => BuildAction::ReassertPosition,
            BuildStage::Ready => BuildAction::Done,
        }
    }

    /// Takes in what the caller reports.
    pub fn advance(&mut self, input: BuildInput)
        ensures
            final(self).window == old(self).window,
            final(self).stage == next_stage(old(self).stage, old(self).window, input),
    {
        let next = match (self.stage, input) {
            (BuildStage::Created, BuildInput::RequestDone) => BuildStage::NameSet,
            (BuildStage::NameSet, BuildInput::RequestDone) => BuildStage::Mapped,
            (BuildStage::Mapped, BuildInput::Received(e)) => if e.is_expose_for(self.window) {
                BuildStage::Exposed
            } else {
                BuildStage::Mapped
            },
            (BuildStage::Exposed, BuildInput::RequestDone) => BuildStage::Ready,
            _ => self.stage,
        };
        self.stage = next;
    }

    /// Whether the window is ready to be handed out.
    pub fn is_ready(&self) -> (r: bool)
        ensures
            r == (self.stage == BuildStage::Ready),
    {
        match self.stage {
            BuildStage::Ready => true,
            _ => false,
        }
    }
}

/// A window is never exposed or ready before an exposure of that very window
/// has arrived: from any stage before the exposure, inputs that bring the
/// session to `Exposed` or `Ready` hold an exposure event of the window.
pub proof fn lemma_ready_only_after_expose(stage: BuildStage, window: u32, inputs: Seq<BuildInput>)
    requires
        before_exposure(stage),
        !before_exposure(run(stage, window, inputs)),
    ensures
        exists|i: int|
            0 <= i < inputs.len() && (#[trigger] inputs[i] matches BuildInput::Received(e)
                && e.exposes(window)),
    decreases inputs.len(),
{
    if inputs.len() == 0 {
        assert(false);
    } else {
        let first = inputs[0];
        let next = next_stage(stage, window, first);
        if first matches BuildInput::Received(e) && e.exposes(window) {
            assert(0 <= 0 < inputs.len());
        } else {
            assert(before_exposure(next));
            let rest = inputs.drop_first();
            lemma_ready_only_after_expose(next, window, rest);
            let i = choose|i: int|
                0 <= i < rest.len() && (#[trigger] rest[i] matches BuildInput::Received(e)
                    && e.exposes(window));
            assert(inputs[i + 1] == rest[i]);
        }
    }
}

/// Events that are not an exposure of the window leave a session waiting for
/// one as it was.
pub proof fn lemma_other_events_discarded(window: u32, e: Event)
    requires
        !e.exposes(window),
    ensures
        next_stage(BuildStage::Mapped, window, BuildInput::Received(e)) == BuildStage::Mapped,
        next_stage(BuildStage::Mapped, window, BuildInput::NoEvent) == BuildStage::Mapped,
{
}

} // verus!
