use vstd::prelude::*;
use crate::scene::{Scene, SceneModel};

verus! {

/// Whether the render loop goes on.
#[derive(Clone, Copy, Debug, PartialEq, Eq, Structural)]
pub enum RunState {
    Running,
    Stopped,
}

/// A key of the keyboard, as far as the viewer tells keys apart.
#[derive(Clone, Copy, Debug, PartialEq, Eq, Structural)]
pub enum Key {
    Escape,
    Other,
}

/// A window event, as far as the viewer tells events apart.
#[derive(Clone, Copy, Debug, PartialEq, Eq, Structural)]
pub enum ViewerEvent {
    CloseRequested,
    KeyPressed(Key),
    /// The window's new width and height.
    Resized(u32, u32),
    Other,
}

/// What the render loop does in answer to an event.
#[derive(Clone, Copy, Debug, PartialEq, Eq, Structural)]
pub enum Action {
    Nothing,
    /// Leave the loop after this frame.
    Stop,
    /// Recreate the render targets at the given width and height.
    ResizeTargets(u32, u32),
}

/// A close request or the Escape key stops the loop; every other event keeps
/// the state as it was.
pub open spec fn next_state(s: RunState, e: ViewerEvent) -> RunState {
    match e {
        ViewerEvent::CloseRequested => RunState::Stopped,
        ViewerEvent::KeyPressed(Key::Escape) => RunState::Stopped,
        _ => s,
    }
}

pub open spec fn action_for(e: ViewerEvent) -> Action {
    match e {
        ViewerEvent::CloseRequested => Action::Stop,
        ViewerEvent::KeyPressed(Key::Escape) => Action::Stop,
        ViewerEvent::Resized(w, h) => Action::ResizeTargets(w, h),
        _ => Action::Nothing,
    }
}

/// The state after the events, handled in order from `s`.
pub open spec fn state_after(s: RunState, events: Seq<ViewerEvent>) -> RunState
    decreases events.len(),
{
    if events.len() == 0 {
        s
    } else {
        next_state(state_after(s, events.drop_last()), events.last())
    }
}

/// The viewer: the scene it draws and whether its loop runs.
pub struct Viewer {
    state: RunState,
    scene: Scene,
}

impl Viewer {
    pub closed spec fn state_spec(&self) -> RunState {
        self.state
    }

    pub closed spec fn scene_spec(&self) -> SceneModel {
        self.scene@
    }

    /// A running viewer of the scene.
    pub fn new(scene: Scene) -> (r: Viewer)
        ensures
            r.state_spec() == RunState::Running,
            r.scene_spec() == scene@,
    {
        Viewer { state: RunState::Running, scene }
    }

    pub fn state(&self) -> (r: RunState)
        ensures
            r == self.state_spec(),
    {
        self.state
    }

    pub fn is_running(&self) -> (r: bool)
        ensures
            r == (self.state_spec() == RunState::Running),
    {
        match self.state {
            RunState::Running => true,
            RunState::Stopped => false,
        }
    }

    /// The scene, which no event changes.
    pub fn scene(&self) -> (r: &Scene)
        ensures
            r@ == self.scene_spec(),
    {
        &self.scene
    }

    /// Handles one event: moves to its next state and says what the loop does.
    /// The scene is left as it was.
    pub fn handle_event(&mut self, e: ViewerEvent) -> (r: Action)
        ensures
            final(self).state_spec() == next_state(old(self).state_spec(), e),
            r == action_for(e),
            final(self).scene_spec() == old(self).scene_spec(),
    {
        match e {
            ViewerEvent::CloseRequested => {
                self.state = RunState::Stopped;
                Action::Stop
            },
            ViewerEvent::KeyPressed(Key::Escape) => {
                self.state = RunState::Stopped;
                Action::Stop
            },
            ViewerEvent::Resized(w, h) => Action::ResizeTargets(w, h),
            _ => Action::Nothing,
        }
    }

    /// Handles the events that one frame drained, in order, and returns the
    /// action for each of them. The scene is left as it was.
    pub fn handle_events(&mut self, events: &Vec<ViewerEvent>) -> (r: Vec<Action>)
        ensures
            final(self).state_spec() == state_after(old(self).state_spec(), events@),
            r@.len() == events@.len(),
            forall|i: int| 0 <= i < events@.len() ==> r@[i] == action_for(#[trigger] events@[i]),
            final(self).scene_spec() == old(self).scene_spec(),
    {
        let mut r: Vec<Action> = Vec::new();
        let mut i: usize = 0;
        while i < events.len()
            invariant
                i <= events.len(),
                self.state_spec() == state_after(old(self).state_spec(), events@.subrange(0, i as int)),
                r@.len() == i,
                forall|j: int| 0 <= j < i ==> r@[j] == action_for(#[trigger] events@[j]),
                self.scene_spec() == old(self).scene_spec(),
            decreases events.len() - i,
        {
            assert(events@.subrange(0, i + 1).drop_last() == events@.subrange(0, i as int));
            let a = self.handle_event(events[i]);
            r.push(a);
            i = i + 1;
        }
        assert(events@.subrange(0, events@.len() as int) == events@);
        r
    }
}

/// A resize does not change whether the loop runs, in any state, and asks only
/// for the render targets to be recreated at the new size.
pub proof fn lemma_resize_keeps_state(s: RunState, w: u32, h: u32)
    ensures
        next_state(s, ViewerEvent::Resized(w, h)) == s,
        action_for(ViewerEvent::Resized(w, h)) == Action::ResizeTargets(w, h),
{
}

/// A stopped loop stays stopped, whatever events follow.
pub proof fn lemma_stopped_stays_stopped(events: Seq<ViewerEvent>)
    ensures
        state_after(RunState::Stopped, events) == RunState::Stopped,
    decreases events.len(),
{
    if events.len() > 0 {
        lemma_stopped_stays_stopped(events.drop_last());
    }
}

} // verus!
