use vstd::prelude::*;

use crate::input::{direction_spec, slot_of, Key, KeyState, Movement};

verus! {

/// What the window reports, once per loop iteration. Pointer motion carries
/// its delta outside: only the fact that it happened matters here.
#[derive(Clone, Copy, Debug, PartialEq, Eq, Structural)]
pub enum Event {
    CloseRequested,
    Resized { width: u32, height: u32 },
    Key { key: Key, pressed: bool },
    MouseMotion,
    MainEventsCleared,
    RedrawRequested,
    Other,
}

/// What the shell does in answer to an event.
#[derive(Clone, Copy, Debug, PartialEq, Eq, Structural)]
pub enum Action {
    Nothing,
    /// Turn the camera by the pointer's delta.
    Look,
    /// Ask the window for a redraw and let the device reclaim resources.
    RequestRedraw,
    /// Run the compiled graph for this frame, then move the camera by
    /// `movement` at the speed the elapsed time gives.
    RenderFrame { movement: Movement },
    /// Recompile the graph against the new window size.
    Rebuild { width: u32, height: u32 },
    /// Dispose of the graph, passes in reverse execution order, then release
    /// the mesh.
    Shutdown,
}

#[derive(Clone, Copy, Debug, PartialEq, Eq, Structural)]
pub enum Phase {
    Running,
    Disposed,
}

/// State of the event loop between events.
#[derive(Clone, Copy, Debug)]
pub struct Session {
    pub keys: KeyState,
    pub width: u32,
    pub height: u32,
    pub phase: Phase,
}

impl Session {
    /// A running session for a window of the given size, no key held.
    pub fn new(width: u32, height: u32) -> (r: Session)
        ensures
            r.width == width,
            r.height == height,
            r.phase == Phase::Running,
            forall|i: int| 0 <= i < 6 ==> !#[trigger] r.keys.held@[i],
    {
        Session { keys: KeyState::new(), width, height, phase: Phase::Running }
    }

    /// Decides what one event does. Closing the window shuts down once, and
    /// nothing is drawn or rebuilt after that; a resize to a new, nonzero size
    /// asks for a rebuild; keys update the held table.
    pub fn handle(&mut self, event: Event) -> (r: Action)
        ensures
            old(self).phase == Phase::Disposed ==> final(self).phase == Phase::Disposed,
            r == Action::Shutdown ==> old(self).phase == Phase::Running,
            old(self).phase == Phase::Disposed ==> (r == Action::Nothing || r == Action::Look),
            match event {
                Event::CloseRequested => {
                    &&& final(self).phase == Phase::Disposed
                    &&& r == if old(self).phase == Phase::Running {
                        Action::Shutdown
                    } else {
                        Action::Nothing
                    }
                    &&& final(self).keys == old(self).keys
                    &&& final(self).width == old(self).width
                    &&& final(self).height == old(self).height
                },
                Event::Resized { width, height } => {
                    &&& final(self).width == width
                    &&& final(self).height == height
                    &&& final(self).phase == old(self).phase
                    &&& final(self).keys == old(self).keys
                    &&& r == if old(self).phase == Phase::Running && width > 0 && height > 0 && (
                    width != old(self).width || height != old(self).height) {
                        Action::Rebuild { width, height }
                    } else {
                        Action::Nothing
                    }
                },
                Event::Key { key, pressed } => {
                    &&& r == Action::Nothing
                    &&& final(self).phase == old(self).phase
                    &&& final(self).width == old(self).width
                    &&& final(self).height == old(self).height
                    &&& match direction_spec(key) {
                        Some(d) => final(self).keys.held@ == old(self).keys.held@.update(
                            slot_of(d),
                            pressed,
                        ),
                        None => final(self).keys == old(self).keys,
                    }
                },
                _ => {
                    &&& *final(self) == *old(self)
                    &&& r == match event {
                        Event::MouseMotion => Action::Look,
                        Event::MainEventsCleared => if old(self).phase == Phase::Running {
                            Action::RequestRedraw
                        } else {
                            Action::Nothing
                        },
                        Event::RedrawRequested => if old(self).phase == Phase::Running {
                            Action::RenderFrame { movement: old(self).keys.movement_spec() }
                        } else {
                            Action::Nothing
                        },
                        _ => Action::Nothing,
                    }
                },
            },
    {
        match event {
            Event::CloseRequested => {
                let running = self.phase == Phase::Running;
                self.phase = Phase::Disposed;
                if running {
                    Action::Shutdown
                } else {
                    Action::Nothing
                }
            },
            Event::Resized { width, height } => {
                let changed = width != self.width || height != self.height;
                self.width = width;
                self.height = height;
                if self.phase == Phase::Running && width > 0 && height > 0 && changed {
                    Action::Rebuild { width, height }
                } else {
                    Action::Nothing
                }
            },
            Event::Key { key, pressed } => {
                self.keys.set(key, pressed);
                Action::Nothing
            },
            Event::MouseMotion => Action::Look,
            Event::MainEventsCleared => {
                if self.phase == Phase::Running {
                    Action::RequestRedraw
                } else {
                    Action::Nothing
                }
            },
            Event::RedrawRequested => {
                if self.phase == Phase::Running {
                    Action::RenderFrame { movement: self.keys.movement() }
                } else {
                    Action::Nothing
                }
            },
            Event::Other => Action::Nothing,
        }
    }
}

} // verus!
