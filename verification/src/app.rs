//! The application as the window's event loop sees it: not yet set up, or
//! ready with a render state, and what each window event asks for.

use vstd::prelude::*;
use crate::config::PhysicalSize;
use crate::gpupipeline::{Elapsed, FatalError, Phase, RenderAction, State, SurfaceError};

verus! {

/// An event of the window, as far as the application tells events apart.
#[derive(Clone, Copy, Debug, PartialEq, Eq, Structural)]
pub enum WindowEvent {
    /// The window was asked to close.
    CloseRequested,
    /// The window wants its contents drawn.
    RedrawRequested,
    /// The window took a new physical size.
    Resized(PhysicalSize),
    /// A key was pressed or released.
    KeyboardInput,
    /// The pointer moved.
    CursorMoved,
    /// Any other event.
    Other,
}

/// What the caller does after a window event.
#[derive(Clone, Copy, Debug, PartialEq, Eq, Structural)]
pub enum Action {
    /// Leave the event loop.
    Exit,
    /// Acquire the next frame, hand the outcome to `App::redraw`, carry out
    /// its answer, and ask the window for another redraw.
    Redraw,
    /// Apply the state's configuration to the surface.
    Reconfigure,
    /// Nothing.
    Ignore,
}

/// What the caller does after the application was resumed.
#[derive(Clone, Copy, Debug, PartialEq, Eq, Structural)]
pub enum StartAction {
    /// Ask the window for its first redraw.
    RequestRedraw,
    /// Stop the process and report the error.
    Abort(FatalError),
}

/// Whether the render state exists yet.
#[derive(Debug)]
pub enum Lifecycle {
    /// Nothing has been set up.
    Uninitialized,
    /// The graphics context, the surface, the pipeline and the buffers exist.
    Ready(State),
}

/// The application.
#[derive(Debug)]
pub struct App {
    pub componet: Lifecycle,
}

impl App {
    /// A render state, where there is one, is well-formed.
    pub open spec fn wf(&self) -> bool {
        self.componet matches Lifecycle::Ready(state) ==> state.wf()
    }

    /// An application that has not been set up.
    pub fn new() -> (r: App)
        ensures
            r.componet is Uninitialized,
            r.wf(),
    {
        App { componet: Lifecycle::Uninitialized }
    }

    /// Takes the outcome of setting the render state up. With a state the
    /// application is ready and asks for its first redraw; with an error it
    /// stays as it was and asks to stop.
    pub fn resumed(&mut self, created: Result<State, FatalError>) -> (action: StartAction)
        ensures
            old(self).wf() && (created matches Ok(state) ==> state.wf()) ==> final(self).wf(),
            created matches Ok(state) ==> {
                &&& action == StartAction::RequestRedraw
                &&& final(self).componet == Lifecycle::Ready(state)
            },
            created matches Err(e) ==> {
                &&& action == StartAction::Abort(e)
                &&& *final(self) == *old(self)
            },
    {
        match created {
            Ok(state) => {
                self.componet = Lifecycle::Ready(state);
                StartAction::RequestRedraw
            },
            Err(e) => StartAction::Abort(e),
        }
    }

    /// What a window event asks for. A request to close ends the loop in
    /// either state; every other event is ignored until the application is
    /// ready. Once it is, a redraw request clears a lost frame and asks for a
    /// redraw, a new size is taken at once and asks for the surface to be
    /// reconfigured, and input is ignored.
    pub open spec fn asks(self, event: WindowEvent) -> Action {
        match event {
            WindowEvent::CloseRequested => Action::Exit,
            WindowEvent::RedrawRequested => if self.componet is Ready {
                Action::Redraw
            } else {
                Action::Ignore
            },
            WindowEvent::Resized(_) => if self.componet is Ready {
                Action::Reconfigure
            } else {
                Action::Ignore
            },
            _ => Action::Ignore,
        }
    }

    /// Handles one event of the window.
    pub fn window_event(&mut self, event: WindowEvent) -> (action: Action)
        ensures
            old(self).wf() ==> final(self).wf(),
            action == old(self).asks(event),
            old(self).componet is Uninitialized ==> *final(self) == *old(self),
            old(self).componet matches Lifecycle::Ready(before) ==> {
                &&& final(self).componet matches Lifecycle::Ready(after)
                &&& match event {
                    WindowEvent::Resized(size) => before.resized(size, after),
                    WindowEvent::RedrawRequested => after == (State { phase: Phase::Ready, ..before }),
                    _ => after == before,
                }
            },
    {
        match event {
            WindowEvent::CloseRequested => Action::Exit,
            WindowEvent::RedrawRequested => {
                match &mut self.componet {
                    Lifecycle::Ready(state) => {
                        state.phase = Phase::Ready;
                        Action::Redraw
                    },
                    Lifecycle::Uninitialized => Action::Ignore,
                }
            },
            WindowEvent::Resized(size) => {
                match &mut self.componet {
                    Lifecycle::Ready(state) => {
                        state.resize(size);
                        Action::Reconfigure
                    },
                    Lifecycle::Uninitialized => Action::Ignore,
                }
            },
            WindowEvent::KeyboardInput => Action::Ignore,
            WindowEvent::CursorMoved => Action::Ignore,
            WindowEvent::Other => Action::Ignore,
        }
    }

    /// Decides the redraw that `window_event` asked for. Before the
    /// application is ready there is nothing to draw.
    pub fn redraw(&mut self, acquired: Result<(), SurfaceError>, elapsed: Elapsed, debug: bool) -> (action:
        RenderAction)
        ensures
            old(self).wf() ==> final(self).wf(),
            old(self).componet is Uninitialized ==> action is Skip && *final(self) == *old(self),
            old(self).componet matches Lifecycle::Ready(before) ==> {
                &&& final(self).componet == Lifecycle::Ready(before.after_render(acquired, elapsed))
                &&& before.answers(acquired, elapsed, debug, action)
            },
    {
        match &mut self.componet {
            Lifecycle::Ready(state) => state.render(acquired, elapsed, debug),
            Lifecycle::Uninitialized => RenderAction::Skip,
        }
    }
}

} // verus!
