use vstd::prelude::*;
use crate::properties::WindowProperties;

verus! {

/// Where a controller stands in its life.
#[derive(Clone, Copy, Debug, PartialEq, Eq, Structural)]
pub enum Phase {
    /// Created; no window and no surface yet.
    Unbound,
    /// A window and its presentation surface exist.
    Bound,
}

/// A window event, as far as the controller tells events apart.
#[derive(Clone, Copy, Debug, PartialEq, Eq, Structural)]
pub enum FrameEvent {
    /// The user asked to close the window.
    CloseRequested,
    /// The window's inner size changed.
    Resized { width: u32, height: u32 },
    /// The system is ready to show a new frame.
    RedrawRequested,
    /// Any other event; it only reaches the user callback.
    Other,
}

/// Something the host must do with the window, the surface or the callback.
#[derive(Clone, Copy, Debug, PartialEq, Eq, Structural)]
pub enum Action {
    /// Tell the event loop to stop.
    Exit,
    /// Resize the presentation surface (both sides are non-zero).
    ResizeSurface { width: u32, height: u32 },
    /// Hand the event to the user callback.
    Deliver(FrameEvent),
    /// Copy the pixel buffer to the screen.
    Present,
    /// Ask the window for the next redraw.
    RequestRedraw,
}

/// Why the controller refused an event or an activation.
#[derive(Clone, Copy, Debug, PartialEq, Eq, Structural)]
pub enum FrameError {
    /// The event needs a surface, and no window has been bound yet.
    NotBound,
    /// A resize to a zero width or height.
    ZeroDimension,
    /// The controller was activated before.
    AlreadyActive,
}

/// The abstract state of a [`FrameController`].
pub struct ControllerState {
    pub phase: Phase,
    pub properties: WindowProperties,
    /// Size of the presentation surface, once it has been given one.
    pub surface: Option<(u32, u32)>,
    /// Whether a user callback is installed.
    pub has_callback: bool,
    /// Whether the event loop has been told to exit.
    pub exiting: bool,
}

/// What the user callback is handed for `e`: the event itself, if a callback
/// is installed.
pub open spec fn delivered(s: ControllerState, e: FrameEvent) -> Seq<Action> {
    if s.has_callback {
        seq![Action::Deliver(e)]
    } else {
        seq![]
    }
}

/// The new state and the actions, in the order the host performs them, that
/// one event leads to, or the error it is refused with.
///
/// Default handling (exit, resize) comes before the callback sees the event;
/// presenting and asking for the next frame come after it. The exit signal
/// is given on the first close request only; every event, before and after
/// it, is handled alike otherwise.
pub open spec fn event_outcome(s: ControllerState, e: FrameEvent) -> Result<
    (ControllerState, Seq<Action>),
    FrameError,
> {
    match e {
        FrameEvent::CloseRequested => Ok(
            (
                ControllerState { exiting: true, ..s },
                (if s.exiting {
                    seq![]
                } else {
                    seq![Action::Exit]
                }) + delivered(s, e),
            ),
        ),
        FrameEvent::Resized { width, height } => {
            if s.phase is Unbound {
                Err(FrameError::NotBound)
            } else if width == 0 || height == 0 {
                Err(FrameError::ZeroDimension)
            } else {
                Ok(
                    (
                        ControllerState { surface: Some((width, height)), ..s },
                        seq![Action::ResizeSurface { width, height }] + delivered(s, e),
                    ),
                )
            }
        },
        FrameEvent::RedrawRequested => {
            if s.phase is Unbound {
                Err(FrameError::NotBound)
            } else {
                Ok((s, delivered(s, e) + seq![Action::Present, Action::RequestRedraw]))
            }
        },
        FrameEvent::Other => Ok((s, delivered(s, e))),
    }
}

/// The surface size that an event asks for, for code that handles resizes
/// without a controller: both sides of a resize, a refusal of a zero side,
/// nothing for any other event.
pub fn requested_surface_size(event: FrameEvent) -> (r: Result<Option<(u32, u32)>, FrameError>)
    ensures
        match event {
            FrameEvent::Resized { width, height } => if width == 0 || height == 0 {
                r == Err::<Option<(u32, u32)>, FrameError>(FrameError::ZeroDimension)
            } else {
                r == Ok::<Option<(u32, u32)>, FrameError>(Some((width, height)))
            },
            _ => r == Ok::<Option<(u32, u32)>, FrameError>(None),
        },
{
    match event {
        FrameEvent::Resized { width, height } => {
            if width == 0 || height == 0 {
                Err(FrameError::ZeroDimension)
            } else {
                Ok(Some((width, height)))
            }
        },
        _ => Ok(None),
    }
}

/// The number of pixels of a buffer acquired from the surface.
pub open spec fn pixel_count(s: ControllerState) -> Option<nat> {
    match s.surface {
        Some((w, h)) => Some((w * h) as nat),
        None => None,
    }
}

/// Drives one window: decides, event by event, what the host has to do.
pub struct FrameController {
    phase: Phase,
    properties: WindowProperties,
    surface: Option<(u32, u32)>,
    has_callback: bool,
    exiting: bool,
}

impl View for FrameController {
    type V = ControllerState;

    closed spec fn view(&self) -> ControllerState {
        ControllerState {
            phase: self.phase,
            properties: self.properties,
            surface: self.surface,
            has_callback: self.has_callback,
            exiting: self.exiting,
        }
    }
}

impl FrameController {
    /// A controller that has no window yet.
    pub fn new(properties: WindowProperties) -> (r: FrameController)
        ensures
            r@.phase == Phase::Unbound,
            r@.properties == properties,
            r@.surface is None,
            !r@.has_callback,
            !r@.exiting,
    {
        FrameController {
            phase: Phase::Unbound,
            properties,
            surface: None,
            has_callback: false,
            exiting: false,
        }
    }

    /// Installs the user callback: from now on every event is delivered.
    pub fn install_callback(&mut self)
        ensures
            final(self)@ == (ControllerState { has_callback: true, ..old(self)@ }),
    {
        self.has_callback = true;
    }

    /// Binds the controller to a window. On success the host creates a window
    /// with the returned properties and a surface for it.
    pub fn activate(&mut self) -> (r: Result<WindowProperties, FrameError>)
        ensures
            old(self)@.phase is Unbound ==> r == Ok::<WindowProperties, FrameError>(
                old(self)@.properties,
            ) && final(self)@ == (ControllerState { phase: Phase::Bound, ..old(self)@ }),
            !(old(self)@.phase is Unbound) ==> r == Err::<WindowProperties, FrameError>(
                FrameError::AlreadyActive,
            ) && final(self)@ == old(self)@,
    {
        match self.phase {
            Phase::Unbound => {
                self.phase = Phase::Bound;
                Ok(self.properties)
            },
            _ => Err(FrameError::AlreadyActive),
        }
    }

    /// Applies the default handling of `event` and returns the actions that
    /// the host must perform, in order.
    pub fn handle_event(&mut self, event: FrameEvent) -> (r: Result<Vec<Action>, FrameError>)
        ensures
            match event_outcome(old(self)@, event) {
                Ok((s, a)) => r is Ok && r->Ok_0@ == a && final(self)@ == s,
                Err(err) => r == Err::<Vec<Action>, FrameError>(err) && final(self)@ == old(self)@,
            },
    {
        let ghost s = self@;
        let mut actions: Vec<Action> = Vec::new();
        match event {
            FrameEvent::CloseRequested => {
                if !self.exiting {
                    self.exiting = true;
                    actions.push(Action::Exit);
                }
            },
            FrameEvent::Resized { width, height } => {
                if self.phase == Phase::Unbound {
                    return Err(FrameError::NotBound);
                }
                if width == 0 || height == 0 {
                    return Err(FrameError::ZeroDimension);
                }
                self.surface = Some((width, height));
                actions.push(Action::ResizeSurface { width, height });
            },
            FrameEvent::RedrawRequested => {
                if self.phase == Phase::Unbound {
                    return Err(FrameError::NotBound);
                }
            },
            FrameEvent::Other => {},
        }
        let ghost before = actions@;
        if self.has_callback {
            actions.push(Action::Deliver(event));
        }
        assert(actions@ =~= before + delivered(s, event));
        if event == FrameEvent::RedrawRequested {
            actions.push(Action::Present);
            actions.push(Action::RequestRedraw);
        }
        assert(self@ == event_outcome(s, event)->Ok_0.0);
        assert(actions@ =~= event_outcome(s, event)->Ok_0.1);
        Ok(actions)
    }

    /// Where the controller stands.
    pub fn phase(&self) -> (r: Phase)
        ensures
            r == self@.phase,
    {
        self.phase
    }

    /// The properties the window is created with.
    pub fn properties(&self) -> (r: &WindowProperties)
        ensures
            *r == self@.properties,
    {
        &self.properties
    }

    /// Whether the event loop has been told to exit.
    pub fn is_exiting(&self) -> (r: bool)
        ensures
            r == self@.exiting,
    {
        self.exiting
    }

    /// Whether a user callback is installed.
    pub fn has_callback(&self) -> (r: bool)
        ensures
            r == self@.has_callback,
    {
        self.has_callback
    }

    /// The size of the presentation surface, once it has been given one.
    pub fn surface_size(&self) -> (r: Option<(u32, u32)>)
        ensures
            r == self@.surface,
    {
        self.surface
    }

    /// The number of pixels of a buffer acquired from the surface.
    pub fn pixel_count(&self) -> (r: Option<u64>)
        ensures
            match pixel_count(self@) {
                Some(n) => r is Some && r->Some_0 == n,
                None => r is None,
            },
    {
        match self.surface {
            Some((w, h)) => {
                assert((w as u64) * (h as u64) <= u64::MAX) by (nonlinear_arith)
                    requires
                        w <= u32::MAX,
                        h <= u32::MAX,
                ;
                Some((w as u64) * (h as u64))
            },
            None => None,
        }
    }
}

} // verus!
