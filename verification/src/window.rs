//! What a schedule needs to know of the window: the events loop and the
//! window themselves, which come from `winit` and are only carried along,
//! and the orders at which the two window systems run.

use vstd::prelude::*;
use winit::{EventsLoop, Window};
use crate::base::systems::order::{SystemOrder, SystemPriority};

verus! {

#[verifier::external_type_specification]
#[verifier::external_body]
pub struct ExEventsLoop(EventsLoop);

#[verifier::external_type_specification]
#[verifier::external_body]
pub struct ExWindow(Window);

/// A system bundle for window managing.
#[derive(Debug)]
pub struct WindowBundle {
    /// The system execution order of the system that keeps the window size.
    pub size_control_order: SystemOrder,
    /// The system execution order of the system that gathers the window
    /// events.
    pub events_loop_order: SystemOrder,
    /// The events loop to use for the systems; one is created if none is
    /// given.
    pub events_loop: Option<EventsLoop>,
    /// The window to use for the systems; one is created, with the events
    /// loop, if none is given.
    pub window: Option<Window>,
}

impl WindowBundle {
    /// Create a new instance with arbitrary system execution orders given:
    /// the size control at `(10, 0)`, the events loop at `(Last, 0)`.
    pub fn new() -> (b: Self)
        ensures
            b.size_control_order == SystemOrder(
                SystemPriority::Numbered(10),
                SystemPriority::Numbered(0),
            ),
            b.events_loop_order == SystemOrder(SystemPriority::Last, SystemPriority::Numbered(0)),
            b.events_loop is None,
            b.window is None,
    {
        WindowBundle {
            size_control_order: SystemOrder::numbered(10, 0),
            events_loop_order: SystemOrder::from_last_number(0),
            events_loop: None,
            window: None,
        }
    }

    /// Create a new instance with the given system execution orders.
    pub fn from_orders(size_control_order: SystemOrder, events_loop_order: SystemOrder) -> (b:
        Self)
        ensures
            b.size_control_order == size_control_order,
            b.events_loop_order == events_loop_order,
            b.events_loop is None,
            b.window is None,
    {
        Self::new().with_size_control_order(size_control_order).with_events_loop_order(
            events_loop_order,
        )
    }

    /// Set the system order of the system that keeps the window size.
    pub fn with_size_control_order(self, order: SystemOrder) -> (b: Self)
        ensures
            b == (WindowBundle { size_control_order: order, ..self }),
    {
        let mut b = self;
        b.size_control_order = order;
        b
    }

    /// Set the system order of the system that gathers the window events.
    pub fn with_events_loop_order(self, order: SystemOrder) -> (b: Self)
        ensures
            b == (WindowBundle { events_loop_order: order, ..self }),
    {
        let mut b = self;
        b.events_loop_order = order;
        b
    }

    /// Add an existing events loop to be used.
    pub fn with_events_loop(self, events_loop: EventsLoop) -> (b: Self)
        ensures
            b == (WindowBundle { events_loop: Some(events_loop), ..self }),
    {
        let mut b = self;
        b.events_loop = Some(events_loop);
        b
    }

    /// Add an existing window to be used.
    pub fn with_window(self, window: Window) -> (b: Self)
        ensures
            b == (WindowBundle { window: Some(window), ..self }),
    {
        let mut b = self;
        b.window = Some(window);
        b
    }
}

impl Default for WindowBundle {
    fn default() -> (b: Self)
        ensures
            b.size_control_order == SystemOrder(
                SystemPriority::Numbered(10),
                SystemPriority::Numbered(0),
            ),
            b.events_loop_order == SystemOrder(SystemPriority::Last, SystemPriority::Numbered(0)),
            b.events_loop is None,
            b.window is None,
    {
        WindowBundle::new()
    }
}

/// System descriptor for the system that gathers the window events from the
/// events loop.
#[derive(Debug)]
pub struct WindowEventsSystem {
    /// The events loop that the system polls.
    pub events_loop: EventsLoop,
}

impl WindowEventsSystem {
    /// Create a new instance from the given events loop.
    pub fn new(events_loop: EventsLoop) -> (s: Self)
        ensures
            s.events_loop == events_loop,
    {
        WindowEventsSystem { events_loop }
    }
}

/// System descriptor for the system that keeps the window size in sync with
/// the window.
#[derive(Debug)]
pub struct WindowSizeControlSystem {
    /// The window that the system watches.
    pub window: Window,
}

impl WindowSizeControlSystem {
    /// Create a new instance from the given window.
    pub fn new(window: Window) -> (s: Self)
        ensures
            s.window == window,
    {
        WindowSizeControlSystem { window }
    }
}

} // verus!
