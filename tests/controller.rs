use softbuffer_quickstart::{
    requested_surface_size, Action, FrameController, FrameError, FrameEvent, Phase, WindowProperties, DEFAULT_HEIGHT,
    DEFAULT_WIDTH,
};

fn bound(with_callback: bool) -> FrameController {
    let mut c = FrameController::new(WindowProperties::new(640, 480, "t"));
    if with_callback {
        c.install_callback();
    }
    assert!(c.activate().is_ok());
    c
}

#[test]
fn properties_read_back() {
    let p = WindowProperties::new(1024, 768, "hello");
    assert_eq!(p.size(), (1024, 768));
    assert_eq!(p.title(), "hello");
    assert_eq!(p.width, 1024);
    assert_eq!(p.height, 768);
}

#[test]
fn properties_default() {
    let p = WindowProperties::default();
    assert_eq!(p.size(), (800, 600));
    assert_eq!((DEFAULT_WIDTH, DEFAULT_HEIGHT), (800, 600));
    assert_eq!(p.title(), "Softbuffer Window");
}

#[test]
fn new_controller_is_unbound() {
    let c = FrameController::new(WindowProperties::new(3, 4, "x"));
    assert_eq!(c.phase(), Phase::Unbound);
    assert!(!c.has_callback());
    assert!(!c.is_exiting());
    assert_eq!(c.surface_size(), None);
    assert_eq!(c.pixel_count(), None);
    assert_eq!(c.properties().size(), (3, 4));
}

#[test]
fn activate_returns_properties_once() {
    let mut c = FrameController::new(WindowProperties::new(320, 200, "a"));
    let p = c.activate().unwrap();
    assert_eq!(p.size(), (320, 200));
    assert_eq!(p.title(), "a");
    assert_eq!(c.phase(), Phase::Bound);
    assert_eq!(c.activate().unwrap_err(), FrameError::AlreadyActive);
    assert_eq!(c.phase(), Phase::Bound);
}

#[test]
fn close_exits_once() {
    let mut c = bound(false);
    assert!(!c.is_exiting());
    assert_eq!(c.handle_event(FrameEvent::CloseRequested).unwrap(), vec![Action::Exit]);
    assert!(c.is_exiting());
    assert_eq!(c.phase(), Phase::Bound);
    assert_eq!(c.handle_event(FrameEvent::CloseRequested).unwrap(), vec![]);
    assert_eq!(
        c.handle_event(FrameEvent::RedrawRequested).unwrap(),
        vec![Action::Present, Action::RequestRedraw]
    );
    assert_eq!(
        c.handle_event(FrameEvent::Resized { width: 5, height: 6 }).unwrap(),
        vec![Action::ResizeSurface { width: 5, height: 6 }]
    );
    assert_eq!(c.surface_size(), Some((5, 6)));
    assert!(c.is_exiting());
}

#[test]
fn zero_resize_refused_after_close() {
    let mut c = bound(true);
    c.handle_event(FrameEvent::CloseRequested).unwrap();
    assert_eq!(
        c.handle_event(FrameEvent::Resized { width: 0, height: 0 }).unwrap_err(),
        FrameError::ZeroDimension
    );
    assert_eq!(
        c.handle_event(FrameEvent::Resized { width: 7, height: 0 }).unwrap_err(),
        FrameError::ZeroDimension
    );
    assert!(c.is_exiting());
}

#[test]
fn callback_sees_repeated_close() {
    let mut c = bound(true);
    let first = c.handle_event(FrameEvent::CloseRequested).unwrap();
    let second = c.handle_event(FrameEvent::CloseRequested).unwrap();
    assert_eq!(first, vec![Action::Exit, Action::Deliver(FrameEvent::CloseRequested)]);
    assert_eq!(second, vec![Action::Deliver(FrameEvent::CloseRequested)]);
}

#[test]
fn close_before_activation_exits() {
    let mut c = FrameController::new(WindowProperties::default());
    c.install_callback();
    assert_eq!(
        c.handle_event(FrameEvent::CloseRequested).unwrap(),
        vec![Action::Exit, Action::Deliver(FrameEvent::CloseRequested)]
    );
    assert!(c.is_exiting());
    assert_eq!(c.phase(), Phase::Unbound);
    assert_eq!(
        c.handle_event(FrameEvent::RedrawRequested).unwrap_err(),
        FrameError::NotBound
    );
}

#[test]
fn resize_sets_surface() {
    let mut c = bound(false);
    let a = c.handle_event(FrameEvent::Resized { width: 300, height: 200 }).unwrap();
    assert_eq!(a, vec![Action::ResizeSurface { width: 300, height: 200 }]);
    assert_eq!(c.surface_size(), Some((300, 200)));
    assert_eq!(c.pixel_count(), Some(60000));
}

#[test]
fn resize_largest_sides() {
    let mut c = bound(false);
    c.handle_event(FrameEvent::Resized { width: u32::MAX, height: u32::MAX }).unwrap();
    assert_eq!(c.pixel_count(), Some((u32::MAX as u64) * (u32::MAX as u64)));
}

#[test]
fn resize_zero_is_refused() {
    let mut c = bound(true);
    c.handle_event(FrameEvent::Resized { width: 10, height: 10 }).unwrap();
    assert_eq!(
        c.handle_event(FrameEvent::Resized { width: 0, height: 480 }).unwrap_err(),
        FrameError::ZeroDimension
    );
    assert_eq!(
        c.handle_event(FrameEvent::Resized { width: 640, height: 0 }).unwrap_err(),
        FrameError::ZeroDimension
    );
    assert_eq!(c.surface_size(), Some((10, 10)));
}

#[test]
fn unbound_refuses_surface_events() {
    let mut c = FrameController::new(WindowProperties::default());
    assert_eq!(
        c.handle_event(FrameEvent::Resized { width: 1, height: 1 }).unwrap_err(),
        FrameError::NotBound
    );
    assert_eq!(c.handle_event(FrameEvent::RedrawRequested).unwrap_err(), FrameError::NotBound);
    assert_eq!(c.handle_event(FrameEvent::Other).unwrap(), vec![]);
    assert_eq!(c.phase(), Phase::Unbound);
}

#[test]
fn redraw_presents_once() {
    let mut c = bound(false);
    assert_eq!(
        c.handle_event(FrameEvent::RedrawRequested).unwrap(),
        vec![Action::Present, Action::RequestRedraw]
    );
    let mut c = bound(true);
    let a = c.handle_event(FrameEvent::RedrawRequested).unwrap();
    assert_eq!(
        a,
        vec![Action::Deliver(FrameEvent::RedrawRequested), Action::Present, Action::RequestRedraw]
    );
    assert_eq!(a.iter().filter(|x| **x == Action::Present).count(), 1);
    assert_eq!(a.iter().filter(|x| **x == Action::RequestRedraw).count(), 1);
}

#[test]
fn callback_sees_events_in_order() {
    let mut c = bound(true);
    let events = vec![
        FrameEvent::Other,
        FrameEvent::Resized { width: 8, height: 2 },
        FrameEvent::RedrawRequested,
        FrameEvent::Other,
        FrameEvent::CloseRequested,
        FrameEvent::RedrawRequested,
        FrameEvent::Other,
    ];
    let mut actions = Vec::new();
    for e in events.iter() {
        actions.extend(c.handle_event(*e).unwrap());
    }
    let seen: Vec<FrameEvent> = actions
        .iter()
        .filter_map(|a| match a {
            Action::Deliver(e) => Some(*e),
            _ => None,
        })
        .collect();
    assert_eq!(seen, events);
    assert_eq!(
        actions,
        vec![
            Action::Deliver(FrameEvent::Other),
            Action::ResizeSurface { width: 8, height: 2 },
            Action::Deliver(FrameEvent::Resized { width: 8, height: 2 }),
            Action::Deliver(FrameEvent::RedrawRequested),
            Action::Present,
            Action::RequestRedraw,
            Action::Deliver(FrameEvent::Other),
            Action::Exit,
            Action::Deliver(FrameEvent::CloseRequested),
            Action::Deliver(FrameEvent::RedrawRequested),
            Action::Present,
            Action::RequestRedraw,
            Action::Deliver(FrameEvent::Other),
        ]
    );
}

#[test]
fn requested_surface_size_decides() {
    assert_eq!(
        requested_surface_size(FrameEvent::Resized { width: 4, height: 9 }),
        Ok(Some((4, 9)))
    );
    assert_eq!(
        requested_surface_size(FrameEvent::Resized { width: 0, height: 9 }),
        Err(FrameError::ZeroDimension)
    );
    assert_eq!(
        requested_surface_size(FrameEvent::Resized { width: 4, height: 0 }),
        Err(FrameError::ZeroDimension)
    );
    assert_eq!(requested_surface_size(FrameEvent::CloseRequested), Ok(None));
    assert_eq!(requested_surface_size(FrameEvent::RedrawRequested), Ok(None));
}
