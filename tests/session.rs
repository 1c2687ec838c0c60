use hdr_renderer::input::{direction_of, Direction, Key, KeyState, Movement};
use hdr_renderer::session::{Action, Event, Phase, Session};

#[test]
fn keys_map_to_directions() {
    assert_eq!(direction_of(Key::W), Some(Direction::Forward));
    assert_eq!(direction_of(Key::S), Some(Direction::Backward));
    assert_eq!(direction_of(Key::A), Some(Direction::Left));
    assert_eq!(direction_of(Key::D), Some(Direction::Right));
    assert_eq!(direction_of(Key::Space), Some(Direction::Up));
    assert_eq!(direction_of(Key::LShift), Some(Direction::Down));
    assert_eq!(direction_of(Key::Other), None);
    assert_eq!(Direction::Forward.slot(), 4);
    assert_eq!(Direction::Left.slot(), 0);
}

#[test]
fn held_keys_give_movement() {
    let mut k = KeyState::new();
    assert_eq!(k.movement(), Movement { along_view: 0, sideways: 0, vertical: 0 });
    k.set(Key::W, true);
    assert_eq!(k.movement(), Movement { along_view: 1, sideways: 0, vertical: 0 });
    k.set(Key::S, true);
    assert_eq!(k.movement().along_view, 0);
    k.set(Key::W, false);
    assert_eq!(k.movement().along_view, -1);
    k.set(Key::A, true);
    k.set(Key::Space, true);
    assert_eq!(k.movement(), Movement { along_view: -1, sideways: -1, vertical: 1 });
    k.set(Key::D, true);
    k.set(Key::LShift, true);
    k.set(Key::Space, false);
    assert_eq!(k.movement(), Movement { along_view: -1, sideways: 0, vertical: -1 });
    k.set(Key::A, false);
    assert_eq!(k.movement().sideways, 1);
    let before = k.held;
    k.set(Key::Other, true);
    assert_eq!(k.held, before);
}

#[test]
fn close_shuts_down_once() {
    let mut s = Session::new(512, 512);
    assert_eq!(s.handle(Event::CloseRequested), Action::Shutdown);
    assert_eq!(s.phase, Phase::Disposed);
    assert_eq!(s.handle(Event::CloseRequested), Action::Nothing);
    assert_eq!(s.handle(Event::RedrawRequested), Action::Nothing);
    assert_eq!(s.handle(Event::MainEventsCleared), Action::Nothing);
    assert_eq!(s.handle(Event::Resized { width: 10, height: 10 }), Action::Nothing);
}

#[test]
fn resize_asks_for_rebuild_only_on_change() {
    let mut s = Session::new(512, 512);
    assert_eq!(s.handle(Event::Resized { width: 512, height: 512 }), Action::Nothing);
    assert_eq!(
        s.handle(Event::Resized { width: 800, height: 600 }),
        Action::Rebuild { width: 800, height: 600 }
    );
    assert_eq!((s.width, s.height), (800, 600));
    assert_eq!(s.handle(Event::Resized { width: 0, height: 600 }), Action::Nothing);
    assert_eq!(s.width, 0);
}

#[test]
fn redraw_renders_with_held_keys() {
    let mut s = Session::new(512, 512);
    assert_eq!(s.handle(Event::MainEventsCleared), Action::RequestRedraw);
    assert_eq!(s.handle(Event::Key { key: Key::W, pressed: true }), Action::Nothing);
    assert_eq!(s.handle(Event::MouseMotion), Action::Look);
    assert_eq!(
        s.handle(Event::RedrawRequested),
        Action::RenderFrame { movement: Movement { along_view: 1, sideways: 0, vertical: 0 } }
    );
    assert_eq!(s.handle(Event::Key { key: Key::W, pressed: false }), Action::Nothing);
    assert_eq!(
        s.handle(Event::RedrawRequested),
        Action::RenderFrame { movement: Movement { along_view: 0, sideways: 0, vertical: 0 } }
    );
    assert_eq!(s.handle(Event::Other), Action::Nothing);
}
