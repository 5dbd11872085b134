use cheese_engine::entity::{Entity, EntityType};
use cheese_engine::entity_manager::EntityManager;
use cheese_engine::frame_loop::{run_frame, FrameStep};
use cheese_engine::math::{Color, Point, Rect};
use cheese_engine::win32_engine::{
    get_client_data, window_message, ClientData, KeyboardState, LoopState, Win32Drawable,
    Win32Engine, Win32GameBitmap, Win32Input, WindowMessages, WM_CLOSE,
};

fn extent(width: i32, height: i32) -> ClientData {
    get_client_data(0, 0, width, height)
}

fn no_keys() -> KeyboardState {
    KeyboardState { a: 0, d: 0, w: 0, s: 0, left: 0, right: 0, up: 0, down: 0 }
}

fn player(x: i32, y: i32, color: Color) -> Entity {
    let mut entity = Entity::new(Rect::new(x, y, 64, 64), EntityType::RECT);
    entity.set_color(color);
    entity
}

#[test]
fn the_close_code_is_a_close_message() {
    assert_eq!(WM_CLOSE, 0x0010);
    assert_eq!(window_message(WM_CLOSE), Some(WindowMessages::WindowClosed));
    assert_eq!(window_message(0), None);
    assert_eq!(window_message(0x0012), None);
    assert_eq!(window_message(0x000f), None);
    assert_eq!(window_message(u32::MAX), None);
}

#[test]
fn a_new_engine_runs_without_the_focus() {
    let engine = Win32Engine::new(extent(800, 600));
    assert!(engine.is_running());
    assert_eq!(engine.get_state(), LoopState::Running);
    assert!(!engine.check_focus());
    assert_eq!(engine.get_width(), 800);
    assert_eq!(engine.get_height(), 600);
}

#[test]
fn the_focus_is_what_was_recorded_last() {
    let mut engine = Win32Engine::new(extent(800, 600));
    engine.set_focus(true);
    assert!(engine.check_focus());
    engine.set_focus(false);
    assert!(!engine.check_focus());
    assert!(engine.is_running());
    assert_eq!(engine.get_width(), 800);
}

#[test]
fn the_loop_goes_from_running_to_closing_to_stopped() {
    let mut engine = Win32Engine::new(extent(800, 600));
    engine.handle_events(None);
    assert_eq!(engine.get_state(), LoopState::Running);
    engine.handle_events(Some(WindowMessages::WindowClosed));
    assert_eq!(engine.get_state(), LoopState::Closing);
    assert!(!engine.is_running());
    engine.handle_events(None);
    assert_eq!(engine.get_state(), LoopState::Closing);
    engine.handle_events(Some(WindowMessages::WindowClosed));
    assert_eq!(engine.get_state(), LoopState::Closing);
    engine.release();
    assert_eq!(engine.get_state(), LoopState::Stopped);
    assert!(!engine.is_running());
}

#[test]
fn stopped_is_final() {
    let mut engine = Win32Engine::new(extent(800, 600));
    engine.release();
    assert_eq!(engine.get_state(), LoopState::Stopped);
    engine.handle_events(Some(WindowMessages::WindowClosed));
    assert_eq!(engine.get_state(), LoopState::Stopped);
    engine.handle_events(None);
    assert_eq!(engine.get_state(), LoopState::Stopped);
    engine.release();
    assert_eq!(engine.get_state(), LoopState::Stopped);
    assert_eq!(engine.get_width(), 800);
    assert_eq!(engine.get_height(), 600);
}

#[test]
fn presenting_on_a_smaller_surface_resizes_the_buffer_first() {
    let mut engine = Win32Engine::new(extent(800, 600));
    let mut buffer = Win32GameBitmap::new(extent(800, 600));
    assert_eq!(buffer.memory().len(), 800 * 600 * 4);
    let color = Color::new(1, 0, 1, 1);
    let shown = Color::new(255, 0, 255, 0);
    engine.draw_rectangle(&color, &Rect::new(700, 500, 64, 64), &mut buffer);
    assert_eq!(buffer.pixel(Point::new(763, 563)), Some(shown));

    let resized = engine.render_buffer_to_screen(extent(400, 300), &mut buffer);
    assert!(resized);
    assert_eq!(buffer.memory().len(), 400 * 300 * 4);
    assert_eq!(buffer.get_width(), 400);
    assert_eq!(buffer.get_height(), 300);
    assert_eq!(buffer.bitmap_info().width, 400);
    assert_eq!(buffer.bitmap_info().height, -300);
    assert_eq!(engine.get_width(), 400);
    assert_eq!(engine.get_height(), 300);
    assert!(buffer.memory().iter().all(|byte| *byte == 0));

    engine.draw_rectangle(&color, &Rect::new(700, 500, 64, 64), &mut buffer);
    assert_eq!(buffer.memory().len(), 400 * 300 * 4);
    assert!(buffer.memory().iter().all(|byte| *byte == 0));
    engine.draw_rectangle(&color, &Rect::new(390, 290, 64, 64), &mut buffer);
    assert_eq!(buffer.memory().len(), 400 * 300 * 4);
    assert_eq!(buffer.pixel(Point::new(399, 299)), Some(shown));
    assert_eq!(buffer.pixel(Point::new(389, 289)), Some(Color::new(0, 0, 0, 0)));
    assert_eq!(buffer.pixel(Point::new(400, 299)), None);
}

#[test]
fn presenting_twice_on_the_same_surface_keeps_the_buffer() {
    let mut engine = Win32Engine::new(extent(800, 600));
    let mut buffer = Win32GameBitmap::new(extent(800, 600));
    engine.clear_screen(0x0102_0304, &mut buffer);
    let drawn = buffer.memory().clone();
    assert!(!engine.render_buffer_to_screen(extent(800, 600), &mut buffer));
    assert!(!engine.render_buffer_to_screen(extent(800, 600), &mut buffer));
    assert_eq!(*buffer.memory(), drawn);

    assert!(engine.render_buffer_to_screen(extent(400, 300), &mut buffer));
    engine.clear_screen(0x0102_0304, &mut buffer);
    let drawn = buffer.memory().clone();
    assert!(!engine.render_buffer_to_screen(extent(400, 300), &mut buffer));
    assert!(!engine.render_buffer_to_screen(extent(400, 300), &mut buffer));
    assert_eq!(*buffer.memory(), drawn);
    assert_eq!(buffer.memory().len(), 400 * 300 * 4);
}

#[test]
fn a_change_of_one_side_is_a_change_of_size() {
    let mut engine = Win32Engine::new(extent(800, 600));
    let mut buffer = Win32GameBitmap::new(extent(800, 600));
    assert!(engine.render_buffer_to_screen(extent(800, 601), &mut buffer));
    assert_eq!(buffer.memory().len(), 800 * 601 * 4);
    assert!(engine.render_buffer_to_screen(extent(799, 601), &mut buffer));
    assert_eq!(buffer.memory().len(), 799 * 601 * 4);
    assert!(engine.render_buffer_to_screen(extent(0, 0), &mut buffer));
    assert_eq!(buffer.memory().len(), 0);
    assert!(!engine.render_buffer_to_screen(extent(0, 0), &mut buffer));
}

#[test]
fn presenting_keeps_the_state_and_the_focus() {
    let mut engine = Win32Engine::new(extent(800, 600));
    let mut buffer = Win32GameBitmap::new(extent(800, 600));
    engine.set_focus(true);
    engine.render_buffer_to_screen(extent(400, 300), &mut buffer);
    assert!(engine.check_focus());
    assert!(engine.is_running());
}

#[test]
fn a_frame_steers_clamps_clears_and_draws() {
    let mut engine = Win32Engine::new(extent(200, 100));
    engine.set_focus(true);
    let mut input = Win32Input::new();
    input.record(KeyboardState { a: 1, w: 1, ..no_keys() }, None);
    let red = Color::new(255, 0, 0, 4);
    let mut entities = EntityManager::new();
    entities.create(player(5, 5, Color::new(1, 0, 0, 1)));
    let mut buffer = Win32GameBitmap::new(extent(200, 100));
    let background = Color::new(1, 2, 3, 4);

    let step = run_frame(
        &mut engine,
        &input,
        &EntityManager::new(),
        &mut entities,
        &mut buffer,
        None,
        extent(200, 100),
        background.to_pixel(),
    );
    assert_eq!(step, FrameStep::Present { resized: false });
    assert!(engine.is_running());
    assert_eq!(*entities.get(0).unwrap().get_rect(), Rect::new(2, 2, 64, 64));
    for y in 0..100u32 {
        for x in 0..200u32 {
            let inside = (2..66).contains(&x) && (2..66).contains(&y);
            let expected = if inside { red } else { background };
            assert_eq!(buffer.pixel(Point::new(x, y)), Some(expected));
        }
    }
}

#[test]
fn left_held_for_ten_frames_of_the_loop_ends_at_one() {
    let mut engine = Win32Engine::new(extent(800, 600));
    engine.set_focus(true);
    let mut input = Win32Input::new();
    input.record(KeyboardState { left: -32768, ..no_keys() }, None);
    let mut entities = EntityManager::new();
    entities.create(Entity::new(Rect::new(5, 5, 64, 64), EntityType::RECT));
    let mut buffer = Win32GameBitmap::new(extent(800, 600));
    let mut seen = Vec::new();
    for _ in 0..10 {
        assert!(entities.can_step(&engine, &input));
        let step = run_frame(
            &mut engine,
            &input,
            &EntityManager::new(),
            &mut entities,
            &mut buffer,
            None,
            extent(800, 600),
            0,
        );
        assert_eq!(step, FrameStep::Present { resized: false });
        seen.push(entities.get(0).unwrap().get_rect().x);
    }
    assert_eq!(seen, vec![2, 1, 1, 1, 1, 1, 1, 1, 1, 1]);
    assert_eq!(*entities.get(0).unwrap().get_rect(), Rect::new(1, 5, 64, 64));
}

#[test]
fn a_frame_on_a_resized_surface_shows_a_fresh_picture() {
    let mut engine = Win32Engine::new(extent(800, 600));
    let input = Win32Input::new();
    let green = Color::new(0, 255, 0, 9);
    let mut entities = EntityManager::new();
    entities.create(player(350, 250, Color::new(0, 1, 0, 1)));
    let mut buffer = Win32GameBitmap::new(extent(800, 600));
    let background = Color::new(9, 9, 9, 9);

    let step = run_frame(
        &mut engine,
        &input,
        &EntityManager::new(),
        &mut entities,
        &mut buffer,
        None,
        extent(400, 300),
        background.to_pixel(),
    );
    assert_eq!(step, FrameStep::Present { resized: true });
    assert_eq!(buffer.memory().len(), 400 * 300 * 4);
    assert_eq!(engine.get_width(), 400);
    assert_eq!(engine.get_height(), 300);
    assert_eq!(*entities.get(0).unwrap().get_rect(), Rect::new(350, 250, 64, 64));
    for y in 0..300u32 {
        for x in 0..400u32 {
            let expected = if x >= 350 && y >= 250 { green } else { background };
            assert_eq!(buffer.pixel(Point::new(x, y)), Some(expected));
        }
    }

    let step = run_frame(
        &mut engine,
        &input,
        &EntityManager::new(),
        &mut entities,
        &mut buffer,
        None,
        extent(400, 300),
        background.to_pixel(),
    );
    assert_eq!(step, FrameStep::Present { resized: false });
    assert_eq!(*entities.get(0).unwrap().get_rect(), Rect::new(335, 235, 64, 64));
    assert_eq!(buffer.pixel(Point::new(335, 235)), Some(green));
    assert_eq!(buffer.pixel(Point::new(398, 298)), Some(green));
    assert_eq!(buffer.pixel(Point::new(399, 299)), Some(background));
    assert_eq!(buffer.pixel(Point::new(334, 234)), Some(background));
}

#[test]
fn a_close_message_ends_the_loop_and_touches_nothing_else() {
    let mut engine = Win32Engine::new(extent(100, 100));
    engine.set_focus(true);
    let mut input = Win32Input::new();
    input.record(KeyboardState { d: 1, ..no_keys() }, None);
    let mut entities = EntityManager::new();
    entities.create(player(5, 5, Color::new(1, 1, 1, 1)));
    let mut buffer = Win32GameBitmap::new(extent(100, 100));
    engine.clear_screen(0x0506_0708, &mut buffer);
    let before = buffer.memory().clone();

    let step = run_frame(
        &mut engine,
        &input,
        &EntityManager::new(),
        &mut entities,
        &mut buffer,
        Some(WindowMessages::WindowClosed),
        extent(50, 50),
        0,
    );
    assert_eq!(step, FrameStep::Release);
    assert_eq!(engine.get_state(), LoopState::Closing);
    assert_eq!(engine.get_width(), 100);
    assert_eq!(*entities.get(0).unwrap().get_rect(), Rect::new(5, 5, 64, 64));
    assert_eq!(*buffer.memory(), before);

    let step = run_frame(
        &mut engine,
        &input,
        &EntityManager::new(),
        &mut entities,
        &mut buffer,
        None,
        extent(50, 50),
        0,
    );
    assert_eq!(step, FrameStep::Release);
    assert_eq!(engine.get_state(), LoopState::Closing);
    assert_eq!(*buffer.memory(), before);

    engine.release();
    let step = run_frame(
        &mut engine,
        &input,
        &EntityManager::new(),
        &mut entities,
        &mut buffer,
        None,
        extent(50, 50),
        0,
    );
    assert_eq!(step, FrameStep::Halt);
    assert_eq!(engine.get_state(), LoopState::Stopped);
    assert_eq!(*entities.get(0).unwrap().get_rect(), Rect::new(5, 5, 64, 64));
    assert_eq!(*buffer.memory(), before);
    assert_eq!(engine.get_width(), 100);
}

#[test]
fn a_frame_without_entities_is_the_background() {
    let mut engine = Win32Engine::new(extent(9, 7));
    let input = Win32Input::new();
    let mut entities = EntityManager::new();
    let mut buffer = Win32GameBitmap::new(extent(9, 7));
    let step = run_frame(
        &mut engine,
        &input,
        &EntityManager::new(),
        &mut entities,
        &mut buffer,
        None,
        extent(9, 7),
        0x0a0b_0c0d,
    );
    assert_eq!(step, FrameStep::Present { resized: false });
    let expected: Vec<u8> =
        [0x0du8, 0x0c, 0x0b, 0x0a].iter().copied().cycle().take(9 * 7 * 4).collect();
    assert_eq!(*buffer.memory(), expected);
}

#[test]
fn a_frame_draws_the_scenery_below_the_entities_and_leaves_it_where_it_stands() {
    let mut engine = Win32Engine::new(extent(40, 30));
    engine.set_focus(true);
    let mut input = Win32Input::new();
    input.record(KeyboardState { d: 1, s: 1, ..no_keys() }, None);
    let mut scenery = EntityManager::new();
    scenery.create(player(10, 10, Color::new(1, 0, 1, 1)));
    let mut entities = EntityManager::new();
    let mut small = Entity::new(Rect::new(5, 5, 8, 8), EntityType::RECT);
    small.set_color(Color::new(0, 0, 1, 1));
    entities.create(small);
    let mut buffer = Win32GameBitmap::new(extent(40, 30));
    let background = Color::new(0, 0, 0, 0);
    let magenta = Color::new(255, 0, 255, 0);
    let blue = Color::new(0, 0, 255, 0);

    for frame in 1..=3 {
        let step = run_frame(
            &mut engine,
            &input,
            &scenery,
            &mut entities,
            &mut buffer,
            None,
            extent(40, 30),
            background.to_pixel(),
        );
        assert_eq!(step, FrameStep::Present { resized: false });
        let corner = 5 + 3 * frame;
        assert_eq!(*entities.get(0).unwrap().get_rect(), Rect::new(corner, corner, 8, 8));
        assert_eq!(*scenery.get(0).unwrap().get_rect(), Rect::new(10, 10, 64, 64));
        for y in 0..30i32 {
            for x in 0..40i32 {
                let span = corner..corner + 8;
                let on_entity = span.contains(&x) && span.contains(&y);
                let on_scenery = x >= 10 && y >= 10;
                let expected = if on_entity {
                    blue
                } else if on_scenery {
                    magenta
                } else {
                    background
                };
                assert_eq!(buffer.pixel(Point::new(x as u32, y as u32)), Some(expected));
            }
        }
    }
}
