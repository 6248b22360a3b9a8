use mandelguessr::input::{InputState, PanStep, PixelPoint, PointerEvent, Viewport};

const VIEW: Viewport = Viewport { width: 800, height: 600 };

fn at(x: i32, y: i32) -> PixelPoint {
    PixelPoint { x, y }
}

fn drag(state: &mut InputState, path: &[PixelPoint], viewport: Viewport) -> (i64, i64) {
    let mut total = (0i64, 0i64);
    for p in path {
        if let Some(step) = state.on_pointer_move(*p, viewport) {
            assert_eq!(step.viewport, viewport);
            total = (total.0 + step.x, total.1 + step.y);
        }
    }
    total
}

#[test]
fn a_new_state_holds_nothing() {
    let state = InputState::new();
    assert_eq!(state, InputState { pointer_down: false, last_pointer_position: None });
}

#[test]
fn first_move_only_sets_the_baseline() {
    let mut state = InputState::new();
    state.on_pointer_button(true);
    assert_eq!(state.on_pointer_move(at(10, 20), VIEW), None);
    assert_eq!(state.last_pointer_position, Some(at(10, 20)));
    assert!(state.pointer_down);
}

#[test]
fn a_drag_pans_against_the_pointer_with_y_flipped() {
    let mut state = InputState { pointer_down: true, last_pointer_position: Some(at(100, 100)) };
    let step = state.on_pointer_move(at(103, 95), VIEW);
    assert_eq!(step, Some(PanStep { x: -6, y: -10, viewport: VIEW }));
    assert_eq!(state.last_pointer_position, Some(at(103, 95)));
    let step = state.on_pointer_move(at(100, 100), VIEW);
    assert_eq!(step, Some(PanStep { x: 6, y: 10, viewport: VIEW }));
}

#[test]
fn one_pixel_is_the_same_share_of_the_view_at_any_zoom() {
    let mut state = InputState { pointer_down: true, last_pointer_position: Some(at(400, 300)) };
    let step = state.on_pointer_move(at(399, 300), VIEW).unwrap();
    assert_eq!((step.x, step.y), (2, 0));
    let share = step.x as f32 / step.viewport.width as f32;
    assert_eq!(share, 0.0025);
    let wide = share * 1.0f32;
    let narrow = share * 0.1f32;
    assert!(narrow < wide);
    assert_eq!(wide, 0.0025);
}

#[test]
fn moving_with_the_button_up_tracks_without_panning() {
    let mut state = InputState::new();
    assert_eq!(drag(&mut state, &[at(1, 1), at(50, 60), at(-7, 9)], VIEW), (0, 0));
    assert_eq!(state.last_pointer_position, Some(at(-7, 9)));
    assert!(!state.pointer_down);
}

#[test]
fn a_zero_sized_viewport_pans_nothing_and_still_tracks() {
    for viewport in [
        Viewport { width: 0, height: 0 },
        Viewport { width: 0, height: 600 },
        Viewport { width: 800, height: 0 },
    ] {
        let mut state =
            InputState { pointer_down: true, last_pointer_position: Some(at(5, 5)) };
        assert_eq!(state.on_pointer_move(at(9, 9), viewport), None);
        assert_eq!(state.last_pointer_position, Some(at(9, 9)));
    }
}

#[test]
fn button_changes_keep_the_position() {
    let mut state = InputState { pointer_down: true, last_pointer_position: Some(at(5, 5)) };
    state.on_pointer_button(false);
    assert_eq!(state, InputState { pointer_down: false, last_pointer_position: Some(at(5, 5)) });
    state.on_pointer_button(true);
    assert_eq!(
        state.on_pointer_move(at(6, 5), VIEW),
        Some(PanStep { x: -2, y: 0, viewport: VIEW })
    );
}

#[test]
fn leaving_forgets_the_position_and_releases() {
    let mut state = InputState { pointer_down: true, last_pointer_position: Some(at(5, 5)) };
    state.on_pointer_leave();
    assert_eq!(state, InputState::new());
    state.on_pointer_button(true);
    assert_eq!(state.on_pointer_move(at(700, 500), VIEW), None);
    assert_eq!(
        state.on_pointer_move(at(701, 500), VIEW),
        Some(PanStep { x: -2, y: 0, viewport: VIEW })
    );
}

#[test]
fn a_drag_adds_up_the_same_however_it_is_chunked() {
    let start = at(120, 80);
    let through = [at(121, 80), at(130, 70), at(90, 200), at(300, 250), at(333, -4)];
    let mut stepwise = InputState { pointer_down: true, last_pointer_position: Some(start) };
    let mut direct = stepwise;
    let total = drag(&mut stepwise, &through, VIEW);
    let jump = drag(&mut direct, &through[through.len() - 1..], VIEW);
    assert_eq!(total, jump);
    assert_eq!(total, (2 * (120 - 333), 2 * (-4 - 80)));
    assert_eq!(stepwise, direct);
}

#[test]
fn extreme_positions_do_not_overflow() {
    let mut state = InputState {
        pointer_down: true,
        last_pointer_position: Some(at(i32::MIN, i32::MAX)),
    };
    let step = state.on_pointer_move(at(i32::MAX, i32::MIN), VIEW).unwrap();
    assert_eq!(step.x, 2 * (i32::MIN as i64 - i32::MAX as i64));
    assert_eq!(step.y, 2 * (i32::MIN as i64 - i32::MAX as i64));
    let step = state.on_pointer_move(at(i32::MIN, i32::MAX), VIEW).unwrap();
    assert_eq!(step.x, 2 * (i32::MAX as i64 - i32::MIN as i64));
    assert_eq!(step.y, 2 * (i32::MAX as i64 - i32::MIN as i64));
}

#[test]
fn handle_dispatches_like_the_single_handlers() {
    let mut a = InputState::new();
    let mut b = InputState::new();
    let events = [
        PointerEvent::Move(at(1, 2)),
        PointerEvent::Button(true),
        PointerEvent::Move(at(4, 8)),
        PointerEvent::Button(false),
        PointerEvent::Move(at(5, 9)),
        PointerEvent::Button(true),
        PointerEvent::Move(at(0, 0)),
        PointerEvent::Leave,
        PointerEvent::Move(at(3, 3)),
    ];
    let mut pans = Vec::new();
    for event in events {
        let expected = match event {
            PointerEvent::Move(p) => b.on_pointer_move(p, VIEW),
            PointerEvent::Button(down) => {
                b.on_pointer_button(down);
                None
            }
            PointerEvent::Leave => {
                b.on_pointer_leave();
                None
            }
        };
        let got = a.handle(event, VIEW);
        assert_eq!(got, expected);
        assert_eq!(a, b);
        pans.push(got);
    }
    assert_eq!(pans[2], Some(PanStep { x: -6, y: 12, viewport: VIEW }));
    assert_eq!(pans[4], None);
    assert_eq!(pans[6], Some(PanStep { x: 10, y: -18, viewport: VIEW }));
    assert_eq!(pans[8], None);
}

#[test]
fn degenerate_viewports_are_recognised() {
    assert!(Viewport { width: 0, height: 1 }.degenerate());
    assert!(Viewport { width: 1, height: 0 }.degenerate());
    assert!(!Viewport { width: 1, height: 1 }.degenerate());
}

#[test]
fn a_drag_there_and_back_pans_by_nothing() {
    let start = at(10, 10);
    let mut state = InputState { pointer_down: true, last_pointer_position: Some(start) };
    let before = state;
    let total = drag(&mut state, &[at(500, -20), at(-3, 77), at(10, 10)], VIEW);
    assert_eq!(total, (0, 0));
    assert_eq!(state, before);
}
