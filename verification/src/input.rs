//! Pointer input: which pointer movements drag the camera, and by how much of the view.
//!
//! Positions are whole screen pixels. A drag is measured in pixels first and only then
//! put in proportion to the viewport, so the result is exact: a pan is a pair of
//! fractions of the visible extent, numerators here, the viewport's sides as denominators.
//! Multiplying by the extent, which is not a whole number, is left to the caller.

use vstd::prelude::*;

verus! {

/// A pointer position in screen pixels; `y` grows downwards.
#[derive(Clone, Copy, Debug, PartialEq, Eq, Structural)]
pub struct PixelPoint {
    pub x: i32,
    pub y: i32,
}

/// The size of the drawing area in pixels.
#[derive(Clone, Copy, Debug, PartialEq, Eq, Structural)]
pub struct Viewport {
    pub width: u32,
    pub height: u32,
}

impl Viewport {
    /// A viewport with a zero side, as seen for a moment while a window is resized.
    /// Nothing can be put in proportion to it.
    pub open spec fn is_degenerate(self) -> bool {
        self.width == 0 || self.height == 0
    }

    /// Whether either side is zero.
    pub fn degenerate(&self) -> (d: bool)
        ensures
            d == self.is_degenerate(),
    {
        self.width == 0 || self.height == 0
    }
}

/// A camera movement, in units of the visible extent: the centre moves by
/// `x / viewport.width` extents to the right and by `y / viewport.height` extents upwards.
#[derive(Clone, Copy, Debug, PartialEq, Eq, Structural)]
pub struct PanStep {
    pub x: i64,
    pub y: i64,
    pub viewport: Viewport,
}

/// The numerators of the pan that dragging the pointer from `from` to `to` asks for.
/// The view spans two units across, and the plane's `y` grows upwards where the screen's
/// grows downwards: so the pixel difference `from - to` is doubled, and its `y` negated.
pub open spec fn pan_between(from: PixelPoint, to: PixelPoint) -> (int, int) {
    (2 * (from.x - to.x), -2 * (from.y - to.y))
}

/// What the pointer did.
#[derive(Clone, Copy, Debug, PartialEq, Eq, Structural)]
pub enum PointerEvent {
    /// It moved to a position.
    Move(PixelPoint),
    /// Its main button went down (`true`) or up.
    Button(bool),
    /// It left the drawing area.
    Leave,
}

/// What is remembered of the pointer between events.
#[derive(Clone, Copy, Debug, PartialEq, Eq, Structural)]
pub struct InputState {
    /// The main button is held.
    pub pointer_down: bool,
    /// Where the pointer last was, if it has been seen since it last left.
    pub last_pointer_position: Option<PixelPoint>,
}

impl InputState {
    /// The pan that a move to `position` causes: none unless the button is held, an earlier
    /// position is known and the viewport has no zero side.
    pub open spec fn pan_toward(self, position: PixelPoint, viewport: Viewport) -> Option<
        PanStep,
    > {
        match self.last_pointer_position {
            Some(previous) if self.pointer_down && !viewport.is_degenerate() => Some(
                PanStep {
                    x: pan_between(previous, position).0 as i64,
                    y: pan_between(previous, position).1 as i64,
                    viewport,
                },
            ),
            _ => None,
        }
    }

    /// The state after an event.
    pub open spec fn after(self, event: PointerEvent) -> InputState {
        match event {
            PointerEvent::Move(position) => InputState {
                last_pointer_position: Some(position),
                ..self
            },
            PointerEvent::Button(is_down) => InputState { pointer_down: is_down, ..self },
            PointerEvent::Leave => InputState {
                pointer_down: false,
                last_pointer_position: None,
            },
        }
    }

    /// The pan that an event causes. Only a move can cause one.
    pub open spec fn pan_on(self, event: PointerEvent, viewport: Viewport) -> Option<PanStep> {
        match event {
            PointerEvent::Move(position) => self.pan_toward(position, viewport),
            _ => None,
        }
    }

    /// No button held, no position seen.
    pub fn new() -> (state: InputState)
        ensures
            state == (InputState { pointer_down: false, last_pointer_position: None }),
    {
        InputState { pointer_down: false, last_pointer_position: None }
    }

    /// The pointer moved. The position is remembered whatever the button's state; a pan
    /// comes back where the move was a drag.
    pub fn on_pointer_move(&mut self, position: PixelPoint, viewport: Viewport) -> (pan: Option<
        PanStep,
    >)
        ensures
            *final(self) == old(self).after(PointerEvent::Move(position)),
            pan == old(self).pan_toward(position, viewport),
            pan matches Some(step) ==> {
                &&& step.x == pan_between(old(self).last_pointer_position->0, position).0
                &&& step.y == pan_between(old(self).last_pointer_position->0, position).1
            },
    {
        let pan = match self.last_pointer_position {
            Some(previous) => {
                if self.pointer_down && !viewport.degenerate() {
                    let dx: i64 = previous.x as i64 - position.x as i64;
                    let dy: i64 = position.y as i64 - previous.y as i64;
                    Some(PanStep { x: 2 * dx, y: 2 * dy, viewport })
                } else {
                    None
                }
            },
            None => None,
        };
        self.last_pointer_position = Some(position);
        pan
    }

    /// The main button went down or up. The remembered position stays, so that a
    /// release and a press without a move between them do not make the view jump.
    pub fn on_pointer_button(&mut self, is_down: bool)
        ensures
            *final(self) == old(self).after(PointerEvent::Button(is_down)),
    {
        self.pointer_down = is_down;
    }

    /// The pointer left the drawing area. The button counts as released and the position
    /// is forgotten: where the pointer comes back, however far away, a new drag starts.
    pub fn on_pointer_leave(&mut self)
        ensures
            *final(self) == old(self).after(PointerEvent::Leave),
    {
        self.pointer_down = false;
        self.last_pointer_position = None;
    }

    /// Handles any pointer event.
    pub fn handle(&mut self, event: PointerEvent, viewport: Viewport) -> (pan: Option<PanStep>)
        ensures
            *final(self) == old(self).after(event),
            pan == old(self).pan_on(event, viewport),
    {
        match event {
            PointerEvent::Move(position) => self.on_pointer_move(position, viewport),
            PointerEvent::Button(is_down) => {
                self.on_pointer_button(is_down);
                None
            },
            PointerEvent::Leave => {
                self.on_pointer_leave();
                None
            },
        }
    }
}

/// The numerators of a pan, or zeros where there is none.
pub open spec fn pan_amount(pan: Option<PanStep>) -> (int, int) {
    match pan {
        Some(step) => (step.x as int, step.y as int),
        None => (0, 0),
    }
}

/// The pans added up, numerator by numerator, when the pointer visits the positions of
/// `path` in order, starting in `state`, with no other event between the moves.
pub open spec fn drag_total(state: InputState, path: Seq<PixelPoint>, viewport: Viewport) -> (
    int,
    int,
)
    decreases path.len(),
{
    if path.len() == 0 {
        (0, 0)
    } else {
        let first = pan_amount(state.pan_toward(path[0], viewport));
        let rest = drag_total(
            state.after(PointerEvent::Move(path[0])),
            path.drop_first(),
            viewport,
        );
        (first.0 + rest.0, first.1 + rest.1)
    }
}

/// The state after the pointer has visited the positions of `path` in order.
pub open spec fn after_moves(state: InputState, path: Seq<PixelPoint>) -> InputState
    decreases path.len(),
{
    if path.len() == 0 {
        state
    } else {
        after_moves(state.after(PointerEvent::Move(path[0])), path.drop_first())
    }
}

/// A drag adds up to the pan between its first and its last position, whatever lies
/// between them: with the button held, the pointer last seen at `start` and a viewport
/// without a zero side, moving through `path` pans in total as one move from `start` to
/// the end of `path` does.
pub proof fn lemma_drag_total_is_end_to_end(
    state: InputState,
    start: PixelPoint,
    path: Seq<PixelPoint>,
    viewport: Viewport,
)
    requires
        state.pointer_down,
        state.last_pointer_position == Some(start),
        !viewport.is_degenerate(),
        path.len() > 0,
    ensures
        drag_total(state, path, viewport) == pan_between(start, path.last()),
        after_moves(state, path) == (InputState {
            pointer_down: true,
            last_pointer_position: Some(path.last()),
        }),
    decreases path.len(),
{
    let next = state.after(PointerEvent::Move(path[0]));
    let rest = path.drop_first();
    if rest.len() == 0 {
        assert(drag_total(next, rest, viewport) == (0int, 0int));
        assert(after_moves(next, rest) == next);
    } else {
        lemma_drag_total_is_end_to_end(next, path[0], rest, viewport);
        assert(rest.last() == path.last());
    }
}

/// How a drag is cut into moves does not matter: two paths from one state that end at the
/// same position pan by the same total and leave the same state.
pub proof fn lemma_drag_independent_of_chunking(
    state: InputState,
    start: PixelPoint,
    path_a: Seq<PixelPoint>,
    path_b: Seq<PixelPoint>,
    viewport: Viewport,
)
    requires
        state.pointer_down,
        state.last_pointer_position == Some(start),
        !viewport.is_degenerate(),
        path_a.len() > 0,
        path_b.len() > 0,
        path_a.last() == path_b.last(),
    ensures
        drag_total(state, path_a, viewport) == drag_total(state, path_b, viewport),
        after_moves(state, path_a) == after_moves(state, path_b),
{
    lemma_drag_total_is_end_to_end(state, start, path_a, viewport);
    lemma_drag_total_is_end_to_end(state, start, path_b, viewport);
}

/// A drag that ends where it began pans by nothing in total, however far it went.
pub proof fn lemma_drag_there_and_back(
    state: InputState,
    start: PixelPoint,
    path: Seq<PixelPoint>,
    viewport: Viewport,
)
    requires
        state.pointer_down,
        state.last_pointer_position == Some(start),
        !viewport.is_degenerate(),
        path.len() > 0,
        path.last() == start,
    ensures
        drag_total(state, path, viewport) == (0int, 0int),
        after_moves(state, path) == state,
{
    lemma_drag_total_is_end_to_end(state, start, path, viewport);
}

/// Moves with the button up, or over a viewport with a zero side, pan by nothing; the
/// position is followed all the same.
pub proof fn lemma_no_pan_without_drag(
    state: InputState,
    path: Seq<PixelPoint>,
    viewport: Viewport,
)
    requires
        !state.pointer_down || viewport.is_degenerate(),
    ensures
        drag_total(state, path, viewport) == (0int, 0int),
        path.len() > 0 ==> after_moves(state, path).last_pointer_position == Some(path.last()),
        after_moves(state, path).pointer_down == state.pointer_down,
    decreases path.len(),
{
    if path.len() > 0 {
        let next = state.after(PointerEvent::Move(path[0]));
        let rest = path.drop_first();
        lemma_no_pan_without_drag(next, rest, viewport);
        if rest.len() > 0 {
            assert(rest.last() == path.last());
        } else {
            assert(after_moves(next, rest) == next);
        }
    }
}

/// After the pointer has left, the first move back pans by nothing, wherever it lands
/// and whatever was held before.
pub proof fn lemma_no_jump_after_leave(
    state: InputState,
    position: PixelPoint,
    viewport: Viewport,
)
    ensures
        state.after(PointerEvent::Leave).pan_toward(position, viewport) is None,
        state.after(PointerEvent::Leave).after(PointerEvent::Button(true)).pan_toward(
            position,
            viewport,
        ) is None,
{
}

/// Releasing and pressing the button with no move between them changes nothing: the
/// next move pans from where the pointer was before the release.
pub proof fn lemma_release_and_press_keep_position(
    state: InputState,
    position: PixelPoint,
    viewport: Viewport,
)
    requires
        state.pointer_down,
    ensures
        state.after(PointerEvent::Button(false)).after(PointerEvent::Button(true)) == state,
        state.after(PointerEvent::Button(false)).after(PointerEvent::Button(true)).pan_toward(
            position,
            viewport,
        ) == state.pan_toward(position, viewport),
{
}

} // verus!
