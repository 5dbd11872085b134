//! One turn of the frame loop: take what the platform reported, steer and
//! clamp the entities, draw the scenery and the entities over it, and get the
//! buffer ready to be shown.
//!
//! The driver around it asks the platform, calls [`run_frame`], and does what
//! the returned [`FrameStep`] says.

use vstd::prelude::*;
use crate::entity::{clamped, stepped, Entity};
use crate::entity_manager::{painted, EntityManager};
use crate::math::{Color, Rect};
use crate::win32_engine::{
    ClientData,
    LoopState,
    Win32Drawable,
    Win32Engine,
    Win32GameBitmap,
    Win32Input,
    WindowMessages,
};

verus! {

/// What the driver has to do after a turn of the loop.
#[derive(Clone, Copy, Debug, PartialEq, Eq, Structural)]
pub enum FrameStep {
    /// Show the buffer on the surface, then run the next frame. `resized`
    /// tells whether the buffer was replaced by one of another size.
    Present { resized: bool },
    /// Give the surface back, tell the engine so, and stop.
    Release,
    /// Stop: the surface was given back already.
    Halt,
}

/// Whether a frame is run: the loop is running and is not asked to close.
pub open spec fn frame_runs(engine: Win32Engine, message: Option<WindowMessages>) -> bool {
    engine.state() == LoopState::Running && message != Some(WindowMessages::WindowClosed)
}

/// Where a rectangle stands after a frame: steered, if the window has the
/// focus, and then clamped to the surface.
pub open spec fn rect_after_frame(rect: Rect, engine: Win32Engine, input: Win32Input) -> Rect {
    clamped(
        if engine.focused() {
            stepped(
                rect,
                input.left_held(),
                input.right_held(),
                input.up_held(),
                input.down_held(),
            )
        } else {
            rect
        },
        engine.screen_data().width(),
        engine.screen_data().height(),
    )
}

/// What pixel `(x, y)` of a finished frame holds on a surface `width` wide:
/// the background, the scenery drawn over it, and the entities drawn over
/// both.
pub open spec fn frame_pixel(
    scenery: Seq<Entity>,
    entities: Seq<Entity>,
    width: int,
    x: int,
    y: int,
    background: u32,
) -> Color {
    painted(entities, width, x, y, painted(scenery, width, x, y, Color::unpacked(background)))
}

/// Runs one turn of the frame loop.
///
/// `message` is what the platform reported since the last turn, `extent` the
/// size of the drawable area now. The focus and the directions held are
/// those that the engine and the input recorded last. `scenery` holds what
/// is drawn where it stands, below the entities: it is neither steered nor
/// clamped.
///
/// A loop that is not running does nothing, and a close message only ends
/// it. Otherwise the entities are steered and clamped to the surface as the
/// engine saw it last; the buffer is resized if the surface has another size
/// now; and the buffer ends up cleared to `background` with the scenery and
/// then the entities drawn over it, so what is shown is never left over from
/// before a resize.
pub fn run_frame(
    engine: &mut Win32Engine,
    input: &Win32Input,
    scenery: &EntityManager,
    entities: &mut EntityManager,
    buffer: &mut Win32GameBitmap,
    message: Option<WindowMessages>,
    extent: ClientData,
    background: u32,
) -> (step: FrameStep)
    requires
        frame_runs(*old(engine), message) ==> old(entities).step_fits(*old(engine), *input),
    ensures
        final(engine).focused() == old(engine).focused(),
        final(engine).state() == old(engine).state().after(message),
        !frame_runs(*old(engine), message) ==> {
            &&& step == (if final(engine).state() == LoopState::Closing {
                FrameStep::Release
            } else {
                FrameStep::Halt
            })
            &&& final(engine).screen_data() == old(engine).screen_data()
            &&& final(entities)@ == old(entities)@
            &&& *final(buffer) == *old(buffer)
        },
        frame_runs(*old(engine), message) ==> {
            &&& step == (FrameStep::Present { resized: old(engine).must_resize(extent) })
            &&& final(engine).state() == LoopState::Running
            &&& final(engine).screen_data() == extent
            &&& final(entities)@.len() == old(entities)@.len()
            &&& forall|i: int|
                0 <= i < old(entities)@.len() ==> {
                    &&& (#[trigger] final(entities)@[i]).same_kind(old(entities)@[i])
                    &&& final(entities)@[i].rect() == rect_after_frame(
                        old(entities)@[i].rect(),
                        *old(engine),
                        *input,
                    )
                }
            &&& if old(engine).must_resize(extent) {
                &&& final(buffer).width() == extent.width()
                &&& final(buffer).height() == extent.height()
                &&& final(buffer)@.len() == extent.width() * extent.height() * 4
            } else {
                final(buffer).same_size(*old(buffer))
            }
            &&& forall|x: int, y: int|
                #![trigger final(buffer).pixel_at(x, y)]
                final(buffer).in_bounds(x, y) ==> final(buffer).pixel_at(x, y) == frame_pixel(
                    scenery@,
                    final(entities)@,
                    extent.width(),
                    x,
                    y,
                    background,
                )
        },
{
    engine.handle_events(message);
    if !engine.is_running() {
        return match engine.get_state() {
            LoopState::Closing => FrameStep::Release,
            _ => FrameStep::Halt,
        };
    }
    entities.input(engine, input);
    entities.update(engine);
    engine.clear_screen(background, buffer);
    scenery.draw(engine, buffer);
    entities.draw(engine, buffer);
    let resized: bool = engine.render_buffer_to_screen(extent, buffer);
    if resized {
        engine.clear_screen(background, buffer);
        scenery.draw(engine, buffer);
        entities.draw(engine, buffer);
    }
    FrameStep::Present { resized }
}

} // verus!
