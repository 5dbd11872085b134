//! Entities: rectangles that the player steers, that stay on the surface,
//! and that are drawn in their colour.

use vstd::prelude::*;
use crate::math::{Color, Rect};
use crate::win32_engine::{paints, Win32Drawable, Win32Engine, Win32GameBitmap, Win32Input};

verus! {

/// Pixels that an entity moves in one frame along an axis on which the
/// player steers it.
pub const ENTITY_SPEED: i32 = 3;

/// The shapes an entity can have.
#[allow(non_camel_case_types)]
#[derive(Clone, Copy, Debug, PartialEq, Eq, Structural)]
pub enum EntityType {
    RECT,
}

/// Where a coordinate stands after one frame of steering: `ENTITY_SPEED`
/// less if the player asks to go back, `ENTITY_SPEED` more if the player
/// asks to go forth; both at once cancel.
pub open spec fn step_axis(position: int, back: bool, forth: bool) -> int {
    position - (if back {
        ENTITY_SPEED as int
    } else {
        0
    }) + (if forth {
        ENTITY_SPEED as int
    } else {
        0
    })
}

/// Where a coordinate stands after clamping: a rectangle `size` long is kept
/// one pixel away from both edges of a surface `extent` long, so inside
/// `1 ..= extent - size - 1`. On a surface too short for that it stands at 1.
pub open spec fn clamp_axis(position: int, extent: int, size: int) -> int {
    let last = extent - size - 1;
    if last < 1 || position < 1 {
        1
    } else if position > last {
        last
    } else {
        position
    }
}

/// A rectangle after one frame of steering by the directions held.
pub open spec fn stepped(rect: Rect, left: bool, right: bool, up: bool, down: bool) -> Rect
    recommends
        step_fits(rect, left, right, up, down),
{
    Rect {
        x: step_axis(rect.x as int, left, right) as i32,
        y: step_axis(rect.y as int, up, down) as i32,
        w: rect.w,
        h: rect.h,
    }
}

/// Whether one frame of steering keeps both coordinates of a rectangle
/// within the range of `i32`.
pub open spec fn step_fits(rect: Rect, left: bool, right: bool, up: bool, down: bool) -> bool {
    &&& i32::MIN <= step_axis(rect.x as int, left, right) <= i32::MAX
    &&& i32::MIN <= step_axis(rect.y as int, up, down) <= i32::MAX
}

/// A rectangle after it was clamped to a surface `width` wide and `height`
/// high.
pub open spec fn clamped(rect: Rect, width: int, height: int) -> Rect {
    Rect {
        x: clamp_axis(rect.x as int, width, rect.w as int) as i32,
        y: clamp_axis(rect.y as int, height, rect.h as int) as i32,
        w: rect.w,
        h: rect.h,
    }
}

/// Clamping puts a coordinate into `1 ..= extent - size - 1` wherever it
/// stood before, also below zero, as long as that range is not empty.
pub proof fn lemma_clamp_axis_inside(position: int, extent: int, size: int)
    requires
        1 <= extent - size - 1,
    ensures
        1 <= clamp_axis(position, extent, size) <= extent - size - 1,
        1 <= position <= extent - size - 1 ==> clamp_axis(position, extent, size) == position,
{
}

/// Steers one coordinate of a rectangle for one frame.
fn step_coordinate(position: i32, back: bool, forth: bool) -> (stepped: i64)
    ensures
        stepped == step_axis(position as int, back, forth),
{
    let mut stepped: i64 = position as i64;
    if back {
        stepped = stepped - ENTITY_SPEED as i64;
    }
    if forth {
        stepped = stepped + ENTITY_SPEED as i64;
    }
    stepped
}

/// Clamps one coordinate of a rectangle.
fn clamp_coordinate(position: i32, extent: u32, size: i32) -> (clamped: i32)
    ensures
        clamped == clamp_axis(position as int, extent as int, size as int),
{
    let last: i64 = extent as i64 - size as i64 - 1;
    if last < 1 || position < 1 {
        1
    } else if position as i64 > last {
        last as i32
    } else {
        position
    }
}

/// Something on the surface: a rectangle, its shape and the colour it is
/// drawn with, whose red, green and blue are each 0 or 1.
#[derive(Clone, Copy, Debug, PartialEq, Eq, Structural)]
pub struct Entity {
    rect: Rect,
    ent_type: EntityType,
    color: Color,
}

impl Entity {
    #[verifier::type_invariant]
    pub closed spec fn wf(self) -> bool {
        self.color.drawable()
    }

    pub closed spec fn rect(self) -> Rect {
        self.rect
    }

    pub closed spec fn ent_type(self) -> EntityType {
        self.ent_type
    }

    pub closed spec fn color(self) -> Color {
        self.color
    }

    /// Whether two entities differ at most in where they stand.
    pub open spec fn same_kind(self, other: Entity) -> bool {
        &&& self.ent_type() == other.ent_type()
        &&& self.color() == other.color()
        &&& self.rect().w == other.rect().w
        &&& self.rect().h == other.rect().h
    }

    /// Whether one frame of steering, with the focus and the directions as
    /// they are, keeps the entity's coordinates within the range of `i32`.
    pub open spec fn step_fits(self, engine: Win32Engine, input: Win32Input) -> bool {
        engine.focused() ==> step_fits(
            self.rect(),
            input.left_held(),
            input.right_held(),
            input.up_held(),
            input.down_held(),
        )
    }

    /// What validity says of the colour.
    pub proof fn lemma_wf(self)
        requires
            self.wf(),
        ensures
            self.color().drawable(),
    {
    }

    /// Whether drawing the entity, clipped to a surface `clip_width` wide,
    /// paints pixel `(x, y)` of a buffer that holds that pixel.
    pub open spec fn shows(self, clip_width: int, x: int, y: int) -> bool {
        paints(self.rect(), clip_width, x, y)
    }

    /// An entity whose colour has every channel off.
    pub fn new(rect: Rect, ent_type: EntityType) -> (entity: Self)
        ensures
            entity.wf(),
            entity.rect() == rect,
            entity.ent_type() == ent_type,
            entity.color() == (Color { r: 0, g: 0, b: 0, a: 0 }),
    {
        Self { rect, ent_type, color: Color::new(0, 0, 0, 0) }
    }

    /// Gives the entity another colour to be drawn with.
    pub fn set_color(&mut self, color: Color)
        requires
            color.drawable(),
        ensures
            final(self).wf(),
            final(self).color() == color,
            final(self).rect() == old(self).rect(),
            final(self).ent_type() == old(self).ent_type(),
    {
        self.color = color;
    }

    /// Tells whether [`Entity::input`] may be called with this engine and
    /// this input.
    pub fn can_step(&self, engine: &Win32Engine, input: &Win32Input) -> (fits: bool)
        ensures
            fits == self.step_fits(*engine, *input),
    {
        if !engine.check_focus() {
            return true;
        }
        let x: i64 = step_coordinate(self.rect.x, input.left(), input.right());
        let y: i64 = step_coordinate(self.rect.y, input.up(), input.down());
        i32::MIN as i64 <= x && x <= i32::MAX as i64 && i32::MIN as i64 <= y && y <= i32::MAX as i64
    }

    /// Steers the entity for one frame. While the window has the focus,
    /// every direction held moves it by `ENTITY_SPEED`; without the focus
    /// it stays where it is.
    pub fn input(&mut self, engine: &Win32Engine, input: &Win32Input)
        requires
            old(self).step_fits(*engine, *input),
        ensures
            final(self).same_kind(*old(self)),
            final(self).rect() == (if engine.focused() {
                stepped(
                    old(self).rect(),
                    input.left_held(),
                    input.right_held(),
                    input.up_held(),
                    input.down_held(),
                )
            } else {
                old(self).rect()
            }),
    {
        proof {
            use_type_invariant(&*self);
        }
        if engine.check_focus() {
            let x: i64 = step_coordinate(self.rect.x, input.left(), input.right());
            let y: i64 = step_coordinate(self.rect.y, input.up(), input.down());
            self.rect.x = x as i32;
            self.rect.y = y as i32;
        }
    }

    /// Keeps the entity on the surface, one pixel away from its edges.
    pub fn update(&mut self, engine: &Win32Engine)
        ensures
            final(self).same_kind(*old(self)),
            final(self).rect() == clamped(
                old(self).rect(),
                engine.screen_data().width(),
                engine.screen_data().height(),
            ),
            1 <= final(self).rect().x,
            1 <= final(self).rect().y,
            1 <= engine.screen_data().width() - old(self).rect().w - 1 ==> final(self).rect().x
                <= engine.screen_data().width() - old(self).rect().w - 1,
            1 <= engine.screen_data().height() - old(self).rect().h - 1 ==> final(self).rect().y
                <= engine.screen_data().height() - old(self).rect().h - 1,
    {
        proof {
            use_type_invariant(&*self);
        }
        self.rect.x = clamp_coordinate(self.rect.x, engine.get_width(), self.rect.w);
        self.rect.y = clamp_coordinate(self.rect.y, engine.get_height(), self.rect.h);
    }

    /// Draws the entity into the buffer, clipped to the surface and to the
    /// buffer: the blue, green and red byte of a pixel that it covers become
    /// 255 times the blue, green and red of its colour.
    pub fn draw(&self, engine: &Win32Engine, buffer: &mut Win32GameBitmap)
        ensures
            final(buffer).same_size(*old(buffer)),
            forall|x: int, y: int|
                #![trigger final(buffer).pixel_at(x, y)]
                old(buffer).in_bounds(x, y) ==> final(buffer).pixel_at(x, y) == (if self.shows(
                    engine.clip_width(),
                    x,
                    y,
                ) {
                    self.color().drawn_over(old(buffer).pixel_at(x, y))
                } else {
                    old(buffer).pixel_at(x, y)
                }),
            (forall|x: int, y: int|
                #![trigger self.shows(engine.clip_width(), x, y)]
                old(buffer).in_bounds(x, y) ==> !self.shows(engine.clip_width(), x, y))
                ==> final(buffer)@ == old(buffer)@,
    {
        proof {
            use_type_invariant(self);
        }
        let ghost clip = engine.clip_width();
        assert(forall|x: int, y: int|
            self.shows(clip, x, y) == #[trigger] paints(self.rect, clip, x, y));
        match self.ent_type {
            EntityType::RECT => engine.draw_rectangle(&self.color, &self.rect, buffer),
        }
    }

    pub fn get_type(&self) -> (ent_type: &EntityType)
        ensures
            *ent_type == self.ent_type(),
    {
        &self.ent_type
    }

    pub fn get_rect(&self) -> (rect: &Rect)
        ensures
            *rect == self.rect(),
    {
        &self.rect
    }

    pub fn get_color(&self) -> (color: &Color)
        ensures
            *color == self.color(),
    {
        &self.color
    }
}

} // verus!
