//! The entities of a scene, in the order in which they were created. That
//! is the order in which they are steered, clamped and drawn, so a later
//! entity lies over an earlier one where the two overlap.

use vstd::prelude::*;
use crate::entity::{clamped, stepped, Entity, EntityType};
use crate::math::Color;
use crate::win32_engine::{Win32Drawable, Win32Engine, Win32GameBitmap, Win32Input};

verus! {

/// What pixel `(x, y)` holds after the entities were drawn, first to last
/// and clipped to a surface `clip_width` wide, over a pixel that held
/// `under`: the colour of the last entity that shows there, drawn over what
/// the entities before it left, or `under` where none shows.
pub open spec fn painted(
    entities: Seq<Entity>,
    clip_width: int,
    x: int,
    y: int,
    under: Color,
) -> Color
    decreases entities.len(),
{
    if entities.len() == 0 {
        under
    } else if entities.last().shows(clip_width, x, y) {
        entities.last().color().drawn_over(
            painted(entities.drop_last(), clip_width, x, y, under),
        )
    } else {
        painted(entities.drop_last(), clip_width, x, y, under)
    }
}

/// The owner of the entities. Entities are added and never taken away.
pub struct EntityManager {
    entities: Vec<Entity>,
}

impl View for EntityManager {
    type V = Seq<Entity>;

    /// The entities, first created first.
    closed spec fn view(&self) -> Seq<Entity> {
        self.entities@
    }
}

impl EntityManager {
    /// Whether one frame of steering keeps every entity's coordinates
    /// within the range of `i32`.
    pub open spec fn step_fits(self, engine: Win32Engine, input: Win32Input) -> bool {
        forall|i: int| 0 <= i < self@.len() ==> (#[trigger] self@[i]).step_fits(engine, input)
    }

    pub fn new() -> (manager: Self)
        ensures
            manager@ == Seq::<Entity>::empty(),
    {
        Self { entities: Vec::new() }
    }

    /// Adds an entity behind the others.
    pub fn create(&mut self, entity: Entity)
        ensures
            final(self)@ == old(self)@.push(entity),
    {
        self.entities.push(entity);
    }

    /// How many entities there are.
    pub fn len(&self) -> (len: usize)
        ensures
            len == self@.len(),
    {
        self.entities.len()
    }

    /// The `index`-th entity, if there are that many.
    pub fn get(&self, index: usize) -> (entity: Option<&Entity>)
        ensures
            entity == (if index < self@.len() {
                Some(&self@[index as int])
            } else {
                None
            }),
    {
        if index < self.entities.len() {
            Some(&self.entities[index])
        } else {
            None
        }
    }

    /// Tells whether [`EntityManager::input`] may be called with this engine
    /// and this input.
    pub fn can_step(&self, engine: &Win32Engine, input: &Win32Input) -> (fits: bool)
        ensures
            fits == self.step_fits(*engine, *input),
    {
        let mut i: usize = 0;
        while i < self.entities.len()
            invariant
                i <= self@.len(),
                forall|k: int| 0 <= k < i ==> (#[trigger] self@[k]).step_fits(*engine, *input),
            decreases self@.len() - i,
        {
            if !self.entities[i].can_step(engine, input) {
                return false;
            }
            i = i + 1;
        }
        true
    }

    /// Steers every entity for one frame.
    pub fn input(&mut self, engine: &Win32Engine, input: &Win32Input)
        requires
            old(self).step_fits(*engine, *input),
        ensures
            final(self)@.len() == old(self)@.len(),
            forall|i: int|
                0 <= i < old(self)@.len() ==> {
                    &&& (#[trigger] final(self)@[i]).same_kind(old(self)@[i])
                    &&& final(self)@[i].rect() == (if engine.focused() {
                        stepped(
                            old(self)@[i].rect(),
                            input.left_held(),
                            input.right_held(),
                            input.up_held(),
                            input.down_held(),
                        )
                    } else {
                        old(self)@[i].rect()
                    })
                },
    {
        let mut i: usize = 0;
        while i < self.entities.len()
            invariant
                i <= self@.len(),
                self@.len() == old(self)@.len(),
                old(self).step_fits(*engine, *input),
                forall|k: int| i <= k < self@.len() ==> #[trigger] self@[k] == old(self)@[k],
                forall|k: int|
                    0 <= k < i ==> {
                        &&& (#[trigger] self@[k]).same_kind(old(self)@[k])
                        &&& self@[k].rect() == (if engine.focused() {
                            stepped(
                                old(self)@[k].rect(),
                                input.left_held(),
                                input.right_held(),
                                input.up_held(),
                                input.down_held(),
                            )
                        } else {
                            old(self)@[k].rect()
                        })
                    },
            decreases self@.len() - i,
        {
            // Only a shape that the player steers takes input.
            match self.entities[i].get_type() {
                EntityType::RECT => self.entities[i].input(engine, input),
            }
            i = i + 1;
        }
    }

    /// Keeps every entity on the surface.
    pub fn update(&mut self, engine: &Win32Engine)
        ensures
            final(self)@.len() == old(self)@.len(),
            forall|i: int|
                0 <= i < old(self)@.len() ==> {
                    &&& (#[trigger] final(self)@[i]).same_kind(old(self)@[i])
                    &&& final(self)@[i].rect() == clamped(
                        old(self)@[i].rect(),
                        engine.screen_data().width(),
                        engine.screen_data().height(),
                    )
                },
    {
        let mut i: usize = 0;
        while i < self.entities.len()
            invariant
                i <= self@.len(),
                self@.len() == old(self)@.len(),
                forall|k: int| i <= k < self@.len() ==> #[trigger] self@[k] == old(self)@[k],
                forall|k: int|
                    0 <= k < i ==> {
                        &&& (#[trigger] self@[k]).same_kind(old(self)@[k])
                        &&& self@[k].rect() == clamped(
                            old(self)@[k].rect(),
                            engine.screen_data().width(),
                            engine.screen_data().height(),
                        )
                    },
            decreases self@.len() - i,
        {
            self.entities[i].update(engine);
            i = i + 1;
        }
    }

    /// Draws every entity into the buffer, first created first.
    pub fn draw(&self, engine: &Win32Engine, buffer: &mut Win32GameBitmap)
        ensures
            final(buffer).same_size(*old(buffer)),
            forall|x: int, y: int|
                #![trigger final(buffer).pixel_at(x, y)]
                old(buffer).in_bounds(x, y) ==> final(buffer).pixel_at(x, y) == painted(
                    self@,
                    engine.clip_width(),
                    x,
                    y,
                    old(buffer).pixel_at(x, y),
                ),
    {
        let mut i: usize = 0;
        while i < self.entities.len()
            invariant
                i <= self@.len(),
                buffer.same_size(*old(buffer)),
                forall|x: int, y: int|
                    #![trigger buffer.pixel_at(x, y)]
                    old(buffer).in_bounds(x, y) ==> buffer.pixel_at(x, y) == painted(
                        self@.take(i as int),
                        engine.clip_width(),
                        x,
                        y,
                        old(buffer).pixel_at(x, y),
                    ),
            decreases self@.len() - i,
        {
            proof {
                assert(self@.take(i + 1).drop_last() == self@.take(i as int));
                assert(self@.take(i + 1).last() == self@[i as int]);
            }
            self.entities[i].draw(engine, buffer);
            i = i + 1;
        }
        proof {
            assert(self@.take(i as int) == self@);
        }
    }
}

} // verus!
