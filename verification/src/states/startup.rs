use vstd::prelude::*;

use crate::states::transition::StateKind;
use crate::states::transition::Transition;

verus! {

/// The screen size assumed when the display configuration gives none.
pub const DEFAULT_SCREEN_SIZE: (u32, u32) = (1200, 800);

/// The first state: loads the resources and shows a loading text, then moves on to the
/// main menu. `E` is the entity that shows the loading text.
pub struct Startup<E> {
    loading_text_entity: Option<E>,
}

impl<E> Startup<E> {
    pub closed spec fn loading_text_entity_value(&self) -> Option<E> {
        self.loading_text_entity
    }
}

impl<E: Copy> Startup<E> {
    /// Loading is done as soon as the state has started.
    pub fn is_finished_loading(&self) -> (b: bool)
        ensures
            b,
    {
        true
    }

    /// The size of the loading text's area: the screen's dimensions, else the default.
    pub fn loading_text_size(dimensions: Option<(u32, u32)>) -> (size: (u32, u32))
        ensures
            size == match dimensions {
                Some(d) => d,
                None => DEFAULT_SCREEN_SIZE,
            },
    {
        match dimensions {
            Some(d) => d,
            None => DEFAULT_SCREEN_SIZE,
        }
    }

    /// Remembers the entity that shows the loading text.
    pub fn show_loading_text(&mut self, entity: E)
        ensures
            final(self).loading_text_entity_value() == Some(entity),
    {
        self.loading_text_entity = Some(entity);
    }

    /// Once loading is done, the state switches to the main menu, and the loading text
    /// (if shown) is to be deleted.
    pub fn update(&self) -> (r: (Transition, Option<E>))
        ensures
            r.0 == Transition::Switch(StateKind::MainMenu),
            r.1 == self.loading_text_entity_value(),
    {
        if self.is_finished_loading() {
            return (Transition::Switch(StateKind::MainMenu), self.loading_text_entity);
        }
        (Transition::Stay, None)
    }
}

impl<E> Default for Startup<E> {
    /// The state before it shows anything.
    fn default() -> (s: Self)
        ensures
            s.loading_text_entity_value() is None,
    {
        Startup { loading_text_entity: None }
    }
}

} // verus!
