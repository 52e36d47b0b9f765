//! The scene: the components that are to be drawn, by identifier.

use vstd::prelude::*;

verus! {

/// A scene, as the list of the identifiers of its components in the order
/// in which they were added.
#[derive(Debug, PartialEq, Eq)]
pub struct SceneBase {
    components: Vec<u32>,
}

impl View for SceneBase {
    type V = Seq<u32>;

    closed spec fn view(&self) -> Seq<u32> {
        self.components@
    }
}

impl SceneBase {
    /// A scene without components.
    pub fn new() -> (scene: Self)
        ensures
            scene@ == Seq::<u32>::empty(),
    {
        SceneBase { components: Vec::new() }
    }

    /// Adds a component at the end of the scene.
    pub fn add_component(&mut self, id: u32)
        ensures
            final(self)@ == old(self)@.push(id),
    {
        self.components.push(id);
    }

    /// The components of the scene, oldest first.
    pub fn components(&self) -> (components: &Vec<u32>)
        ensures
            components@ == self@,
    {
        &self.components
    }
}

} // verus!
