//! A registry that hands shared objects from one subsystem to another.

use crate::input::{Input, InputState};
use crate::window::{Window, WindowView};
use vstd::prelude::*;

verus! {

/// Holds at most one object of each kind of resource.
pub struct ResourceManager {
    window: Option<Window>,
    input: Option<Input>,
}

/// What a registry holds, as plain values.
pub struct Resources {
    pub window: Option<WindowView>,
    pub input: Option<InputState>,
}

impl View for ResourceManager {
    type V = Resources;

    closed spec fn view(&self) -> Resources {
        Resources {
            window: match self.window {
                Some(window) => Some(window@),
                None => None,
            },
            input: match self.input {
                Some(input) => Some(input@),
                None => None,
            },
        }
    }
}

/// A kind of object that the registry has a place for.
pub trait Resource: View + Sized {
    /// The object of this kind that the registry holds, if any.
    spec fn held(resources: Resources) -> Option<Self::V>;

    /// The registry with `value` as its object of this kind and every other
    /// kind as before.
    spec fn holding(resources: Resources, value: Self::V) -> Resources;

    /// What is held after `holding` is what was put there.
    proof fn lemma_held_after_holding(resources: Resources, value: Self::V)
        ensures
            Self::held(Self::holding(resources, value)) == Some(value),
    ;

    /// Puts `value` in the place of its kind.
    fn put(resources: &mut ResourceManager, value: Self)
        ensures
            final(resources)@ == Self::holding(old(resources)@, value@),
    ;

    /// The object of this kind, if the registry holds one.
    fn peek(resources: &ResourceManager) -> (r: Option<&Self>)
        ensures
            match r {
                Some(value) => Self::held(resources@) == Some(value@),
                None => Self::held(resources@).is_none(),
            },
    ;

    /// The object of this kind for changing it, if the registry holds one.
    fn peek_mut(resources: &mut ResourceManager) -> (r: Option<&mut Self>)
        ensures
            match r {
                Some(value) => {
                    &&& Self::held(old(resources)@) == Some(value@)
                    &&& final(resources)@ == Self::holding(old(resources)@, final(value)@)
                },
                None => {
                    &&& Self::held(old(resources)@).is_none()
                    &&& final(resources)@ == old(resources)@
                },
            },
    ;
}

impl Resource for Window {
    open spec fn held(resources: Resources) -> Option<WindowView> {
        resources.window
    }

    open spec fn holding(resources: Resources, value: WindowView) -> Resources {
        Resources { window: Some(value), ..resources }
    }

    proof fn lemma_held_after_holding(resources: Resources, value: WindowView) {
    }

    fn put(resources: &mut ResourceManager, value: Window) {
        resources.window = Some(value);
    }

    fn peek(resources: &ResourceManager) -> (r: Option<&Window>) {
        match &resources.window {
            Some(window) => Some(window),
            None => None,
        }
    }

    fn peek_mut(resources: &mut ResourceManager) -> (r: Option<&mut Window>) {
        match &mut resources.window {
            Some(window) => Some(window),
            None => None,
        }
    }
}

impl Resource for Input {
    open spec fn held(resources: Resources) -> Option<InputState> {
        resources.input
    }

    open spec fn holding(resources: Resources, value: InputState) -> Resources {
        Resources { input: Some(value), ..resources }
    }

    proof fn lemma_held_after_holding(resources: Resources, value: InputState) {
    }

    fn put(resources: &mut ResourceManager, value: Input) {
        resources.input = Some(value);
    }

    fn peek(resources: &ResourceManager) -> (r: Option<&Input>) {
        match &resources.input {
            Some(input) => Some(input),
            None => None,
        }
    }

    fn peek_mut(resources: &mut ResourceManager) -> (r: Option<&mut Input>) {
        match &mut resources.input {
            Some(input) => Some(input),
            None => None,
        }
    }
}

impl ResourceManager {
    /// A registry that holds nothing.
    pub fn new() -> (resources: ResourceManager)
        ensures
            resources@ == (Resources { window: None, input: None }),
    {
        ResourceManager { window: None, input: None }
    }

    /// Registers `resource`, in place of the object of its kind where the
    /// registry held one. Objects of other kinds stay.
    pub fn add<T: Resource>(&mut self, resource: T)
        ensures
            final(self)@ == T::holding(old(self)@, resource@),
            T::held(final(self)@) == Some(resource@),
    {
        proof {
            T::lemma_held_after_holding(self@, resource@);
        }
        T::put(self, resource);
    }

    /// Whether an object of kind `T` is registered.
    pub fn has<T: Resource>(&self) -> (r: bool)
        ensures
            r == T::held(self@).is_some(),
    {
        T::peek(self).is_some()
    }

    /// The registered object of kind `T`.
    pub fn get<T: Resource>(&self) -> (resource: &T)
        requires
            T::held(self@).is_some(),
        ensures
            T::held(self@) == Some(resource@),
    {
        match T::peek(self) {
            Some(resource) => resource,
            None => vstd::pervasive::unreached(),
        }
    }

    /// The registered object of kind `T`, for changing it. Objects of other
    /// kinds stay.
    pub fn get_mut<T: Resource>(&mut self) -> (resource: &mut T)
        requires
            T::held(old(self)@).is_some(),
        ensures
            T::held(old(self)@) == Some(resource@),
            final(self)@ == T::holding(old(self)@, final(resource)@),
    {
        match T::peek_mut(self) {
            Some(resource) => resource,
            None => vstd::pervasive::unreached(),
        }
    }
}

} // verus!
