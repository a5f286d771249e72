//! The layout: three ordered registries, one for each kind of component. A
//! component is known by its index in its registry. An index is handed out when
//! the component is added and stays good until a component before it is
//! removed.

use vstd::prelude::*;
use crate::components::base_components::{
    Downcast,
    DowncastError,
    EventGUIComponent,
    GUIComponent,
    TextGUIComponent,
};
use crate::rendering::coords::CenteredPosition;

verus! {

/// What a text component takes over from the component it is bound to.
#[derive(Clone, Copy, Debug, PartialEq, Eq, Structural)]
pub struct Binding {
    pub text_id: usize,
    pub enabled: bool,
    pub pos: CenteredPosition,
}

/// The components that a renderer draws: plain components, event components
/// and text components, each kind in a registry of its own.
pub struct Layout<V, E, T> {
    pub components: Vec<Box<V>>,
    pub event_components: Vec<Box<E>>,
    pub text_components: Vec<Box<T>>,
}

/// The bindings of the components of one registry, in its order.
pub open spec fn component_bindings<C: GUIComponent>(components: Seq<Box<C>>) -> Seq<Binding>
    decreases components.len(),
{
    if components.len() == 0 {
        Seq::empty()
    } else {
        let before = component_bindings(components.drop_last());
        let owner = components.last();
        match owner.spec_text_id() {
            Some(text_id) => before.push(
                Binding { text_id, enabled: owner.spec_enabled(), pos: owner.spec_pos() },
            ),
            None => before,
        }
    }
}

/// Whether every text id that a component of the registry is bound to is
/// below `texts`.
pub open spec fn bindings_below<C: GUIComponent>(components: Seq<Box<C>>, texts: int) -> bool {
    forall|i: int|
        0 <= i < components.len() ==> (#[trigger] components[i].spec_text_id() matches Some(id)
            ==> id < texts)
}

impl<V: GUIComponent, E: EventGUIComponent, T: TextGUIComponent> Layout<V, E, T> {
    /// Every binding, plain components first, then event components.
    pub open spec fn spec_bindings(&self) -> Seq<Binding> {
        component_bindings(self.components@) + component_bindings(self.event_components@)
    }

    /// Whether every bound text id names a text component of this layout.
    pub open spec fn spec_bindings_valid(&self) -> bool {
        &&& bindings_below(self.components@, self.text_components.len() as int)
        &&& bindings_below(self.event_components@, self.text_components.len() as int)
    }

    pub fn new() -> (layout: Self)
        ensures
            layout.components@ == Seq::<Box<V>>::empty(),
            layout.event_components@ == Seq::<Box<E>>::empty(),
            layout.text_components@ == Seq::<Box<T>>::empty(),
    {
        Layout {
            components: Vec::new(),
            event_components: Vec::new(),
            text_components: Vec::new(),
        }
    }

    /// Appends a plain component and returns its id: the length of the registry
    /// before the call.
    pub fn add_component(&mut self, comp: Box<V>) -> (id: usize)
        ensures
            id == old(self).components.len(),
            final(self).components@ == old(self).components@.push(comp),
            final(self).event_components@ == old(self).event_components@,
            final(self).text_components@ == old(self).text_components@,
    {
        self.components.push(comp);
        self.components.len() - 1
    }

    /// Appends a text component and returns its id: the length of the registry
    /// before the call.
    pub fn add_text_component(&mut self, comp: Box<T>) -> (id: usize)
        ensures
            id == old(self).text_components.len(),
            final(self).text_components@ == old(self).text_components@.push(comp),
            final(self).components@ == old(self).components@,
            final(self).event_components@ == old(self).event_components@,
    {
        self.text_components.push(comp);
        self.text_components.len() - 1
    }

    /// Appends an event component and returns its id: the length of the registry
    /// before the call.
    pub fn add_event_component(&mut self, comp: Box<E>) -> (id: usize)
        ensures
            id == old(self).event_components.len(),
            final(self).event_components@ == old(self).event_components@.push(comp),
            final(self).components@ == old(self).components@,
            final(self).text_components@ == old(self).text_components@,
    {
        self.event_components.push(comp);
        self.event_components.len() - 1
    }

    /// Removes the component at `id`. Every later component moves one id
    /// down.
    pub fn remove_component_by_id(&mut self, id: usize)
        requires
            id < old(self).components.len(),
        ensures
            final(self).components@ == old(self).components@.remove(id as int),
            final(self).event_components@ == old(self).event_components@,
            final(self).text_components@ == old(self).text_components@,
    {
        self.components.remove(id);
    }

    /// Removes the component at `id`. Every later component moves one id
    /// down.
    pub fn remove_text_component_by_id(&mut self, id: usize)
        requires
            id < old(self).text_components.len(),
        ensures
            final(self).text_components@ == old(self).text_components@.remove(id as int),
            final(self).components@ == old(self).components@,
            final(self).event_components@ == old(self).event_components@,
    {
        self.text_components.remove(id);
    }

    /// Removes the component at `id`. Every later component moves one id
    /// down.
    pub fn remove_event_component_by_id(&mut self, id: usize)
        requires
            id < old(self).event_components.len(),
        ensures
            final(self).event_components@ == old(self).event_components@.remove(id as int),
            final(self).components@ == old(self).components@,
            final(self).text_components@ == old(self).text_components@,
    {
        self.event_components.remove(id);
    }

    pub fn borrow_component(&self, id: usize) -> (comp: &Box<V>)
        requires
            id < self.components.len(),
        ensures
            *comp == self.components[id as int],
    {
        &self.components[id]
    }

    /// The component at `id` as a `U`, or an error if it is not one.
    pub fn borrow_component_as_type<U>(&self, id: usize) -> (result: Result<
        &U,
        DowncastError,
    >) where
        V: Downcast<U>,

        requires
            id < self.components.len(),
        ensures
            match result {
                Ok(inner) => self.components[id as int].spec_as_type() == Some(*inner),
                Err(_) => self.components[id as int].spec_as_type() is None,
            },
    {
        match self.components[id].as_type() {
            Some(inner) => Ok(inner),
            None => Err(DowncastError),
        }
    }

    pub fn borrow_component_mut(&mut self, id: usize) -> (comp: &mut Box<V>)
        requires
            id < old(self).components.len(),
        ensures
            *comp == old(self).components[id as int],
            final(self).components@ == old(self).components@.update(
                id as int,
                *final(comp),
            ),
            final(self).event_components@ == old(self).event_components@,
            final(self).text_components@ == old(self).text_components@,
    {
        &mut self.components[id]
    }

    /// The component at `id` as a `U` that can be changed, or an error if it
    /// is not one. What is written through the reference is written into the
    /// component at `id`, and nowhere else.
    pub fn borrow_component_as_type_mut<U>(&mut self, id: usize) -> (result: Result<
        &mut U,
        DowncastError,
    >) where V: Downcast<U>
        requires
            id < old(self).components.len(),
        ensures
            match result {
                Ok(inner) => {
                    &&& old(self).components[id as int].spec_as_type() == Some(*inner)
                    &&& final(self).components@ == old(self).components@.update(
                        id as int,
                        Box::new(
                            (*old(self).components[id as int]).spec_with_type(*final(inner)),
                        ),
                    )
                },
                Err(_) => {
                    &&& old(self).components[id as int].spec_as_type() is None
                    &&& final(self).components@ == old(self).components@
                },
            },
            final(self).event_components@ == old(self).event_components@,
            final(self).text_components@ == old(self).text_components@,
    {
        match self.components[id].as_type_mut() {
            Some(inner) => Ok(inner),
            None => Err(DowncastError),
        }
    }

    pub fn borrow_text_component(&self, id: usize) -> (comp: &Box<T>)
        requires
            id < self.text_components.len(),
        ensures
            *comp == self.text_components[id as int],
    {
        &self.text_components[id]
    }

    /// The component at `id` as a `U`, or an error if it is not one.
    pub fn borrow_text_component_as_type<U>(&self, id: usize) -> (result: Result<
        &U,
        DowncastError,
    >) where
        T: Downcast<U>,

        requires
            id < self.text_components.len(),
        ensures
            match result {
                Ok(inner) => self.text_components[id as int].spec_as_type() == Some(*inner),
                Err(_) => self.text_components[id as int].spec_as_type() is None,
            },
    {
        match self.text_components[id].as_type() {
            Some(inner) => Ok(inner),
            None => Err(DowncastError),
        }
    }

    pub fn borrow_text_component_mut(&mut self, id: usize) -> (comp: &mut Box<T>)
        requires
            id < old(self).text_components.len(),
        ensures
            *comp == old(self).text_components[id as int],
            final(self).text_components@ == old(self).text_components@.update(
                id as int,
                *final(comp),
            ),
            final(self).components@ == old(self).components@,
            final(self).event_components@ == old(self).event_components@,
    {
        &mut self.text_components[id]
    }

    /// The component at `id` as a `U` that can be changed, or an error if it
    /// is not one. What is written through the reference is written into the
    /// component at `id`, and nowhere else.
    pub fn borrow_text_component_as_type_mut<U>(&mut self, id: usize) -> (result: Result<
        &mut U,
        DowncastError,
    >) where T: Downcast<U>
        requires
            id < old(self).text_components.len(),
        ensures
            match result {
                Ok(inner) => {
                    &&& old(self).text_components[id as int].spec_as_type() == Some(*inner)
                    &&& final(self).text_components@ == old(self).text_components@.update(
                        id as int,
                        Box::new(
                            (*old(self).text_components[id as int]).spec_with_type(*final(inner)),
                        ),
                    )
                },
                Err(_) => {
                    &&& old(self).text_components[id as int].spec_as_type() is None
                    &&& final(self).text_components@ == old(self).text_components@
                },
            },
            final(self).components@ == old(self).components@,
            final(self).event_components@ == old(self).event_components@,
    {
        match self.text_components[id].as_type_mut() {
            Some(inner) => Ok(inner),
            None => Err(DowncastError),
        }
    }

    pub fn borrow_event_component(&self, id: usize) -> (comp: &Box<E>)
        requires
            id < self.event_components.len(),
        ensures
            *comp == self.event_components[id as int],
    {
        &self.event_components[id]
    }

    /// The component at `id` as a `U`, or an error if it is not one.
    pub fn borrow_event_component_as_type<U>(&self, id: usize) -> (result: Result<
        &U,
        DowncastError,
    >) where
        E: Downcast<U>,

        requires
            id < self.event_components.len(),
        ensures
            match result {
                Ok(inner) => self.event_components[id as int].spec_as_type() == Some(*inner),
                Err(_) => self.event_components[id as int].spec_as_type() is None,
            },
    {
        match self.event_components[id].as_type() {
            Some(inner) => Ok(inner),
            None => Err(DowncastError),
        }
    }

    pub fn borrow_event_component_mut(&mut self, id: usize) -> (comp: &mut Box<E>)
        requires
            id < old(self).event_components.len(),
        ensures
            *comp == old(self).event_components[id as int],
            final(self).event_components@ == old(self).event_components@.update(
                id as int,
                *final(comp),
            ),
            final(self).components@ == old(self).components@,
            final(self).text_components@ == old(self).text_components@,
    {
        &mut self.event_components[id]
    }

    /// The component at `id` as a `U` that can be changed, or an error if it
    /// is not one. What is written through the reference is written into the
    /// component at `id`, and nowhere else.
    pub fn borrow_event_component_as_type_mut<U>(&mut self, id: usize) -> (result: Result<
        &mut U,
        DowncastError,
    >) where E: Downcast<U>
        requires
            id < old(self).event_components.len(),
        ensures
            match result {
                Ok(inner) => {
                    &&& old(self).event_components[id as int].spec_as_type() == Some(*inner)
                    &&& final(self).event_components@ == old(self).event_components@.update(
                        id as int,
                        Box::new(
                            (*old(self).event_components[id as int]).spec_with_type(*final(inner)),
                        ),
                    )
                },
                Err(_) => {
                    &&& old(self).event_components[id as int].spec_as_type() is None
                    &&& final(self).event_components@ == old(self).event_components@
                },
            },
            final(self).components@ == old(self).components@,
            final(self).text_components@ == old(self).text_components@,
    {
        match self.event_components[id].as_type_mut() {
            Some(inner) => Ok(inner),
            None => Err(DowncastError),
        }
    }

    /// Whether every bound text id names a text component of this layout.
    pub fn bindings_valid(&self) -> (valid: bool)
        ensures
            valid == self.spec_bindings_valid(),
    {
        let texts = self.text_components.len();
        check_bindings_below(&self.components, texts) && check_bindings_below(
            &self.event_components,
            texts,
        )
    }

    /// Every binding of the layout, plain components first, then event
    /// components, each kind in the order of its registry.
    pub fn bindings(&self) -> (bindings: Vec<Binding>)
        ensures
            bindings@ == self.spec_bindings(),
    {
        let mut bindings: Vec<Binding> = Vec::new();
        collect_bindings(&self.components, &mut bindings);
        collect_bindings(&self.event_components, &mut bindings);
        bindings
    }
}

/// Whether every text id that a component of the registry is bound to is
/// below `texts`.
fn check_bindings_below<C: GUIComponent>(components: &Vec<Box<C>>, texts: usize) -> (below:
    bool)
    ensures
        below == bindings_below(components@, texts as int),
{
    let mut i: usize = 0;
    while i < components.len()
        invariant
            i <= components.len(),
            forall|k: int|
                0 <= k < i ==> (#[trigger] components[k].spec_text_id() matches Some(id) ==> id
                    < texts),
        decreases components.len() - i,
    {
        match components[i].get_text_id() {
            Some(id) => {
                if id >= texts {
                    return false;
                }
            },
            None => {},
        }
        i += 1;
    }
    true
}

/// Appends the bindings of a registry to `bindings`.
fn collect_bindings<C: GUIComponent>(components: &Vec<Box<C>>, bindings: &mut Vec<Binding>)
    ensures
        final(bindings)@ == old(bindings)@ + component_bindings(components@),
{
    let mut i: usize = 0;
    while i < components.len()
        invariant
            i <= components.len(),
            bindings@ == old(bindings)@ + component_bindings(components@.take(i as int)),
        decreases components.len() - i,
    {
        proof {
            assert(components@.take(i + 1).drop_last() == components@.take(i as int));
        }
        let comp = &components[i];
        match comp.get_text_id() {
            Some(text_id) => {
                bindings.push(
                    Binding { text_id, enabled: comp.is_enabled(), pos: comp.get_pos() },
                );
            },
            None => {},
        }
        i += 1;
    }
    proof {
        assert(components@.take(i as int) == components@);
    }
}

/// An id is good until a component before it is removed: removal leaves every
/// earlier component under its id and moves every later one down by one.
pub proof fn lemma_removal_shifts_later_ids<A>(components: Seq<A>, removed: int, id: int)
    requires
        0 <= removed < components.len(),
        0 <= id < components.len() - 1,
    ensures
        components.remove(removed).len() == components.len() - 1,
        id < removed ==> components.remove(removed)[id] == components[id],
        id >= removed ==> components.remove(removed)[id] == components[id + 1],
{
}

/// A component that has just been added is found under the id that was handed
/// out for it, and every component that was there before is found under its
/// old id.
pub proof fn lemma_added_component_keeps_ids<A>(components: Seq<A>, added: A, id: int)
    requires
        0 <= id <= components.len(),
    ensures
        components.push(added).len() == components.len() + 1,
        id == components.len() ==> components.push(added)[id] == added,
        id < components.len() ==> components.push(added)[id] == components[id],
{
}

} // verus!
