//! What `prepass` guarantees of each text component, derived from the order in
//! which the bindings are carried out.

use vstd::prelude::*;
use crate::components::base_components::{EventGUIComponent, GUIComponent, TextGUIComponent};
use crate::event::PhysicalSize;
use crate::layout;
use crate::layout::{Binding, Layout};
use crate::rendering::{coords, render};

verus! {

/// The last binding of `bindings` that names the text component `text_id`.
pub open spec fn last_binding_for(bindings: Seq<Binding>, text_id: usize) -> Option<Binding>
    decreases bindings.len(),
{
    if bindings.len() == 0 {
        None
    } else if bindings.last().text_id == text_id {
        Some(bindings.last())
    } else {
        last_binding_for(bindings.drop_last(), text_id)
    }
}

/// Carrying out bindings neither adds nor removes a text component.
pub proof fn lemma_apply_bindings_keeps_length<T: TextGUIComponent>(
    texts: Seq<Box<T>>,
    bindings: Seq<Binding>,
    surface: PhysicalSize,
)
    requires
        forall|i: int| 0 <= i < bindings.len() ==> (#[trigger] bindings[i]).text_id < texts.len(),
    ensures
        render::apply_bindings(texts, bindings, surface).len() == texts.len(),
    decreases bindings.len(),
{
    if bindings.len() > 0 {
        let shorter = bindings.drop_last();
        assert forall|i: int| 0 <= i < shorter.len() implies (#[trigger] shorter[i]).text_id
            < texts.len() by {
            assert(shorter[i] == bindings[i]);
        }
        lemma_apply_bindings_keeps_length(texts, shorter, surface);
        assert(bindings.last() == bindings[bindings.len() - 1]);
    }
}

/// After the bindings have been carried out, a text component that some
/// binding names sits where the last such binding puts it and is enabled
/// exactly if that binding says so; a text component that no binding names is
/// as it was.
pub proof fn lemma_text_follows_last_binding<T: TextGUIComponent>(
    texts: Seq<Box<T>>,
    bindings: Seq<Binding>,
    surface: PhysicalSize,
    text_id: usize,
)
    requires
        text_id < texts.len(),
        forall|i: int| 0 <= i < bindings.len() ==> (#[trigger] bindings[i]).text_id < texts.len(),
    ensures
        ({
            let after = render::apply_bindings(texts, bindings, surface);
            match last_binding_for(bindings, text_id) {
                Some(binding) => {
                    &&& after[text_id as int].spec_pos()
                        == coords::spec_centered_to_screen(binding.pos, surface)
                    &&& after[text_id as int].spec_enabled() == binding.enabled
                },
                None => after[text_id as int] == texts[text_id as int],
            }
        }),
    decreases bindings.len(),
{
    if bindings.len() > 0 {
        let shorter = bindings.drop_last();
        let binding = bindings.last();
        assert(binding == bindings[bindings.len() - 1]);
        assert forall|i: int| 0 <= i < shorter.len() implies (#[trigger] shorter[i]).text_id
            < texts.len() by {
            assert(shorter[i] == bindings[i]);
        }
        lemma_text_follows_last_binding(texts, shorter, surface, text_id);
        lemma_apply_bindings_keeps_length(texts, shorter, surface);
        let before = render::apply_bindings(texts, shorter, surface);
        if binding.text_id == text_id {
            let moved = (*before[text_id as int]).spec_set_pos(
                coords::spec_centered_to_screen(binding.pos, surface),
            );
            (*before[text_id as int]).lemma_set_pos(
                coords::spec_centered_to_screen(binding.pos, surface),
            );
            moved.lemma_set_enabled(binding.enabled);
        }
    }
}

/// In a concatenation, the last binding for a text component is the last one
/// in the second part, if there is one there, and else the last one in the
/// first part.
pub proof fn lemma_last_binding_of_concatenation(
    first: Seq<Binding>,
    second: Seq<Binding>,
    text_id: usize,
)
    ensures
        last_binding_for(first + second, text_id) == match last_binding_for(second, text_id) {
            Some(binding) => Some(binding),
            None => last_binding_for(first, text_id),
        },
    decreases second.len(),
{
    if second.len() == 0 {
        assert(first + second == first);
    } else {
        assert((first + second).drop_last() == first + second.drop_last());
        assert((first + second).last() == second.last());
        lemma_last_binding_of_concatenation(first, second.drop_last(), text_id);
    }
}

/// Where no component of a registry is bound to a text component, no binding
/// of the registry names it.
pub proof fn lemma_no_binding_of_components<C: GUIComponent>(
    components: Seq<Box<C>>,
    text_id: usize,
)
    requires
        forall|i: int|
            0 <= i < components.len() ==> (#[trigger] components[i]).spec_text_id() != Some(
                text_id,
            ),
    ensures
        last_binding_for(layout::component_bindings(components), text_id) is None,
    decreases components.len(),
{
    if components.len() > 0 {
        let shorter = components.drop_last();
        let last = components[components.len() - 1];
        assert(last.spec_text_id() != Some(text_id));
        assert forall|i: int| 0 <= i < shorter.len() implies (#[trigger] shorter[i]).spec_text_id()
            != Some(text_id) by {
            assert(shorter[i] == components[i]);
        }
        lemma_no_binding_of_components(shorter, text_id);
        if last.spec_text_id() is Some {
            assert(layout::component_bindings(components).drop_last()
                == layout::component_bindings(shorter));
        }
    }
}

/// Among the bindings of a registry, the last one for a text component comes
/// from the last component of the registry that is bound to it.
pub proof fn lemma_last_binding_of_components<C: GUIComponent>(
    components: Seq<Box<C>>,
    text_id: usize,
    owner: int,
)
    requires
        0 <= owner < components.len(),
        components[owner].spec_text_id() == Some(text_id),
        forall|j: int|
            owner < j < components.len() ==> (#[trigger] components[j]).spec_text_id() != Some(
                text_id,
            ),
    ensures
        last_binding_for(layout::component_bindings(components), text_id) == Some(
            Binding {
                text_id,
                enabled: components[owner].spec_enabled(),
                pos: components[owner].spec_pos(),
            },
        ),
    decreases components.len(),
{
    let shorter = components.drop_last();
    let last = components[components.len() - 1];
    if last.spec_text_id() is Some {
        assert(layout::component_bindings(components).drop_last()
            == layout::component_bindings(shorter));
    }
    if owner < components.len() - 1 {
        assert(last.spec_text_id() != Some(text_id));
        assert(shorter[owner] == components[owner]);
        assert forall|j: int| owner < j < shorter.len() implies (
        #[trigger] shorter[j]).spec_text_id() != Some(text_id) by {
            assert(shorter[j] == components[j]);
        }
        lemma_last_binding_of_components(shorter, text_id, owner);
    }
}

/// A text component bound to an event component has, after `prepass`, the
/// position of its owner moved by half the surface, and is enabled exactly if
/// its owner is. This holds of the last event component bound to the text
/// component: where several are bound to one, the last one prevails.
pub proof fn lemma_prepass_follows_event_owner<
    V: GUIComponent,
    E: EventGUIComponent,
    T: TextGUIComponent,
>(layout: Layout<V, E, T>, surface: PhysicalSize, owner: int, text_id: usize)
    requires
        layout.spec_bindings_valid(),
        0 <= owner < layout.event_components.len(),
        layout.event_components[owner].spec_text_id() == Some(text_id),
        forall|j: int|
            owner < j < layout.event_components.len() ==> (
            #[trigger] layout.event_components[j]).spec_text_id() != Some(text_id),
    ensures
        ({
            let after = render::apply_bindings(
                layout.text_components@,
                layout.spec_bindings(),
                surface,
            );
            let component = layout.event_components[owner];
            &&& text_id < after.len()
            &&& after[text_id as int].spec_pos()
                == coords::spec_centered_to_screen(component.spec_pos(), surface)
            &&& after[text_id as int].spec_pos().x == component.spec_pos().x + surface.width / 2
            &&& after[text_id as int].spec_pos().y == component.spec_pos().y + surface.height / 2
            &&& after[text_id as int].spec_enabled() == component.spec_enabled()
        }),
{
    let plain = layout::component_bindings(layout.components@);
    let events = layout::component_bindings(layout.event_components@);
    render::lemma_bindings_in_range(layout);
    lemma_apply_bindings_keeps_length(layout.text_components@, layout.spec_bindings(), surface);
    lemma_last_binding_of_components(layout.event_components@, text_id, owner);
    lemma_last_binding_of_concatenation(plain, events, text_id);
    lemma_text_follows_last_binding(
        layout.text_components@,
        layout.spec_bindings(),
        surface,
        text_id,
    );
}

/// A text component bound to a plain component, and to no event component,
/// follows the last plain component bound to it in the same way.
pub proof fn lemma_prepass_follows_component_owner<
    V: GUIComponent,
    E: EventGUIComponent,
    T: TextGUIComponent,
>(layout: Layout<V, E, T>, surface: PhysicalSize, owner: int, text_id: usize)
    requires
        layout.spec_bindings_valid(),
        0 <= owner < layout.components.len(),
        layout.components[owner].spec_text_id() == Some(text_id),
        forall|j: int|
            owner < j < layout.components.len() ==> (#[trigger] layout.components[j]).spec_text_id()
                != Some(text_id),
        forall|j: int|
            0 <= j < layout.event_components.len() ==> (
            #[trigger] layout.event_components[j]).spec_text_id() != Some(text_id),
    ensures
        ({
            let after = render::apply_bindings(
                layout.text_components@,
                layout.spec_bindings(),
                surface,
            );
            let component = layout.components[owner];
            &&& text_id < after.len()
            &&& after[text_id as int].spec_pos()
                == coords::spec_centered_to_screen(component.spec_pos(), surface)
            &&& after[text_id as int].spec_enabled() == component.spec_enabled()
        }),
{
    let plain = layout::component_bindings(layout.components@);
    let events = layout::component_bindings(layout.event_components@);
    render::lemma_bindings_in_range(layout);
    lemma_apply_bindings_keeps_length(layout.text_components@, layout.spec_bindings(), surface);
    lemma_last_binding_of_components(layout.components@, text_id, owner);
    lemma_no_binding_of_components(layout.event_components@, text_id);
    lemma_last_binding_of_concatenation(plain, events, text_id);
    lemma_text_follows_last_binding(
        layout.text_components@,
        layout.spec_bindings(),
        surface,
        text_id,
    );
}

/// A text component that no component is bound to is left as it is.
pub proof fn lemma_prepass_leaves_unbound_text<
    V: GUIComponent,
    E: EventGUIComponent,
    T: TextGUIComponent,
>(layout: Layout<V, E, T>, surface: PhysicalSize, text_id: usize)
    requires
        layout.spec_bindings_valid(),
        text_id < layout.text_components.len(),
        forall|j: int|
            0 <= j < layout.components.len() ==> (#[trigger] layout.components[j]).spec_text_id()
                != Some(text_id),
        forall|j: int|
            0 <= j < layout.event_components.len() ==> (
            #[trigger] layout.event_components[j]).spec_text_id() != Some(text_id),
    ensures
        render::apply_bindings(
            layout.text_components@,
            layout.spec_bindings(),
            surface,
        )[text_id as int] == layout.text_components[text_id as int],
{
    let plain = layout::component_bindings(layout.components@);
    let events = layout::component_bindings(layout.event_components@);
    render::lemma_bindings_in_range(layout);
    lemma_no_binding_of_components(layout.components@, text_id);
    lemma_no_binding_of_components(layout.event_components@, text_id);
    lemma_last_binding_of_concatenation(plain, events, text_id);
    lemma_text_follows_last_binding(
        layout.text_components@,
        layout.spec_bindings(),
        surface,
        text_id,
    );
}

} // verus!
