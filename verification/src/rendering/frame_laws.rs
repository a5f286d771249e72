//! What `render` guarantees of a frame: which components appear in it, and in
//! which order the stages follow each other.

use vstd::prelude::*;
use crate::components::base_components::{EventGUIComponent, GUIComponent, TextGUIComponent};
use crate::layout::Layout;
use crate::rendering::render;
use crate::rendering::render::{Layer, RenderCommand};

verus! {

/// The id of the component that a command draws or queues; -1 for a command
/// that belongs to no component.
pub open spec fn command_id(command: RenderCommand) -> int {
    match command {
        RenderCommand::Draw { id, .. } => id as int,
        RenderCommand::QueueText { id, .. } => id as int,
        _ => -1,
    }
}

/// The registry that a command draws geometry of, if it draws geometry.
pub open spec fn command_layer(command: RenderCommand) -> Option<Layer> {
    match command {
        RenderCommand::Draw { layer, .. } => Some(layer),
        _ => None,
    }
}

/// Whether `commands` draw the geometry of the component `id` of `layer`.
pub open spec fn draws(commands: Seq<RenderCommand>, layer: Layer, id: int) -> bool {
    exists|k: int|
        0 <= k < commands.len() && command_layer(#[trigger] commands[k]) == Some(layer)
            && command_id(commands[k]) == id
}

/// Whether `commands` queue the text of the text component `id`.
pub open spec fn queues_text(commands: Seq<RenderCommand>, id: int) -> bool {
    exists|k: int|
        0 <= k < commands.len() && (#[trigger] commands[k]) is QueueText && command_id(commands[k])
            == id
}

/// Every command of a geometry stage draws in the layer of the stage, belongs
/// to an enabled component of the registry and carries what that component
/// draws; the ids go up.
pub proof fn lemma_geometry_pass_entries<C: GUIComponent>(layer: Layer, components: Seq<Box<C>>)
    requires
        components.len() <= usize::MAX,
    ensures
        render::geometry_pass(layer, components).len() <= components.len(),
        forall|k: int|
            0 <= k < render::geometry_pass(layer, components).len() ==> {
                let command = #[trigger] render::geometry_pass(layer, components)[k];
                let id = command_id(command);
                &&& 0 <= id < components.len()
                &&& components[id].spec_enabled()
                &&& command == (RenderCommand::Draw {
                    layer,
                    id: id as usize,
                    call: components[id].spec_draw_call(),
                })
            },
        forall|k: int, m: int|
            0 <= k < m < render::geometry_pass(layer, components).len() ==> command_id(
                #[trigger] render::geometry_pass(layer, components)[k],
            ) < command_id(#[trigger] render::geometry_pass(layer, components)[m]),
    decreases components.len(),
{
    if components.len() > 0 {
        let shorter = components.drop_last();
        lemma_geometry_pass_entries(layer, shorter);
        let before = render::geometry_pass(layer, shorter);
        let all = render::geometry_pass(layer, components);
        let newest = components[components.len() - 1];
        assert(components.last() == newest);
        assert(all.len() == before.len() + (if newest.spec_enabled() {
            1int
        } else {
            0int
        }));
        assert forall|k: int| 0 <= k < before.len() implies all[k] == before[k] && 0 <= command_id(
            #[trigger] before[k],
        ) < shorter.len() && shorter[command_id(before[k])] == components[command_id(
            before[k],
        )] by {}
        if newest.spec_enabled() {
            assert(command_id(all[before.len() as int]) == components.len() - 1);
        }
        assert forall|k: int| 0 <= k < all.len() implies {
            let command = #[trigger] all[k];
            let id = command_id(command);
            &&& 0 <= id < components.len()
            &&& components[id].spec_enabled()
            &&& command == (RenderCommand::Draw {
                layer,
                id: id as usize,
                call: components[id].spec_draw_call(),
            })
        } by {
            if k < before.len() {
                assert(all[k] == before[k]);
            }
        }
        assert forall|k: int, m: int| 0 <= k < m < all.len() implies command_id(#[trigger] all[k])
            < command_id(#[trigger] all[m]) by {
            assert(all[k] == before[k]);
            if m < before.len() {
                assert(all[m] == before[m]);
            }
        }
    }
}

/// Every enabled component of the registry has its command in the geometry
/// stage.
pub proof fn lemma_geometry_pass_holds_enabled<C: GUIComponent>(
    layer: Layer,
    components: Seq<Box<C>>,
    id: int,
)
    requires
        components.len() <= usize::MAX,
        0 <= id < components.len(),
        components[id].spec_enabled(),
    ensures
        exists|k: int|
            0 <= k < render::geometry_pass(layer, components).len() && command_id(
                #[trigger] render::geometry_pass(layer, components)[k],
            ) == id,
    decreases components.len(),
{
    let shorter = components.drop_last();
    let before = render::geometry_pass(layer, shorter);
    let all = render::geometry_pass(layer, components);
    let newest = components[components.len() - 1];
    assert(components.last() == newest);
    if id == components.len() - 1 {
        assert(all == before.push(all[before.len() as int]));
        assert(command_id(all[before.len() as int]) == id);
    } else {
        assert(shorter[id] == components[id]);
        lemma_geometry_pass_holds_enabled(layer, shorter, id);
        let k = choose|k: int| 0 <= k < before.len() && command_id(#[trigger] before[k]) == id;
        assert(all[k] == before[k]);
    }
}

/// Every command of the text stage belongs to an enabled component of its
/// registry and carries what that component shows; the ids go up.
pub proof fn lemma_text_pass_entries<T: TextGUIComponent>(components: Seq<Box<T>>)
    requires
        components.len() <= usize::MAX,
    ensures
        render::text_pass(components).len() <= components.len(),
        forall|k: int|
            0 <= k < render::text_pass(components).len() ==> {
                let command = #[trigger] render::text_pass(components)[k];
                let id = command_id(command);
                &&& 0 <= id < components.len()
                &&& components[id].spec_enabled()
                &&& command == (RenderCommand::QueueText {
                    id: id as usize,
                    section: components[id].spec_section(),
                })
            },
        forall|k: int, m: int|
            0 <= k < m < render::text_pass(components).len() ==> command_id(
                #[trigger] render::text_pass(components)[k],
            ) < command_id(#[trigger] render::text_pass(components)[m]),
    decreases components.len(),
{
    if components.len() > 0 {
        let shorter = components.drop_last();
        lemma_text_pass_entries(shorter);
        let before = render::text_pass(shorter);
        let all = render::text_pass(components);
        let newest = components[components.len() - 1];
        assert(components.last() == newest);
        assert(all.len() == before.len() + (if newest.spec_enabled() {
            1int
        } else {
            0int
        }));
        assert forall|k: int| 0 <= k < before.len() implies all[k] == before[k] && 0 <= command_id(
            #[trigger] before[k],
        ) < shorter.len() && shorter[command_id(before[k])] == components[command_id(
            before[k],
        )] by {}
        if newest.spec_enabled() {
            assert(command_id(all[before.len() as int]) == components.len() - 1);
        }
        assert forall|k: int| 0 <= k < all.len() implies {
            let command = #[trigger] all[k];
            let id = command_id(command);
            &&& 0 <= id < components.len()
            &&& components[id].spec_enabled()
            &&& command == (RenderCommand::QueueText {
                    id: id as usize,
                    section: components[id].spec_section(),
                })
        } by {
            if k < before.len() {
                assert(all[k] == before[k]);
            }
        }
        assert forall|k: int, m: int| 0 <= k < m < all.len() implies command_id(#[trigger] all[k])
            < command_id(#[trigger] all[m]) by {
            assert(all[k] == before[k]);
            if m < before.len() {
                assert(all[m] == before[m]);
            }
        }
    }
}

/// Every enabled component of the registry has its command in the
/// text stage.
pub proof fn lemma_text_pass_holds_enabled<T: TextGUIComponent>(
    components: Seq<Box<T>>,
    id: int,
)
    requires
        components.len() <= usize::MAX,
        0 <= id < components.len(),
        components[id].spec_enabled(),
    ensures
        exists|k: int|
            0 <= k < render::text_pass(components).len() && command_id(
                #[trigger] render::text_pass(components)[k],
            ) == id,
    decreases components.len(),
{
    let shorter = components.drop_last();
    let before = render::text_pass(shorter);
    let all = render::text_pass(components);
    let newest = components[components.len() - 1];
    assert(components.last() == newest);
    if id == components.len() - 1 {
        assert(all == before.push(all[before.len() as int]));
        assert(command_id(all[before.len() as int]) == id);
    } else {
        assert(shorter[id] == components[id]);
        lemma_text_pass_holds_enabled(shorter, id);
        let k = choose|k: int| 0 <= k < before.len() && command_id(#[trigger] before[k]) == id;
        assert(all[k] == before[k]);
    }
}

/// The stages of a frame follow each other in a fixed order, whatever the
/// components were added in: first the geometry of the plain components, then
/// the geometry of the event components, then the queued text, then the one
/// draw of all queued text, and last the one submission.
pub proof fn lemma_frame_stages<V: GUIComponent, E: EventGUIComponent, T: TextGUIComponent>(
    layout: Layout<V, E, T>,
)
    ensures
        ({
            let commands = render::frame_commands(layout);
            let plain = render::geometry_pass(Layer::Components, layout.components@).len();
            let events = render::geometry_pass(
                Layer::EventComponents,
                layout.event_components@,
            ).len();
            let texts = render::text_pass(layout.text_components@).len();
            &&& commands.len() == plain + events + texts + 2
            &&& forall|k: int|
                0 <= k < plain ==> command_layer(#[trigger] commands[k]) == Some(Layer::Components)
            &&& forall|k: int|
                plain <= k < plain + events ==> command_layer(#[trigger] commands[k]) == Some(
                    Layer::EventComponents,
                )
            &&& forall|k: int|
                plain + events <= k < plain + events + texts ==> (
                #[trigger] commands[k]) is QueueText
            &&& commands[(plain + events + texts) as int] == RenderCommand::DrawQueuedText
            &&& commands[(plain + events + texts + 1) as int] == RenderCommand::Submit
        }),
{
    let commands = render::frame_commands(layout);
    let plain = render::geometry_pass(Layer::Components, layout.components@);
    let events = render::geometry_pass(
        Layer::EventComponents,
        layout.event_components@,
    );
    let texts = render::text_pass(layout.text_components@);
    assert(layout.components.len() + layout.event_components.len() + layout.text_components.len()
        <= 3 * usize::MAX);
    lemma_geometry_pass_entries(Layer::Components, layout.components@);
    lemma_geometry_pass_entries(Layer::EventComponents, layout.event_components@);
    lemma_text_pass_entries(layout.text_components@);
    assert forall|k: int| 0 <= k < plain.len() implies command_layer(#[trigger] commands[k])
        == Some(Layer::Components) by {
        assert(commands[k] == plain[k]);
    }
    assert forall|k: int| plain.len() <= k < plain.len() + events.len() implies command_layer(
        #[trigger] commands[k],
    ) == Some(Layer::EventComponents) by {
        assert(commands[k] == events[k - plain.len()]);
    }
    assert forall|k: int|
        plain.len() + events.len() <= k < plain.len() + events.len() + texts.len() implies (
    #[trigger] commands[k]) is QueueText by {
        assert(commands[k] == texts[k - plain.len() - events.len()]);
    }
}

/// Text is drawn after all geometry: in every frame, each draw of geometry
/// comes before each queued text and before the draw of the queued text, and
/// the geometry of the plain components comes before that of the event
/// components. The frame is submitted once, at its end.
pub proof fn lemma_text_is_drawn_last<V: GUIComponent, E: EventGUIComponent, T: TextGUIComponent>(
    layout: Layout<V, E, T>,
)
    ensures
        ({
            let commands = render::frame_commands(layout);
            &&& forall|i: int, j: int|
                0 <= i < commands.len() && 0 <= j < commands.len() && (
                #[trigger] commands[i]) is Draw && ((#[trigger] commands[j]) is QueueText
                    || commands[j] is DrawQueuedText) ==> i < j
            &&& forall|i: int, j: int|
                0 <= i < commands.len() && 0 <= j < commands.len() && command_layer(
                    #[trigger] commands[i],
                ) == Some(Layer::Components) && command_layer(#[trigger] commands[j]) == Some(
                    Layer::EventComponents,
                ) ==> i < j
            &&& forall|i: int, j: int|
                0 <= i < commands.len() && 0 <= j < commands.len() && (
                #[trigger] commands[i]) is QueueText && (#[trigger] commands[j]) is DrawQueuedText
                    ==> i < j
            &&& forall|i: int|
                0 <= i < commands.len() ==> ((#[trigger] commands[i]) is DrawQueuedText <==> i
                    == commands.len() - 2)
            &&& forall|i: int|
                0 <= i < commands.len() ==> ((#[trigger] commands[i]) is Submit <==> i
                    == commands.len() - 1)
        }),
{
    lemma_frame_stages(layout);
}

/// A frame draws the geometry of a component exactly if the component is
/// enabled, and queues the text of a text component exactly if it is enabled.
pub proof fn lemma_drawn_iff_enabled<V: GUIComponent, E: EventGUIComponent, T: TextGUIComponent>(
    layout: Layout<V, E, T>,
    id: int,
)
    ensures
        ({
            let commands = render::frame_commands(layout);
            &&& draws(commands, Layer::Components, id) <==> 0 <= id < layout.components.len()
                && layout.components[id].spec_enabled()
            &&& draws(commands, Layer::EventComponents, id) <==> 0 <= id
                < layout.event_components.len() && layout.event_components[id].spec_enabled()
            &&& queues_text(commands, id) <==> 0 <= id < layout.text_components.len()
                && layout.text_components[id].spec_enabled()
        }),
{
    let commands = render::frame_commands(layout);
    let plain = render::geometry_pass(Layer::Components, layout.components@);
    let events = render::geometry_pass(
        Layer::EventComponents,
        layout.event_components@,
    );
    let texts = render::text_pass(layout.text_components@);
    lemma_frame_stages(layout);
    assert(layout.components.len() + layout.event_components.len() + layout.text_components.len()
        <= 3 * usize::MAX);
    lemma_geometry_pass_entries(Layer::Components, layout.components@);
    lemma_geometry_pass_entries(Layer::EventComponents, layout.event_components@);
    lemma_text_pass_entries(layout.text_components@);
    if draws(commands, Layer::Components, id) {
        let k = choose|k: int|
            0 <= k < commands.len() && command_layer(#[trigger] commands[k]) == Some(
                Layer::Components,
            ) && command_id(commands[k]) == id;
        assert(k < plain.len());
        assert(commands[k] == plain[k]);
    }
    if 0 <= id < layout.components.len() && layout.components[id].spec_enabled() {
        lemma_geometry_pass_holds_enabled(Layer::Components, layout.components@, id);
        let k = choose|k: int| 0 <= k < plain.len() && command_id(#[trigger] plain[k]) == id;
        assert(commands[k] == plain[k]);
    }
    if draws(commands, Layer::EventComponents, id) {
        let k = choose|k: int|
            0 <= k < commands.len() && command_layer(#[trigger] commands[k]) == Some(
                Layer::EventComponents,
            ) && command_id(commands[k]) == id;
        assert(plain.len() <= k < plain.len() + events.len());
        assert(commands[k] == events[k - plain.len()]);
    }
    if 0 <= id < layout.event_components.len() && layout.event_components[id].spec_enabled() {
        lemma_geometry_pass_holds_enabled(Layer::EventComponents, layout.event_components@, id);
        let k = choose|k: int| 0 <= k < events.len() && command_id(#[trigger] events[k]) == id;
        assert(commands[k + plain.len()] == events[k]);
    }
    if queues_text(commands, id) {
        let k = choose|k: int|
            0 <= k < commands.len() && (#[trigger] commands[k]) is QueueText && command_id(
                commands[k],
            ) == id;
        assert(plain.len() + events.len() <= k < plain.len() + events.len() + texts.len());
        assert(commands[k] == texts[k - plain.len() - events.len()]);
    }
    if 0 <= id < layout.text_components.len() && layout.text_components[id].spec_enabled() {
        lemma_text_pass_holds_enabled(layout.text_components@, id);
        let k = choose|k: int| 0 <= k < texts.len() && command_id(#[trigger] texts[k]) == id;
        assert(commands[k + plain.len() + events.len()] == texts[k]);
    }
}

} // verus!
