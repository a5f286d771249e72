//! The renderer: the surface size, the camera and the layout that is drawn,
//! with the two steps of a frame. `prepass` brings every bound text component
//! in line with its owner; `render` lays out the frame, stage by stage.

use vstd::prelude::*;
use crate::components::base_components::{
    Color,
    DrawCall,
    EventGUIComponent,
    GUIComponent,
    TextGUIComponent,
    TextSection,
};
use crate::event::PhysicalSize;
use crate::layout;
use crate::layout::{Binding, Layout};
use crate::rendering::coords;

verus! {

/// The volume of an orthographic projection.
#[derive(Clone, Copy, Debug, PartialEq, Eq, Structural)]
pub struct Projection {
    pub left: u32,
    pub right: u32,
    pub bottom: u32,
    pub top: u32,
    pub near: u32,
    pub far: u32,
}

/// The camera that all geometry is drawn through.
#[derive(Clone, Copy, Debug, PartialEq, Eq, Structural)]
pub struct Camera {
    pub width: u32,
    pub height: u32,
    /// The projection that the camera uniform holds.
    pub projection: Projection,
}

/// The registry that a piece of geometry comes from.
#[derive(Clone, Copy, Debug, PartialEq, Eq, Structural)]
pub enum Layer {
    Components,
    EventComponents,
}

/// One step of a frame.
#[derive(Clone, Debug, PartialEq, Eq)]
pub enum RenderCommand {
    /// Bind the camera, then draw the geometry of the component `id` of
    /// `layer`.
    Draw { layer: Layer, id: usize, call: DrawCall },
    /// Queue the text of the text component `id`.
    QueueText { id: usize, section: TextSection },
    /// Draw all queued text, on top of what has been drawn.
    DrawQueuedText,
    /// Hand the frame to the GPU.
    Submit,
}

/// A frame: what to clear the surface with, the projection, and the commands
/// in the order in which they take effect.
#[derive(Clone, Debug, PartialEq, Eq)]
pub struct Frame {
    pub clear_color: Color,
    pub projection: Projection,
    pub commands: Vec<RenderCommand>,
}

/// What drawing depends on: the sizes of the window and of the swap chain, the
/// camera, and the layout that is drawn.
pub struct Renderer<V, E, T> {
    /// The size that the swap chain was last built with. Never degenerate
    /// unless the renderer was made so.
    pub sc_desc: PhysicalSize,
    /// The size of the window, as last reported.
    pub size: PhysicalSize,
    pub layout: Layout<V, E, T>,
    pub camera: Camera,
}

/// A geometry stage: one draw for each enabled component of a registry, in
/// the order of the registry.
pub open spec fn geometry_pass<C: GUIComponent>(layer: Layer, components: Seq<Box<C>>) -> Seq<
    RenderCommand,
>
    decreases components.len(),
{
    if components.len() == 0 {
        Seq::empty()
    } else {
        let before = geometry_pass(layer, components.drop_last());
        let comp = components.last();
        if comp.spec_enabled() {
            before.push(
                RenderCommand::Draw {
                    layer,
                    id: (components.len() - 1) as usize,
                    call: comp.spec_draw_call(),
                },
            )
        } else {
            before
        }
    }
}

/// The text stage: one queued section for each enabled text component, in the
/// order of the registry.
pub open spec fn text_pass<T: TextGUIComponent>(components: Seq<Box<T>>) -> Seq<RenderCommand>
    decreases components.len(),
{
    if components.len() == 0 {
        Seq::empty()
    } else {
        let before = text_pass(components.drop_last());
        let comp = components.last();
        if comp.spec_enabled() {
            before.push(
                RenderCommand::QueueText {
                    id: (components.len() - 1) as usize,
                    section: comp.spec_section(),
                },
            )
        } else {
            before
        }
    }
}

/// The commands of a frame: plain components, then event components, then
/// text, then the one draw of all queued text, then the one submission.
pub open spec fn frame_commands<V: GUIComponent, E: EventGUIComponent, T: TextGUIComponent>(
    layout: Layout<V, E, T>,
) -> Seq<RenderCommand> {
    geometry_pass(Layer::Components, layout.components@) + geometry_pass(
        Layer::EventComponents,
        layout.event_components@,
    ) + text_pass(layout.text_components@) + seq![
        RenderCommand::DrawQueuedText,
        RenderCommand::Submit,
    ]
}

/// A text component brought in line with its owner: moved to where the owner
/// is on the surface, and enabled exactly if the owner is.
pub open spec fn mirror<T: TextGUIComponent>(
    text: T,
    binding: Binding,
    surface: PhysicalSize,
) -> T {
    text.spec_set_pos(coords::spec_centered_to_screen(binding.pos, surface)).spec_set_enabled(
        binding.enabled,
    )
}

/// The text components after each binding, in turn, has been carried out.
/// Where two bindings name one text component, the later one prevails.
pub open spec fn apply_bindings<T: TextGUIComponent>(
    texts: Seq<Box<T>>,
    bindings: Seq<Binding>,
    surface: PhysicalSize,
) -> Seq<Box<T>>
    decreases bindings.len(),
{
    if bindings.len() == 0 {
        texts
    } else {
        let before = apply_bindings(texts, bindings.drop_last(), surface);
        let binding = bindings.last();
        before.update(
            binding.text_id as int,
            Box::new(mirror(*before[binding.text_id as int], binding, surface)),
        )
    }
}

impl Projection {
    /// The projection of a surface: origin at the top-left corner, y down,
    /// one unit per pixel.
    pub open spec fn spec_ortho(surface: PhysicalSize) -> Projection {
        Projection {
            left: 0,
            right: surface.width,
            bottom: surface.height,
            top: 0,
            near: 0,
            far: 1000,
        }
    }

    pub fn ortho(surface: PhysicalSize) -> (projection: Projection)
        ensures
            projection == Projection::spec_ortho(surface),
    {
        Projection {
            left: 0,
            right: surface.width,
            bottom: surface.height,
            top: 0,
            near: 0,
            far: 1000,
        }
    }
}

impl Camera {
    /// A camera that has not seen a frame yet, with the projection of
    /// `sc_desc`.
    pub fn new(sc_desc: PhysicalSize) -> (camera: Camera)
        ensures
            camera == (Camera { width: 0, height: 0, projection: Projection::spec_ortho(sc_desc) }),
    {
        Camera { width: 0, height: 0, projection: Projection::ortho(sc_desc) }
    }

    /// Takes over the surface size and returns the projection that goes with
    /// it.
    pub fn build_view_projection_matrix(&mut self, sc_desc: PhysicalSize) -> (projection:
        Projection)
        ensures
            projection == Projection::spec_ortho(sc_desc),
            *final(self) == (Camera {
                width: sc_desc.width,
                height: sc_desc.height,
                ..*old(self)
            }),
    {
        self.width = sc_desc.width;
        self.height = sc_desc.height;
        Projection::ortho(PhysicalSize { width: self.width, height: self.height })
    }

    /// Brings the camera in line with the surface.
    pub fn update(&mut self, sc_desc: PhysicalSize)
        ensures
            *final(self) == (Camera {
                width: sc_desc.width,
                height: sc_desc.height,
                projection: Projection::spec_ortho(sc_desc),
            }),
    {
        let projection = self.build_view_projection_matrix(sc_desc);
        self.projection = projection;
    }
}

impl<V: GUIComponent, E: EventGUIComponent, T: TextGUIComponent> Renderer<V, E, T> {
    /// A renderer for a surface of size `size`, with an empty layout.
    pub fn new(size: PhysicalSize) -> (renderer: Self)
        ensures
            renderer.sc_desc == size,
            renderer.size == size,
            renderer.camera == (Camera {
                width: 0,
                height: 0,
                projection: Projection::spec_ortho(size),
            }),
            renderer.layout.components@ == Seq::<Box<V>>::empty(),
            renderer.layout.event_components@ == Seq::<Box<E>>::empty(),
            renderer.layout.text_components@ == Seq::<Box<T>>::empty(),
    {
        Renderer { sc_desc: size, size, layout: Layout::new(), camera: Camera::new(size) }
    }

    /// Takes note of a new window size. The swap chain follows only a size
    /// that is not degenerate; the result says whether it has to be built
    /// anew.
    pub fn resize(&mut self, new_size: PhysicalSize) -> (rebuild: bool)
        ensures
            rebuild == !new_size.spec_is_degenerate(),
            final(self).size == new_size,
            final(self).sc_desc == if rebuild {
                new_size
            } else {
                old(self).sc_desc
            },
            final(self).layout == old(self).layout,
            final(self).camera == old(self).camera,
    {
        self.size = new_size;
        if new_size.width > 0 && new_size.height > 0 {
            self.sc_desc = new_size;
            true
        } else {
            false
        }
    }

    /// Brings every bound text component in line with its owner: the text
    /// moves to where the owner is on the surface and is enabled exactly if
    /// the owner is. Nothing else changes.
    pub fn prepass(&mut self)
        requires
            old(self).layout.spec_bindings_valid(),
        ensures
            final(self).layout.text_components@ == apply_bindings(
                old(self).layout.text_components@,
                old(self).layout.spec_bindings(),
                old(self).sc_desc,
            ),
            final(self).layout.components@ == old(self).layout.components@,
            final(self).layout.event_components@ == old(self).layout.event_components@,
            final(self).sc_desc == old(self).sc_desc,
            final(self).size == old(self).size,
            final(self).camera == old(self).camera,
    {
        let bindings = self.layout.bindings();
        let surface = self.sc_desc;
        proof {
            lemma_bindings_in_range(self.layout);
        }
        let mut k: usize = 0;
        while k < bindings.len()
            invariant
                k <= bindings.len(),
                bindings@ == old(self).layout.spec_bindings(),
                surface == old(self).sc_desc,
                forall|i: int|
                    0 <= i < bindings.len() ==> (#[trigger] bindings[i]).text_id < old(
                        self,
                    ).layout.text_components.len(),
                self.layout.text_components.len() == old(self).layout.text_components.len(),
                self.layout.text_components@ == apply_bindings(
                    old(self).layout.text_components@,
                    bindings@.take(k as int),
                    surface,
                ),
                self.layout.components@ == old(self).layout.components@,
                self.layout.event_components@ == old(self).layout.event_components@,
                self.sc_desc == old(self).sc_desc,
                self.size == old(self).size,
                self.camera == old(self).camera,
            decreases bindings.len() - k,
        {
            let binding = bindings[k];
            proof {
                assert(bindings@.take(k + 1).drop_last() == bindings@.take(k as int));
                assert(bindings@.take(k + 1).last() == binding);
            }
            let text = &mut self.layout.text_components[binding.text_id];
            text.set_pos(binding.pos, surface);
            if binding.enabled {
                text.enable();
            } else {
                text.disable();
            }
            k += 1;
        }
        proof {
            assert(bindings@.take(k as int) == bindings@);
        }
    }

    /// `prepass`, where it may be called. Where a component is bound to a text
    /// component that the layout does not hold, nothing is done. Returns
    /// whether `prepass` ran.
    pub fn try_prepass(&mut self) -> (done: bool)
        ensures
            done == old(self).layout.spec_bindings_valid(),
            done ==> final(self).layout.text_components@ == apply_bindings(
                old(self).layout.text_components@,
                old(self).layout.spec_bindings(),
                old(self).sc_desc,
            ),
            !done ==> final(self).layout.text_components@ == old(self).layout.text_components@,
            final(self).layout.components@ == old(self).layout.components@,
            final(self).layout.event_components@ == old(self).layout.event_components@,
            final(self).sc_desc == old(self).sc_desc,
            final(self).size == old(self).size,
            final(self).camera == old(self).camera,
    {
        if self.layout.bindings_valid() {
            self.prepass();
            true
        } else {
            false
        }
    }

    /// Lays out one frame: the camera takes over the surface size, then the
    /// plain components are drawn, then the event components, then text is
    /// queued and drawn on top, and the frame is submitted once. A disabled
    /// component contributes nothing.
    pub fn render(&mut self, clear_color: Color) -> (frame: Frame)
        ensures
            frame.clear_color == clear_color,
            frame.projection == Projection::spec_ortho(old(self).sc_desc),
            frame.commands@ == frame_commands(old(self).layout),
            final(self).camera == (Camera {
                width: old(self).sc_desc.width,
                height: old(self).sc_desc.height,
                projection: Projection::spec_ortho(old(self).sc_desc),
            }),
            final(self).layout == old(self).layout,
            final(self).sc_desc == old(self).sc_desc,
            final(self).size == old(self).size,
    {
        self.camera.update(self.sc_desc);
        let mut commands: Vec<RenderCommand> = Vec::new();
        draw_registry(Layer::Components, &self.layout.components, &mut commands);
        draw_registry(Layer::EventComponents, &self.layout.event_components, &mut commands);
        queue_registry(&self.layout.text_components, &mut commands);
        commands.push(RenderCommand::DrawQueuedText);
        commands.push(RenderCommand::Submit);
        Frame { clear_color, projection: self.camera.projection, commands }
    }
}

/// Appends the geometry stage of a registry to `commands`.
fn draw_registry<C: GUIComponent>(
    layer: Layer,
    components: &Vec<Box<C>>,
    commands: &mut Vec<RenderCommand>,
)
    ensures
        final(commands)@ == old(commands)@ + geometry_pass(layer, components@),
{
    let mut i: usize = 0;
    while i < components.len()
        invariant
            i <= components.len(),
            commands@ == old(commands)@ + geometry_pass(layer, components@.take(i as int)),
        decreases components.len() - i,
    {
        proof {
            assert(components@.take(i + 1).drop_last() == components@.take(i as int));
        }
        match components[i].render() {
            Some(call) => {
                commands.push(RenderCommand::Draw { layer, id: i, call });
            },
            None => {},
        }
        i += 1;
    }
    proof {
        assert(components@.take(i as int) == components@);
    }
}

/// Appends the text stage of a registry to `commands`.
fn queue_registry<T: TextGUIComponent>(
    components: &Vec<Box<T>>,
    commands: &mut Vec<RenderCommand>,
)
    ensures
        final(commands)@ == old(commands)@ + text_pass(components@),
{
    let mut i: usize = 0;
    while i < components.len()
        invariant
            i <= components.len(),
            commands@ == old(commands)@ + text_pass(components@.take(i as int)),
        decreases components.len() - i,
    {
        proof {
            assert(components@.take(i + 1).drop_last() == components@.take(i as int));
        }
        match components[i].render_text() {
            Some(section) => {
                commands.push(RenderCommand::QueueText { id: i, section });
            },
            None => {},
        }
        i += 1;
    }
    proof {
        assert(components@.take(i as int) == components@);
    }
}

/// In a layout whose bindings are valid, every binding names a text component
/// of the layout.
pub proof fn lemma_bindings_in_range<V: GUIComponent, E: EventGUIComponent, T: TextGUIComponent>(
    layout: Layout<V, E, T>,
)
    requires
        layout.spec_bindings_valid(),
    ensures
        forall|i: int|
            0 <= i < layout.spec_bindings().len() ==> (#[trigger] layout.spec_bindings()[i]).text_id
                < layout.text_components.len(),
{
    lemma_component_bindings_in_range(layout.components@, layout.text_components.len() as int);
    lemma_component_bindings_in_range(
        layout.event_components@,
        layout.text_components.len() as int,
    );
}

/// Where every bound text id of a registry is below `texts`, so is the text id
/// of each of its bindings.
pub proof fn lemma_component_bindings_in_range<C: GUIComponent>(
    components: Seq<Box<C>>,
    texts: int,
)
    requires
        layout::bindings_below(components, texts),
    ensures
        forall|i: int|
            0 <= i < layout::component_bindings(components).len() ==> (
            #[trigger] layout::component_bindings(components)[i]).text_id < texts,
    decreases components.len(),
{
    if components.len() > 0 {
        let shorter = components.drop_last();
        let owner = components[components.len() - 1];
        assert(owner.spec_text_id() matches Some(id) ==> id < texts);
        assert forall|i: int| 0 <= i < shorter.len() implies (
        #[trigger] shorter[i].spec_text_id() matches Some(id) ==> id < texts) by {
            assert(components[i].spec_text_id() matches Some(id) ==> id < texts);
        }
        lemma_component_bindings_in_range(shorter, texts);
        let before = layout::component_bindings(shorter);
        assert(forall|i: int| 0 <= i < before.len() ==> (#[trigger] before[i]).text_id < texts);
    }
}

} // verus!
