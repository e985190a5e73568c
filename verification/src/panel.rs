//! The panel compositor: one verified step per UI frame.
//!
//! The host frame loop gathers what happened this frame — which buttons fired,
//! what the widgets were set to, where the pointer is on the canvas — into a
//! [`FrameInput`], and [`ui_frame`] applies it to the session state, the
//! painting and the texture registry, handing back what there is to show and
//! to request from the engine.

use vstd::prelude::*;

use crate::painting::{drawn_lines, frame_step, lines_view, Painting, Point, Stroke};
use crate::registry::{spec_deregister, spec_register, ImageHandle, TextureId, TextureRegistry};

verus! {

/// One unit of the slider's fixed-point scale: value 1000 displays as 1.
pub const VALUE_UNIT: i64 = 1000;

/// The slider's upper bound: it displays and sets values in [0, 10].
pub const SLIDER_MAX: i64 = 10 * VALUE_UNIT;

/// What one press of Increment adds: exactly 1, with no upper clamp.
pub const INCREMENT_STEP: i64 = VALUE_UNIT;

/// How far from the origin a spawned object may lie on each axis.
pub const SPAWN_RANGE: i64 = 10 * VALUE_UNIT;

/// The two image handles the panel can display: the icon and its inverted
/// variant. Distinct handles, provided by the host's asset system.
#[derive(Clone, Copy, PartialEq, Eq, Structural, Debug)]
pub struct Images {
    pub icon: ImageHandle,
    pub icon_inverted: ImageHandle,
}

impl Images {
    /// The two variants must be distinct handles.
    pub open spec fn wf(&self) -> bool {
        self.icon != self.icon_inverted
    }

    pub fn new(icon: ImageHandle, icon_inverted: ImageHandle) -> (r: Images)
        requires
            icon != icon_inverted,
        ensures
            r == (Images { icon, icon_inverted }),
    {
        Images { icon, icon_inverted }
    }
}

/// A request to spawn an object at a position, in the slider's fixed-point
/// units (1000 to one), each axis within the symmetric spawn range.
#[derive(Clone, Copy, PartialEq, Eq, Structural, Debug)]
pub struct SpawnPos {
    pub x: i64,
    pub y: i64,
    pub z: i64,
}

/// Whether a spawn position lies within the documented per-axis range.
pub open spec fn spawn_in_range(p: SpawnPos) -> bool {
    &&& -SPAWN_RANGE <= p.x <= SPAWN_RANGE
    &&& -SPAWN_RANGE <= p.y <= SPAWN_RANGE
    &&& -SPAWN_RANGE <= p.z <= SPAWN_RANGE
}

/// The UI session state: a flat bag of independently mutable fields, owned by
/// the compositor for the length of the session.
pub struct UiState {
    /// The free-form single-line text field; no validation, no length bound.
    pub label: String,
    /// The slider's value in fixed-point units ([`VALUE_UNIT`] to one).
    /// The slider clamps what it sets to [0, [`SLIDER_MAX`]]; the Increment
    /// action does not, so the value can exceed the displayed range.
    pub value: i64,
    /// The painting canvas.
    pub painting: Painting,
    /// Whether the inverted image variant is selected.
    pub inverted: bool,
    /// The window-open checkbox; consumed, if at all, by the host.
    pub is_window_open: bool,
    /// Whether the first frame has run and registered the initial image.
    pub initialized: bool,
    /// The texture id under which the selected image is currently shown.
    pub rendered_texture: Option<TextureId>,
}

impl UiState {
    /// The state's invariant: the slider value never falls below zero (the
    /// slider clamps and Increment only adds), and once initialized there is
    /// a texture to show.
    pub open spec fn wf(&self) -> bool {
        &&& self.value >= 0
        &&& self.initialized ==> self.rendered_texture is Some
    }

    /// A fresh session: everything empty, zero or off.
    pub fn new() -> (s: UiState)
        ensures
            s.label@ == Seq::<char>::empty(),
            s.value == 0,
            s.painting.polylines() == Seq::<Seq<Point>>::empty(),
            s.painting.stroke == crate::painting::default_stroke(),
            !s.inverted,
            !s.is_window_open,
            !s.initialized,
            s.rendered_texture is None,
            s.wf(),
    {
        UiState {
            label: String::new(),
            value: 0,
            painting: Painting::default(),
            inverted: false,
            is_window_open: false,
            initialized: false,
            rendered_texture: None,
        }
    }

    /// The startup configuration step: opens the window flag and touches
    /// nothing else.
    pub fn configure(&mut self)
        ensures
            final(self).is_window_open,
            final(self).label == old(self).label,
            final(self).value == old(self).value,
            final(self).painting == old(self).painting,
            final(self).inverted == old(self).inverted,
            final(self).initialized == old(self).initialized,
            final(self).rendered_texture == old(self).rendered_texture,
    {
        self.is_window_open = true;
    }
}

/// Everything the host loop observed this frame. Fields that carry `Option`
/// report a widget interaction (`None`: the widget was not touched); the
/// `bool` fields report a button click.
pub struct FrameInput {
    /// Add Entity was clicked; the host draws the position uniformly at
    /// random within the spawn range and hands it over here.
    pub add_entity: Option<SpawnPos>,
    /// The text field was edited to this content.
    pub set_label: Option<String>,
    /// The slider was dragged to this value; the frame clamps it to the
    /// slider's range.
    pub set_value: Option<i64>,
    /// Increment was clicked.
    pub increment: bool,
    /// Load was clicked.
    pub load: bool,
    /// Invert was clicked.
    pub invert: bool,
    /// Remove was clicked.
    pub remove: bool,
    /// The window-open checkbox was toggled to this.
    pub set_window_open: Option<bool>,
    /// The stroke editor was set to this style.
    pub set_stroke: Option<Stroke>,
    /// Clear Painting was clicked.
    pub clear: bool,
    /// The pointer, held inside the canvas, at this canvas-local position;
    /// `None` when released or outside.
    pub pointer: Option<Point>,
    /// Quit was chosen from the menu.
    pub quit: bool,
}

impl FrameInput {
    /// A frame in which nothing happened.
    pub fn idle() -> (r: FrameInput)
        ensures
            r.add_entity is None,
            r.set_label is None,
            r.set_value is None,
            !r.increment,
            !r.load,
            !r.invert,
            !r.remove,
            r.set_window_open is None,
            r.set_stroke is None,
            !r.clear,
            r.pointer is None,
            !r.quit,
    {
        FrameInput {
            add_entity: None,
            set_label: None,
            set_value: None,
            increment: false,
            load: false,
            invert: false,
            remove: false,
            set_window_open: None,
            set_stroke: None,
            clear: false,
            pointer: None,
            quit: false,
        }
    }
}

/// What the frame hands back to the host loop.
pub struct FrameOutput {
    /// Forwarded spawn request: the host asks the engine to spawn there.
    pub spawn: Option<SpawnPos>,
    /// The texture id the side panel shows this frame: the id as it stood
    /// when the panel was drawn, before this frame's Load/Invert took effect.
    /// Stale after Remove — the host resolves it gracefully.
    pub displayed_texture: Option<TextureId>,
    /// The polylines to draw on the canvas, in draw order, canvas-local:
    /// exactly those with at least two points.
    pub drawn: Vec<Vec<Point>>,
    /// The host should end the session.
    pub quit: bool,
}

/// A slider interaction clamped to the slider's range.
pub open spec fn clamp_slider(v: int) -> int {
    if v < 0 {
        0
    } else if v > SLIDER_MAX {
        SLIDER_MAX as int
    } else {
        v
    }
}

/// The slider value after one frame: a drag sets it (clamped), then one
/// Increment adds its step without any clamp.
pub open spec fn value_after(v: int, set: Option<i64>, increment: bool) -> int {
    let set_v = match set {
        Some(s) => clamp_slider(s as int),
        None => v,
    };
    if increment {
        set_v + INCREMENT_STEP
    } else {
        set_v
    }
}

/// The inverted flag after one frame: Invert toggles it.
pub open spec fn inverted_after(inverted: bool, invert: bool) -> bool {
    if invert {
        !inverted
    } else {
        inverted
    }
}

/// The image variant the panel selects once the inverted flag is settled.
pub open spec fn selected_handle(images: Images, inverted: bool) -> ImageHandle {
    if inverted {
        images.icon_inverted
    } else {
        images.icon
    }
}

/// The registry after one frame: the first frame registers the plain icon;
/// Load or Invert re-registers the selected variant (idempotently); Remove
/// deregisters both variants.
pub open spec fn registry_after(
    reg: Seq<Option<ImageHandle>>,
    initialized: bool,
    inverted_now: bool,
    load: bool,
    invert: bool,
    remove: bool,
    images: Images,
) -> Seq<Option<ImageHandle>> {
    let r1 = if !initialized {
        spec_register(reg, images.icon).0
    } else {
        reg
    };
    let r2 = if load || invert {
        spec_register(r1, selected_handle(images, inverted_now)).0
    } else {
        r1
    };
    if remove {
        spec_deregister(spec_deregister(r2, images.icon), images.icon_inverted)
    } else {
        r2
    }
}

/// The texture id the panel holds after one frame: set on the first frame,
/// re-resolved by Load or Invert, otherwise kept — Remove does not clear it,
/// which is why a stale id must resolve gracefully.
pub open spec fn texture_after(
    reg: Seq<Option<ImageHandle>>,
    initialized: bool,
    old_tex: Option<TextureId>,
    inverted_now: bool,
    load: bool,
    invert: bool,
    images: Images,
) -> Option<TextureId> {
    let t1 = if !initialized {
        Some(spec_register(reg, images.icon).1)
    } else {
        old_tex
    };
    let r1 = if !initialized {
        spec_register(reg, images.icon).0
    } else {
        reg
    };
    if load || invert {
        Some(spec_register(r1, selected_handle(images, inverted_now)).1)
    } else {
        t1
    }
}

/// One full UI frame: initializes the displayed image on the first frame,
/// applies the side-panel interactions to the session state, steps the
/// painting, then lets Load/Invert/Remove act on the registry — in the order
/// the panel fires them.
#[verifier::rlimit(60)]
pub fn ui_frame(
    state: &mut UiState,
    registry: &mut TextureRegistry,
    images: &Images,
    input: FrameInput,
) -> (out: FrameOutput)
    requires
        old(state).wf(),
        old(registry).wf(),
        images.wf(),
        value_after(old(state).value as int, input.set_value, input.increment) <= i64::MAX,
        input.add_entity matches Some(p) ==> spawn_in_range(p),
        input.set_stroke matches Some(s) ==> s.wf(),
    ensures
        final(state).wf(),
        final(registry).wf(),
        final(state).initialized,
        final(state).label@ == (match input.set_label {
            Some(l) => l@,
            None => old(state).label@,
        }),
        final(state).value as int == value_after(
            old(state).value as int,
            input.set_value,
            input.increment,
        ),
        final(state).inverted == inverted_after(old(state).inverted, input.invert),
        final(state).is_window_open == (match input.set_window_open {
            Some(b) => b,
            None => old(state).is_window_open,
        }),
        final(state).painting.stroke == (match input.set_stroke {
            Some(s) => s,
            None => old(state).painting.stroke,
        }),
        final(state).painting.polylines() == frame_step(
            if input.clear {
                Seq::<Seq<Point>>::empty()
            } else {
                old(state).painting.polylines()
            },
            input.pointer,
        ),
        final(registry)@ == registry_after(
            old(registry)@,
            old(state).initialized,
            inverted_after(old(state).inverted, input.invert),
            input.load,
            input.invert,
            input.remove,
            *images,
        ),
        final(state).rendered_texture == texture_after(
            old(registry)@,
            old(state).initialized,
            old(state).rendered_texture,
            inverted_after(old(state).inverted, input.invert),
            input.load,
            input.invert,
            *images,
        ),
        out.displayed_texture == (if old(state).initialized {
            old(state).rendered_texture
        } else {
            Some(spec_register(old(registry)@, images.icon).1)
        }),
        out.spawn == input.add_entity,
        out.spawn matches Some(p) ==> spawn_in_range(p),
        out.quit == input.quit,
        lines_view(out.drawn@) == drawn_lines(final(state).painting.polylines()),
{
    if !state.initialized {
        state.initialized = true;
        let t = registry.register(images.icon);
        state.rendered_texture = Some(t);
    }
    let displayed = state.rendered_texture;

    if let Some(l) = input.set_label {
        state.label = l;
    }
    if let Some(v) = input.set_value {
        state.value = if v < 0 {
            0
        } else if v > SLIDER_MAX {
            SLIDER_MAX
        } else {
            v
        };
    }
    if input.increment {
        state.value = state.value + INCREMENT_STEP;
    }
    if let Some(b) = input.set_window_open {
        state.is_window_open = b;
    }

    state.painting.ui_control(input.set_stroke, input.clear);
    let drawn = state.painting.ui_content(input.pointer);

    if input.invert {
        state.inverted = !state.inverted;
    }
    if input.load || input.invert {
        let h = if state.inverted {
            images.icon_inverted
        } else {
            images.icon
        };
        let t = registry.register(h);
        state.rendered_texture = Some(t);
    }
    if input.remove {
        registry.deregister(images.icon);
        registry.deregister(images.icon_inverted);
    }

    FrameOutput { spawn: input.add_entity, displayed_texture: displayed, drawn, quit: input.quit }
}

} // verus!
