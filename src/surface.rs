use vstd::prelude::*;

use crate::anchors::{all_edges, anchors_of, lemma_anchors_of_set, Anchors, Edge};
use crate::monitor::{resolve, resolve_spec, Geometry, MonitorError, ResolvedMonitor};
use crate::playback::{MountModel, PlaybackMount};
use crate::request::{Args, LaunchRequest};

verus! {

/// The compositor layer a surface is drawn on.
#[derive(Clone, Copy, Debug, PartialEq, Eq, Structural)]
pub enum Layer {
    Background,
    Bottom,
    Top,
    Overlay,
}

/// Whether a layer surface may take keyboard focus.
#[derive(Clone, Copy, Debug, PartialEq, Eq, Structural)]
pub enum KeyboardMode {
    /// Never takes keyboard focus.
    Disabled,
    Exclusive,
    OnDemand,
}

/// A margin for each edge, in pixels.
#[derive(Clone, Copy, Debug, PartialEq, Eq, Structural)]
pub struct Margins {
    pub top: i32,
    pub bottom: i32,
    pub left: i32,
    pub right: i32,
}

/// The exclusive zone a wallpaper surface reserves.
pub const EXCLUSIVE_ZONE: i32 = 1;

/// All four margins zero.
pub open spec fn zero_margins() -> Margins {
    Margins { top: 0, bottom: 0, left: 0, right: 0 }
}

impl Margins {
    pub open spec fn spec_get(&self, edge: Edge) -> i32 {
        match edge {
            Edge::Top => self.top,
            Edge::Bottom => self.bottom,
            Edge::Left => self.left,
            Edge::Right => self.right,
        }
    }

    /// Zero on every edge.
    pub fn zero() -> (r: Margins)
        ensures
            r == zero_margins(),
    {
        Margins { top: 0, bottom: 0, left: 0, right: 0 }
    }

    /// The margin on `edge`.
    pub fn get(&self, edge: Edge) -> (r: i32)
        ensures
            r == self.spec_get(edge),
    {
        match edge {
            Edge::Top => self.top,
            Edge::Bottom => self.bottom,
            Edge::Left => self.left,
            Edge::Right => self.right,
        }
    }
}

/// One mounted wallpaper: how its layer surface is set up, the output it is
/// bound to, and what it shows.
pub struct SurfaceState {
    pub layer: Layer,
    pub keyboard_mode: KeyboardMode,
    pub margins: Margins,
    pub anchors: Anchors,
    pub auto_exclusive_zone: bool,
    pub exclusive_zone: i32,
    pub monitor: ResolvedMonitor,
    pub default_width: i32,
    pub default_height: i32,
    pub fullscreen: bool,
    pub content: Option<PlaybackMount>,
}

/// The model of a surface.
pub ghost struct SurfaceModel {
    pub layer: Layer,
    pub keyboard_mode: KeyboardMode,
    pub margins: Margins,
    pub anchors: Set<Edge>,
    pub auto_exclusive_zone: bool,
    pub exclusive_zone: i32,
    pub monitor: ResolvedMonitor,
    pub default_width: i32,
    pub default_height: i32,
    pub fullscreen: bool,
    pub content: Option<MountModel>,
}

impl View for SurfaceState {
    type V = SurfaceModel;

    open spec fn view(&self) -> SurfaceModel {
        SurfaceModel {
            layer: self.layer,
            keyboard_mode: self.keyboard_mode,
            margins: self.margins,
            anchors: self.anchors@,
            auto_exclusive_zone: self.auto_exclusive_zone,
            exclusive_zone: self.exclusive_zone,
            monitor: self.monitor,
            default_width: self.default_width,
            default_height: self.default_height,
            fullscreen: self.fullscreen,
            content: match self.content {
                Some(m) => Some(m@),
                None => None,
            },
        }
    }
}

impl SurfaceModel {
    /// A background surface that takes no focus, spans its anchored region
    /// edge to edge, reserves its exclusive zone, is sized to its output and
    /// shows at most a mount whose controls are hidden.
    pub open spec fn wf(self) -> bool {
        &&& self.layer == Layer::Background
        &&& self.keyboard_mode == KeyboardMode::Disabled
        &&& self.margins == zero_margins()
        &&& self.auto_exclusive_zone
        &&& self.exclusive_zone == EXCLUSIVE_ZONE
        &&& self.default_width == self.monitor.width
        &&& self.default_height == self.monitor.height
        &&& self.fullscreen
        &&& (self.content matches Some(m) ==> m.wf())
    }
}

/// The surface that `request` gets on `monitor`, before anything is mounted.
pub open spec fn configured(request: LaunchRequest, monitor: ResolvedMonitor) -> SurfaceModel {
    SurfaceModel {
        layer: Layer::Background,
        keyboard_mode: KeyboardMode::Disabled,
        margins: zero_margins(),
        anchors: request.anchors,
        auto_exclusive_zone: true,
        exclusive_zone: EXCLUSIVE_ZONE,
        monitor,
        default_width: monitor.width,
        default_height: monitor.height,
        fullscreen: true,
        content: None,
    }
}

/// One call on the layer surface, in the order in which a surface is set up.
#[derive(Clone, Copy, Debug, PartialEq, Eq, Structural)]
pub enum SurfaceOp {
    /// Make the window a layer surface; comes before it is first shown.
    InitLayerShell,
    SetLayer(Layer),
    /// Tag the surface with the namespace `"vlsh"`.
    SetNamespace,
    SetKeyboardMode(KeyboardMode),
    SetMargin(Edge, i32),
    SetAnchor(Edge, bool),
    EnableAutoExclusiveZone,
    SetExclusiveZone(i32),
    /// Bind the surface to the output of this index.
    BindMonitor(u32),
    SetDefaultSize(i32, i32),
    Present,
    SetFullscreened(bool),
}

/// The calls that set up surface `s`, in order.
pub open spec fn surface_ops(s: SurfaceModel) -> Seq<SurfaceOp> {
    seq![
        SurfaceOp::InitLayerShell,
        SurfaceOp::SetLayer(s.layer),
        SurfaceOp::SetNamespace,
        SurfaceOp::SetKeyboardMode(s.keyboard_mode),
        SurfaceOp::SetMargin(Edge::Left, s.margins.left),
        SurfaceOp::SetMargin(Edge::Right, s.margins.right),
        SurfaceOp::SetMargin(Edge::Top, s.margins.top),
        SurfaceOp::SetMargin(Edge::Bottom, s.margins.bottom),
        SurfaceOp::SetAnchor(Edge::Top, s.anchors.contains(Edge::Top)),
        SurfaceOp::SetAnchor(Edge::Bottom, s.anchors.contains(Edge::Bottom)),
        SurfaceOp::SetAnchor(Edge::Left, s.anchors.contains(Edge::Left)),
        SurfaceOp::SetAnchor(Edge::Right, s.anchors.contains(Edge::Right)),
        SurfaceOp::EnableAutoExclusiveZone,
        SurfaceOp::SetExclusiveZone(s.exclusive_zone),
        SurfaceOp::BindMonitor(s.monitor.index),
        SurfaceOp::SetDefaultSize(s.default_width, s.default_height),
        SurfaceOp::Present,
        SurfaceOp::SetFullscreened(s.fullscreen),
    ]
}

/// The namespace that the compositor knows wallpaper surfaces by.
pub fn namespace() -> (r: String)
    ensures
        r@ == "vlsh"@,
{
    String::from_str("vlsh")
}

/// Sets up the surface for `request` on `monitor`.
pub fn configure(request: &Args, monitor: &ResolvedMonitor) -> (r: SurfaceState)
    ensures
        r@ == configured(request@, *monitor),
        r@.wf(),
{
    SurfaceState {
        layer: Layer::Background,
        keyboard_mode: KeyboardMode::Disabled,
        margins: Margins::zero(),
        anchors: request.anchors(),
        auto_exclusive_zone: true,
        exclusive_zone: EXCLUSIVE_ZONE,
        monitor: *monitor,
        default_width: monitor.width,
        default_height: monitor.height,
        fullscreen: true,
        content: None,
    }
}

impl SurfaceState {
    /// Whether the surface is anchored to `edge`.
    pub fn is_anchored(&self, edge: Edge) -> (r: bool)
        ensures
            r == self@.anchors.contains(edge),
    {
        self.anchors.contains(edge)
    }

    /// The surface's margin on `edge`.
    pub fn margin(&self, edge: Edge) -> (r: i32)
        ensures
            r == self@.margins.spec_get(edge),
    {
        self.margins.get(edge)
    }

    /// Whether a mount is shown and its controls are hidden.
    pub fn controls_hidden(&self) -> (r: bool)
        ensures
            r == (self@.content matches Some(m) && !m.controls_visible),
    {
        match &self.content {
            Some(m) => !m.controls_visible,
            None => false,
        }
    }

    /// The calls that set up this surface, in order.
    pub fn operations(&self) -> (r: Vec<SurfaceOp>)
        ensures
            r@ == surface_ops(self@),
    {
        let mut r: Vec<SurfaceOp> = Vec::new();
        r.push(SurfaceOp::InitLayerShell);
        r.push(SurfaceOp::SetLayer(self.layer));
        r.push(SurfaceOp::SetNamespace);
        r.push(SurfaceOp::SetKeyboardMode(self.keyboard_mode));
        r.push(SurfaceOp::SetMargin(Edge::Left, self.margins.left));
        r.push(SurfaceOp::SetMargin(Edge::Right, self.margins.right));
        r.push(SurfaceOp::SetMargin(Edge::Top, self.margins.top));
        r.push(SurfaceOp::SetMargin(Edge::Bottom, self.margins.bottom));
        r.push(SurfaceOp::SetAnchor(Edge::Top, self.anchors.contains(Edge::Top)));
        r.push(SurfaceOp::SetAnchor(Edge::Bottom, self.anchors.contains(Edge::Bottom)));
        r.push(SurfaceOp::SetAnchor(Edge::Left, self.anchors.contains(Edge::Left)));
        r.push(SurfaceOp::SetAnchor(Edge::Right, self.anchors.contains(Edge::Right)));
        r.push(SurfaceOp::EnableAutoExclusiveZone);
        r.push(SurfaceOp::SetExclusiveZone(self.exclusive_zone));
        r.push(SurfaceOp::BindMonitor(self.monitor.index));
        r.push(SurfaceOp::SetDefaultSize(self.default_width, self.default_height));
        r.push(SurfaceOp::Present);
        r.push(SurfaceOp::SetFullscreened(self.fullscreen));
        assert(r@ =~= surface_ops(self@));
        r
    }
}

/// Configuring a surface with any set of edges as its anchors, then asking
/// which edges it is anchored to, gives back exactly that set.
pub proof fn lemma_configured_anchors(
    s: Set<Edge>,
    monitor_index: u32,
    media_path: Seq<char>,
    monitor: ResolvedMonitor,
)
    requires
        s.subset_of(all_edges()),
    ensures
        ({
            let c = configured(
                LaunchRequest { monitor_index, anchors: anchors_of(s)@, media_path },
                monitor,
            );
            &&& c.anchors == s
            &&& forall|e: Edge| c.anchors.contains(e) <==> s.contains(e)
        }),
{
    lemma_anchors_of_set(s);
}

/// Rebinding a well-formed surface to another output keeps it well formed:
/// it takes that output's size.
pub proof fn lemma_rebinding_keeps_wf(s: SurfaceState, monitor_index: u32, outputs: Seq<Geometry>)
    requires
        s@.wf(),
    ensures
        resolve_spec(monitor_index, outputs) matches Ok(m) ==> s.with_monitor(m)@.wf(),
{
}

/// Binding a window to a monitor picked by index.
pub trait VlshExt: Sized {
    /// The value bound to `monitor` and sized to its geometry.
    spec fn with_monitor(self, monitor: ResolvedMonitor) -> Self;

    /// Binds to output `monitor_index` of `outputs` and takes its size; an
    /// index out of range leaves the value as it was and is returned as
    /// the error.
    fn set_monitor(&mut self, monitor_index: u32, outputs: &Vec<Geometry>) -> (r: Result<(), MonitorError>)
        ensures
            match resolve_spec(monitor_index, outputs@) {
                Ok(m) => r is Ok && *final(self) == old(self).with_monitor(m),
                Err(e) => r == Err::<(), MonitorError>(e) && *final(self) == *old(self),
            },
    ;
}

impl VlshExt for SurfaceState {
    open spec fn with_monitor(self, monitor: ResolvedMonitor) -> Self {
        SurfaceState {
            monitor,
            default_width: monitor.width,
            default_height: monitor.height,
            ..self
        }
    }

    fn set_monitor(&mut self, monitor_index: u32, outputs: &Vec<Geometry>) -> (r: Result<(), MonitorError>) {
        match resolve(monitor_index, outputs) {
            Ok(m) => {
                self.monitor = m;
                self.default_width = m.width;
                self.default_height = m.height;
                Ok(())
            },
            Err(e) => Err(e),
        }
    }
}

} // verus!
