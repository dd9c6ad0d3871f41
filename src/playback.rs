use vstd::prelude::*;

use crate::anchors::Edge;
use crate::monitor::ResolvedMonitor;
use crate::request::LaunchRequest;
use crate::surface::{configured, zero_margins, Margins, SurfaceModel, SurfaceState};

verus! {

/// A looping, autoplaying video shown as a surface's sole content.
pub struct PlaybackMount {
    pub media_path: String,
    pub looping: bool,
    pub autoplay: bool,
    pub hexpand: bool,
    pub vexpand: bool,
    pub margins: Margins,
    pub controls_visible: bool,
}

/// The model of a mount.
pub ghost struct MountModel {
    pub media_path: Seq<char>,
    pub looping: bool,
    pub autoplay: bool,
    pub hexpand: bool,
    pub vexpand: bool,
    pub margins: Margins,
    pub controls_visible: bool,
}

impl View for PlaybackMount {
    type V = MountModel;

    open spec fn view(&self) -> MountModel {
        MountModel {
            media_path: self.media_path@,
            looping: self.looping,
            autoplay: self.autoplay,
            hexpand: self.hexpand,
            vexpand: self.vexpand,
            margins: self.margins,
            controls_visible: self.controls_visible,
        }
    }
}

impl MountModel {
    /// Loops, plays at once, keeps its natural size and hides its controls.
    pub open spec fn wf(self) -> bool {
        &&& self.looping
        &&& self.autoplay
        &&& !self.hexpand
        &&& !self.vexpand
        &&& self.margins == zero_margins()
        &&& !self.controls_visible
    }
}

/// The mount that plays `media_path`.
pub open spec fn mount_of(media_path: Seq<char>) -> MountModel {
    MountModel {
        media_path,
        looping: true,
        autoplay: true,
        hexpand: false,
        vexpand: false,
        margins: zero_margins(),
        controls_visible: false,
    }
}

/// Surface `s` once `media_path` is mounted on it.
pub open spec fn mounted(s: SurfaceModel, media_path: Seq<char>) -> SurfaceModel {
    SurfaceModel { content: Some(mount_of(media_path)), ..s }
}

impl PlaybackMount {
    /// The mount that plays `media_path`.
    pub fn new(media_path: String) -> (r: PlaybackMount)
        ensures
            r@ == mount_of(media_path@),
    {
        PlaybackMount {
            media_path,
            looping: true,
            autoplay: true,
            hexpand: false,
            vexpand: false,
            margins: Margins::zero(),
            controls_visible: false,
        }
    }
}

/// Installs a mount of `media_path` as the sole content of `surface`,
/// with its controls hidden.
pub fn mount(surface: &mut SurfaceState, media_path: String)
    ensures
        final(surface)@ == mounted(old(surface)@, media_path@),
        old(surface)@.wf() ==> final(surface)@.wf(),
{
    surface.content = Some(PlaybackMount::new(media_path));
}

/// Right after a mount, the surface shows that mount and its controls are
/// hidden; a well-formed surface stays well formed.
pub proof fn lemma_mount_hides_controls(s: SurfaceModel, media_path: Seq<char>)
    requires
        media_path.len() > 0,
    ensures
        mounted(s, media_path).content == Some(mount_of(media_path)),
        !mount_of(media_path).controls_visible,
        s.wf() ==> mounted(s, media_path).wf(),
{
}

/// Margins are zero on every edge, whatever the anchors and the monitor:
/// on a configured surface, on its mount, and on the surface once mounted.
pub proof fn lemma_margins_zero(request: LaunchRequest, monitor: ResolvedMonitor, media_path: Seq<char>)
    ensures
        forall|e: Edge|
            {
                &&& (#[trigger] configured(request, monitor).margins.spec_get(e)) == 0
                &&& mounted(configured(request, monitor), media_path).margins.spec_get(e) == 0
                &&& mount_of(media_path).margins.spec_get(e) == 0
            },
{
    assert forall|e: Edge|
        {
            &&& (#[trigger] configured(request, monitor).margins.spec_get(e)) == 0
            &&& mounted(configured(request, monitor), media_path).margins.spec_get(e) == 0
            &&& mount_of(media_path).margins.spec_get(e) == 0
        } by {
        match e {
            Edge::Top => {},
            Edge::Bottom => {},
            Edge::Left => {},
            Edge::Right => {},
        }
    }
}

} // verus!
