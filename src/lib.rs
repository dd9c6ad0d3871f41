//! Layer-shell video wallpaper: the decisions behind placing a looping,
//! control-free video on a background surface of a chosen monitor, and the
//! single-instance command dispatch that creates such surfaces.

use vstd::prelude::*;

pub mod anchors;
pub mod dispatch;
pub mod monitor;
pub mod playback;
pub mod request;
pub mod surface;

verus! {

} // verus!
