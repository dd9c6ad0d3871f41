use vstd::prelude::*;

use crate::anchors::{Anchors, Edge};

verus! {

/// The options of one invocation, as plain values: the switches that were
/// given and the value of the monitor option, when it was given.
#[derive(Clone, Copy, Debug, PartialEq, Eq, Structural)]
pub struct OptionsDict {
    pub version: bool,
    pub monitor: Option<i32>,
    pub anchor_top: bool,
    pub anchor_bottom: bool,
    pub anchor_left: bool,
    pub anchor_right: bool,
}

/// What one invocation asks for: a monitor, the anchors and a media file.
pub struct Args {
    /// index of a monitor
    pub monitor: u32,
    /// anchor to top
    pub anchor_top: bool,
    /// anchor to bottom
    pub anchor_bottom: bool,
    /// anchor to left
    pub anchor_left: bool,
    /// anchor to right
    pub anchor_right: bool,
    /// path to a video
    pub file: String,
}

/// The model of a launch request.
pub ghost struct LaunchRequest {
    pub monitor_index: u32,
    pub anchors: Set<Edge>,
    pub media_path: Seq<char>,
}

impl View for Args {
    type V = LaunchRequest;

    open spec fn view(&self) -> LaunchRequest {
        LaunchRequest {
            monitor_index: self.monitor,
            anchors: self.spec_anchors()@,
            media_path: self.file@,
        }
    }
}

/// The monitor index that an option value stands for: the option's value
/// read as unsigned 32 bits, or the first monitor when it is missing.
pub open spec fn monitor_index(m: Option<i32>) -> u32 {
    match m {
        Some(v) => if v >= 0 {
            v as u32
        } else {
            (v + 0x1_0000_0000) as u32
        },
        None => 0,
    }
}

/// The request that `options` and the media path `file` make.
pub open spec fn request_of(options: OptionsDict, file: Option<Seq<char>>) -> LaunchRequest {
    LaunchRequest {
        monitor_index: monitor_index(options.monitor),
        anchors: Anchors {
            top: options.anchor_top,
            bottom: options.anchor_bottom,
            left: options.anchor_left,
            right: options.anchor_right,
        }@,
        media_path: match file {
            Some(f) => f,
            None => Seq::empty(),
        },
    }
}

/// The media path of a command line: its last argument, if any.
pub open spec fn media_arg(arguments: Seq<String>) -> Option<Seq<char>> {
    if arguments.len() == 0 {
        None
    } else {
        Some(arguments.last()@)
    }
}

/// Reads a monitor option value as an index.
pub fn monitor_index_of(m: Option<i32>) -> (r: u32)
    ensures
        r == monitor_index(m),
{
    match m {
        Some(v) => {
            let r = v as u32;
            assert(v >= 0 ==> r == v) by (bit_vector)
                requires
                    r == v as u32,
            ;
            assert(v < 0 ==> r == v + 0x1_0000_0000) by (bit_vector)
                requires
                    r == v as u32,
            ;
            r
        },
        None => 0,
    }
}

/// The last of the command-line arguments, which names the media file.
pub fn media_path_of(arguments: &Vec<String>) -> (r: Option<String>)
    ensures
        match r {
            Some(s) => media_arg(arguments@) == Some(s@),
            None => media_arg(arguments@) is None,
        },
{
    let n = arguments.len();
    if n == 0 {
        None
    } else {
        Some(arguments[n - 1].clone())
    }
}

impl Args {
    pub open spec fn spec_anchors(&self) -> Anchors {
        Anchors {
            top: self.anchor_top,
            bottom: self.anchor_bottom,
            left: self.anchor_left,
            right: self.anchor_right,
        }
    }

    /// Builds the request from the options of an invocation and its media
    /// path; a missing monitor means the first one, a missing path the
    /// empty one.
    pub fn from_variant_dict(options: &OptionsDict, file: Option<String>) -> (r: Self)
        ensures
            r@ == request_of(*options, match file {
                Some(f) => Some(f@),
                None => None,
            }),
    {
        let monitor = monitor_index_of(options.monitor);
        let file = match file {
            Some(f) => f,
            None => String::new(),
        };
        Args {
            monitor,
            anchor_top: options.anchor_top,
            anchor_bottom: options.anchor_bottom,
            anchor_left: options.anchor_left,
            anchor_right: options.anchor_right,
            file,
        }
    }

    /// The anchors that the request asks for.
    pub fn anchors(&self) -> (r: Anchors)
        ensures
            r == self.spec_anchors(),
            r@ == self@.anchors,
    {
        Anchors {
            top: self.anchor_top,
            bottom: self.anchor_bottom,
            left: self.anchor_left,
            right: self.anchor_right,
        }
    }
}

} // verus!
