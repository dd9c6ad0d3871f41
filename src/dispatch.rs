use vstd::prelude::*;

use crate::monitor::{resolve, resolve_spec, Geometry, MonitorError};
use crate::playback::{mount, mounted};
use crate::request::{media_arg, media_path_of, request_of, Args, OptionsDict};
use crate::surface::{configure, configured, SurfaceModel, SurfaceState};

verus! {

/// Where the single running instance stands.
#[derive(Clone, Copy, Debug, PartialEq, Eq, Structural)]
pub enum Phase {
    /// No invocation has been seen.
    NotRunning,
    /// The first invocation's local options have been handled.
    Starting,
    /// At least one surface is mounted; later invocations are forwarded here.
    Running,
}

/// What became of one command line.
#[derive(Clone, Copy, Debug, PartialEq, Eq, Structural)]
pub enum CliOutcome {
    /// A new surface was configured and mounted.
    Mounted,
    /// A forwarded request named no output; the running instance goes on.
    Rejected(MonitorError),
    /// The process ends with this exit code.
    Exit(i32),
}

/// The exit code that a version query in the local options gives; any other
/// local options pass on to the command line.
pub open spec fn local_options_status(options: OptionsDict) -> i32 {
    if options.version {
        0i32
    } else {
        -1i32
    }
}

/// Answers the options that need no running instance: a version query ends
/// the process with code 0, anything else gives -1 and goes on to the
/// command line.
pub fn handle_options(options: &OptionsDict) -> (r: i32)
    ensures
        r == local_options_status(*options),
        r >= 0 <==> options.version,
{
    if options.version {
        0
    } else {
        -1
    }
}

impl CliOutcome {
    pub open spec fn spec_status(self) -> i32 {
        match self {
            CliOutcome::Exit(code) => code,
            _ => -1i32,
        }
    }

    /// The value the command-line handler returns: the exit code where the
    /// process ends, -1 where it keeps running.
    pub fn status(&self) -> (r: i32)
        ensures
            r == self.spec_status(),
    {
        match self {
            CliOutcome::Exit(code) => *code,
            _ => -1,
        }
    }
}

/// The running instance: its phase and the surfaces it has mounted.
pub struct Dispatcher {
    pub phase: Phase,
    pub surfaces: Vec<SurfaceState>,
}

/// The model of a dispatcher.
pub ghost struct DispatchModel {
    pub phase: Phase,
    pub surfaces: Seq<SurfaceModel>,
}

impl View for Dispatcher {
    type V = DispatchModel;

    open spec fn view(&self) -> DispatchModel {
        DispatchModel {
            phase: self.phase,
            surfaces: self.surfaces@.map_values(|s: SurfaceState| s@),
        }
    }
}

impl DispatchModel {
    /// Every mounted surface is well formed.
    pub open spec fn wf(self) -> bool {
        forall|i: int| 0 <= i < self.surfaces.len() ==> (#[trigger] self.surfaces[i]).wf()
    }
}

/// The dispatcher after the local options of a first invocation.
pub open spec fn after_local_options(d: DispatchModel) -> DispatchModel {
    DispatchModel {
        phase: if d.phase == Phase::NotRunning {
            Phase::Starting
        } else {
            d.phase
        },
        ..d
    }
}

/// The dispatcher and the outcome after one command line with `options`
/// and media path `file`, on a system with outputs `outputs`. An index out
/// of range ends the process unless a surface is already running, in which
/// case only that request is turned down.
pub open spec fn dispatch(
    d: DispatchModel,
    options: OptionsDict,
    file: Option<Seq<char>>,
    outputs: Seq<Geometry>,
) -> (DispatchModel, CliOutcome) {
    let request = request_of(options, file);
    match resolve_spec(request.monitor_index, outputs) {
        Ok(m) => (
            DispatchModel {
                phase: Phase::Running,
                surfaces: d.surfaces.push(mounted(configured(request, m), request.media_path)),
            },
            CliOutcome::Mounted,
        ),
        Err(e) => if d.phase == Phase::Running {
            (d, CliOutcome::Rejected(e))
        } else {
            (d, CliOutcome::Exit(0))
        },
    }
}

/// One command line never changes the surfaces already mounted: they stay
/// as they were, in their order, and at most one new surface follows them,
/// built from that command line's request alone.
pub proof fn lemma_invocations_independent(
    d: DispatchModel,
    options: OptionsDict,
    file: Option<Seq<char>>,
    outputs: Seq<Geometry>,
)
    ensures
        ({
            let (next, outcome) = dispatch(d, options, file, outputs);
            let request = request_of(options, file);
            &&& next.surfaces.len() >= d.surfaces.len()
            &&& next.surfaces.len() <= d.surfaces.len() + 1
            &&& forall|i: int| 0 <= i < d.surfaces.len() ==> next.surfaces[i] == d.surfaces[i]
            &&& (outcome == CliOutcome::Mounted <==> next.surfaces.len() == d.surfaces.len() + 1)
            &&& (outcome == CliOutcome::Mounted ==> next.surfaces.last() == mounted(
                configured(request, resolve_spec(request.monitor_index, outputs)->Ok_0),
                request.media_path,
            ))
        }),
{
}

/// Every surface the dispatcher holds stays well formed across command
/// lines: margins zero, controls hidden, sized to its monitor.
pub proof fn lemma_dispatch_keeps_wf(
    d: DispatchModel,
    options: OptionsDict,
    file: Option<Seq<char>>,
    outputs: Seq<Geometry>,
)
    requires
        d.wf(),
    ensures
        dispatch(d, options, file, outputs).0.wf(),
{
    let next = dispatch(d, options, file, outputs).0;
    assert forall|i: int| 0 <= i < next.surfaces.len() implies (#[trigger] next.surfaces[i]).wf() by {
        if i < d.surfaces.len() {
            assert(next.surfaces[i] == d.surfaces[i]);
        }
    }
}

impl Dispatcher {
    /// Nothing seen yet, no surface.
    pub fn new() -> (r: Dispatcher)
        ensures
            r@ == (DispatchModel { phase: Phase::NotRunning, surfaces: Seq::empty() }),
    {
        let r = Dispatcher { phase: Phase::NotRunning, surfaces: Vec::new() };
        assert(r@.surfaces =~= Seq::<SurfaceModel>::empty());
        r
    }

    /// Handles the local options of an invocation; returns the exit code,
    /// or -1 to go on to the command line.
    pub fn local_options(&mut self, options: &OptionsDict) -> (r: i32)
        ensures
            r == local_options_status(*options),
            final(self)@ == after_local_options(old(self)@),
    {
        if self.phase == Phase::NotRunning {
            self.phase = Phase::Starting;
        }
        handle_options(options)
    }

    /// Handles one command line: the first one, or one forwarded to the
    /// running instance. Its last argument names the media file.
    pub fn command_line(
        &mut self,
        options: &OptionsDict,
        arguments: &Vec<String>,
        outputs: &Vec<Geometry>,
    ) -> (r: CliOutcome)
        ensures
            (final(self)@, r) == dispatch(old(self)@, *options, media_arg(arguments@), outputs@),
    {
        let file = media_path_of(arguments);
        let args = Args::from_variant_dict(options, file);
        match resolve(args.monitor, outputs) {
            Ok(m) => {
                let mut surface = configure(&args, &m);
                mount(&mut surface, args.file);
                let ghost before = self.surfaces@;
                self.surfaces.push(surface);
                self.phase = Phase::Running;
                assert(self.surfaces@.map_values(|s: SurfaceState| s@) =~= before.map_values(
                    |s: SurfaceState| s@,
                ).push(surface@));
                CliOutcome::Mounted
            },
            Err(e) => {
                if self.phase == Phase::Running {
                    CliOutcome::Rejected(e)
                } else {
                    CliOutcome::Exit(0)
                }
            },
        }
    }

    /// The number of mounted surfaces.
    pub fn surface_count(&self) -> (r: usize)
        ensures
            r == self@.surfaces.len(),
    {
        self.surfaces.len()
    }
}

} // verus!
