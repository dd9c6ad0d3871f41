use vstd::prelude::*;

verus! {

/// Pixel geometry that the display system reports for one output.
#[derive(Clone, Copy, Debug, PartialEq, Eq, Structural)]
pub struct Geometry {
    pub width: i32,
    pub height: i32,
}

/// A display output picked by index, with its geometry. The index is the
/// handle by which the surface is later bound to the output.
#[derive(Clone, Copy, Debug, PartialEq, Eq, Structural)]
pub struct ResolvedMonitor {
    pub index: u32,
    pub width: i32,
    pub height: i32,
}

/// Why a monitor index could not be resolved.
#[derive(Clone, Copy, Debug, PartialEq, Eq, Structural)]
pub enum MonitorError {
    /// The index is not below the number of outputs.
    OutOfRange { index: u32, count: usize },
}

impl MonitorError {
    /// The diagnostic printed for this error.
    pub fn message(&self) -> (r: String)
        ensures
            r@ == "monitor id is out of bounds"@,
    {
        String::from_str("monitor id is out of bounds")
    }
}

/// What resolving `index` against the output list `outputs` gives.
pub open spec fn resolve_spec(index: u32, outputs: Seq<Geometry>) -> Result<ResolvedMonitor, MonitorError> {
    if index < outputs.len() {
        Ok(ResolvedMonitor { index, width: outputs[index as int].width, height: outputs[index as int].height })
    } else {
        Err(MonitorError::OutOfRange { index, count: outputs.len() as usize })
    }
}

/// Picks output `index` of the current list of outputs, or fails with
/// `OutOfRange` when the index is not below the number of outputs.
pub fn resolve(index: u32, outputs: &Vec<Geometry>) -> (r: Result<ResolvedMonitor, MonitorError>)
    ensures
        r == resolve_spec(index, outputs@),
        r is Ok <==> index < outputs@.len(),
{
    let count = outputs.len();
    if (index as usize) < count {
        let g = outputs[index as usize];
        Ok(ResolvedMonitor { index, width: g.width, height: g.height })
    } else {
        Err(MonitorError::OutOfRange { index, count })
    }
}

} // verus!
