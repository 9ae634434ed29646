//! The three fragments that travel between dispatcher and worker.

use crate::envelope::FragmentKind;
use crate::fractal::FractalDescriptor;
use crate::types::{PixelData, Range, Resolution, U8Data};
use vstd::prelude::*;

verus! {

/// A worker asks for work.
#[derive(Clone, Debug, PartialEq, Eq)]
pub struct FragmentRequest {
    pub worker_name: String,
    pub maximal_work_load: u32,
}

impl FragmentRequest {
    /// A request of the named worker.
    pub fn new(worker_name: String, maximal_work_load: u32) -> (r: FragmentRequest)
        ensures
            r.worker_name == worker_name,
            r.maximal_work_load == maximal_work_load,
    {
        FragmentRequest { worker_name, maximal_work_load }
    }
}

/// The dispatcher hands a tile to a worker. The bytes of the task's
/// identifier travel in the payload; `id` says where.
#[derive(Clone, Copy, Debug, PartialEq, Eq, Structural)]
pub struct FragmentTask {
    pub id: U8Data,
    pub fractal: FractalDescriptor,
    pub max_iteration: u16,
    pub resolution: Resolution,
    pub range: Range,
}

impl FragmentTask {
    /// A task with these fields.
    pub fn new(
        id: U8Data,
        fractal: FractalDescriptor,
        max_iteration: u16,
        resolution: Resolution,
        range: Range,
    ) -> (t: FragmentTask)
        ensures
            t == (FragmentTask { id, fractal, max_iteration, resolution, range }),
    {
        FragmentTask { id, fractal, max_iteration, resolution, range }
    }
}

/// A worker returns a tile. The identifier and the pixels travel in the
/// payload; `id` and `pixels` say where.
#[derive(Clone, Copy, Debug, PartialEq, Eq, Structural)]
pub struct FragmentResult {
    pub id: U8Data,
    pub resolution: Resolution,
    pub range: Range,
    pub pixels: PixelData,
}

impl FragmentResult {
    /// A result with these fields.
    pub fn new(id: U8Data, resolution: Resolution, range: Range, pixels: PixelData) -> (r:
        FragmentResult)
        ensures
            r == (FragmentResult { id, resolution, range, pixels }),
    {
        FragmentResult { id, resolution, range, pixels }
    }

    /// The result that answers `task`.
    pub open spec fn spec_create(task: FragmentTask) -> FragmentResult {
        FragmentResult {
            id: task.id,
            resolution: task.resolution,
            range: task.range,
            pixels: PixelData {
                offset: (task.id.offset + task.id.count) as u32,
                count: task.resolution.spec_pixel_count() as u32,
            },
        }
    }

    /// The result that answers `task`: it echoes identifier, resolution and
    /// range, and places the pixels right after the identifier.
    pub fn create(task: &FragmentTask) -> (r: FragmentResult)
        requires
            task.id.offset + task.id.count <= u32::MAX,
        ensures
            r == Self::spec_create(*task),
            r.pixels.offset == task.id.offset + task.id.count,
            r.pixels.count == task.resolution.nx * task.resolution.ny,
    {
        let pixel_data = PixelData::new(
            task.id.offset + task.id.count,
            task.resolution.pixel_count(),
        );
        FragmentResult::new(task.id, task.resolution, task.range, pixel_data)
    }
}

/// One of the three fragments.
#[derive(Clone, Debug, PartialEq, Eq)]
pub enum Fragment {
    FragmentResult(FragmentResult),
    FragmentRequest(FragmentRequest),
    FragmentTask(FragmentTask),
}

impl Fragment {
    /// The variant of the fragment.
    pub open spec fn spec_kind(self) -> FragmentKind {
        match self {
            Fragment::FragmentResult(_) => FragmentKind::FragmentResult,
            Fragment::FragmentRequest(_) => FragmentKind::FragmentRequest,
            Fragment::FragmentTask(_) => FragmentKind::FragmentTask,
        }
    }

    /// The variant of the fragment.
    pub fn kind(&self) -> (k: FragmentKind)
        ensures
            k == self.spec_kind(),
    {
        match self {
            Fragment::FragmentResult(_) => FragmentKind::FragmentResult,
            Fragment::FragmentRequest(_) => FragmentKind::FragmentRequest,
            Fragment::FragmentTask(_) => FragmentKind::FragmentTask,
        }
    }
}

} // verus!
