//! What a worker decides and computes around its kernels: the order of its
//! steps, the request it opens with, the order in which it walks a tile,
//! and the result it sends back.

use crate::fractal::FractalDescriptor;
use crate::messages::{FragmentRequest, FragmentResult, FragmentTask};
use crate::pixels::{append_pixel_intensities, spec_encode_pixels};
use crate::types::{PixelIntensity, Resolution};
use vstd::prelude::*;

verus! {

/// The work load that a worker announces.
pub const MAXIMAL_WORK_LOAD: u32 = 10;

/// The name under which a worker asks.
pub open spec fn spec_worker_name() -> Seq<char> {
    "Group4-4AL1-Fractanstique"@
}

/// The request a worker opens with; it travels without payload.
pub fn send_request() -> (request: FragmentRequest)
    ensures
        request.worker_name@ == spec_worker_name(),
        request.maximal_work_load == MAXIMAL_WORK_LOAD,
{
    FragmentRequest::new("Group4-4AL1-Fractanstique".to_owned(), MAXIMAL_WORK_LOAD)
}

/// Column and row of pixel `i` in the walk over a tile: the walk takes the
/// tile to be `ny` pixels wide.
pub open spec fn spec_scan_cell(i: int, resolution: Resolution) -> (int, int) {
    (i % (resolution.ny as int), i / (resolution.ny as int))
}

/// Column and row of pixel `i` in the walk over a tile. The pixel's point
/// is the tile's lower corner plus column times the step along x and row
/// times the step along y.
pub fn scan_cell(i: u32, resolution: &Resolution) -> (cell: (u32, u32))
    requires
        resolution.ny > 0,
    ensures
        (cell.0 as int, cell.1 as int) == spec_scan_cell(i as int, *resolution),
        cell.0 < resolution.ny,
        i == cell.1 * resolution.ny + cell.0,
{
    let ny: u32 = resolution.ny as u32;
    let cell = (i % ny, i / ny);
    assert(i as int == (i as int / ny as int) * ny as int + i as int % ny as int) by {
        vstd::arithmetic::div_mod::lemma_fundamental_div_mod(i as int, ny as int);
        assert(ny as int * (i as int / ny as int) == (i as int / ny as int) * ny as int)
            by (nonlinear_arith);
    }
    cell
}

/// The payload of a result: the bytes that came with the task, which are
/// its identifier, then each pixel's `zn` and `count`.
pub fn do_work(datas: Vec<u8>, pixels_calculated: &Vec<PixelIntensity>) -> (payload: Vec<u8>)
    ensures
        payload@ == datas@ + spec_encode_pixels(pixels_calculated@),
        payload@.len() == datas@.len() + 8 * pixels_calculated@.len(),
{
    append_pixel_intensities(datas, pixels_calculated)
}

/// The result that answers `task`; `None` exactly where the place of the
/// pixels, right after the identifier, does not fit 32 bits.
pub fn send_result(task: &FragmentTask) -> (result: Option<FragmentResult>)
    ensures
        result is Some == (task.id.offset + task.id.count <= u32::MAX),
        result is Some ==> result->Some_0 == FragmentResult::spec_create(*task),
{
    if task.id.count <= u32::MAX - task.id.offset {
        Some(FragmentResult::create(task))
    } else {
        None
    }
}

/// The intensity that a worker's own picture of a tile shows for a pixel:
/// `zn` for the Julia and the Mandelbrot set, `count` for the others.
pub open spec fn spec_shade(fractal: FractalDescriptor, pixel: PixelIntensity) -> u32 {
    match fractal {
        FractalDescriptor::Julia(_) => pixel.zn,
        FractalDescriptor::Mandelbrot(_) => pixel.zn,
        _ => pixel.count,
    }
}

/// The intensity that a worker's own picture of a tile shows for a pixel.
pub fn shade(fractal: &FractalDescriptor, pixel: &PixelIntensity) -> (bits: u32)
    ensures
        bits == spec_shade(*fractal, *pixel),
{
    match fractal {
        FractalDescriptor::Julia(_) => pixel.zn,
        FractalDescriptor::Mandelbrot(_) => pixel.zn,
        _ => pixel.count,
    }
}

/// The steps of a worker. Each step either succeeds or fails.
#[derive(Clone, Copy, Debug, PartialEq, Eq, Structural)]
pub enum WorkerStep {
    /// Open the connection on which the request goes out.
    ConnectToAsk,
    /// Send the request.
    Ask,
    /// Read a task and the identifier that comes with it.
    Read,
    /// Compute the pixels of the task's tile and the payload of the result.
    Compute,
    /// Open a new connection for the result.
    ConnectToAnswer,
    /// Send the result.
    Answer,
}

/// What a worker does after a step.
#[derive(Clone, Copy, Debug, PartialEq, Eq, Structural)]
pub enum Next {
    /// Take this step at once.
    Go(WorkerStep),
    /// Wait five seconds, then take this step.
    PauseThen(WorkerStep),
    /// Give up, with failure.
    Exit,
}

/// What follows a step. A worker connects, asks, reads a task and computes
/// it; it sends every result on a new connection and reads the next task
/// from that connection. A connection that cannot be opened and a task that
/// cannot be read are tried again after a pause; a message that cannot be
/// sent, or a tile that cannot be computed, ends the worker.
pub open spec fn spec_next_step(step: WorkerStep, succeeded: bool) -> Next {
    match step {
        WorkerStep::ConnectToAsk => if succeeded {
            Next::Go(WorkerStep::Ask)
        } else {
            Next::PauseThen(WorkerStep::ConnectToAsk)
        },
        WorkerStep::Ask => if succeeded {
            Next::Go(WorkerStep::Read)
        } else {
            Next::Exit
        },
        WorkerStep::Read => if succeeded {
            Next::Go(WorkerStep::Compute)
        } else {
            Next::PauseThen(WorkerStep::Read)
        },
        WorkerStep::Compute => if succeeded {
            Next::Go(WorkerStep::ConnectToAnswer)
        } else {
            Next::Exit
        },
        WorkerStep::ConnectToAnswer => if succeeded {
            Next::Go(WorkerStep::Answer)
        } else {
            Next::PauseThen(WorkerStep::ConnectToAnswer)
        },
        WorkerStep::Answer => if succeeded {
            Next::Go(WorkerStep::Read)
        } else {
            Next::Exit
        },
    }
}

/// The step a worker begins with.
pub fn first_step() -> (step: WorkerStep)
    ensures
        step == WorkerStep::ConnectToAsk,
{
    WorkerStep::ConnectToAsk
}

/// What follows a step that succeeded or failed.
pub fn next_step(step: WorkerStep, succeeded: bool) -> (next: Next)
    ensures
        next == spec_next_step(step, succeeded),
{
    match (step, succeeded) {
        (WorkerStep::ConnectToAsk, true) => Next::Go(WorkerStep::Ask),
        (WorkerStep::Ask, true) => Next::Go(WorkerStep::Read),
        (WorkerStep::Read, true) => Next::Go(WorkerStep::Compute),
        (WorkerStep::Compute, true) => Next::Go(WorkerStep::ConnectToAnswer),
        (WorkerStep::ConnectToAnswer, true) => Next::Go(WorkerStep::Answer),
        (WorkerStep::Answer, true) => Next::Go(WorkerStep::Read),
        (WorkerStep::ConnectToAsk, false) => Next::PauseThen(WorkerStep::ConnectToAsk),
        (WorkerStep::ConnectToAnswer, false) => Next::PauseThen(WorkerStep::ConnectToAnswer),
        (WorkerStep::Read, false) => Next::PauseThen(WorkerStep::Read),
        (WorkerStep::Ask, false) => Next::Exit,
        (WorkerStep::Compute, false) => Next::Exit,
        (WorkerStep::Answer, false) => Next::Exit,
    }
}

/// The step that a `Next` leads to, if any.
pub open spec fn spec_target(next: Next) -> Option<WorkerStep> {
    match next {
        Next::Go(step) => Some(step),
        Next::PauseThen(step) => Some(step),
        Next::Exit => None,
    }
}

/// Every result goes out on a connection of its own: a worker sends a
/// result only right after it has opened a new connection, and a request
/// only right after it has opened the first one; and it reads a task only
/// from a connection on which it has just sent, or on which the reading
/// failed before.
pub proof fn lemma_one_message_per_connection(step: WorkerStep, succeeded: bool)
    ensures
        spec_target(spec_next_step(step, succeeded)) == Some(WorkerStep::Answer) <==> (step
            == WorkerStep::ConnectToAnswer && succeeded),
        spec_target(spec_next_step(step, succeeded)) == Some(WorkerStep::Ask) <==> (step
            == WorkerStep::ConnectToAsk && succeeded),
        spec_target(spec_next_step(step, succeeded)) == Some(WorkerStep::Read) ==> (step
            == WorkerStep::Ask || step == WorkerStep::Answer || step == WorkerStep::Read),
        spec_target(spec_next_step(step, succeeded)) == Some(WorkerStep::ConnectToAnswer)
            ==> (step == WorkerStep::Compute || step == WorkerStep::ConnectToAnswer),
{
}

/// A worker gives up only where a message could not be sent or a tile
/// could not be computed; a connection that cannot be opened and a task
/// that cannot be read are tried again, after a pause and without end.
pub proof fn lemma_worker_retries(step: WorkerStep, succeeded: bool)
    ensures
        spec_next_step(step, succeeded) == Next::Exit <==> (!succeeded && (step
            == WorkerStep::Ask || step == WorkerStep::Compute || step == WorkerStep::Answer)),
        spec_next_step(step, succeeded) is PauseThen <==> (!succeeded && (step
            == WorkerStep::ConnectToAsk || step == WorkerStep::Read || step
            == WorkerStep::ConnectToAnswer)),
        spec_next_step(step, succeeded) is PauseThen ==> spec_next_step(step, succeeded)
            == Next::PauseThen(step),
{
}

} // verus!
