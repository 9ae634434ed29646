//! The dispatcher's state and its transitions.
//!
//! The dispatcher owns the queue of tiles not yet handed out, the map of
//! tasks in flight and the map of tiles that came back. Each message it
//! receives moves this state one step and tells the caller what to do: which
//! task to send back, whether a pause precedes the answer, whether the image
//! is complete and has to be saved.

use crate::fractal::FractalName;
use crate::framing::copy_range;
use crate::ids::{generate_unique_id, id_key, key_of, spec_id_key, ID_LEN};
use crate::messages::{Fragment, FragmentResult, FragmentTask};
use crate::pixels::{
    format_data_to_pixel_intensity_vector, lemma_pixels_round_trip, spec_decode_pixels,
    spec_encode_pixels,
};
use crate::tiles::{create_params, spec_descriptor, spec_params, TILE_COUNT};
use crate::types::PixelIntensity;
use std::collections::HashMap;
use vstd::prelude::*;

verus! {

broadcast use vstd::std_specs::hash::group_hash_axioms;

/// The dispatcher's bookkeeping.
pub struct FractalCalculState {
    /// Tiles not yet handed out; the next one is the last.
    pub params: Vec<FragmentTask>,
    /// Tasks in flight, by the key of their identifier.
    pub tasks_state: HashMap<u128, FragmentTask>,
    /// Tiles that came back, by the key of their identifier.
    pub calcul_state: HashMap<u128, Vec<PixelIntensity>>,
    /// The fractal being rendered.
    pub fractal_to_calcul: FractalName,
}

/// The mathematical content of the dispatcher's bookkeeping.
pub struct StateView {
    pub params: Seq<FragmentTask>,
    pub tasks: Map<u128, FragmentTask>,
    pub results: Map<u128, Seq<PixelIntensity>>,
    pub fractal: FractalName,
}

/// Why a message changes nothing and gets no answer.
#[derive(Clone, Copy, Debug, PartialEq, Eq, Structural)]
pub enum DropReason {
    /// The payload is shorter than the identifier it announces.
    ShortPayload,
    /// The pixel stream is not a whole number of pixels.
    MalformedPixels,
    /// The identifier is that of no task in flight.
    UnknownTask,
    /// The fragment is neither a request nor a result.
    NotForDispatcher,
}

/// A tile that came back: the task it answers, its pixels, and whether it
/// was the last tile of the image.
#[derive(Debug, PartialEq, Eq)]
pub struct Landed {
    pub tile: FragmentTask,
    pub intensities: Vec<PixelIntensity>,
    pub image_complete: bool,
}

/// A task handed out, and whether the queue had to be filled anew first.
#[derive(Clone, Copy, Debug, PartialEq, Eq, Structural)]
pub struct Issued {
    pub task: FragmentTask,
    pub regenerated: bool,
}

/// What the caller does after a step.
#[derive(Debug, PartialEq, Eq)]
pub enum Action {
    /// Answer a request: send `task` with `id` as payload, after a pause
    /// if `paused`.
    Task { task: FragmentTask, id: Vec<u8>, paused: bool },
    /// Answer a result: paint `intensities` where `tile` lies, save the
    /// image if `image_complete`, then send `task` with `id` as payload,
    /// after a pause if `paused`.
    TileThenTask {
        tile: FragmentTask,
        intensities: Vec<PixelIntensity>,
        image_complete: bool,
        task: FragmentTask,
        id: Vec<u8>,
        paused: bool,
    },
    /// Send nothing.
    Nothing(DropReason),
}

/// The identifier that a result echoes: the first bytes of its payload.
pub open spec fn spec_result_id(result: FragmentResult, payload: Seq<u8>) -> Seq<u8> {
    payload.subrange(0, result.id.count as int)
}

/// The key of the identifier that a result echoes.
pub open spec fn spec_result_key(result: FragmentResult, payload: Seq<u8>) -> u128 {
    spec_id_key(spec_result_id(result, payload)) as u128
}

/// The pixels of a result: what follows the identifier in its payload.
pub open spec fn spec_result_pixels(result: FragmentResult, payload: Seq<u8>) -> Seq<
    PixelIntensity,
> {
    spec_decode_pixels(payload.subrange(result.id.count as int, payload.len() as int))
}

impl StateView {
    /// The state a dispatcher starts in.
    pub open spec fn spec_initial(fractal: FractalName) -> StateView {
        StateView {
            params: spec_params(spec_descriptor(fractal)),
            tasks: Map::empty(),
            results: Map::empty(),
            fractal,
        }
    }

    /// The sizes that every reachable state keeps: at most sixteen tiles
    /// wait, and fewer than sixteen have come back.
    pub open spec fn spec_wf(self) -> bool {
        &&& self.params.len() <= TILE_COUNT
        &&& self.tasks.dom().finite()
        &&& self.results.dom().finite()
        &&& self.results.len() < TILE_COUNT
    }

    /// No identifier is both in flight and back.
    pub open spec fn spec_ids_disjoint(self) -> bool {
        forall|k: u128| !(self.tasks.contains_key(k) && self.results.contains_key(k))
    }

    /// The queue is empty: the next task needs a new image.
    pub open spec fn spec_needs_regeneration(self) -> bool {
        self.params.len() == 0
    }

    /// A new image of the same fractal: sixteen tiles wait, nothing is in
    /// flight, nothing is back.
    pub open spec fn spec_reset(self) -> StateView {
        Self::spec_initial(self.fractal)
    }

    /// The state from which the next task is taken.
    pub open spec fn spec_refilled(self) -> StateView {
        if self.spec_needs_regeneration() {
            self.spec_reset()
        } else {
            self
        }
    }

    /// The task that is handed out next.
    pub open spec fn spec_next_task(self) -> FragmentTask {
        self.spec_refilled().params.last()
    }

    /// Handing out the next task under `key`.
    pub open spec fn spec_issue(self, key: u128) -> StateView {
        let from = self.spec_refilled();
        StateView {
            params: from.params.drop_last(),
            tasks: from.tasks.insert(key, from.params.last()),
            results: from.results,
            fractal: from.fractal,
        }
    }

    /// Why a result is dropped, if it is.
    pub open spec fn spec_refusal(self, result: FragmentResult, payload: Seq<u8>) -> Option<
        DropReason,
    > {
        if payload.len() < result.id.count {
            Some(DropReason::ShortPayload)
        } else if (payload.len() - result.id.count) % 8 != 0 {
            Some(DropReason::MalformedPixels)
        } else if result.id.count != ID_LEN || !self.tasks.contains_key(
            spec_result_key(result, payload),
        ) {
            Some(DropReason::UnknownTask)
        } else {
            None
        }
    }

    /// Whether a result that is not dropped is the sixteenth tile.
    pub open spec fn spec_completes(self, result: FragmentResult, payload: Seq<u8>) -> bool {
        self.results.insert(
            spec_result_key(result, payload),
            spec_result_pixels(result, payload),
        ).len() == TILE_COUNT
    }

    /// Taking in a result that is not dropped: its task leaves the tasks in
    /// flight and its pixels join the tiles that are back; with the
    /// sixteenth tile both maps are emptied.
    pub open spec fn spec_land(self, result: FragmentResult, payload: Seq<u8>) -> StateView {
        let key = spec_result_key(result, payload);
        if self.spec_completes(result, payload) {
            StateView {
                params: self.params,
                tasks: Map::empty(),
                results: Map::empty(),
                fractal: self.fractal,
            }
        } else {
            StateView {
                params: self.params,
                tasks: self.tasks.remove(key),
                results: self.results.insert(key, spec_result_pixels(result, payload)),
                fractal: self.fractal,
            }
        }
    }
}

impl View for FractalCalculState {
    type V = StateView;

    open spec fn view(&self) -> StateView {
        StateView {
            params: self.params@,
            tasks: self.tasks_state@,
            results: Map::new(
                |k: u128| self.calcul_state@.contains_key(k),
                |k: u128| self.calcul_state@[k]@,
            ),
            fractal: self.fractal_to_calcul,
        }
    }
}

/// A copy of a vector of pixels.
fn copy_pixels(pixels: &Vec<PixelIntensity>) -> (out: Vec<PixelIntensity>)
    ensures
        out@ == pixels@,
{
    let mut out: Vec<PixelIntensity> = Vec::new();
    let mut i: usize = 0;
    while i < pixels.len()
        invariant
            i <= pixels.len(),
            out@ == pixels@.take(i as int),
        decreases pixels.len() - i,
    {
        out.push(pixels[i]);
        i += 1;
        assert(out@ =~= pixels@.take(i as int));
    }
    assert(pixels@.take(pixels.len() as int) =~= pixels@);
    out
}

impl FractalCalculState {
    /// A dispatcher that starts an image of `fractal`.
    pub fn new(fractal: FractalName) -> (state: FractalCalculState)
        ensures
            state@ == StateView::spec_initial(fractal),
            state@.spec_wf(),
            state@.spec_ids_disjoint(),
    {
        let state = FractalCalculState {
            params: create_params(fractal),
            tasks_state: HashMap::new(),
            calcul_state: HashMap::new(),
            fractal_to_calcul: fractal,
        };
        assert(state@.results =~= Map::empty());
        state
    }

    /// Whether the queue is empty, so that the next task needs a new image.
    pub fn needs_regeneration(&self) -> (empty: bool)
        ensures
            empty == self@.spec_needs_regeneration(),
    {
        self.params.len() == 0
    }

    /// Hands out the next task under the identifier `id`. An empty queue is
    /// first filled with the sixteen tiles of a new image, and both maps
    /// are emptied.
    pub fn issue_task(&mut self, id: &Vec<u8>) -> (issued: Issued)
        requires
            id@.len() == ID_LEN,
        ensures
            final(self)@ == old(self)@.spec_issue(spec_id_key(id@) as u128),
            issued.task == old(self)@.spec_next_task(),
            issued.regenerated == old(self)@.spec_needs_regeneration(),
    {
        let regenerated = self.params.len() == 0;
        if regenerated {
            reset_state(self);
        }
        let key = key_of(id.as_slice());
        let ghost from = self@;
        assert(from == old(self)@.spec_refilled());
        let task = self.params[self.params.len() - 1];
        self.params.pop();
        self.tasks_state.insert(key, task);
        assert(self@.results =~= from.results);
        assert(self@.params =~= from.params.drop_last());
        Issued { task, regenerated }
    }

    /// Takes in a result and its payload. A result is dropped, and the state
    /// left as it was, when its payload is shorter than the identifier it
    /// announces, when what follows the identifier is not a whole number of
    /// pixels, or when the identifier is that of no task in flight.
    /// Otherwise the task leaves the tasks in flight, the pixels join the
    /// tiles that are back, and with the sixteenth tile the image is
    /// complete and both maps are emptied.
    pub fn land_result(&mut self, result: &FragmentResult, payload: &Vec<u8>) -> (r: Result<
        Landed,
        DropReason,
    >)
        ensures
            match old(self)@.spec_refusal(*result, payload@) {
                Some(reason) => r is Err && r->Err_0 == reason && final(self)@ == old(self)@,
                None => {
                    &&& r is Ok
                    &&& r->Ok_0.tile == old(self)@.tasks[spec_result_key(*result, payload@)]
                    &&& r->Ok_0.intensities@ == spec_result_pixels(*result, payload@)
                    &&& r->Ok_0.image_complete == old(self)@.spec_completes(*result, payload@)
                    &&& final(self)@ == old(self)@.spec_land(*result, payload@)
                },
            },
    {
        let id_len: usize = result.id.count as usize;
        if payload.len() < id_len {
            return Err(DropReason::ShortPayload);
        }
        if (payload.len() - id_len) % 8 != 0 {
            return Err(DropReason::MalformedPixels);
        }
        let id = copy_range(payload, 0, id_len);
        let key = match id_key(id.as_slice()) {
            Some(key) => key,
            None => { return Err(DropReason::UnknownTask); },
        };
        let tile = match self.tasks_state.remove(&key) {
            Some(tile) => tile,
            None => {
                assert(self.tasks_state@ =~= old(self).tasks_state@);
                return Err(DropReason::UnknownTask);
            },
        };
        let stream = copy_range(payload, id_len, payload.len());
        let intensities = format_data_to_pixel_intensity_vector(&stream);
        let kept = copy_pixels(&intensities);
        self.calcul_state.insert(key, kept);
        let ghost landed = old(self)@.results.insert(key, intensities@);
        assert(self@.results =~= landed);
        assert(self@.results.dom() =~= self.calcul_state@.dom());
        let image_complete = self.calcul_state.len() == TILE_COUNT;
        if image_complete {
            self.calcul_state.clear();
            self.tasks_state.clear();
            assert(self@.results =~= Map::empty());
        }
        Ok(Landed { tile, intensities, image_complete })
    }

    /// One step of the dispatcher, with the identifier for the next task
    /// given: a request is answered with the next task; a result is taken
    /// in and answered with the next task, unless it is dropped; any other
    /// fragment changes nothing and gets no answer.
    pub fn dispatch(&mut self, fragment: &Fragment, payload: &Vec<u8>, fresh_id: Vec<u8>) -> (action:
        Action)
        requires
            fresh_id@.len() == ID_LEN,
        ensures
            spec_step(old(self)@, *fragment, payload@, fresh_id@, final(self)@, action),
    {
        match fragment {
            Fragment::FragmentRequest(_) => {
                let issued = self.issue_task(&fresh_id);
                Action::Task { task: issued.task, id: fresh_id, paused: issued.regenerated }
            },
            Fragment::FragmentResult(result) => {
                match self.land_result(result, payload) {
                    Err(reason) => Action::Nothing(reason),
                    Ok(landed) => {
                        let issued = self.issue_task(&fresh_id);
                        Action::TileThenTask {
                            tile: landed.tile,
                            intensities: landed.intensities,
                            image_complete: landed.image_complete,
                            task: issued.task,
                            id: fresh_id,
                            paused: issued.regenerated,
                        }
                    },
                }
            },
            Fragment::FragmentTask(_) => Action::Nothing(DropReason::NotForDispatcher),
        }
    }

    /// One step of the dispatcher, with a fresh random identifier for the
    /// next task. Whatever identifier was drawn, the step is the one that
    /// `dispatch` makes with it; the action names the identifier.
    pub fn handle(&mut self, fragment: &Fragment, payload: &Vec<u8>) -> (action: Action)
        ensures
            exists|fresh_id: Seq<u8>|
                fresh_id.len() == ID_LEN && #[trigger] spec_step(
                    old(self)@,
                    *fragment,
                    payload@,
                    fresh_id,
                    final(self)@,
                    action,
                ),
    {
        let fresh_id = generate_unique_id();
        let ghost drawn = fresh_id@;
        let action = self.dispatch(fragment, payload, fresh_id);
        assert(spec_step(old(self)@, *fragment, payload@, drawn, self@, action));
        action
    }
}

/// Starts a new image of the same fractal: sixteen tiles wait, nothing is
/// in flight, nothing is back. Returns the fractal.
pub fn reset_state(state: &mut FractalCalculState) -> (fractal: FractalName)
    ensures
        final(state)@ == old(state)@.spec_reset(),
        fractal == old(state).fractal_to_calcul,
{
    state.params = create_params(state.fractal_to_calcul);
    state.tasks_state.clear();
    state.calcul_state.clear();
    assert(state@.results =~= Map::empty());
    state.fractal_to_calcul
}

/// The state after one step: a request hands out the next task; a result
/// that is not dropped is taken in, and the next task handed out; anything
/// else leaves the state as it was.
pub open spec fn spec_after(
    before: StateView,
    fragment: Fragment,
    payload: Seq<u8>,
    fresh_id: Seq<u8>,
) -> StateView {
    let key = spec_id_key(fresh_id) as u128;
    match fragment {
        Fragment::FragmentRequest(_) => before.spec_issue(key),
        Fragment::FragmentResult(result) => if before.spec_refusal(result, payload) is None {
            before.spec_land(result, payload).spec_issue(key)
        } else {
            before
        },
        Fragment::FragmentTask(_) => before,
    }
}

/// Whether `after` and `action` are what one step makes of `before`, of a
/// fragment with its payload, and of the identifier `fresh_id` for the next
/// task.
pub open spec fn spec_step(
    before: StateView,
    fragment: Fragment,
    payload: Seq<u8>,
    fresh_id: Seq<u8>,
    after: StateView,
    action: Action,
) -> bool {
    &&& after == spec_after(before, fragment, payload, fresh_id)
    &&& match fragment {
        Fragment::FragmentRequest(_) => {
            &&& action matches Action::Task { task, id, paused }
            &&& task == before.spec_next_task()
            &&& id@ == fresh_id
            &&& paused == before.spec_needs_regeneration()
        },
        Fragment::FragmentResult(result) => match before.spec_refusal(result, payload) {
            Some(reason) => action == Action::Nothing(reason),
            None => {
                let landed = before.spec_land(result, payload);
                &&& action matches Action::TileThenTask {
                    tile,
                    intensities,
                    image_complete,
                    task,
                    id,
                    paused,
                }
                &&& tile == before.tasks[spec_result_key(result, payload)]
                &&& intensities@ == spec_result_pixels(result, payload)
                &&& image_complete == before.spec_completes(result, payload)
                &&& task == landed.spec_next_task()
                &&& id@ == fresh_id
                &&& paused == landed.spec_needs_regeneration()
            },
        },
        Fragment::FragmentTask(_) => action == Action::Nothing(DropReason::NotForDispatcher),
    }
}

/// What reaches the dispatcher in one step: a fragment, its payload, and
/// the identifier drawn for the next task.
pub struct Event {
    pub fragment: Fragment,
    pub payload: Seq<u8>,
    pub fresh_id: Seq<u8>,
}

/// The state after a run of steps.
pub open spec fn spec_run(start: StateView, events: Seq<Event>) -> StateView
    decreases events.len(),
{
    if events.len() == 0 {
        start
    } else {
        let last = events.last();
        spec_after(spec_run(start, events.drop_last()), last.fragment, last.payload, last.fresh_id)
    }
}

/// Whether each identifier of a run is new when it is drawn: neither in
/// flight nor back in the state that its step starts from.
pub open spec fn spec_ids_are_new(start: StateView, events: Seq<Event>) -> bool {
    forall|i: int|
        #![trigger events[i]]
        0 <= i < events.len() ==> {
            let before = spec_run(start, events.take(i));
            let key = spec_id_key(events[i].fresh_id) as u128;
            !before.tasks.contains_key(key) && !before.results.contains_key(key)
        }
}

/// Handing out a task keeps the sizes of a reachable state.
pub proof fn lemma_issue_keeps_wf(s: StateView, key: u128)
    requires
        s.spec_wf(),
    ensures
        s.spec_issue(key).spec_wf(),
        s.spec_issue(key).params.len() == s.spec_refilled().params.len() - 1,
        s.spec_issue(key).tasks.contains_key(key),
        s.spec_issue(key).tasks[key] == s.spec_next_task(),
{
    let from = s.spec_refilled();
    assert(from.params.len() >= 1);
}

/// Taking in a result keeps the sizes of a reachable state.
pub proof fn lemma_land_keeps_wf(s: StateView, result: FragmentResult, payload: Seq<u8>)
    requires
        s.spec_wf(),
        s.spec_refusal(result, payload) is None,
    ensures
        s.spec_land(result, payload).spec_wf(),
{
    let key = spec_result_key(result, payload);
    let landed = s.results.insert(key, spec_result_pixels(result, payload));
    assert(landed.dom() =~= s.results.dom().insert(key));
}

/// No identifier is ever both in flight and back: handing out a task under
/// an identifier that is not among the tiles that are back keeps the two
/// maps disjoint. Where the queue is filled anew both maps are emptied
/// first, and the condition on the identifier is not needed.
pub proof fn lemma_issue_keeps_ids_disjoint(s: StateView, key: u128)
    requires
        s.spec_ids_disjoint(),
        s.spec_needs_regeneration() || !s.results.contains_key(key),
    ensures
        s.spec_issue(key).spec_ids_disjoint(),
{
}

/// No identifier is ever both in flight and back: a result that is taken
/// in moves its identifier from the tasks in flight to the tiles that are
/// back.
pub proof fn lemma_land_keeps_ids_disjoint(s: StateView, result: FragmentResult, payload: Seq<u8>)
    requires
        s.spec_ids_disjoint(),
        s.spec_refusal(result, payload) is None,
    ensures
        s.spec_land(result, payload).spec_ids_disjoint(),
        !s.spec_completes(result, payload) ==> {
            &&& !s.spec_land(result, payload).tasks.contains_key(spec_result_key(result, payload))
            &&& s.spec_land(result, payload).results.contains_key(
                spec_result_key(result, payload),
            )
        },
{
}

/// The image is complete exactly when the tile taken in is the sixteenth:
/// fifteen others were back already. Right after, both maps are empty;
/// after any other tile the map of tiles that are back is not.
pub proof fn lemma_completion(s: StateView, result: FragmentResult, payload: Seq<u8>)
    requires
        s.spec_wf(),
        s.spec_ids_disjoint(),
        s.spec_refusal(result, payload) is None,
    ensures
        s.spec_completes(result, payload) <==> s.results.len() == TILE_COUNT - 1,
        s.spec_completes(result, payload) ==> {
            &&& s.spec_land(result, payload).tasks == Map::<u128, FragmentTask>::empty()
            &&& s.spec_land(result, payload).results == Map::<
                u128,
                Seq<PixelIntensity>,
            >::empty()
        },
        !s.spec_completes(result, payload) ==> s.spec_land(result, payload).results.len() > 0,
{
    let key = spec_result_key(result, payload);
    let landed = s.results.insert(key, spec_result_pixels(result, payload));
    assert(s.tasks.contains_key(key));
    assert(!s.results.contains_key(key));
    assert(landed.dom() =~= s.results.dom().insert(key));
}

/// Every step keeps both invariants, as long as the identifier drawn for
/// the next task is new: neither in flight nor back.
pub proof fn lemma_step_keeps_invariants(
    before: StateView,
    fragment: Fragment,
    payload: Seq<u8>,
    fresh_id: Seq<u8>,
    after: StateView,
    action: Action,
)
    requires
        before.spec_wf(),
        before.spec_ids_disjoint(),
        !before.tasks.contains_key(spec_id_key(fresh_id) as u128),
        !before.results.contains_key(spec_id_key(fresh_id) as u128),
        spec_step(before, fragment, payload, fresh_id, after, action),
    ensures
        after.spec_wf(),
        after.spec_ids_disjoint(),
{
    let key = spec_id_key(fresh_id) as u128;
    match fragment {
        Fragment::FragmentRequest(_) => {
            lemma_issue_keeps_wf(before, key);
            lemma_issue_keeps_ids_disjoint(before, key);
        },
        Fragment::FragmentResult(result) => {
            if before.spec_refusal(result, payload) is None {
                let landed = before.spec_land(result, payload);
                lemma_land_keeps_wf(before, result, payload);
                lemma_land_keeps_ids_disjoint(before, result, payload);
                lemma_issue_keeps_wf(landed, key);
                lemma_issue_keeps_ids_disjoint(landed, key);
            }
        },
        Fragment::FragmentTask(_) => {},
    }
}

/// What a worker sends is what the dispatcher takes in: the result that
/// answers a task in flight, with the task's identifier and the pixels as
/// payload, is not dropped; it is found under the identifier's key, and
/// the pixels read are the pixels sent.
pub proof fn lemma_result_lands(
    s: StateView,
    task: FragmentTask,
    id: Seq<u8>,
    pixels: Seq<PixelIntensity>,
)
    requires
        id.len() == ID_LEN,
        task.id.offset == 0,
        task.id.count == ID_LEN,
        s.tasks.contains_key(spec_id_key(id) as u128),
    ensures
        s.spec_refusal(FragmentResult::spec_create(task), id + spec_encode_pixels(pixels)) is None,
        spec_result_key(FragmentResult::spec_create(task), id + spec_encode_pixels(pixels))
            == spec_id_key(id) as u128,
        spec_result_pixels(FragmentResult::spec_create(task), id + spec_encode_pixels(pixels))
            == pixels,
{
    let result = FragmentResult::spec_create(task);
    let payload = id + spec_encode_pixels(pixels);
    lemma_pixels_round_trip(pixels);
    assert(spec_result_id(result, payload) =~= id);
    assert(payload.subrange(result.id.count as int, payload.len() as int) =~= spec_encode_pixels(
        pixels,
    ));
}

/// At all times no identifier is both in flight and back, and fewer than
/// sixteen tiles are back: both hold after every step of every run from a
/// state in which they hold, as long as each identifier is new when it is
/// drawn.
pub proof fn lemma_run_keeps_invariants(start: StateView, events: Seq<Event>, n: int)
    requires
        start.spec_wf(),
        start.spec_ids_disjoint(),
        spec_ids_are_new(start, events),
        0 <= n <= events.len(),
    ensures
        spec_run(start, events.take(n)).spec_wf(),
        spec_run(start, events.take(n)).spec_ids_disjoint(),
    decreases n,
{
    if n > 0 {
        lemma_run_keeps_invariants(start, events, n - 1);
        let before = spec_run(start, events.take(n - 1));
        let e = events[n - 1];
        let key = spec_id_key(e.fresh_id) as u128;
        assert(events.take(n).drop_last() =~= events.take(n - 1));
        assert(events.take(n).last() == e);
        assert(!before.tasks.contains_key(key) && !before.results.contains_key(key));
        match e.fragment {
            Fragment::FragmentRequest(_) => {
                lemma_issue_keeps_wf(before, key);
                lemma_issue_keeps_ids_disjoint(before, key);
            },
            Fragment::FragmentResult(result) => {
                if before.spec_refusal(result, e.payload) is None {
                    let landed = before.spec_land(result, e.payload);
                    lemma_land_keeps_wf(before, result, e.payload);
                    lemma_land_keeps_ids_disjoint(before, result, e.payload);
                    lemma_issue_keeps_wf(landed, key);
                    lemma_issue_keeps_ids_disjoint(landed, key);
                }
            },
            Fragment::FragmentTask(_) => {},
        }
    }
}

} // verus!
