use fractal_dispatch::canvas::{put_color_in_image, Canvas, IMAGE_SIDE};
use fractal_dispatch::dispatcher::{reset_state, Action, DropReason, FractalCalculState, Landed};
use fractal_dispatch::fractal::FractalName;
use fractal_dispatch::ids::id_key;
use fractal_dispatch::messages::{Fragment, FragmentRequest, FragmentResult, FragmentTask};
use fractal_dispatch::tiles::create_params;
use fractal_dispatch::types::{PixelData, PixelIntensity, U8Data};
use fractal_dispatch::worker::do_work;

fn id(n: u8) -> Vec<u8> {
    let mut id = vec![0u8; 16];
    id[0] = 0xab;
    id[15] = n;
    id
}

fn key(n: u8) -> u128 {
    id_key(&id(n)).unwrap()
}

fn request() -> Fragment {
    Fragment::FragmentRequest(FragmentRequest::new("worker".to_string(), 10))
}

fn pixels(n: usize) -> Vec<PixelIntensity> {
    (0..n as u32).map(|i| PixelIntensity::new(i, i + 1)).collect()
}

fn result_of(task: &FragmentTask) -> FragmentResult {
    FragmentResult::create(task)
}

fn issued(action: Action) -> (FragmentTask, Vec<u8>, bool) {
    match action {
        Action::Task { task, id, paused } => (task, id, paused),
        other => panic!("no task: {:?}", other),
    }
}

#[test]
fn a_new_dispatcher_holds_sixteen_tiles() {
    let state = FractalCalculState::new(FractalName::Julia);
    assert_eq!(state.params, create_params(FractalName::Julia));
    assert!(state.tasks_state.is_empty());
    assert!(state.calcul_state.is_empty());
    assert_eq!(state.fractal_to_calcul, FractalName::Julia);
    assert!(!state.needs_regeneration());
}

#[test]
fn a_request_gets_the_last_tile_of_the_queue() {
    let mut state = FractalCalculState::new(FractalName::Mandelbrot);
    let tiles = create_params(FractalName::Mandelbrot);
    let (task, sent_id, paused) = issued(state.dispatch(&request(), &Vec::new(), id(1)));
    assert_eq!(task, tiles[15]);
    assert_eq!(sent_id, id(1));
    assert!(!paused);
    assert_eq!(state.params.len(), 15);
    assert_eq!(state.tasks_state.get(&key(1)), Some(&tiles[15]));
    assert!(state.calcul_state.is_empty());
}

#[test]
fn single_worker_mandelbrot() {
    let mut state = FractalCalculState::new(FractalName::Mandelbrot);
    let tiles = create_params(FractalName::Mandelbrot);
    let (mut task, mut task_id, _) = issued(state.dispatch(&request(), &Vec::new(), id(0)));
    for round in 1..=16u8 {
        let sent = pixels(4);
        let payload = do_work(task_id.clone(), &sent);
        let action =
            state.dispatch(&Fragment::FragmentResult(result_of(&task)), &payload, id(round));
        match action {
            Action::TileThenTask { tile, intensities, image_complete, task: next, id: next_id, paused } => {
                assert_eq!(tile, task);
                assert_eq!(tile, tiles[16 - round as usize]);
                assert_eq!(intensities, sent);
                assert_eq!(image_complete, round == 16);
                assert_eq!(paused, round == 16);
                assert_eq!(next_id, id(round));
                assert_eq!(next, tiles[(31 - round as usize) % 16]);
                if round == 16 {
                    assert_eq!(state.tasks_state.len(), 1);
                    assert!(state.calcul_state.is_empty());
                    assert_eq!(state.params.len(), 15);
                } else {
                    assert_eq!(state.calcul_state.len(), round as usize);
                    assert_eq!(state.tasks_state.len(), 1);
                }
                task = next;
                task_id = next_id;
            }
            other => panic!("no tile: {:?}", other),
        }
    }
}

#[test]
fn completion_discipline() {
    let mut state = FractalCalculState::new(FractalName::Julia);
    let mut tasks = Vec::new();
    for n in 0..16u8 {
        tasks.push(state.issue_task(&id(n)).task);
    }
    assert!(state.needs_regeneration());
    assert_eq!(state.tasks_state.len(), 16);
    for n in 0..16u8 {
        let payload = do_work(id(n), &pixels(2));
        let landed = state.land_result(&result_of(&tasks[n as usize]), &payload).unwrap();
        assert_eq!(landed.tile, tasks[n as usize]);
        assert_eq!(landed.image_complete, n == 15);
        if n == 15 {
            assert!(state.tasks_state.is_empty());
            assert!(state.calcul_state.is_empty());
        } else {
            assert_eq!(state.calcul_state.len(), n as usize + 1);
            assert_eq!(state.tasks_state.len(), 15 - n as usize);
            assert!(state.calcul_state.contains_key(&key(n)));
            assert!(!state.tasks_state.contains_key(&key(n)));
        }
    }
}

#[test]
fn id_disjointness() {
    let mut state = FractalCalculState::new(FractalName::IteratedSinZ);
    let mut in_flight: Vec<(u8, FragmentTask)> = Vec::new();
    let mut next: u8 = 0;
    for step in 0..60 {
        if step % 3 != 2 || in_flight.is_empty() {
            let regenerating = state.needs_regeneration();
            let action = state.dispatch(&request(), &Vec::new(), id(next));
            let (task, _, paused) = issued(action);
            assert_eq!(paused, regenerating);
            if paused {
                in_flight.clear();
            }
            in_flight.push((next, task));
            next += 1;
        } else {
            let (n, task) = in_flight.remove(0);
            let payload = do_work(id(n), &pixels(1));
            state.land_result(&result_of(&task), &payload).unwrap();
        }
        for k in state.tasks_state.keys() {
            assert!(!state.calcul_state.contains_key(k));
        }
        assert!(state.calcul_state.len() < 16);
        assert!(state.params.len() <= 16);
    }
}

#[test]
fn two_workers_race() {
    let mut state = FractalCalculState::new(FractalName::NewtonRaphsonZ3);
    let mut ids = Vec::new();
    let mut tasks = Vec::new();
    let (a, a_id, _) = issued(state.dispatch(&request(), &Vec::new(), id(100)));
    let (b, b_id, _) = issued(state.dispatch(&request(), &Vec::new(), id(101)));
    ids.push(a_id.clone());
    ids.push(b_id.clone());
    tasks.push(a);
    tasks.push(b);
    let mut hands = vec![(a, a_id), (b, b_id)];
    let mut round = 0u8;
    while !state.needs_regeneration() {
        let (task, task_id) = hands.remove(0);
        let payload = do_work(task_id, &pixels(3));
        match state.dispatch(&Fragment::FragmentResult(result_of(&task)), &payload, id(round)) {
            Action::TileThenTask { task, id, paused, image_complete, .. } => {
                assert!(!paused);
                assert!(!image_complete);
                ids.push(id.clone());
                tasks.push(task);
                hands.push((task, id));
            }
            other => panic!("no tile: {:?}", other),
        }
        round += 1;
    }
    assert_eq!(ids.len(), 16);
    for i in 0..16 {
        for j in 0..i {
            assert_ne!(ids[i], ids[j]);
            assert_ne!(tasks[i].range, tasks[j].range);
        }
    }
}

#[test]
fn regeneration() {
    let mut state = FractalCalculState::new(FractalName::NovaNewtonRaphsonZ4);
    let tiles = create_params(FractalName::NovaNewtonRaphsonZ4);
    let mut tasks = Vec::new();
    for n in 0..16u8 {
        tasks.push(state.issue_task(&id(n)));
    }
    for issued in &tasks {
        assert!(!issued.regenerated);
    }
    for n in 0..16u8 {
        let payload = do_work(id(n), &pixels(1));
        state.land_result(&result_of(&tasks[n as usize].task), &payload).unwrap();
    }
    assert!(state.needs_regeneration());
    let (task, sent_id, paused) = issued(state.dispatch(&request(), &Vec::new(), id(200)));
    assert!(paused);
    assert_eq!(task, tiles[15]);
    assert_eq!(sent_id, id(200));
    assert_eq!(state.params.len(), 15);
    assert_eq!(state.tasks_state.len(), 1);
    assert!(state.calcul_state.is_empty());
}

#[test]
fn regeneration_forgets_what_is_in_flight() {
    let mut state = FractalCalculState::new(FractalName::Julia);
    let mut tasks = Vec::new();
    for n in 0..16u8 {
        tasks.push(state.issue_task(&id(n)).task);
    }
    let payload = do_work(id(0), &pixels(1));
    state.land_result(&result_of(&tasks[0]), &payload).unwrap();
    let again = state.issue_task(&id(50));
    assert!(again.regenerated);
    assert_eq!(state.tasks_state.len(), 1);
    assert!(state.calcul_state.is_empty());
    let late = do_work(id(1), &pixels(1));
    assert_eq!(state.land_result(&result_of(&tasks[1]), &late), Err(DropReason::UnknownTask));
}

#[test]
fn reset_starts_a_new_image() {
    let mut state = FractalCalculState::new(FractalName::Mandelbrot);
    let task = state.issue_task(&id(1)).task;
    state.land_result(&result_of(&task), &do_work(id(1), &pixels(1))).unwrap();
    state.issue_task(&id(2));
    assert_eq!(reset_state(&mut state), FractalName::Mandelbrot);
    assert_eq!(state.params, create_params(FractalName::Mandelbrot));
    assert!(state.tasks_state.is_empty());
    assert!(state.calcul_state.is_empty());
}

#[test]
fn payload_shorter_than_the_identifier_is_dropped() {
    let mut state = FractalCalculState::new(FractalName::Julia);
    let task = state.issue_task(&id(1)).task;
    let short = vec![0xabu8; 15];
    assert_eq!(state.land_result(&result_of(&task), &short), Err(DropReason::ShortPayload));
    assert_eq!(state.land_result(&result_of(&task), &Vec::new()), Err(DropReason::ShortPayload));
    let action = state.dispatch(&Fragment::FragmentResult(result_of(&task)), &short, id(2));
    assert_eq!(action, Action::Nothing(DropReason::ShortPayload));
    assert_eq!(state.tasks_state.len(), 1);
    assert_eq!(state.params.len(), 15);
    assert!(state.calcul_state.is_empty());
}

#[test]
fn pixel_stream_that_is_no_whole_number_of_pixels_is_dropped() {
    let mut state = FractalCalculState::new(FractalName::Julia);
    let task = state.issue_task(&id(1)).task;
    let mut payload = do_work(id(1), &pixels(2));
    payload.push(0);
    assert_eq!(state.land_result(&result_of(&task), &payload), Err(DropReason::MalformedPixels));
    assert!(state.tasks_state.contains_key(&key(1)));
    assert!(state.calcul_state.is_empty());
}

#[test]
fn result_of_no_task_in_flight_is_dropped() {
    let mut state = FractalCalculState::new(FractalName::Julia);
    let task = state.issue_task(&id(1)).task;
    let payload = do_work(id(9), &pixels(2));
    assert_eq!(state.land_result(&result_of(&task), &payload), Err(DropReason::UnknownTask));
    let mut other_length = result_of(&task);
    other_length.id = U8Data::new(0, 8);
    other_length.pixels = PixelData::new(8, 90000);
    assert_eq!(
        state.land_result(&other_length, &do_work(id(1), &pixels(2))),
        Err(DropReason::UnknownTask)
    );
    let good = do_work(id(1), &pixels(2));
    assert!(state.land_result(&result_of(&task), &good).is_ok());
    assert_eq!(state.land_result(&result_of(&task), &good), Err(DropReason::UnknownTask));
}

#[test]
fn a_tile_without_pixels_lands() {
    let mut state = FractalCalculState::new(FractalName::Julia);
    let task = state.issue_task(&id(1)).task;
    let landed = state.land_result(&result_of(&task), &id(1)).unwrap();
    assert_eq!(landed, Landed { tile: task, intensities: Vec::new(), image_complete: false });
    assert_eq!(state.calcul_state.get(&key(1)), Some(&Vec::new()));
}

#[test]
fn a_task_sent_to_the_dispatcher_is_ignored() {
    let mut state = FractalCalculState::new(FractalName::Julia);
    let task = create_params(FractalName::Julia)[0];
    let action = state.dispatch(&Fragment::FragmentTask(task), &id(1), id(2));
    assert_eq!(action, Action::Nothing(DropReason::NotForDispatcher));
    assert_eq!(state.params.len(), 16);
    assert!(state.tasks_state.is_empty());
}

#[test]
fn handle_draws_sixteen_random_bytes() {
    let mut state = FractalCalculState::new(FractalName::Julia);
    let (first_task, first, _) = issued(state.handle(&request(), &Vec::new()));
    let (second_task, second, _) = issued(state.handle(&request(), &Vec::new()));
    assert_eq!(first.len(), 16);
    assert_eq!(second.len(), 16);
    assert_ne!(first, second);
    assert_eq!(state.tasks_state.get(&id_key(&first).unwrap()), Some(&first_task));
    assert_eq!(state.tasks_state.get(&id_key(&second).unwrap()), Some(&second_task));
    assert_eq!(state.params.len(), 14);
    let payload = do_work(first.clone(), &pixels(5));
    match state.handle(&Fragment::FragmentResult(result_of(&first_task)), &payload) {
        Action::TileThenTask { tile, intensities, id, .. } => {
            assert_eq!(tile, first_task);
            assert_eq!(intensities, pixels(5));
            assert_eq!(id.len(), 16);
        }
        other => panic!("no tile: {:?}", other),
    }
}

#[test]
fn a_full_image_after_sixteen_round_trips() {
    let mut state = FractalCalculState::new(FractalName::Mandelbrot);
    let mut canvas = Canvas::new(IMAGE_SIDE, IMAGE_SIDE).unwrap();
    let (mut task, mut task_id, _) = issued(state.handle(&request(), &Vec::new()));
    let mut completed = 0;
    for round in 1..=16u32 {
        let sent: Vec<PixelIntensity> =
            (0..90_000u32).map(|k| PixelIntensity::new(k % 250 + 1, round)).collect();
        let payload = do_work(task_id.clone(), &sent);
        match state.handle(&Fragment::FragmentResult(result_of(&task)), &payload) {
            Action::TileThenTask { tile, intensities, image_complete, task: next, id, .. } => {
                let colors: Vec<[u8; 3]> =
                    intensities.iter().map(|p| [p.zn as u8, p.count as u8, 9]).collect();
                assert!(put_color_in_image(&tile, &colors, &mut canvas));
                if image_complete {
                    completed += 1;
                    assert_eq!(round, 16);
                }
                task = next;
                task_id = id;
            }
            other => panic!("no tile: {:?}", other),
        }
    }
    assert_eq!(completed, 1);
    assert_eq!(canvas.dimensions(), (1200, 1200));
    let raw = canvas.to_raw();
    assert_eq!(raw.len(), 1200 * 1200 * 3);
    for pixel in raw.chunks(3) {
        assert!(pixel[0] != 0);
        assert!(1 <= pixel[1] && pixel[1] <= 16);
        assert_eq!(pixel[2], 9);
    }
    assert_eq!(canvas.pixel(1199, 1199), Some([(89_999 % 250 + 1) as u8, 1, 9]));
    assert_eq!(canvas.pixel(0, 0), Some([1, 16, 9]));
}
