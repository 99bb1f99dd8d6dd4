use matricks::config::PluginConfigurationArgs;
use matricks::matrix_control::MatrixController;
use matricks::scheduler::{PluginPhase, PluginRun, PluginScheduler, PluginUpdate, SkipReason, TickAction};
use std::time::{Duration, Instant};

const FRAME_NS: u64 = 33_333_333;

fn running_controller() -> MatrixController {
    let mut c = MatrixController::new((2, 2), false, false, false, false, 255, 10, 10, 800_000);
    assert!(c.start());
    c.driver_ready();
    c
}

fn updating_run(frame_ns: u64, limit: Option<u64>, now: u64) -> PluginRun {
    let mut run = PluginRun::new(frame_ns, limit);
    assert_eq!(run.phase(), PluginPhase::Loading);
    run.loaded(true);
    assert_eq!(run.phase(), PluginPhase::SandboxBuilt);
    run.instantiated(true);
    assert_eq!(run.phase(), PluginPhase::Instantiated);
    run.setup_returned();
    assert_eq!(run.phase(), PluginPhase::SetupDone);
    run.begin_updates(now);
    assert_eq!(run.phase(), PluginPhase::Updating);
    run
}

const FRAME_JSON: &str = "[[[1,2,3,4],[5,6,7,8]],[[9,10,11,12],[13,14,15,16]]]";

#[test]
fn null_response_finishes_without_forwarding() {
    let mut c = running_controller();
    let mut run = updating_run(FRAME_NS, None, 0);
    let logs = run.update_response(Some(b"null".to_vec()), None, &mut c);
    assert!(logs.is_empty());
    assert_eq!(run.phase(), PluginPhase::Finished);
    assert_eq!(c.strip_pixels(), vec![[0u8; 4]; 4]);
}

#[test]
fn frame_response_reaches_the_controller() {
    let mut c = running_controller();
    let mut run = updating_run(FRAME_NS, None, 0);
    run.update_response(Some(FRAME_JSON.as_bytes().to_vec()), None, &mut c);
    assert_eq!(run.phase(), PluginPhase::Updating);
    assert_eq!(c.strip_pixels(), vec![[1, 2, 3, 4], [5, 6, 7, 8], [9, 10, 11, 12], [13, 14, 15, 16]]);
}

#[test]
fn malformed_response_skips_to_next_plugin() {
    let mut c = running_controller();
    let mut seq = PluginScheduler::new(3, false);
    assert_eq!(seq.next_plugin(), Some(0));
    let mut run = updating_run(FRAME_NS, None, 0);
    run.update_response(Some(b"{not json".to_vec()), None, &mut c);
    assert_eq!(run.phase(), PluginPhase::Skipped(SkipReason::Malformed));
    seq.plugin_ended(run.phase());
    assert!(!seq.is_aborted());
    assert_eq!(seq.next_plugin(), Some(1));
    assert_eq!(c.strip_pixels(), vec![[0u8; 4]; 4]);
}

#[test]
fn wrong_shape_response_skips() {
    let mut c = running_controller();
    let mut run = updating_run(FRAME_NS, None, 0);
    run.update_response(Some(b"[[[1,2,3,4]]]".to_vec()), None, &mut c);
    assert_eq!(run.phase(), PluginPhase::Skipped(SkipReason::Malformed));
    let mut run = updating_run(FRAME_NS, None, 0);
    run.update_response(Some(b"[[[1,2,3]]]".to_vec()), None, &mut c);
    assert_eq!(run.phase(), PluginPhase::Skipped(SkipReason::Malformed));
    assert_eq!(c.strip_pixels(), vec![[0u8; 4]; 4]);
}

#[test]
fn non_utf8_response_skips() {
    let mut c = running_controller();
    let mut run = updating_run(FRAME_NS, None, 0);
    run.update_response(Some(vec![0xff, 0xfe, 0x5b]), None, &mut c);
    assert_eq!(run.phase(), PluginPhase::Skipped(SkipReason::InvalidUtf8));
}

#[test]
fn failed_call_skips() {
    let mut c = running_controller();
    let mut run = updating_run(FRAME_NS, None, 0);
    run.update_response(None, None, &mut c);
    assert_eq!(run.phase(), PluginPhase::Skipped(SkipReason::CallFailed));
}

#[test]
fn frame_to_stopped_controller_aborts_everything() {
    let mut c = MatrixController::new((2, 2), false, false, false, false, 255, 10, 10, 800_000);
    let mut seq = PluginScheduler::new(2, true);
    assert_eq!(seq.next_plugin(), Some(0));
    let mut run = updating_run(FRAME_NS, None, 0);
    run.update_response(Some(FRAME_JSON.as_bytes().to_vec()), None, &mut c);
    assert_eq!(run.phase(), PluginPhase::FatalAbort);
    seq.plugin_ended(run.phase());
    assert!(seq.is_aborted());
    assert_eq!(seq.next_plugin(), None);
}

#[test]
fn object_form_with_done_finishes_without_forwarding() {
    let mut c = running_controller();
    let mut run = updating_run(FRAME_NS, None, 0);
    let update = PluginUpdate {
        state: Some(vec![vec![[1, 1, 1, 1]; 2]; 2]),
        done: true,
        log_message: Some(vec!["bye".to_string()]),
    };
    let logs = run.update_response(Some(b"{\"done\":true}".to_vec()), Some(update), &mut c);
    assert_eq!(logs, vec!["bye".to_string()]);
    assert_eq!(run.phase(), PluginPhase::Finished);
    assert_eq!(c.strip_pixels(), vec![[0u8; 4]; 4]);
}

#[test]
fn object_form_frame_is_forwarded_with_logs() {
    let mut c = running_controller();
    let mut run = updating_run(FRAME_NS, None, 0);
    let update = PluginUpdate { state: Some(vec![vec![[2, 2, 2, 2]; 2]; 2]), done: false, log_message: None };
    let logs = run.update_response(Some(b"{}".to_vec()), Some(update), &mut c);
    assert!(logs.is_empty());
    assert_eq!(run.phase(), PluginPhase::Updating);
    assert_eq!(c.strip_pixels(), vec![[2u8; 4]; 4]);
    let update = PluginUpdate { state: None, done: false, log_message: None };
    run.apply_object(update, &mut c);
    assert_eq!(run.phase(), PluginPhase::Finished);
}

#[test]
fn failed_load_or_instantiation_skips() {
    let mut run = PluginRun::new(FRAME_NS, None);
    run.loaded(false);
    assert_eq!(run.phase(), PluginPhase::Skipped(SkipReason::Unreadable));
    assert_eq!(run.tick(0), TickAction::Leave);
    let mut run = PluginRun::new(FRAME_NS, None);
    run.loaded(true);
    run.instantiated(false);
    assert_eq!(run.phase(), PluginPhase::Skipped(SkipReason::NotInstantiated));
}

#[test]
fn update_calls_follow_the_frame_interval() {
    let mut run = updating_run(FRAME_NS, None, 1_000);
    assert_eq!(run.tick(1_000), TickAction::Wait);
    assert_eq!(run.tick(1_000 + FRAME_NS - 1), TickAction::Wait);
    assert_eq!(run.tick(1_000 + FRAME_NS), TickAction::CallUpdate);
    assert_eq!(run.tick(1_000 + FRAME_NS + 10), TickAction::Wait);
    // A late frame is delivered late, not skipped.
    assert_eq!(run.tick(1_000 + 5 * FRAME_NS), TickAction::CallUpdate);
    assert_eq!(run.tick(1_000 + 6 * FRAME_NS - 1), TickAction::Wait);
    assert_eq!(run.tick(1_000 + 6 * FRAME_NS), TickAction::CallUpdate);
}

#[test]
fn update_calls_are_spaced_in_real_time() {
    // 30 frames per second; an update call that returns at once.
    let interval = Duration::from_nanos(FRAME_NS);
    let origin = Instant::now();
    let now = || origin.elapsed().as_nanos() as u64;
    let mut run = updating_run(FRAME_NS, None, now());
    let mut calls: Vec<Instant> = Vec::new();
    while calls.len() < 5 {
        match run.tick(now()) {
            TickAction::CallUpdate => calls.push(Instant::now()),
            TickAction::Wait => std::hint::spin_loop(),
            TickAction::Leave => panic!("left the loop"),
        }
    }
    for pair in calls.windows(2) {
        let gap = pair[1] - pair[0];
        assert!(gap + Duration::from_millis(1) >= interval, "gap {:?}", gap);
    }
}

#[test]
fn time_limit_ends_the_run() {
    let mut run = updating_run(FRAME_NS, Some(1), 0);
    assert_eq!(run.tick(1_000_000_000), TickAction::CallUpdate);
    assert_eq!(run.phase(), PluginPhase::Updating);
    assert_eq!(run.tick(1_000_000_001), TickAction::Leave);
    assert_eq!(run.phase(), PluginPhase::TimedOut);
    let mut seq = PluginScheduler::new(2, false);
    assert_eq!(seq.next_plugin(), Some(0));
    seq.plugin_ended(run.phase());
    assert_eq!(seq.next_plugin(), Some(1));
}

#[test]
fn time_limit_is_kept_in_real_time() {
    let mut c = running_controller();
    let origin = Instant::now();
    let now = || origin.elapsed().as_nanos() as u64;
    let mut run = updating_run(FRAME_NS, Some(1), now());
    loop {
        match run.tick(now()) {
            TickAction::CallUpdate => {
                run.update_response(Some(FRAME_JSON.as_bytes().to_vec()), None, &mut c);
            }
            TickAction::Wait => std::hint::spin_loop(),
            TickAction::Leave => break,
        }
    }
    let took = origin.elapsed();
    assert_eq!(run.phase(), PluginPhase::TimedOut);
    assert!(took >= Duration::from_secs(1));
    assert!(took < Duration::from_millis(1500), "took {:?}", took);
}

#[test]
fn sequence_runs_once_or_loops() {
    let mut once = PluginScheduler::new(2, false);
    assert_eq!(once.next_plugin(), Some(0));
    assert_eq!(once.next_plugin(), Some(1));
    assert_eq!(once.next_plugin(), None);
    let mut looping = PluginScheduler::new(2, true);
    let got: Vec<Option<usize>> = (0..5).map(|_| looping.next_plugin()).collect();
    assert_eq!(got, vec![Some(0), Some(1), Some(0), Some(1), Some(0)]);
    let mut empty = PluginScheduler::new(0, true);
    assert_eq!(empty.next_plugin(), None);
}

#[test]
fn sequence_from_config() {
    let config = PluginConfigurationArgs {
        plugin: vec!["a.wasm".to_string(), "b.wasm".to_string(), "c.wasm".to_string()],
        time_limit: Some(5),
        loop_plugins: false,
        allow_host: None,
        map_path: None,
    };
    let mut seq = PluginScheduler::from_config(&config);
    assert_eq!(seq.next_plugin(), Some(0));
    assert_eq!(seq.next_plugin(), Some(1));
    assert_eq!(seq.next_plugin(), Some(2));
    assert_eq!(seq.next_plugin(), None);
}
