use autoclicker::AutoClicker;
use autoclicker::Config;
use autoclicker::EnvironmentError;
use autoclicker::Rect;
use autoclicker::ScriptEnv;

#[test]
fn rect_contains() {
    let r = Rect { x1: 0, y1: 0, x2: 10, y2: 10 };
    assert!(r.contains((5, 5)));
    assert!(!r.contains((15, 5)));
}

#[test]
fn rect_contains_swapped_corners() {
    let r = Rect { x1: 10, y1: 10, x2: 0, y2: 0 };
    assert!(r.contains((5, 5)));
    assert!(!r.contains((15, 5)));
    let rx = Rect { x1: 10, y1: 0, x2: 0, y2: 10 };
    assert!(rx.contains((5, 5)));
    assert!(!rx.contains((5, 11)));
}

#[test]
fn rect_contains_boundary() {
    let r = Rect { x1: 0, y1: 0, x2: 10, y2: 10 };
    assert!(r.contains((0, 0)));
    assert!(r.contains((10, 10)));
    assert!(r.contains((0, 10)));
    assert!(r.contains((5, 0)));
    assert!(!r.contains((11, 5)));
    assert!(!r.contains((5, -1)));
}

#[test]
fn stops_when_cursor_leaves_region() {
    let cfg = Config {
        cps: 10,
        repeat: 0,
        region: Some(Rect { x1: 0, y1: 0, x2: 10, y2: 10 }),
    };
    let mut running = true;
    let mut env = ScriptEnv::new(vec![(5, 5), (20, 20)]);
    AutoClicker::run_loop(cfg, &mut running, &mut env);
    assert!(!running);
    assert_eq!(env.click_count(), 1);
}

#[test]
fn stops_when_repeat_reached() {
    let cfg = Config { cps: 10, repeat: 2, region: None };
    let mut running = true;
    let mut env = ScriptEnv::new(vec![(0, 0); 3]);
    AutoClicker::run_loop(cfg, &mut running, &mut env);
    assert!(!running);
    assert_eq!(env.click_count(), 2);
}

#[test]
fn stops_when_samples_run_out() {
    let cfg = Config { cps: 10, repeat: 0, region: None };
    let mut running = true;
    let mut env = ScriptEnv::new(vec![(3, 4), (5, 6)]);
    AutoClicker::run_loop(cfg, &mut running, &mut env);
    assert!(!running);
    assert_eq!(env.click_count(), 2);
}

#[test]
fn repeat_one_clicks_once() {
    let cfg = Config { cps: 10, repeat: 1, region: None };
    let mut running = true;
    let mut env = ScriptEnv::new(vec![(0, 0); 5]);
    AutoClicker::run_loop(cfg, &mut running, &mut env);
    assert!(!running);
    assert_eq!(env.click_count(), 1);
}

#[test]
fn run_loop_noop_when_not_running() {
    let cfg = Config { cps: 10, repeat: 0, region: None };
    let mut running = false;
    let mut env = ScriptEnv::new(vec![(1, 1), (2, 2)]);
    AutoClicker::run_loop(cfg, &mut running, &mut env);
    assert!(!running);
    assert_eq!(env.click_count(), 0);
}

#[test]
fn region_start_outside_clicks_zero() {
    let cfg = Config {
        cps: 10,
        repeat: 0,
        region: Some(Rect { x1: 0, y1: 0, x2: 10, y2: 10 }),
    };
    let mut running = true;
    let mut env = ScriptEnv::new(vec![(20, 20), (5, 5)]);
    AutoClicker::run_loop(cfg, &mut running, &mut env);
    assert!(!running);
    assert_eq!(env.click_count(), 0);
}

#[test]
fn region_bound_and_repeat_bound_first_wins() {
    let region = Some(Rect { x1: 0, y1: 0, x2: 10, y2: 10 });
    // repeat bound reached before the trajectory leaves
    let cfg = Config { cps: 10, repeat: 2, region };
    let mut running = true;
    let mut env = ScriptEnv::new(vec![(1, 1), (2, 2), (3, 3), (20, 20)]);
    AutoClicker::run_loop(cfg, &mut running, &mut env);
    assert!(!running);
    assert_eq!(env.click_count(), 2);
    // trajectory leaves before the repeat bound is reached
    let cfg = Config { cps: 10, repeat: 5, region };
    let mut running = true;
    let mut env = ScriptEnv::new(vec![(1, 1), (20, 20), (3, 3)]);
    AutoClicker::run_loop(cfg, &mut running, &mut env);
    assert!(!running);
    assert_eq!(env.click_count(), 1);
}

#[test]
fn interval_floors_rate_at_one() {
    let zero = Config { cps: 0, repeat: 0, region: None };
    assert_eq!(zero.interval_nanos(), 1_000_000_000);
    let one = Config { cps: 1, repeat: 0, region: None };
    assert_eq!(one.interval_nanos(), 1_000_000_000);
    let ten = Config { cps: 10, repeat: 0, region: None };
    assert_eq!(ten.interval_nanos(), 100_000_000);
    let sixty = Config { cps: 60, repeat: 0, region: None };
    assert_eq!(sixty.interval_nanos(), 16_666_666);
}

#[test]
fn start_twice_is_one_run() {
    let cfg = Config { cps: 10, repeat: 0, region: None };
    let mut engine = AutoClicker::new(cfg);
    assert!(!engine.is_running());
    let first = engine.start();
    assert_eq!(first, Some(cfg));
    assert!(engine.is_running());
    let second = engine.start();
    assert_eq!(second, None);
    assert!(engine.is_running());
}

#[test]
fn toggle_alternates_state() {
    let cfg = Config { cps: 10, repeat: 0, region: None };
    let mut engine = AutoClicker::new(cfg);
    assert!(!engine.is_running());
    engine.toggle();
    assert!(engine.is_running());
    engine.toggle();
    assert!(!engine.is_running());
    engine.toggle();
    assert!(engine.is_running());
}

#[test]
fn update_config_spares_active_run() {
    let initial = Config { cps: 10, repeat: 0, region: None };
    let mut engine = AutoClicker::new(initial);
    let snapshot = engine.start().unwrap();
    assert_eq!(snapshot, initial);
    // reconfigure while Active: the running flag and the taken snapshot
    // keep their values; the new configuration waits for the next start
    let updated = Config { cps: 20, repeat: 3, region: None };
    engine.update_config(updated);
    assert!(engine.is_running());
    assert_eq!(snapshot, initial);
    engine.stop();
    let next = engine.start().unwrap();
    assert_eq!(next, updated);
}

#[test]
fn failed_acquisition_rolls_back() {
    let cfg = Config { cps: 10, repeat: 0, region: None };
    let mut engine = AutoClicker::new(cfg);
    let snapshot = engine.start();
    assert_eq!(snapshot, Some(cfg));
    let confirmed = engine.confirm_start(false);
    assert_eq!(confirmed, Err(EnvironmentError::EnvironmentUnavailable));
    assert!(!engine.is_running());
}

#[test]
fn successful_acquisition_keeps_running() {
    let cfg = Config { cps: 10, repeat: 0, region: None };
    let mut engine = AutoClicker::new(cfg);
    engine.start();
    let confirmed = engine.confirm_start(true);
    assert_eq!(confirmed, Ok(()));
    assert!(engine.is_running());
}

#[test]
fn start_with_env_runs_to_completion() {
    let cfg = Config { cps: 10, repeat: 3, region: None };
    let mut engine = AutoClicker::new(cfg);
    let mut env = ScriptEnv::new(vec![(0, 0); 10]);
    let started = engine.start_with_env(&mut env);
    assert!(started);
    assert!(!engine.is_running());
    assert_eq!(env.click_count(), 3);
}

#[test]
fn start_with_env_noop_when_active() {
    let cfg = Config { cps: 10, repeat: 3, region: None };
    let mut engine = AutoClicker::new(cfg);
    engine.start();
    let mut env = ScriptEnv::new(vec![(0, 0); 10]);
    let started = engine.start_with_env(&mut env);
    assert!(!started);
    assert!(engine.is_running());
    assert_eq!(env.click_count(), 0);
}

#[test]
fn script_env_serves_samples_in_order() {
    let mut env = ScriptEnv::new(vec![(1, 2), (3, 4)]);
    // drive a run that reads every sample: an unbounded, unregioned run
    // clicks once per available sample
    let cfg = Config { cps: 10, repeat: 0, region: None };
    let mut running = true;
    AutoClicker::run_loop(cfg, &mut running, &mut env);
    assert_eq!(env.click_count(), 2);
    // a region that admits only the first sample shows the order mattered
    let mut env = ScriptEnv::new(vec![(1, 2), (3, 4)]);
    let cfg = Config {
        cps: 10,
        repeat: 0,
        region: Some(Rect { x1: 0, y1: 0, x2: 2, y2: 2 }),
    };
    let mut running = true;
    AutoClicker::run_loop(cfg, &mut running, &mut env);
    assert_eq!(env.click_count(), 1);
}
