//! The clicking engine: the cancellable timed loop and its controller
//! state machine.

use vstd::prelude::*;
use crate::config::Config;
use crate::env::ClickEnv;
use crate::geometry::Rect;

verus! {

/// The one failure the engine can surface: the pointer/click capability
/// could not be acquired when a run was to be launched. Everything else
/// (region exit, repeat exhaustion, sample exhaustion) is a normal
/// state-machine termination, observable only through `is_running`.
#[derive(Clone, Copy, PartialEq, Eq, Debug)]
pub enum EnvironmentError {
    EnvironmentUnavailable,
}

/// Whether a configured region rules the pointer position out. With no
/// region configured nothing is ever ruled out.
pub open spec fn region_blocks(region: Option<Rect>, p: (i32, i32)) -> bool {
    match region {
        Some(r) => !r.spec_contains(p),
        None => false,
    }
}

/// How many leading samples of `ps` the region admits: the length of the
/// longest prefix no sample of which is ruled out. With no region this is
/// all of `ps`.
pub open spec fn spec_inside_count(region: Option<Rect>, ps: Seq<(i32, i32)>) -> nat
    decreases ps.len(),
{
    if ps.len() == 0 {
        0
    } else if region_blocks(region, ps[0]) {
        0
    } else {
        1 + spec_inside_count(region, ps.skip(1))
    }
}

/// How many clicks a run over the samples `ps` performs under `cfg`: the
/// admitted prefix of the trajectory, cut down to the repeat bound when one
/// is configured. The run stops at whichever limit comes first — the first
/// sample outside the region, the repeat bound, or the end of the samples.
pub open spec fn spec_run_clicks(cfg: Config, ps: Seq<(i32, i32)>) -> nat {
    let k = spec_inside_count(cfg.region, ps);
    if cfg.repeat > 0 && cfg.repeat as nat <= k {
        cfg.repeat as nat
    } else {
        k
    }
}

/// How many pointer samples a run over `ps` consumes under `cfg`: one read
/// per click, plus the read that finds the pointer outside the region when
/// the run ends on a region exit. A repeat-bound exit needs no further
/// read, and a run that exhausts its samples has read them all.
pub open spec fn spec_run_reads(cfg: Config, ps: Seq<(i32, i32)>) -> nat {
    let k = spec_inside_count(cfg.region, ps);
    if cfg.repeat > 0 && cfg.repeat as nat <= k {
        cfg.repeat as nat
    } else if k < ps.len() {
        k + 1
    } else {
        ps.len()
    }
}

/// The admitted prefix is a prefix indeed: it never exceeds the samples, no
/// sample in it is ruled out, and the sample right after it (if any) is.
pub proof fn lemma_inside_count_props(region: Option<Rect>, ps: Seq<(i32, i32)>)
    ensures
        spec_inside_count(region, ps) <= ps.len(),
        forall|j: int|
            0 <= j < spec_inside_count(region, ps) ==> !region_blocks(region, #[trigger] ps[j]),
        spec_inside_count(region, ps) < ps.len() ==> region_blocks(
            region,
            ps[spec_inside_count(region, ps) as int],
        ),
    decreases ps.len(),
{
    if ps.len() == 0 {
    } else if region_blocks(region, ps[0]) {
    } else {
        let k = spec_inside_count(region, ps);
        lemma_inside_count_props(region, ps.skip(1));
        assert forall|j: int|
            0 <= j < k implies !region_blocks(region, #[trigger] ps[j]) by {
            if j > 0 {
                assert(ps.skip(1)[j - 1] == ps[j]);
            }
        }
        if k < ps.len() {
            assert(ps.skip(1)[spec_inside_count(region, ps.skip(1)) as int] == ps[k as int]);
        }
    }
}

/// With no region every sample is admitted.
pub proof fn lemma_inside_count_full(region: Option<Rect>, ps: Seq<(i32, i32)>)
    requires
        region is None,
    ensures
        spec_inside_count(region, ps) == ps.len(),
    decreases ps.len(),
{
    if ps.len() > 0 {
        lemma_inside_count_full(region, ps.skip(1));
    }
}

/// With a repeat bound and no region, a run with at least that many samples
/// available performs exactly `repeat` clicks.
pub proof fn lemma_repeat_bound_clicks(cfg: Config, ps: Seq<(i32, i32)>)
    requires
        cfg.region is None,
        cfg.repeat > 0,
        ps.len() >= cfg.repeat,
    ensures
        spec_run_clicks(cfg, ps) == cfg.repeat,
{
    lemma_inside_count_full(cfg.region, ps);
}

/// An unbounded run whose trajectory starts inside the region and then
/// moves outside performs exactly the one click taken while inside.
pub proof fn lemma_region_exit_single_click(cfg: Config, r: Rect, ps: Seq<(i32, i32)>)
    requires
        cfg.region == Some(r),
        cfg.repeat == 0,
        ps.len() >= 2,
        r.spec_contains(ps[0]),
        !r.spec_contains(ps[1]),
    ensures
        spec_run_clicks(cfg, ps) == 1,
{
    assert(ps.skip(1)[0] == ps[1]);
    assert(spec_inside_count(cfg.region, ps.skip(1)) == 0);
    assert(spec_inside_count(cfg.region, ps) == 1);
}

/// The clicking engine: a shared configuration cell and a running flag.
/// Idle means the flag is false and no loop is active; Active means the
/// flag is true and exactly one loop is executing. The configuration is
/// snapshotted when a run starts, so reconfiguring never alters a run
/// already under way.
pub struct AutoClicker {
    config: Config,
    running: bool,
}

impl AutoClicker {
    /// The configuration the next run will snapshot.
    pub closed spec fn spec_config(self) -> Config {
        self.config
    }

    /// Whether the engine is Active.
    pub closed spec fn spec_running(self) -> bool {
        self.running
    }

    /// A new engine, Idle, holding the given configuration.
    pub fn new(config: Config) -> (engine: AutoClicker)
        ensures
            engine.spec_config() == config,
            !engine.spec_running(),
    {
        AutoClicker { config, running: false }
    }

    /// Reads the running flag.
    pub fn is_running(&self) -> (r: bool)
        ensures
            r == self.spec_running(),
    {
        self.running
    }

    /// Replaces the shared configuration wholesale. Visible to the next
    /// `start`, never to a run already snapshotted.
    pub fn update_config(&mut self, config: Config)
        ensures
            final(self).spec_config() == config,
            final(self).spec_running() == old(self).spec_running(),
    {
        self.config = config;
    }

    /// Clears the running flag; an active loop observes this at its next
    /// iteration boundary and exits.
    pub fn stop(&mut self)
        ensures
            !final(self).spec_running(),
            final(self).spec_config() == old(self).spec_config(),
    {
        self.running = false;
    }

    /// Begins a run: a no-op when already Active (so two near-simultaneous
    /// starts launch exactly one loop), otherwise sets the flag and hands
    /// back the configuration snapshot the new loop must use. The host
    /// shell launches `run_loop` with that snapshot on its own execution
    /// context, then reports capability acquisition through
    /// `confirm_start`.
    pub fn start(&mut self) -> (snapshot: Option<Config>)
        ensures
            old(self).spec_running() ==> snapshot is None && *final(self) == *old(self),
            !old(self).spec_running() ==> snapshot == Some(old(self).spec_config())
                && final(self).spec_running()
                && final(self).spec_config() == old(self).spec_config(),
    {
        if self.running {
            return None;
        }
        self.running = true;
        Some(self.config)
    }

    /// Closes the start transition once the host shell knows whether the
    /// environment capability was acquired: on failure the flag is rolled
    /// back to Idle and the failure surfaces to the caller; on success
    /// nothing changes.
    pub fn confirm_start(&mut self, acquired: bool) -> (r: Result<(), EnvironmentError>)
        ensures
            acquired ==> r is Ok && *final(self) == *old(self),
            !acquired ==> r == Err::<(), EnvironmentError>(EnvironmentError::EnvironmentUnavailable)
                && !final(self).spec_running()
                && final(self).spec_config() == old(self).spec_config(),
    {
        if acquired {
            Ok(())
        } else {
            self.running = false;
            Err(EnvironmentError::EnvironmentUnavailable)
        }
    }

    /// Stops when Active, starts when Idle: the state always flips.
    pub fn toggle(&mut self) -> (snapshot: Option<Config>)
        ensures
            final(self).spec_running() == !old(self).spec_running(),
            final(self).spec_config() == old(self).spec_config(),
            old(self).spec_running() ==> snapshot is None,
            !old(self).spec_running() ==> snapshot == Some(old(self).spec_config()),
    {
        if self.is_running() {
            self.stop();
            None
        } else {
            self.start()
        }
    }

    /// One iteration of the loop: reads the pointer, enforces the region,
    /// clicks, counts the repeat bound down and suspends for the configured
    /// interval. Returns whether the run goes on; a `false` means the run
    /// is over (sample exhaustion, region exit or repeat exhaustion) and
    /// the caller must clear the running flag.
    pub fn loop_step<E: ClickEnv>(cfg: &Config, remaining: &mut u32, env: &mut E) -> (go: bool)
        requires
            old(env).pending().len() > 0 ==> old(env).clicks() < u64::MAX,
            cfg.repeat > 0 ==> *old(remaining) > 0,
        ensures
            old(env).pending().len() == 0 ==> !go
                && final(env).pending() == old(env).pending()
                && final(env).clicks() == old(env).clicks()
                && *final(remaining) == *old(remaining),
            old(env).pending().len() > 0 && region_blocks(cfg.region, old(env).pending()[0])
                ==> !go
                && final(env).pending() == old(env).pending().skip(1)
                && final(env).clicks() == old(env).clicks()
                && *final(remaining) == *old(remaining),
            old(env).pending().len() > 0 && !region_blocks(cfg.region, old(env).pending()[0])
                ==> final(env).pending() == old(env).pending().skip(1)
                && final(env).clicks() == old(env).clicks() + 1
                && *final(remaining) == (if cfg.repeat > 0 {
                    (*old(remaining) - 1) as u32
                } else {
                    *old(remaining)
                })
                && (go <==> (cfg.repeat == 0 || *old(remaining) > 1)),
    {
        let pos = match env.mouse_coords() {
            None => {
                return false;
            },
            Some(p) => p,
        };
        if let Some(region) = cfg.region {
            if !region.contains(pos) {
                return false;
            }
        }
        env.click();
        let mut go = true;
        if cfg.repeat > 0 {
            *remaining = *remaining - 1;
            if *remaining == 0 {
                go = false;
            }
        }
        if go {
            env.sleep(cfg.interval_nanos());
        }
        go
    }

    /// The timed loop of one run, over the snapshot `cfg`. While the flag
    /// holds, each iteration reads the pointer, stops if a configured
    /// region no longer admits it, clicks, stops once a configured repeat
    /// bound is reached, and suspends for the configured interval. Every
    /// exit clears the flag; the click count the run adds is exactly
    /// `spec_run_clicks(cfg, samples)`.
    pub fn run_loop<E: ClickEnv>(cfg: Config, running: &mut bool, env: &mut E)
        requires
            old(env).clicks() + old(env).pending().len() <= u64::MAX,
        ensures
            !*final(running),
            *old(running) ==> final(env).clicks() == old(env).clicks() + spec_run_clicks(
                cfg,
                old(env).pending(),
            ),
            *old(running) ==> final(env).pending() == old(env).pending().skip(
                spec_run_reads(cfg, old(env).pending()) as int,
            ),
            !*old(running) ==> *final(env) == *old(env),
    {
        let ghost ps0: Seq<(i32, i32)> = env.pending();
        let ghost k: nat = spec_inside_count(cfg.region, ps0);
        let ghost c0: u64 = env.clicks();
        let ghost r0: bool = *running;
        let ghost e0: E = *env;
        proof {
            lemma_inside_count_props(cfg.region, ps0);
        }
        let mut remaining: u32 = cfg.repeat;
        let ghost mut clicked: int = 0;
        while *running
            invariant_except_break
                *running == r0,
                k == spec_inside_count(cfg.region, ps0),
                k <= ps0.len(),
                forall|j: int| 0 <= j < k ==> !region_blocks(cfg.region, #[trigger] ps0[j]),
                k < ps0.len() ==> region_blocks(cfg.region, ps0[k as int]),
                c0 + ps0.len() <= u64::MAX,
                0 <= clicked <= k,
                env.clicks() == c0 + clicked,
                env.pending() == ps0.skip(clicked),
                cfg.repeat > 0 ==> remaining == cfg.repeat - clicked && remaining >= 1,
                cfg.repeat == 0 ==> remaining == 0,
                !r0 ==> clicked == 0 && *env == e0,
            ensures
                !*running,
                r0 ==> env.clicks() == c0 + spec_run_clicks(cfg, ps0),
                r0 ==> env.pending() == ps0.skip(spec_run_reads(cfg, ps0) as int),
                !r0 ==> *env == e0,
            decreases env.pending().len(),
        {
            let ghost pending_pre = env.pending();
            let go = AutoClicker::loop_step(&cfg, &mut remaining, env);
            if !go {
                proof {
                    if pending_pre.len() == 0 {
                        assert(clicked == ps0.len());
                        assert(k == ps0.len());
                        assert(spec_run_reads(cfg, ps0) == clicked);
                    } else if region_blocks(cfg.region, pending_pre[0]) {
                        assert(pending_pre[0] == ps0[clicked]);
                        assert(clicked == k);
                        assert(ps0.skip(clicked).skip(1) =~= ps0.skip(clicked + 1));
                        assert(spec_run_reads(cfg, ps0) == clicked + 1);
                    } else {
                        assert(cfg.repeat > 0 && clicked + 1 == cfg.repeat);
                        assert(pending_pre[0] == ps0[clicked]);
                        assert(ps0.skip(clicked).skip(1) =~= ps0.skip(clicked + 1));
                        assert(spec_run_reads(cfg, ps0) == clicked + 1);
                    }
                    assert(env.clicks() == c0 + spec_run_clicks(cfg, ps0));
                    assert(env.pending() == ps0.skip(spec_run_reads(cfg, ps0) as int));
                }
                *running = false;
                break;
            }
            proof {
                assert(pending_pre[0] == ps0[clicked]);
                assert(ps0.skip(clicked).skip(1) =~= ps0.skip(clicked + 1));
                clicked = clicked + 1;
            }
        }
    }

    /// Begins a run and executes its loop to completion on the calling
    /// execution context against the given environment — the deterministic
    /// counterpart of launching `run_loop` on a context of its own. A no-op
    /// returning `false` when already Active.
    pub fn start_with_env<E: ClickEnv>(&mut self, env: &mut E) -> (started: bool)
        requires
            old(env).clicks() + old(env).pending().len() <= u64::MAX,
        ensures
            old(self).spec_running() ==> !started && *final(self) == *old(self) && *final(env)
                == *old(env),
            !old(self).spec_running() ==> started
                && !final(self).spec_running()
                && final(self).spec_config() == old(self).spec_config()
                && final(env).clicks() == old(env).clicks() + spec_run_clicks(
                    old(self).spec_config(),
                    old(env).pending(),
                )
                && final(env).pending() == old(env).pending().skip(
                    spec_run_reads(old(self).spec_config(), old(env).pending()) as int,
                ),
    {
        if self.running {
            return false;
        }
        self.running = true;
        let cfg = self.config;
        AutoClicker::run_loop(cfg, &mut self.running, env);
        true
    }
}

} // verus!
