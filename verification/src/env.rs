//! The environment capability the clicking loop runs against.
//!
//! The loop never touches input hardware directly: it reads the pointer,
//! synthesizes clicks and suspends only through this trait, so a real
//! adapter over the platform's input stack and a deterministic scripted
//! double are interchangeable.

use vstd::prelude::*;

verus! {

/// A source of pointer positions, a click sink and a clock.
///
/// The model is a finite stream of pointer samples still to be served
/// (`pending`) and a count of the clicks performed so far (`clicks`). Every
/// fresh pointer read consumes the next sample; a scripted double runs out
/// of samples when its script ends, while a real adapter serves as many
/// samples as anyone asks for.
pub trait ClickEnv: Sized {
    /// The pointer samples that future reads will see, in order. The
    /// default model serves nothing; an adapter outside the verifier may
    /// leave it, a verified double overrides it.
    open spec fn pending(&self) -> Seq<(i32, i32)> {
        Seq::empty()
    }

    /// How many clicks this environment has performed.
    open spec fn clicks(&self) -> u64 {
        0
    }

    /// Fresh read of the current pointer position. Consumes the next
    /// sample; `None` once the environment has no more samples to serve.
    fn mouse_coords(&mut self) -> (pos: Option<(i32, i32)>)
        ensures
            old(self).pending().len() > 0 ==> pos == Some(old(self).pending()[0])
                && final(self).pending() == old(self).pending().skip(1),
            old(self).pending().len() == 0 ==> pos is None
                && final(self).pending() == old(self).pending(),
            final(self).clicks() == old(self).clicks(),
    ;

    /// Synthesizes a single primary-button click.
    fn click(&mut self)
        requires
            old(self).clicks() < u64::MAX,
        ensures
            final(self).clicks() == old(self).clicks() + 1,
            final(self).pending() == old(self).pending(),
    ;

    /// Yields control for approximately `nanos` nanoseconds. A real adapter
    /// blocks the calling execution context; a double may return at once.
    fn sleep(&mut self, nanos: u64)
        ensures
            final(self).clicks() == old(self).clicks(),
            final(self).pending() == old(self).pending(),
    ;
}

/// A deterministic scripted environment: serves a fixed list of pointer
/// samples, counts clicks, and sleeps in no time at all.
pub struct ScriptEnv {
    positions: Vec<(i32, i32)>,
    next: usize,
    hits: u64,
}

impl ScriptEnv {
    /// An environment that will serve exactly the given samples, in order,
    /// and has performed no clicks yet.
    pub fn new(positions: Vec<(i32, i32)>) -> (env: ScriptEnv)
        ensures
            env.pending() == positions@,
            env.clicks() == 0,
    {
        let env = ScriptEnv { positions, next: 0, hits: 0 };
        proof {
            assert(env.pending() =~= env.positions@);
        }
        env
    }

    /// How many clicks have been performed against this environment.
    pub fn click_count(&self) -> (n: u64)
        ensures
            n == self.clicks(),
    {
        self.hits
    }
}

impl ClickEnv for ScriptEnv {
    closed spec fn pending(&self) -> Seq<(i32, i32)> {
        if self.next < self.positions@.len() {
            self.positions@.skip(self.next as int)
        } else {
            Seq::empty()
        }
    }

    closed spec fn clicks(&self) -> u64 {
        self.hits
    }

    fn mouse_coords(&mut self) -> (pos: Option<(i32, i32)>) {
        if self.next < self.positions.len() {
            let p = self.positions[self.next];
            self.next = self.next + 1;
            proof {
                assert(self.pending() =~= old(self).pending().skip(1));
            }
            Some(p)
        } else {
            None
        }
    }

    fn click(&mut self) {
        self.hits = self.hits + 1;
    }

    fn sleep(&mut self, _nanos: u64) {
    }
}

} // verus!
