//! State of a running render session: the active program, the frame counter
//! and the pinned uniforms, with the per-tick step that resolves the values
//! to upload and advances the counter.
use vstd::prelude::*;
use crate::registry::{after_submit, after_take, taken, RegistryModel};
use crate::uniforms::{resolve, resolved, FrameUniforms, HostDefaults, Uniforms, Viewport};

verus! {

/// Abstract state of a session whose compiled program has type `P`.
pub struct SessionModel<P> {
    pub program: P,
    pub frame: u64,
    pub overrides: Uniforms,
}

/// The values a tick uploads when it runs at `elapsed_us` on viewport `v`.
pub open spec fn tick_uniforms<P>(s: SessionModel<P>, elapsed_us: u64, v: Viewport) -> FrameUniforms {
    resolved(HostDefaults { elapsed_us, frame_count: s.frame, viewport: v }, s.overrides)
}

/// State after one tick: one more frame drawn.
pub open spec fn after_tick<P>(s: SessionModel<P>) -> SessionModel<P> {
    SessionModel { program: s.program, frame: (s.frame + 1) as u64, overrides: s.overrides }
}

/// State after `n` ticks.
pub open spec fn after_ticks<P>(s: SessionModel<P>, n: nat) -> SessionModel<P>
    decreases n,
{
    if n == 0 {
        s
    } else {
        after_tick(after_ticks(s, (n - 1) as nat))
    }
}

/// State after the pinned uniforms were replaced.
pub open spec fn with_overrides<P>(s: SessionModel<P>, o: Uniforms) -> SessionModel<P> {
    SessionModel { program: s.program, frame: s.frame, overrides: o }
}

/// State after a reload attempt: a program that was built replaces the
/// active one; after a failure the active one stays.
pub open spec fn after_reload<P, E>(s: SessionModel<P>, linked: Result<P, E>) -> SessionModel<P> {
    match linked {
        Ok(p) => SessionModel { program: p, frame: s.frame, overrides: s.overrides },
        Err(_) => s,
    }
}

/// A render session that owns its compiled program of type `P`.
pub struct RenderSession<P> {
    program: P,
    frame: u64,
    overrides: Uniforms,
}

impl<P> View for RenderSession<P> {
    type V = SessionModel<P>;

    closed spec fn view(&self) -> SessionModel<P> {
        SessionModel { program: self.program, frame: self.frame, overrides: self.overrides }
    }
}

impl<P> RenderSession<P> {
    /// A session that starts drawing with `program`, no frame drawn yet.
    pub fn new(program: P, overrides: Uniforms) -> (r: RenderSession<P>)
        ensures
            r@ == (SessionModel { program, frame: 0, overrides }),
    {
        RenderSession { program, frame: 0, overrides }
    }

    /// The program the next frame is drawn with.
    pub fn program(&self) -> (r: &P)
        ensures
            *r == self@.program,
    {
        &self.program
    }

    /// Frames drawn so far.
    pub fn frame_count(&self) -> (r: u64)
        ensures
            r == self@.frame,
    {
        self.frame
    }

    /// The uniforms currently pinned.
    pub fn overrides(&self) -> (r: Uniforms)
        ensures
            r == self@.overrides,
    {
        self.overrides
    }

    /// Replaces the pinned uniforms; the time origin and the frame counter
    /// are left as they are.
    pub fn set_overrides(&mut self, overrides: Uniforms)
        ensures
            final(self)@ == with_overrides(old(self)@, overrides),
    {
        self.overrides = overrides;
    }

    /// Takes the outcome of building a reloaded program: a built program
    /// replaces the active one, which is returned; after a failure the
    /// active program stays and nothing is returned.
    pub fn install_reload<E>(&mut self, linked: Result<P, E>) -> (r: Option<P>)
        ensures
            final(self)@ == after_reload(old(self)@, linked),
            linked.is_ok() ==> r == Some(old(self)@.program),
            linked.is_err() ==> r.is_none(),
    {
        match linked {
            Ok(p) => {
                let mut previous = p;
                core::mem::swap(&mut self.program, &mut previous);
                Some(previous)
            },
            Err(_) => None,
        }
    }

    /// One frame: the values to upload at `elapsed_us` (time since the
    /// session started) on viewport `viewport`; the frame counter advances.
    pub fn tick(&mut self, elapsed_us: u64, viewport: Viewport) -> (r: FrameUniforms)
        requires
            old(self)@.frame < u64::MAX,
        ensures
            r == tick_uniforms(old(self)@, elapsed_us, viewport),
            final(self)@ == after_tick(old(self)@),
    {
        let defaults = HostDefaults { elapsed_us, frame_count: self.frame, viewport };
        let r = resolve(&defaults, &self.overrides);
        self.frame = self.frame + 1;
        r
    }
}

/// Time pinned for one tick and then released resumes from the time since
/// the session started, not from zero or from the pinned value.
pub proof fn lemma_time_resumes<P>(
    s: SessionModel<P>,
    pinned_us: u64,
    released: Uniforms,
    first_us: u64,
    later_us: u64,
    v: Viewport,
)
    requires
        s.overrides.time_us == Some(pinned_us),
        released.time_us.is_none(),
        s.frame < u64::MAX,
    ensures
        tick_uniforms(s, first_us, v).time_us == pinned_us,
        tick_uniforms(with_overrides(after_tick(s), released), later_us, v).time_us == later_us,
{
}

/// With no frame pinned, the `k`-th of `n` consecutive ticks uploads the
/// initial frame count plus `k`.
pub proof fn lemma_frames_advance<P>(s: SessionModel<P>, n: nat)
    requires
        s.overrides.frame.is_none(),
        s.frame + n <= u64::MAX,
    ensures
        forall|k: nat, e: u64, v: Viewport|
            k < n ==> #[trigger] tick_uniforms(after_ticks(s, k), e, v).frame == s.frame + k,
    decreases n,
{
    if n > 0 {
        lemma_frames_advance(s, (n - 1) as nat);
        lemma_ticks_state(s, (n - 1) as nat);
    }
}

proof fn lemma_ticks_state<P>(s: SessionModel<P>, k: nat)
    requires
        s.frame + k <= u64::MAX,
    ensures
        after_ticks(s, k).frame == s.frame + k,
        after_ticks(s, k).overrides == s.overrides,
    decreases k,
{
    if k > 0 {
        lemma_ticks_state(s, (k - 1) as nat);
    }
}

/// A reload whose program failed to build leaves the active program in
/// place, and its submission is not handed out again.
pub proof fn lemma_failed_reload_isolated<P, E>(
    s: SessionModel<P>,
    m: RegistryModel,
    raw: Seq<char>,
    failure: E,
)
    ensures
        after_reload(s, Err::<P, E>(failure)) == s,
        taken(after_take(after_submit(m, raw))) == None::<Seq<char>>,
{
}

} // verus!
