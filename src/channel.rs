use vstd::prelude::*;

verus! {

/// Why starting a session failed. Every failure leaves the channel idle and
/// its indicator off; none of them is fatal.
#[derive(Clone, Copy, Debug, PartialEq, Eq, Structural)]
pub enum StartError {
    /// The clip could not be read.
    SourceUnavailable,
    /// The clip was read but is not a playable stream.
    DecodeFailed,
    /// No playback session could be bound to the output device.
    DeviceAllocationFailed,
}

/// The abstract state of a channel: the session it holds, if any, and its
/// generation (fencing token).
pub ghost struct ChannelView<P> {
    pub active: Option<P>,
    pub generation: nat,
}

/// The state a channel is in before its first toggle.
pub open spec fn idle_view<P>() -> ChannelView<P> {
    ChannelView { active: None, generation: 0 }
}

/// Whether a toggle on `v` stops the current session: there is one and its
/// stream has not yet finished (`sounding`).
pub open spec fn stops<P>(v: ChannelView<P>, sounding: bool) -> bool {
    v.active is Some && sounding
}

/// The state after an explicit stop.
pub open spec fn after_stop<P>(v: ChannelView<P>) -> ChannelView<P> {
    ChannelView { active: None, generation: v.generation + 1 }
}

/// The state after an attempt to start a session gave `outcome`.
pub open spec fn after_start<P>(v: ChannelView<P>, outcome: Result<P, StartError>) -> ChannelView<P> {
    match outcome {
        Ok(p) => ChannelView { active: Some(p), generation: v.generation + 1 },
        Err(_) => ChannelView { active: None, generation: v.generation + 1 },
    }
}

/// The state after one toggle. `sounding` tells whether the held session was
/// still playing; `outcome` is what an attempt to start a new session gave,
/// and matters only when the toggle does not stop.
pub open spec fn toggled<P>(
    v: ChannelView<P>,
    sounding: bool,
    outcome: Result<P, StartError>,
) -> ChannelView<P> {
    if stops(v, sounding) {
        after_stop(v)
    } else {
        after_start(v, outcome)
    }
}

/// The indicator value that a toggle reports: on exactly when it started a
/// new session.
pub open spec fn toggle_indicator<P>(
    v: ChannelView<P>,
    sounding: bool,
    outcome: Result<P, StartError>,
) -> bool {
    !stops(v, sounding) && outcome is Ok
}

/// The state after the watcher of the session started at generation `g`
/// wakes: it clears the session only if no toggle came since.
pub open spec fn finished<P>(v: ChannelView<P>, g: nat) -> ChannelView<P> {
    if v.generation == g {
        ChannelView { active: None, generation: v.generation }
    } else {
        v
    }
}

/// Whether the watcher for generation `g` fires its "off" notification.
pub open spec fn finish_fires<P>(v: ChannelView<P>, g: nat) -> bool {
    v.generation == g
}

/// The state after `ps.len()` rounds of two toggles from `v`: the first
/// starts session `ps[i]`, the second finds that session still playing.
pub open spec fn start_stop_rounds<P>(v: ChannelView<P>, ps: Seq<P>) -> ChannelView<P>
    decreases ps.len(),
{
    if ps.len() == 0 {
        v
    } else {
        let started = toggled(v, false, Ok::<P, StartError>(ps[0]));
        start_stop_rounds(toggled(started, true, Ok::<P, StartError>(ps[0])), ps.drop_first())
    }
}

/// The indicator value that every toggle reports is whether the channel
/// holds a session right after it, and the watcher reports "off" only when
/// it leaves the channel without one.
pub proof fn lemma_indicator_matches_state<P>(
    v: ChannelView<P>,
    sounding: bool,
    outcome: Result<P, StartError>,
    g: nat,
)
    ensures
        toggle_indicator(v, sounding, outcome) == toggled(v, sounding, outcome).active is Some,
        finish_fires(v, g) ==> finished(v, g).active is None,
{
}

/// A toggle that starts a session, followed by one that finds it still
/// playing, returns the channel to idle with the indicator off, whatever
/// the second toggle's start attempt would have given.
pub proof fn lemma_toggle_pair_returns_idle<P>(
    v: ChannelView<P>,
    sounding: bool,
    p: P,
    other: Result<P, StartError>,
)
    requires
        !stops(v, sounding),
    ensures
        toggle_indicator(v, sounding, Ok::<P, StartError>(p)),
        !toggle_indicator(toggled(v, sounding, Ok::<P, StartError>(p)), true, other),
        toggled(toggled(v, sounding, Ok::<P, StartError>(p)), true, other) == (ChannelView::<P> {
            active: None,
            generation: v.generation + 2,
        }),
{
}

/// However many start/stop rounds follow one another from an idle channel,
/// the channel ends idle, two generations further per round.
pub proof fn lemma_start_stop_rounds_return_idle<P>(v: ChannelView<P>, ps: Seq<P>)
    requires
        v.active is None,
    ensures
        start_stop_rounds(v, ps) == (ChannelView::<P> {
            active: None,
            generation: v.generation + 2 * ps.len(),
        }),
    decreases ps.len(),
{
    if ps.len() > 0 {
        let w = toggled(toggled(v, false, Ok::<P, StartError>(ps[0])), true, Ok::<P, StartError>(ps[0]));
        lemma_start_stop_rounds_return_idle(w, ps.drop_first());
    }
}

/// Every toggle advances the generation by exactly one, and a watcher never
/// moves it: the generation never decreases.
pub proof fn lemma_generation_monotone<P>(
    v: ChannelView<P>,
    sounding: bool,
    outcome: Result<P, StartError>,
    g: nat,
)
    ensures
        toggled(v, sounding, outcome).generation == v.generation + 1,
        finished(v, g).generation == v.generation,
{
}

/// A watcher whose generation the channel has moved past changes nothing
/// and reports nothing.
pub proof fn lemma_stale_watcher_is_noop<P>(v: ChannelView<P>, g: nat)
    requires
        g < v.generation,
    ensures
        !finish_fires(v, g),
        finished(v, g) == v,
{
}

/// Once a toggle follows the start of a session, the watcher of that session
/// is fenced out: it neither clears what the toggle left nor reports.
pub proof fn lemma_toggle_fences_watcher<P>(
    v: ChannelView<P>,
    sounding: bool,
    outcome: Result<P, StartError>,
)
    ensures
        !finish_fires(toggled(v, sounding, outcome), v.generation),
        finished(toggled(v, sounding, outcome), v.generation) == toggled(v, sounding, outcome),
{
}

/// A failed start leaves the channel without a session and its indicator
/// off, whatever state it was in.
pub proof fn lemma_failed_start_leaves_idle<P>(v: ChannelView<P>, sounding: bool, e: StartError)
    requires
        !stops(v, sounding),
    ensures
        toggled(v, sounding, Err::<P, StartError>(e)).active is None,
        !toggle_indicator(v, sounding, Err::<P, StartError>(e)),
{
}

/// One playback channel: at most one session, and a generation counter that
/// each toggle advances, so that the watcher of a superseded session can tell
/// that it lost its authority.
pub struct Channel<P> {
    active: Option<P>,
    generation: u64,
}

impl<P> View for Channel<P> {
    type V = ChannelView<P>;

    closed spec fn view(&self) -> ChannelView<P> {
        ChannelView { active: self.active, generation: self.generation as nat }
    }
}

impl<P> Channel<P> {
    /// An idle channel at generation zero.
    pub fn new() -> (r: Self)
        ensures
            r@ == idle_view::<P>(),
    {
        Channel { active: None, generation: 0 }
    }

    /// Whether a session is held.
    pub fn is_active(&self) -> (r: bool)
        ensures
            r == self@.active is Some,
    {
        self.active.is_some()
    }

    /// The current generation.
    pub fn generation(&self) -> (r: u64)
        ensures
            r as nat == self@.generation,
    {
        self.generation
    }

    /// The session held, if any.
    pub fn session(&self) -> (r: Option<&P>)
        ensures
            r matches Some(p) ==> self@.active == Some(*p),
            r is None <==> self@.active is None,
    {
        match &self.active {
            Some(p) => Some(p),
            None => None,
        }
    }

    /// Whether one more toggle can still advance the generation.
    pub fn can_toggle(&self) -> (r: bool)
        ensures
            r == (self@.generation < u64::MAX),
    {
        self.generation < u64::MAX
    }

    /// Explicit stop: the session is handed back for the caller to halt, the
    /// channel becomes idle and the generation advances, which fences out the
    /// watcher of the stopped session.
    pub fn stop(&mut self) -> (stopped: Option<P>)
        requires
            old(self)@.generation < u64::MAX,
        ensures
            stopped == old(self)@.active,
            final(self)@ == after_stop(old(self)@),
    {
        let stopped = self.active.take();
        self.generation = self.generation + 1;
        stopped
    }

    /// Records the outcome of an attempt to start: on success the new session
    /// is held and the new generation is returned as the ticket of its
    /// watcher; on failure the channel is idle. The generation advances
    /// either way, and any stale session held before is dropped.
    pub fn settle(&mut self, outcome: Result<P, StartError>) -> (r: Result<u64, StartError>)
        requires
            old(self)@.generation < u64::MAX,
        ensures
            final(self)@ == after_start(old(self)@, outcome),
            match outcome {
                Ok(_) => r == Ok::<u64, StartError>(final(self)@.generation as u64),
                Err(e) => r == Err::<u64, StartError>(e),
            },
    {
        self.generation = self.generation + 1;
        match outcome {
            Ok(p) => {
                self.active = Some(p);
                Ok(self.generation)
            },
            Err(e) => {
                self.active = None;
                Err(e)
            },
        }
    }

    /// What the watcher of the session started at generation `ticket` does on
    /// waking: if the channel is still at that generation, the session ended
    /// by itself, so the channel becomes idle and `true` is returned (the
    /// indicator goes off); otherwise nothing changes.
    pub fn finish(&mut self, ticket: u64) -> (fired: bool)
        ensures
            fired == finish_fires(old(self)@, ticket as nat),
            final(self)@ == finished(old(self)@, ticket as nat),
    {
        if self.generation == ticket {
            self.active = None;
            true
        } else {
            false
        }
    }
}

} // verus!
