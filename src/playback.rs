use vstd::prelude::*;

use crate::channel::{
    after_start, after_stop, idle_view, stops, toggle_indicator, toggled, Channel, ChannelView,
    StartError,
};
use rodio::decoder::DecoderError;
use rodio::mixer::Mixer;
use rodio::{Decoder, Sink};
use std::io::Cursor;
use std::sync::Arc;

verus! {

#[verifier::external_type_specification]
#[verifier::external_body]
pub struct ExSink(Sink);

#[verifier::external_type_specification]
#[verifier::external_body]
pub struct ExMixer(Mixer);

#[verifier::external_type_specification]
#[verifier::external_body]
pub struct ExDecoderError(DecoderError);

/// A clip decoded by rodio and ready to be queued on a session. rodio's
/// `Decoder` cannot be declared to Verus (its `Read + Seek` bound is
/// refused), so it is held here out of Verus's sight.
#[verifier::external_body]
pub struct DecodedClip {
    source: Decoder<Cursor<Vec<u8>>>,
}

/// Whether rodio recognises `clip` as audio in one of the enabled formats.
pub uninterp spec fn decodable(clip: Seq<u8>) -> bool;

/// Relies on rodio::Decoder::new over an in-memory cursor: it probes the
/// format of the bytes and fails when no enabled decoder recognises them, so
/// the outcome depends on the bytes alone.
#[verifier::external_body]
fn decode(clip: Vec<u8>) -> (r: Result<DecodedClip, DecoderError>)
    ensures
        r is Ok <==> decodable(clip@),
{
    Decoder::new(Cursor::new(clip)).map(|source| DecodedClip { source })
}

/// Relies on rodio::Sink::connect_new: a new session whose output is mixed
/// into the shared device's mixer.
#[verifier::external_body]
fn connect(mixer: &Mixer) -> (r: Sink) {
    Sink::connect_new(mixer)
}

/// Relies on rodio::Sink::append: queues the decoded clip on the session,
/// which starts playing it.
#[verifier::external_body]
fn enqueue(sink: &Sink, clip: DecodedClip) {
    sink.append(clip.source)
}

/// Relies on rodio::Sink::empty: whether the session has nothing left to
/// play. The answer changes as playback goes on, so nothing is promised.
#[verifier::external_body]
fn drained(sink: &Arc<Sink>) -> (r: bool) {
    sink.empty()
}

/// Relies on rodio::Sink::stop: asks the session to stop playing.
#[verifier::external_body]
fn halt(sink: &Arc<Sink>) {
    sink.stop()
}

/// What one press of a channel's control did.
#[derive(Clone, Copy, Debug, PartialEq, Eq, Structural)]
pub enum Toggled {
    /// The session that was playing was stopped.
    Stopped,
    /// A new session started; its watcher carries this ticket.
    Started(u64),
    /// Starting failed; the channel is idle.
    Failed(StartError),
}

impl Toggled {
    /// The value for the channel's indicator: on exactly when a session
    /// started.
    pub open spec fn indicator_spec(self) -> bool {
        self is Started
    }

    /// The value for the channel's indicator.
    pub fn indicator(&self) -> (r: bool)
        ensures
            r == self.indicator_spec(),
    {
        match self {
            Toggled::Started(_) => true,
            _ => false,
        }
    }
}

/// What `AudioToggle::start` owes, given the clip that was read (`None` if
/// it could not be read): the state it leaves and the press it reports.
pub open spec fn start_outcome(
    pre: ChannelView<Arc<Sink>>,
    clip: Option<Seq<u8>>,
    post: ChannelView<Arc<Sink>>,
    r: Toggled,
) -> bool {
    match clip {
        None => {
            &&& r == Toggled::Failed(StartError::SourceUnavailable)
            &&& post == after_start(pre, Err::<Arc<Sink>, StartError>(StartError::SourceUnavailable))
        },
        Some(bytes) => if decodable(bytes) {
            &&& post.active is Some
            &&& post.generation == pre.generation + 1
            &&& r == Toggled::Started(post.generation as u64)
        } else {
            &&& r == Toggled::Failed(StartError::DecodeFailed)
            &&& post == after_start(pre, Err::<Arc<Sink>, StartError>(StartError::DecodeFailed))
        },
    }
}

/// What one press of `pre`'s control owes, leaving `post` and reporting
/// `r`, where `sounding` tells whether the held session was still playing and
/// `read_clip` reads the clip. The clip and the output are kept, the
/// generation advances by one, and the indicator reports whether a session is
/// held afterwards. A held session that still plays is stopped, without
/// reading the clip; otherwise the outcome is that of starting from what
/// `read_clip` returned, which replaces a session that had already finished.
pub open spec fn pressed<F: FnOnce() -> Option<Vec<u8>>>(
    pre: AudioToggle,
    post: AudioToggle,
    sounding: bool,
    read_clip: F,
    r: Toggled,
) -> bool {
    &&& post.clip() == pre.clip()
    &&& post.output() == pre.output()
    &&& post@.generation == pre@.generation + 1
    &&& r.indicator_spec() == post@.active is Some
    &&& stops(pre@, sounding) ==> r == Toggled::Stopped && post@ == after_stop(pre@)
    &&& !stops(pre@, sounding) ==> exists|clip: Option<Vec<u8>>|
        read_clip.ensures((), clip) && start_outcome(
            pre@,
            match clip {
                Some(b) => Some(b@),
                None => None,
            },
            post@,
            r,
        )
    &&& exists|outcome: Result<Arc<Sink>, StartError>|
        post@ == toggled(pre@, sounding, outcome) && r.indicator_spec() == toggle_indicator(
            pre@,
            sounding,
            outcome,
        )
}

/// A press that starts a session, followed by a press that finds it still
/// playing, leaves the channel idle with its indicator off, two generations
/// further, and the second press reads no clip.
pub proof fn lemma_press_pair_returns_idle<F: FnOnce() -> Option<Vec<u8>>, G: FnOnce() -> Option<Vec<u8>>>(
    a: AudioToggle,
    b: AudioToggle,
    c: AudioToggle,
    first_sounding: bool,
    first_read: F,
    first: Toggled,
    second_read: G,
    second: Toggled,
)
    requires
        pressed(a, b, first_sounding, first_read, first),
        first is Started,
        pressed(b, c, true, second_read, second),
    ensures
        first.indicator_spec(),
        second == Toggled::Stopped,
        !second.indicator_spec(),
        c@ == (ChannelView::<Arc<Sink>> { active: None, generation: a@.generation + 2 }),
        c.clip() == a.clip(),
        c.output() == a.output(),
{
}

/// One soundboard channel: a clip, the shared output mixer, and the toggle
/// state machine over rodio sessions.
pub struct AudioToggle {
    channel: Channel<Arc<Sink>>,
    file: String,
    mixer: Mixer,
}

impl View for AudioToggle {
    type V = ChannelView<Arc<Sink>>;

    closed spec fn view(&self) -> ChannelView<Arc<Sink>> {
        self.channel@
    }
}

impl AudioToggle {
    /// The locator of the clip, fixed at construction.
    pub closed spec fn clip(&self) -> Seq<char> {
        self.file@
    }

    /// The shared output mixer the channel plays into, fixed at construction.
    pub closed spec fn output(&self) -> Mixer {
        self.mixer
    }

    /// An idle channel for the clip at `file`, playing into `mixer`.
    pub fn new(file: String, mixer: Mixer) -> (r: Self)
        ensures
            r@ == idle_view::<Arc<Sink>>(),
            r.clip() == file@,
            r.output() == mixer,
    {
        AudioToggle { channel: Channel::new(), file, mixer }
    }

    /// The locator of the clip.
    pub fn file(&self) -> (r: &str)
        ensures
            r@ == self.clip(),
    {
        self.file.as_str()
    }

    /// Whether a session is held.
    pub fn is_active(&self) -> (r: bool)
        ensures
            r == self@.active is Some,
    {
        self.channel.is_active()
    }

    /// The current generation.
    pub fn generation(&self) -> (r: u64)
        ensures
            r as nat == self@.generation,
    {
        self.channel.generation()
    }

    /// Whether one more toggle can still advance the generation.
    pub fn can_toggle(&self) -> (r: bool)
        ensures
            r == (self@.generation < u64::MAX),
    {
        self.channel.can_toggle()
    }

    /// A shared handle to the session held, for its watcher to wait on.
    pub fn session(&self) -> (r: Option<Arc<Sink>>)
        ensures
            r == self@.active,
    {
        match self.channel.session() {
            Some(s) => Some(Arc::clone(s)),
            None => None,
        }
    }

    /// Starts a session from the clip that was read (`None`: it could not be
    /// read). The generation advances whatever happens.
    pub fn start(&mut self, clip: Option<Vec<u8>>) -> (r: Toggled)
        requires
            old(self)@.generation < u64::MAX,
        ensures
            final(self).clip() == old(self).clip(),
            final(self).output() == old(self).output(),
            start_outcome(
                old(self)@,
                match clip {
                    Some(b) => Some(b@),
                    None => None,
                },
                final(self)@,
                r,
            ),
            r.indicator_spec() == final(self)@.active is Some,
    {
        let outcome: Result<Arc<Sink>, StartError> = match clip {
            None => Err(StartError::SourceUnavailable),
            Some(bytes) => match decode(bytes) {
                Err(_) => Err(StartError::DecodeFailed),
                Ok(source) => {
                    let sink = connect(&self.mixer);
                    enqueue(&sink, source);
                    Ok(Arc::new(sink))
                },
            },
        };
        match self.channel.settle(outcome) {
            Ok(ticket) => Toggled::Started(ticket),
            Err(e) => Toggled::Failed(e),
        }
    }

    /// One press of the channel's control, given whether the held session is
    /// still playing (`sounding`). If a session is held and still playing, it
    /// is stopped. Otherwise the clip is read with `read_clip` and a new
    /// session is started from it, replacing a session that had already
    /// finished. The generation advances on every press, and the indicator
    /// value reported is whether a session is held afterwards.
    pub fn press<F: FnOnce() -> Option<Vec<u8>>>(&mut self, sounding: bool, read_clip: F) -> (r: Toggled)
        requires
            old(self)@.generation < u64::MAX,
            read_clip.requires(()),
        ensures
            pressed(*old(self), *final(self), sounding, read_clip, r),
    {
        let ghost pre = self@;
        if sounding && self.channel.is_active() {
            let stopped = self.channel.stop();
            if let Some(s) = &stopped {
                halt(s);
            }
            assert(self@ == toggled(pre, sounding, Err::<Arc<Sink>, StartError>(StartError::DecodeFailed)));
            Toggled::Stopped
        } else {
            let clip = read_clip();
            let r = self.start(clip);
            proof {
                let outcome = match r {
                    Toggled::Failed(e) => Err::<Arc<Sink>, StartError>(e),
                    _ => Ok::<Arc<Sink>, StartError>(self@.active->0),
                };
                assert(self@ == toggled(pre, sounding, outcome));
            }
            r
        }
    }

    /// One press of the channel's control: asks the held session, if any,
    /// whether it is still playing, and presses with that answer.
    pub fn toggle<F: FnOnce() -> Option<Vec<u8>>>(&mut self, read_clip: F) -> (r: Toggled)
        requires
            old(self)@.generation < u64::MAX,
            read_clip.requires(()),
        ensures
            exists|sounding: bool| pressed(*old(self), *final(self), sounding, read_clip, r),
            old(self)@.active is None ==> pressed(*old(self), *final(self), false, read_clip, r),
    {
        let sounding = match self.channel.session() {
            Some(s) => !drained(s),
            None => false,
        };
        self.press(sounding, read_clip)
    }

    /// What the watcher of the session with `ticket` does once that session
    /// has played to its end: the channel becomes idle, and `true` is
    /// returned (the indicator goes off), only if no press came since.
    pub fn finish(&mut self, ticket: u64) -> (fired: bool)
        ensures
            final(self).clip() == old(self).clip(),
            final(self).output() == old(self).output(),
            fired == (old(self)@.generation == ticket as nat),
            final(self)@ == crate::channel::finished(old(self)@, ticket as nat),
    {
        self.channel.finish(ticket)
    }
}

} // verus!
