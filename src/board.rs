use vstd::prelude::*;

use crate::channel::finished;
use crate::playback::{pressed, AudioToggle, Toggled};

verus! {

/// The soundboard: independent channels, each addressed by the identifier
/// that `add` handed out. A press or a watcher on one channel never touches
/// another.
pub struct Soundboard {
    channels: Vec<AudioToggle>,
}

impl Soundboard {
    /// The channels, by identifier.
    pub closed spec fn channels(&self) -> Seq<AudioToggle> {
        self.channels@
    }

    /// A soundboard without channels.
    pub fn new() -> (r: Self)
        ensures
            r.channels().len() == 0,
    {
        Soundboard { channels: Vec::new() }
    }

    /// Adds a channel and returns its identifier.
    pub fn add(&mut self, channel: AudioToggle) -> (id: usize)
        requires
            old(self).channels().len() < usize::MAX,
        ensures
            id == old(self).channels().len(),
            final(self).channels() == old(self).channels().push(channel),
    {
        let id = self.channels.len();
        self.channels.push(channel);
        id
    }

    /// The number of channels.
    pub fn len(&self) -> (r: usize)
        ensures
            r == self.channels().len(),
    {
        self.channels.len()
    }

    /// The channel with identifier `id`.
    pub fn channel(&self, id: usize) -> (r: &AudioToggle)
        requires
            id < self.channels().len(),
        ensures
            *r == self.channels()[id as int],
    {
        &self.channels[id]
    }

    /// One press of channel `id`'s control given whether its held session
    /// is still playing, as `AudioToggle::press`; every other channel is left
    /// as it was.
    pub fn press<F: FnOnce() -> Option<Vec<u8>>>(
        &mut self,
        id: usize,
        sounding: bool,
        read_clip: F,
    ) -> (r: Toggled)
        requires
            id < old(self).channels().len(),
            old(self).channels()[id as int]@.generation < u64::MAX,
            read_clip.requires(()),
        ensures
            final(self).channels().len() == old(self).channels().len(),
            pressed(
                old(self).channels()[id as int],
                final(self).channels()[id as int],
                sounding,
                read_clip,
                r,
            ),
            forall|j: int|
                0 <= j < old(self).channels().len() && j != id ==> final(self).channels()[j]
                    == old(self).channels()[j],
    {
        self.channels[id].press(sounding, read_clip)
    }

    /// One press of channel `id`'s control, as `AudioToggle::toggle`; every
    /// other channel is left as it was.
    pub fn toggle<F: FnOnce() -> Option<Vec<u8>>>(&mut self, id: usize, read_clip: F) -> (r: Toggled)
        requires
            id < old(self).channels().len(),
            old(self).channels()[id as int]@.generation < u64::MAX,
            read_clip.requires(()),
        ensures
            final(self).channels().len() == old(self).channels().len(),
            exists|sounding: bool|
                pressed(
                    old(self).channels()[id as int],
                    final(self).channels()[id as int],
                    sounding,
                    read_clip,
                    r,
                ),
            forall|j: int|
                0 <= j < old(self).channels().len() && j != id ==> final(self).channels()[j]
                    == old(self).channels()[j],
    {
        self.channels[id].toggle(read_clip)
    }

    /// What the watcher of channel `id`'s session with `ticket` does once that
    /// session has played to its end, as `AudioToggle::finish`; every other
    /// channel is left as it was.
    pub fn finish(&mut self, id: usize, ticket: u64) -> (fired: bool)
        requires
            id < old(self).channels().len(),
        ensures
            final(self).channels().len() == old(self).channels().len(),
            fired == (old(self).channels()[id as int]@.generation == ticket as nat),
            final(self).channels()[id as int]@ == finished(old(self).channels()[id as int]@, ticket as nat),
            final(self).channels()[id as int].clip() == old(self).channels()[id as int].clip(),
            final(self).channels()[id as int].output() == old(self).channels()[id as int].output(),
            forall|j: int|
                0 <= j < old(self).channels().len() && j != id ==> final(self).channels()[j]
                    == old(self).channels()[j],
    {
        self.channels[id].finish(ticket)
    }
}

} // verus!
