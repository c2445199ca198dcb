//! The two small buffers of the audio path: the one that cuts captured
//! samples into blocks of twenty milliseconds, and the bounded ring that
//! feeds the speaker.
//!
//! Both are generic in the sample type, so that the arithmetic on samples
//! stays with the caller.

use vstd::prelude::*;
use std::collections::VecDeque;

verus! {

/// The samples of one block: twenty milliseconds at 48 kHz, one channel.
pub const FRAME_SAMPLES: usize = 960;

/// The most samples that the playback ring holds: a tenth of a second.
pub const PLAYBACK_CAPACITY: usize = 4800;

/// An audio device as shown to the user.
#[derive(Debug, PartialEq, Eq)]
pub struct AudioDevice {
    pub name: String,
    pub is_input: bool,
    pub is_default: bool,
}

pub ghost struct AudioDeviceView {
    pub name: Seq<char>,
    pub is_input: bool,
    pub is_default: bool,
}

impl View for AudioDevice {
    type V = AudioDeviceView;

    open spec fn view(&self) -> AudioDeviceView {
        AudioDeviceView { name: self.name@, is_input: self.is_input, is_default: self.is_default }
    }
}

impl Clone for AudioDevice {
    fn clone(&self) -> (r: Self)
        ensures
            r@ == self@,
    {
        AudioDevice {
            name: self.name.clone(),
            is_input: self.is_input,
            is_default: self.is_default,
        }
    }
}

/// Collects captured samples and hands them out in blocks of
/// `FRAME_SAMPLES`. Its view is the samples that wait for their block to
/// fill, oldest first.
pub struct FrameBuffer<T: Copy> {
    pending: Vec<T>,
}

impl<T: Copy> View for FrameBuffer<T> {
    type V = Seq<T>;

    closed spec fn view(&self) -> Seq<T> {
        self.pending@
    }
}

impl<T: Copy> FrameBuffer<T> {
    /// Fewer samples wait than make a block.
    #[verifier::type_invariant]
    pub open spec fn well_formed(self) -> bool {
        self@.len() < FRAME_SAMPLES
    }

    /// A buffer in which no sample waits.
    pub fn new() -> (b: Self)
        ensures
            b@ == Seq::<T>::empty(),
    {
        FrameBuffer { pending: Vec::new() }
    }

    /// How many samples wait.
    pub fn len(&self) -> (n: usize)
        ensures
            n == self@.len(),
            n < FRAME_SAMPLES,
    {
        proof {
            use_type_invariant(self);
        }
        self.pending.len()
    }

    /// Takes in captured samples and returns the blocks that they complete,
    /// in order. The samples that waited come first; what does not fill a
    /// block waits on.
    pub fn feed(&mut self, data: &[T]) -> (blocks: Vec<Vec<T>>)
        ensures
            blocks@.len() * FRAME_SAMPLES + final(self)@.len() == old(self)@.len() + data@.len(),
            final(self)@.len() < FRAME_SAMPLES,
            forall|k: int|
                0 <= k < blocks@.len() ==> (#[trigger] blocks@[k])@ == (old(self)@ + data@).subrange(
                    k * FRAME_SAMPLES,
                    k * FRAME_SAMPLES + FRAME_SAMPLES,
                ),
            final(self)@ == (old(self)@ + data@).skip(blocks@.len() * FRAME_SAMPLES),
    {
        proof {
            use_type_invariant(&*self);
        }
        let mut pending: Vec<T> = Vec::new();
        core::mem::swap(&mut pending, &mut self.pending);
        let ghost start = pending@;
        let ghost whole = start + data@;
        let mut blocks: Vec<Vec<T>> = Vec::new();
        let mut i: usize = 0;
        assert(pending@ =~= (start + data@.take(0)).skip(0));
        while i < data.len()
            invariant
                i <= data.len(),
                whole == start + data@,
                pending@.len() < FRAME_SAMPLES,
                blocks@.len() * FRAME_SAMPLES + pending@.len() == start.len() + i,
                forall|k: int|
                    0 <= k < blocks@.len() ==> (#[trigger] blocks@[k])@ == whole.subrange(
                        k * FRAME_SAMPLES,
                        k * FRAME_SAMPLES + FRAME_SAMPLES,
                    ),
                pending@ == whole.subrange(blocks@.len() * FRAME_SAMPLES, start.len() + i),
            decreases data.len() - i,
        {
            let ghost held = pending@;
            let ghost done = blocks@.len();
            pending.push(data[i]);
            assert(whole[start.len() + i] == data@[i as int]);
            assert(pending@ =~= whole.subrange(done * FRAME_SAMPLES, start.len() + i + 1));
            if pending.len() == FRAME_SAMPLES {
                let mut full: Vec<T> = Vec::new();
                core::mem::swap(&mut full, &mut pending);
                blocks.push(full);
                assert(pending@ =~= whole.subrange(
                    (done + 1) * FRAME_SAMPLES,
                    start.len() + i + 1,
                ));
            }
            i += 1;
        }
        assert(pending@ =~= whole.skip(blocks@.len() * FRAME_SAMPLES));
        self.pending = pending;
        blocks
    }
}

/// The ring after a block was put into it: the block follows what was
/// there, and of the whole only the newest `PLAYBACK_CAPACITY` samples stay.
pub open spec fn ring_after_push<T>(ring: Seq<T>, block: Seq<T>) -> Seq<T> {
    let all = ring + block;
    if all.len() > PLAYBACK_CAPACITY {
        all.skip(all.len() - PLAYBACK_CAPACITY)
    } else {
        all
    }
}

/// What the speaker is given when it asks for `n` samples: the oldest
/// samples of the ring, then `silence` for what the ring cannot give. A ring
/// that is silenced gives `silence` only.
pub open spec fn ring_output<T>(ring: Seq<T>, silenced: bool, n: nat, silence: T) -> Seq<T> {
    Seq::new(
        n,
        |i: int|
            if !silenced && i < ring.len() {
                ring[i]
            } else {
                silence
            },
    )
}

/// The ring after the speaker took `n` samples.
pub open spec fn ring_after_take<T>(ring: Seq<T>, n: nat) -> Seq<T> {
    if n <= ring.len() {
        ring.skip(n as int)
    } else {
        Seq::empty()
    }
}

/// The samples that wait to be played, oldest first, never more than
/// `PLAYBACK_CAPACITY`. When more arrive than fit, the oldest are dropped.
pub struct PlaybackRing<T: Copy> {
    samples: VecDeque<T>,
    silenced: bool,
}

impl<T: Copy> View for PlaybackRing<T> {
    type V = Seq<T>;

    closed spec fn view(&self) -> Seq<T> {
        self.samples@
    }
}

impl<T: Copy> PlaybackRing<T> {
    /// The ring never holds more than its capacity.
    #[verifier::type_invariant]
    pub open spec fn well_formed(self) -> bool {
        self@.len() <= PLAYBACK_CAPACITY
    }

    /// Whether the ring is silenced.
    pub closed spec fn silenced(&self) -> bool {
        self.silenced
    }

    /// An empty ring that is not silenced.
    pub fn new() -> (r: Self)
        ensures
            r@ == Seq::<T>::empty(),
            !r.silenced(),
    {
        PlaybackRing { samples: VecDeque::new(), silenced: false }
    }

    /// How many samples wait.
    pub fn len(&self) -> (n: usize)
        ensures
            n == self@.len(),
            n <= PLAYBACK_CAPACITY,
    {
        proof {
            use_type_invariant(self);
        }
        self.samples.len()
    }

    /// Whether the ring is silenced.
    pub fn is_silenced(&self) -> (b: bool)
        ensures
            b == self.silenced(),
    {
        self.silenced
    }

    /// Silences the ring or lets it sound again. The ring goes on taking
    /// samples while silenced, so that sound is there at once afterwards.
    pub fn set_silenced(&mut self, silenced: bool)
        ensures
            final(self)@ == old(self)@,
            final(self).silenced() == silenced,
    {
        proof {
            use_type_invariant(&*self);
        }
        self.silenced = silenced;
    }

    /// Puts a block of samples into the ring.
    pub fn push(&mut self, block: &[T])
        ensures
            final(self)@ == ring_after_push(old(self)@, block@),
            final(self)@.len() <= PLAYBACK_CAPACITY,
            final(self).silenced() == old(self).silenced(),
    {
        proof {
            use_type_invariant(&*self);
        }
        let mut samples: VecDeque<T> = VecDeque::new();
        core::mem::swap(&mut samples, &mut self.samples);
        let ghost start = samples@;
        let mut i: usize = 0;
        assert(samples@ =~= ring_after_push(start, block@.take(0)));
        while i < block.len()
            invariant
                i <= block.len(),
                start.len() <= PLAYBACK_CAPACITY,
                samples@ == ring_after_push(start, block@.take(i as int)),
            decreases block.len() - i,
        {
            let ghost all = start + block@.take(i as int);
            let ghost more = start + block@.take(i + 1);
            assert(more =~= all.push(block@[i as int]));
            if samples.len() == PLAYBACK_CAPACITY {
                samples.pop_front();
            }
            samples.push_back(block[i]);
            assert(samples@ =~= ring_after_push(start, block@.take(i + 1)));
            i += 1;
        }
        assert(block@.take(block@.len() as int) =~= block@);
        self.samples = samples;
    }

    /// Takes `n` samples out of the ring for the speaker, filling up with
    /// `silence`.
    pub fn take(&mut self, n: usize, silence: T) -> (out: Vec<T>)
        ensures
            out@ == ring_output(old(self)@, old(self).silenced(), n as nat, silence),
            final(self)@ == ring_after_take(old(self)@, n as nat),
            final(self).silenced() == old(self).silenced(),
    {
        proof {
            use_type_invariant(&*self);
        }
        let silenced = self.silenced;
        let mut samples: VecDeque<T> = VecDeque::new();
        core::mem::swap(&mut samples, &mut self.samples);
        let ghost start = samples@;
        let mut out: Vec<T> = Vec::new();
        let mut i: usize = 0;
        assert(samples@ =~= ring_after_take(start, 0));
        while i < n
            invariant
                i <= n,
                start.len() <= PLAYBACK_CAPACITY,
                samples@ == ring_after_take(start, i as nat),
                out@ == ring_output(start, silenced, i as nat, silence),
            decreases n - i,
        {
            let next = match samples.pop_front() {
                Some(sample) => if silenced {
                    silence
                } else {
                    sample
                },
                None => silence,
            };
            out.push(next);
            assert(samples@ =~= ring_after_take(start, (i + 1) as nat));
            assert(out@ =~= ring_output(start, silenced, (i + 1) as nat, silence));
            i += 1;
        }
        self.samples = samples;
        out
    }
}

/// However many blocks arrive, the ring holds no more than its capacity, and
/// what it holds are the newest samples.
pub proof fn lemma_ring_bounded<T>(ring: Seq<T>, block: Seq<T>)
    ensures
        ring_after_push(ring, block).len() <= PLAYBACK_CAPACITY,
        ring_after_push(ring, block).is_suffix_of(ring + block),
{
    let all = ring + block;
    let r = ring_after_push(ring, block);
    if all.len() > PLAYBACK_CAPACITY {
        assert(r =~= all.skip(all.len() - r.len()));
    } else {
        assert(r =~= all.skip(0));
    }
}

} // verus!
