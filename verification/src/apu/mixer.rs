//! The queue of samples between the sound unit and the host's audio
//! output.
//!
//! A sample is the sum, over the ticks of one sample period, of the levels
//! of the channels. The host scales it to its own sample format.

use vstd::prelude::*;

verus! {

#[derive(Debug)]
pub struct Mixer {
    pub mute: bool,
    pub samples: Vec<u16>,
}

/// What the queue holds.
pub struct MixerView {
    pub mute: bool,
    pub samples: Seq<u16>,
}

impl View for Mixer {
    type V = MixerView;

    open spec fn view(&self) -> MixerView {
        MixerView { mute: self.mute, samples: self.samples@ }
    }
}

impl MixerView {
    /// The queue after a sample is handed in: it is appended, or dropped
    /// while muted.
    pub open spec fn add_to_stream(self, data: u16) -> MixerView {
        if self.mute {
            self
        } else {
            MixerView { samples: self.samples.push(data), ..self }
        }
    }

    /// The queue after the mute state is set. Lifting the mute starts from
    /// an empty queue.
    pub open spec fn set_mute(self, m: bool) -> MixerView {
        if m {
            MixerView { mute: true, ..self }
        } else {
            MixerView { mute: false, samples: Seq::empty() }
        }
    }
}

impl Mixer {
    /// An empty queue that is not muted.
    pub fn new() -> (r: Self)
        ensures
            r@ == (MixerView { mute: false, samples: Seq::empty() }),
    {
        Mixer { mute: false, samples: Vec::new() }
    }

    pub fn add_to_stream(&mut self, data: u16)
        ensures
            final(self)@ == old(self)@.add_to_stream(data),
    {
        if !self.mute {
            self.samples.push(data);
        }
    }

    pub fn set_mute(&mut self, m: bool)
        ensures
            final(self)@ == old(self)@.set_mute(m),
    {
        if !m {
            self.samples.clear();
        }
        self.mute = m;
    }

    /// Hands the queued samples to the host, oldest first, and leaves the
    /// queue empty.
    pub fn take_samples(&mut self) -> (r: Vec<u16>)
        ensures
            r@ == old(self)@.samples,
            final(self)@ == (MixerView { samples: Seq::empty(), ..old(self)@ }),
    {
        let mut out: Vec<u16> = Vec::new();
        out.append(&mut self.samples);
        assert(out@ =~= old(self)@.samples);
        out
    }
}

} // verus!
