use vstd::prelude::*;

verus! {

/// A mixer channel number.
pub struct MixerChannel {
    channel: u32,
}

impl MixerChannel {
    pub closed spec fn spec_channel(&self) -> u32 {
        self.channel
    }

    pub fn from(channel: u32) -> (r: MixerChannel)
        ensures
            r.spec_channel() == channel,
    {
        MixerChannel { channel }
    }

    pub fn as_raw(&self) -> (r: u32)
        ensures
            r == self.spec_channel(),
    {
        self.channel
    }
}

} // verus!
