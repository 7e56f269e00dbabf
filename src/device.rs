use vstd::prelude::*;

verus! {

/// Channels on the chip.
pub const CHANNEL_COUNT: u16 = 8;

/// Timeslots per channel in T1 operation.
pub const TIMESLOT_COUNT: u16 = 24;

/// Timeslot register arrays hold this many entries per channel.
pub const MAX_TIMESLOTS: u16 = 32;

/// Address distance between consecutive channels' framer blocks.
pub const CHANNEL_STRIDE: u16 = 0x1000;

/// Address distance between consecutive timeslots of a channel.
pub const TIMESLOT_STRIDE: u16 = 1;

/// Address of channel 0's LIU block.
pub const LIU_BASE: u16 = 0x0f00;

/// Address distance between consecutive channels' LIU blocks.
pub const LIU_STRIDE: u16 = 0x10;

/// Base address of channel `c`'s framer block, relative to the device base.
pub open spec fn channel_base(c: u16) -> int {
    c * CHANNEL_STRIDE
}

/// Base address of timeslot `t` of channel `c`, relative to the device base.
pub open spec fn timeslot_base(c: u16, t: u16) -> int {
    channel_base(c) + t * TIMESLOT_STRIDE
}

/// A framer register of channel `c`, at `offset` from the channel's base.
pub open spec fn framer_address(c: u16, offset: u16) -> u16 {
    (channel_base(c) + offset) as u16
}

/// An LIU register of channel `c`, at `offset` in the channel's LIU block.
pub open spec fn liu_address(c: u16, offset: u16) -> u16 {
    (LIU_BASE + c * LIU_STRIDE + offset) as u16
}

/// A register of timeslot `t` of channel `c`, at `offset` from the timeslot's base.
pub open spec fn timeslot_address(c: u16, t: u16, offset: u16) -> u16 {
    (timeslot_base(c, t) + offset) as u16
}

/// The whole chip: a fixed number of channels, each with a fixed number of
/// timeslots. Addresses are word offsets from the device's base, which only
/// the access provider knows.
#[derive(Clone, Copy, Debug, PartialEq, Eq, Structural)]
pub struct Device {
    pub channel_count: u16,
    pub timeslot_count: u16,
}

/// A view of one channel: it computes addresses and holds no state.
#[derive(Clone, Copy, Debug, PartialEq, Eq, Structural)]
pub struct Channel {
    pub index: u16,
    pub timeslot_count: u16,
}

/// A view of one timeslot of a channel: it computes addresses and holds no state.
#[derive(Clone, Copy, Debug, PartialEq, Eq, Structural)]
pub struct Timeslot {
    pub channel: u16,
    pub index: u16,
}

impl Device {
    pub open spec fn wf(self) -> bool {
        self.channel_count <= CHANNEL_COUNT && self.timeslot_count <= MAX_TIMESLOTS
    }

    /// The chip as built: eight channels of 24 timeslots.
    pub fn new() -> (r: Device)
        ensures
            r.channel_count == CHANNEL_COUNT,
            r.timeslot_count == TIMESLOT_COUNT,
            r.wf(),
    {
        Device { channel_count: CHANNEL_COUNT, timeslot_count: TIMESLOT_COUNT }
    }

    /// A device with the first `channels` channels in use, each with
    /// `timeslots` timeslots.
    pub fn with_geometry(channels: u16, timeslots: u16) -> (r: Device)
        requires
            channels <= CHANNEL_COUNT,
            timeslots <= MAX_TIMESLOTS,
        ensures
            r.channel_count == channels,
            r.timeslot_count == timeslots,
            r.wf(),
    {
        Device { channel_count: channels, timeslot_count: timeslots }
    }

    /// The view of channel `index`.
    pub fn channel(&self, index: u16) -> (r: Channel)
        requires
            self.wf(),
            index < self.channel_count,
        ensures
            r == (Channel { index, timeslot_count: self.timeslot_count }),
            r.wf(),
    {
        Channel { index, timeslot_count: self.timeslot_count }
    }

    /// Every channel, in ascending index order. Each call builds the
    /// sequence afresh.
    pub fn channels(&self) -> (r: Vec<Channel>)
        requires
            self.wf(),
        ensures
            r@.len() == self.channel_count,
            forall|i: int|
                0 <= i < r@.len() ==> #[trigger] r@[i] == (Channel {
                    index: i as u16,
                    timeslot_count: self.timeslot_count,
                }),
    {
        let mut r: Vec<Channel> = Vec::new();
        let mut i: u16 = 0;
        while i < self.channel_count
            invariant
                self.wf(),
                i <= self.channel_count,
                r@.len() == i,
                forall|k: int|
                    0 <= k < r@.len() ==> #[trigger] r@[k] == (Channel {
                        index: k as u16,
                        timeslot_count: self.timeslot_count,
                    }),
            decreases self.channel_count - i,
        {
            r.push(self.channel(i));
            i = i + 1;
        }
        r
    }
}

impl Channel {
    pub open spec fn wf(self) -> bool {
        self.index < CHANNEL_COUNT && self.timeslot_count <= MAX_TIMESLOTS
    }

    /// The channel's base address.
    pub fn base(&self) -> (r: u16)
        requires
            self.wf(),
        ensures
            r == channel_base(self.index),
    {
        self.index * CHANNEL_STRIDE
    }

    /// The address of the framer register at `offset`.
    pub fn framer(&self, offset: u16) -> (r: u16)
        requires
            self.wf(),
            offset < CHANNEL_STRIDE,
        ensures
            r == framer_address(self.index, offset),
            r == channel_base(self.index) + offset,
    {
        self.base() + offset
    }

    /// The address of the LIU register at `offset`.
    pub fn liu(&self, offset: u16) -> (r: u16)
        requires
            self.wf(),
            offset < LIU_STRIDE,
        ensures
            r == liu_address(self.index, offset),
            r == LIU_BASE + self.index * LIU_STRIDE + offset,
    {
        LIU_BASE + self.index * LIU_STRIDE + offset
    }

    /// The view of timeslot `index` of this channel.
    pub fn timeslot(&self, index: u16) -> (r: Timeslot)
        requires
            self.wf(),
            index < self.timeslot_count,
        ensures
            r == (Timeslot { channel: self.index, index }),
            r.wf(),
    {
        Timeslot { channel: self.index, index }
    }

    /// Every timeslot of the channel, in ascending index order.
    pub fn timeslots(&self) -> (r: Vec<Timeslot>)
        requires
            self.wf(),
        ensures
            r@.len() == self.timeslot_count,
            forall|i: int|
                0 <= i < r@.len() ==> #[trigger] r@[i] == (Timeslot {
                    channel: self.index,
                    index: i as u16,
                }),
    {
        let mut r: Vec<Timeslot> = Vec::new();
        let mut i: u16 = 0;
        while i < self.timeslot_count
            invariant
                self.wf(),
                i <= self.timeslot_count,
                r@.len() == i,
                forall|k: int|
                    0 <= k < r@.len() ==> #[trigger] r@[k] == (Timeslot {
                        channel: self.index,
                        index: k as u16,
                    }),
            decreases self.timeslot_count - i,
        {
            r.push(self.timeslot(i));
            i = i + 1;
        }
        r
    }
}

impl Timeslot {
    pub open spec fn wf(self) -> bool {
        self.channel < CHANNEL_COUNT && self.index < MAX_TIMESLOTS
    }

    /// The timeslot's base address.
    pub fn base(&self) -> (r: u16)
        requires
            self.wf(),
        ensures
            r == timeslot_base(self.channel, self.index),
    {
        self.channel * CHANNEL_STRIDE + self.index * TIMESLOT_STRIDE
    }

    /// The address of the timeslot register at `offset`; timeslot register
    /// arrays lie in the channel's block.
    pub fn register(&self, offset: u16) -> (r: u16)
        requires
            self.wf(),
            offset + MAX_TIMESLOTS <= CHANNEL_STRIDE,
        ensures
            r == timeslot_address(self.channel, self.index, offset),
            r == timeslot_base(self.channel, self.index) + offset,
    {
        self.base() + offset
    }
}

/// Any sequence that `channels` can return: `N` views in ascending index
/// order. The sequence is a function of the device alone, so iterating again
/// yields the same views and addresses; their bases are distinct and ascend.
pub proof fn lemma_channels(d: Device, a: Seq<Channel>, b: Seq<Channel>)
    requires
        d.wf(),
        a.len() == d.channel_count,
        b.len() == d.channel_count,
        forall|i: int|
            0 <= i < a.len() ==> #[trigger] a[i] == (Channel {
                index: i as u16,
                timeslot_count: d.timeslot_count,
            }),
        forall|i: int|
            0 <= i < b.len() ==> #[trigger] b[i] == (Channel {
                index: i as u16,
                timeslot_count: d.timeslot_count,
            }),
    ensures
        a == b,
        forall|i: int, j: int|
            0 <= i < j < a.len() ==> channel_base(#[trigger] a[i].index) < channel_base(
                #[trigger] a[j].index,
            ),
{
    assert(a =~= b);
}

/// A timeslot's base address depends on its channel and index alone:
/// `channel * CHANNEL_STRIDE + index * TIMESLOT_STRIDE` from the device base,
/// however and however often the view was built.
pub proof fn lemma_timeslot_base(a: Timeslot, b: Timeslot)
    requires
        a.wf(),
        b.wf(),
    ensures
        timeslot_base(a.channel, a.index) == a.channel * CHANNEL_STRIDE + a.index * TIMESLOT_STRIDE,
        (a.channel == b.channel && a.index == b.index) <==> timeslot_base(a.channel, a.index)
            == timeslot_base(b.channel, b.index),
{
}

} // verus!
