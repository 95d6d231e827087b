//! The touch status word and its channel-by-channel reading.

use crate::text::append_decimal;
use crate::text::decimal;
use vstd::prelude::*;

verus! {

/// Number of the first channel.
pub const FIRST_CHANNEL: u8 = 0;

/// Number of the last channel.
pub const LAST_CHANNEL: u8 = 11;

/// Whether bit `channel` of `bits` is set. Bits above the last channel are
/// never reported, whatever the word holds there.
pub open spec fn channel_touched(bits: u16, channel: int) -> bool {
    0 <= channel <= 11 && (bits >> (channel as u16)) & 1 != 0
}

/// The twelve channel flags of `bits`, channel 0 first.
pub open spec fn channel_flags(bits: u16) -> Seq<bool> {
    Seq::new(12, |channel: int| channel_touched(bits, channel))
}

/// A walk over the channels yields twelve flags, and the flag of channel `c`
/// is what `touched(c)` reports: bit `c` of the status word.
pub proof fn lemma_walk_reports_touched(bits: u16)
    ensures
        channel_flags(bits).len() == 12,
        forall|c: int|
            0 <= c < 12 ==> #[trigger] channel_flags(bits)[c] == channel_touched(bits, c),
        forall|c: int|
            0 <= c < 12 ==> channel_touched(bits, c) == ((bits >> (c as u16)) & 1 != 0),
        forall|c: int| !(0 <= c < 12) ==> !channel_touched(bits, c),
{
}

/// The report entry of one channel: its number, then `on` or `off`.
pub open spec fn channel_text(bits: u16, channel: nat) -> Seq<char> {
    decimal(channel) + " is "@ + if channel_touched(bits, channel as int) {
        "on"@
    } else {
        "off"@
    }
}

/// The entries of channels `0..count`, in ascending order, separated by a
/// comma and a space.
pub open spec fn channels_text(bits: u16, count: nat) -> Seq<char>
    decreases count,
{
    if count == 0 {
        Seq::empty()
    } else if count == 1 {
        channel_text(bits, 0)
    } else {
        channels_text(bits, (count - 1) as nat) + ", "@ + channel_text(bits, (count - 1) as nat)
    }
}

/// The one-line report on a status word: all twelve channels in brackets.
pub open spec fn status_text(bits: u16) -> Seq<char> {
    "Touch status: ["@ + channels_text(bits, 12) + "]"@
}

/// Touch status for all pins
#[derive(Debug)]
pub struct Mpr121TouchStatus {
    status: u16,
}

impl View for Mpr121TouchStatus {
    type V = u16;

    /// The raw status word as the chip reported it.
    closed spec fn view(&self) -> u16 {
        self.status
    }
}

impl Mpr121TouchStatus {
    /// Creates new touch status
    pub fn new(touch_status: u16) -> (status: Self)
        ensures
            status@ == touch_status,
    {
        Self { status: touch_status }
    }

    /// Returns if specific pin was touched
    pub fn touched(&self, item: u8) -> (on: bool)
        ensures
            on == channel_touched(self@, item as int),
    {
        if item <= Mpr121TouchStatus::last() {
            return (self.status >> item) & 0x1 != 0;
        }
        false
    }

    /// Returns if *any* pin was touched
    pub fn was_touched(&self) -> (any: bool)
        ensures
            any == (self@ != 0),
    {
        self.status > 0
    }

    /// Number of the first pin
    pub fn first() -> (channel: u8)
        ensures
            channel == 0,
    {
        FIRST_CHANNEL
    }

    /// Number of the last pin
    pub fn last() -> (channel: u8)
        ensures
            channel == 11,
    {
        LAST_CHANNEL
    }

    /// Renders the status as one line of text that lists every channel with
    /// `on` or `off`, for logs and diagnostics.
    pub fn to_string(&self) -> (text: String)
        ensures
            text@ == status_text(self@),
    {
        let mut text = String::from_str("Touch status: [");
        let mut i: u8 = Mpr121TouchStatus::first();
        while i <= Mpr121TouchStatus::last()
            invariant
                i <= 12,
                text@ == "Touch status: ["@ + channels_text(self@, i as nat),
            decreases 12 - i,
        {
            if i > 0 {
                text.append(", ");
            }
            append_decimal(&mut text, i);
            text.append(" is ");
            text.append(
                if self.touched(i) {
                    "on"
                } else {
                    "off"
                },
            );
            i = i + 1;
        }
        text.append("]");
        text
    }

    /// Walks the twelve channels in ascending order. Every call starts a
    /// fresh walk at channel 0.
    pub fn iter(&self) -> (walk: Mpr121TouchStatusIterator<'_>)
        ensures
            walk.remaining() == channel_flags(self@),
    {
        Mpr121TouchStatusIterator::new(self)
    }
}

/// Convenient iterator for pins in `Mpr121TouchStatus`
pub struct Mpr121TouchStatusIterator<'a> {
    status: &'a Mpr121TouchStatus,
    count: u8,
}

impl<'a> Mpr121TouchStatusIterator<'a> {
    /// The flags still to come, next one first.
    pub closed spec fn remaining(&self) -> Seq<bool> {
        channel_flags(self.status@).skip(self.count as int)
    }

    #[verifier::type_invariant]
    spec fn in_range(&self) -> bool {
        self.count <= 12
    }

    fn new(status: &'a Mpr121TouchStatus) -> (walk: Self)
        ensures
            walk.status == status,
            walk.count == 0,
    {
        Self { status, count: 0 }
    }

    /// Hands out the flag of the next channel, or `None` once all twelve
    /// have been handed out.
    pub fn next(&mut self) -> (flag: Option<bool>)
        ensures
            old(self).remaining().len() > 0 ==> flag == Some(old(self).remaining()[0])
                && final(self).remaining() == old(self).remaining().skip(1),
            old(self).remaining().len() == 0 ==> flag.is_none() && final(self).remaining() == old(
                self,
            ).remaining(),
    {
        proof {
            use_type_invariant(&*self);
        }
        if self.count < 12 {
            let flag = self.status.touched(self.count);
            self.count = self.count + 1;
            Some(flag)
        } else {
            None
        }
    }
}

} // verus!
