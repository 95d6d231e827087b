//! The reset sequence: what is sent to the chip, in which order, and how its
//! answers are judged.
//!
//! A reset is a fixed script of bus requests. [`Mpr121Reset`] walks it one
//! request at a time: it names the request that is due, takes the reply and
//! either moves on or ends the reset. The first reply that is not accepted
//! ends it; nothing is requested after that.

use crate::bus::BusReply;
use crate::bus::BusRequest;
use crate::error::Mpr121Error;
use crate::registers::CONFIG2_AFTER_RESET;
use crate::registers::REG_CONFIG1;
use crate::registers::REG_CONFIG2;
use crate::registers::REG_DEBOUNCE;
use crate::registers::REG_ECR;
use crate::registers::REG_FDLF;
use crate::registers::REG_FDLR;
use crate::registers::REG_FDLT;
use crate::registers::REG_MHDF;
use crate::registers::REG_MHDR;
use crate::registers::REG_NCLF;
use crate::registers::REG_NCLR;
use crate::registers::REG_NCLT;
use crate::registers::REG_NHDF;
use crate::registers::REG_NHDR;
use crate::registers::REG_NHDT;
use crate::registers::REG_RELEASETH_0;
use crate::registers::REG_SOFTRESET;
use crate::registers::REG_TOUCHTH_0;
use crate::registers::RESET_SETTLE_MILLIS;
use crate::registers::SOFTRESET_MAGIC;
use vstd::prelude::*;

verus! {

/// Number of requests in a full reset.
pub const RESET_LENGTH: u8 = 43;

/// How a reset opens: soft reset, settle, stop all electrodes, and read back
/// the configuration that a freshly reset chip shows.
pub open spec fn reset_opening() -> Seq<BusRequest> {
    seq![
        BusRequest::WriteByte { register: REG_SOFTRESET, value: SOFTRESET_MAGIC },
        BusRequest::Sleep { millis: RESET_SETTLE_MILLIS },
        BusRequest::WriteByte { register: REG_ECR, value: 0x00 },
        BusRequest::ReadByte { register: REG_CONFIG2 },
    ]
}

/// The `index`-th threshold write. Channel `index / 2` gets its touch
/// threshold first and its release threshold right after.
pub open spec fn threshold_write(touch: u8, release: u8, index: int) -> BusRequest {
    let channel = index / 2;
    if index % 2 == 0 {
        BusRequest::WriteByte { register: (REG_TOUCHTH_0 + 2 * channel) as u8, value: touch }
    } else {
        BusRequest::WriteByte { register: (REG_RELEASETH_0 + 2 * channel) as u8, value: release }
    }
}

/// The threshold writes of all twelve channels, channel 0 first.
pub open spec fn threshold_writes(touch: u8, release: u8) -> Seq<BusRequest> {
    Seq::new(24, |index: int| threshold_write(touch, release, index))
}

/// How a reset closes: the baseline filter settings, debounce, the two
/// configuration registers, and last the write that enables all twelve
/// electrodes and starts measuring.
pub open spec fn reset_closing() -> Seq<BusRequest> {
    seq![
        BusRequest::WriteByte { register: REG_MHDR, value: 0x01 },
        BusRequest::WriteByte { register: REG_NHDR, value: 0x01 },
        BusRequest::WriteByte { register: REG_NCLR, value: 0x0E },
        BusRequest::WriteByte { register: REG_FDLR, value: 0x00 },
        BusRequest::WriteByte { register: REG_MHDF, value: 0x01 },
        BusRequest::WriteByte { register: REG_NHDF, value: 0x05 },
        BusRequest::WriteByte { register: REG_NCLF, value: 0x01 },
        BusRequest::WriteByte { register: REG_FDLF, value: 0x00 },
        BusRequest::WriteByte { register: REG_NHDT, value: 0x00 },
        BusRequest::WriteByte { register: REG_NCLT, value: 0x00 },
        BusRequest::WriteByte { register: REG_FDLT, value: 0x00 },
        BusRequest::WriteByte { register: REG_DEBOUNCE, value: 0x00 },
        BusRequest::WriteByte { register: REG_CONFIG1, value: 0x10 },
        BusRequest::WriteByte { register: REG_CONFIG2, value: 0x20 },
        BusRequest::WriteByte { register: REG_ECR, value: 0x8F },
    ]
}

/// Everything a reset with the given thresholds sends when nothing goes
/// wrong, in order.
pub open spec fn reset_script(touch: u8, release: u8) -> Seq<BusRequest> {
    reset_opening() + threshold_writes(touch, release) + reset_closing()
}

/// Where in the script the touch threshold of `channel` is written.
pub open spec fn touch_slot(channel: int) -> int {
    4 + 2 * channel
}

/// Where in the script the release threshold of `channel` is written.
pub open spec fn release_slot(channel: int) -> int {
    5 + 2 * channel
}

/// The script written out, register by register: the same 43 requests in the
/// same order for all thresholds, except that every channel's two threshold
/// registers get the thresholds given.
pub proof fn lemma_reset_script_table(touch: u8, release: u8)
    ensures
        reset_script(touch, release).len() == 43,
        reset_script(touch, release).take(4) == seq![
            BusRequest::WriteByte { register: 0x80, value: 0x63 },
            BusRequest::Sleep { millis: 1 },
            BusRequest::WriteByte { register: 0x5E, value: 0x00 },
            BusRequest::ReadByte { register: 0x5D },
        ],
        forall|channel: int|
            0 <= channel < 12 ==> {
                &&& reset_script(touch, release)[#[trigger] touch_slot(channel)]
                    == (BusRequest::WriteByte {
                    register: (0x41 + 2 * channel) as u8,
                    value: touch,
                })
                &&& reset_script(touch, release)[release_slot(channel)]
                    == (BusRequest::WriteByte {
                    register: (0x42 + 2 * channel) as u8,
                    value: release,
                })
            },
        reset_script(touch, release).skip(28) == seq![
            BusRequest::WriteByte { register: 0x2B, value: 0x01 },
            BusRequest::WriteByte { register: 0x2C, value: 0x01 },
            BusRequest::WriteByte { register: 0x2D, value: 0x0E },
            BusRequest::WriteByte { register: 0x2E, value: 0x00 },
            BusRequest::WriteByte { register: 0x2F, value: 0x01 },
            BusRequest::WriteByte { register: 0x30, value: 0x05 },
            BusRequest::WriteByte { register: 0x31, value: 0x01 },
            BusRequest::WriteByte { register: 0x32, value: 0x00 },
            BusRequest::WriteByte { register: 0x33, value: 0x00 },
            BusRequest::WriteByte { register: 0x34, value: 0x00 },
            BusRequest::WriteByte { register: 0x35, value: 0x00 },
            BusRequest::WriteByte { register: 0x5B, value: 0x00 },
            BusRequest::WriteByte { register: 0x5C, value: 0x10 },
            BusRequest::WriteByte { register: 0x5D, value: 0x20 },
            BusRequest::WriteByte { register: 0x5E, value: 0x8F },
        ],
{
}

/// How the reply to one request of a reset is judged: `None` where the reset
/// may go on, else the error that ends it.
///
/// A failed transfer ends the reset with the transport's error. The byte read
/// back must be the one a freshly reset chip shows. Any other reply is
/// accepted if it is of the kind the request calls for.
pub open spec fn reset_verdict(request: BusRequest, reply: BusReply) -> Option<Mpr121Error> {
    match reply {
        BusReply::Failed(e) => Some(Mpr121Error::Transport(e)),
        BusReply::Byte(value) => if !(request is ReadByte) {
            Some(Mpr121Error::UnexpectedReply)
        } else if value != CONFIG2_AFTER_RESET {
            Some(Mpr121Error::UnexpectedDeviceState)
        } else {
            None
        },
        _ => if reply.answers(request) {
            None
        } else {
            Some(Mpr121Error::UnexpectedReply)
        },
    }
}

/// The `position`-th request of the script.
fn request_at(touch: u8, release: u8, position: u8) -> (request: BusRequest)
    requires
        position < RESET_LENGTH,
    ensures
        request == reset_script(touch, release)[position as int],
{
    if position == 0 {
        BusRequest::WriteByte { register: REG_SOFTRESET, value: SOFTRESET_MAGIC }
    } else if position == 1 {
        BusRequest::Sleep { millis: RESET_SETTLE_MILLIS }
    } else if position == 2 {
        BusRequest::WriteByte { register: REG_ECR, value: 0x00 }
    } else if position == 3 {
        BusRequest::ReadByte { register: REG_CONFIG2 }
    } else if position < 28 {
        let index: u8 = position - 4;
        let channel: u8 = index / 2;
        if index % 2 == 0 {
            BusRequest::WriteByte { register: REG_TOUCHTH_0 + 2 * channel, value: touch }
        } else {
            BusRequest::WriteByte { register: REG_RELEASETH_0 + 2 * channel, value: release }
        }
    } else {
        let (register, value): (u8, u8) = closing_write(position - 28);
        BusRequest::WriteByte { register, value }
    }
}

/// Register and value of the `index`-th closing write.
fn closing_write(index: u8) -> (write: (u8, u8))
    requires
        index < 15,
    ensures
        reset_closing()[index as int] == (BusRequest::WriteByte {
            register: write.0,
            value: write.1,
        }),
{
    if index == 0 {
        (REG_MHDR, 0x01)
    } else if index == 1 {
        (REG_NHDR, 0x01)
    } else if index == 2 {
        (REG_NCLR, 0x0E)
    } else if index == 3 {
        (REG_FDLR, 0x00)
    } else if index == 4 {
        (REG_MHDF, 0x01)
    } else if index == 5 {
        (REG_NHDF, 0x05)
    } else if index == 6 {
        (REG_NCLF, 0x01)
    } else if index == 7 {
        (REG_FDLF, 0x00)
    } else if index == 8 {
        (REG_NHDT, 0x00)
    } else if index == 9 {
        (REG_NCLT, 0x00)
    } else if index == 10 {
        (REG_FDLT, 0x00)
    } else if index == 11 {
        (REG_DEBOUNCE, 0x00)
    } else if index == 12 {
        (REG_CONFIG1, 0x10)
    } else if index == 13 {
        (REG_CONFIG2, 0x20)
    } else {
        (REG_ECR, 0x8F)
    }
}

/// A reset under way: the thresholds it was started with, and how far it has
/// come. There is always one request due.
#[derive(Debug)]
pub struct Mpr121Reset {
    touch: u8,
    release: u8,
    position: u8,
}

/// What becomes of a reset once a reply is in.
#[derive(Debug)]
pub enum ResetStep {
    /// The reset goes on: the state holds the next request.
    Continue(Mpr121Reset),
    /// The reset is over, completed or given up. Nothing more is to be sent.
    Finished(Result<(), Mpr121Error>),
}

impl Mpr121Reset {
    /// The touch threshold that this reset writes.
    pub closed spec fn touch(&self) -> u8 {
        self.touch
    }

    /// The release threshold that this reset writes.
    pub closed spec fn release(&self) -> u8 {
        self.release
    }

    /// How many requests of the script have been answered and accepted.
    pub closed spec fn position(&self) -> nat {
        self.position as nat
    }

    /// The request that is due.
    pub open spec fn pending(&self) -> BusRequest {
        reset_script(self.touch(), self.release())[self.position() as int]
    }

    #[verifier::type_invariant]
    spec fn within_script(&self) -> bool {
        self.position < RESET_LENGTH
    }

    /// A reset at its first request.
    pub fn new(touch: u8, release: u8) -> (reset: Self)
        ensures
            reset.touch() == touch,
            reset.release() == release,
            reset.position() == 0,
    {
        Mpr121Reset { touch, release, position: 0 }
    }

    /// The request that is due: send it, then hand the reply to `advance`.
    pub fn request(&self) -> (request: BusRequest)
        ensures
            self.position() < RESET_LENGTH,
            request == self.pending(),
    {
        proof {
            use_type_invariant(self);
        }
        request_at(self.touch, self.release, self.position)
    }

    /// Takes the reply to the request that was due.
    ///
    /// A reply that is not accepted ends the reset with its error. An accepted
    /// reply to the last request completes it. Any other accepted reply moves
    /// the reset on by one request, with the thresholds unchanged.
    pub fn advance(self, reply: BusReply) -> (step: ResetStep)
        ensures
            self.position() < RESET_LENGTH,
            match reset_verdict(self.pending(), reply) {
                Some(error) => step == ResetStep::Finished(Err(error)),
                None => if self.position() + 1 == RESET_LENGTH {
                    step == ResetStep::Finished(Ok(()))
                } else {
                    &&& step matches ResetStep::Continue(next)
                    &&& next.touch() == self.touch()
                    &&& next.release() == self.release()
                    &&& next.position() == self.position() + 1
                },
            },
    {
        proof {
            use_type_invariant(&self);
        }
        let request = self.request();
        let accepted = match reply {
            BusReply::Failed(e) => {
                return ResetStep::Finished(Err(Mpr121Error::Transport(e)));
            },
            BusReply::Written => matches!(request, BusRequest::WriteByte { .. }),
            BusReply::Slept => matches!(request, BusRequest::Sleep { .. }),
            BusReply::Word(_) => matches!(request, BusRequest::ReadWord { .. }),
            BusReply::Byte(value) => {
                if !matches!(request, BusRequest::ReadByte { .. }) {
                    false
                } else if value != CONFIG2_AFTER_RESET {
                    return ResetStep::Finished(Err(Mpr121Error::UnexpectedDeviceState));
                } else {
                    true
                }
            },
        };
        if !accepted {
            ResetStep::Finished(Err(Mpr121Error::UnexpectedReply))
        } else if self.position + 1 == RESET_LENGTH {
            ResetStep::Finished(Ok(()))
        } else {
            ResetStep::Continue(
                Mpr121Reset { touch: self.touch, release: self.release, position: self.position + 1 },
            )
        }
    }
}

} // verus!
