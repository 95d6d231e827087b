//! Whole resets: what is sent and how it ends, for any way the bus may
//! answer.
//!
//! [`reset_run`] plays a reset against a given list of replies, the way a
//! caller does who sends each request that is due and hands back the reply.
//! The lemmas below say what such a run looks like.

use crate::bus::BusReply;
use crate::bus::BusRequest;
use crate::error::Mpr121Error;
use crate::reset::reset_opening;
use crate::reset::reset_script;
use crate::reset::reset_verdict;
use crate::reset::Mpr121Reset;
use crate::reset::ResetStep;
use crate::reset::RESET_LENGTH;
use vstd::prelude::*;

verus! {

/// The course of a reset.
pub struct ResetRun {
    /// The requests that were sent, in order.
    pub issued: Seq<BusRequest>,
    /// How the reset ended, or `None` if the replies ran out before it did.
    pub outcome: Option<Result<(), Mpr121Error>>,
}

/// The course of a reset that stands at `position` and gets `replies` in
/// turn: the request that is due is sent; the reply to it ends the reset or
/// moves it on by one request.
pub open spec fn reset_run_from(
    touch: u8,
    release: u8,
    position: nat,
    replies: Seq<BusReply>,
) -> ResetRun
    decreases replies.len(),
{
    let request = reset_script(touch, release)[position as int];
    if replies.len() == 0 {
        ResetRun { issued: seq![request], outcome: None }
    } else {
        match reset_verdict(request, replies[0]) {
            Some(error) => ResetRun { issued: seq![request], outcome: Some(Err(error)) },
            None => if position + 1 == RESET_LENGTH {
                ResetRun { issued: seq![request], outcome: Some(Ok(())) }
            } else {
                let rest = reset_run_from(touch, release, position + 1, replies.skip(1));
                ResetRun { issued: seq![request] + rest.issued, outcome: rest.outcome }
            },
        }
    }
}

/// The course of a reset from its first request.
pub open spec fn reset_run(touch: u8, release: u8, replies: Seq<BusReply>) -> ResetRun {
    reset_run_from(touch, release, 0, replies)
}

impl Mpr121Reset {
    /// Plays the rest of this reset against replies prepared in advance,
    /// without a bus: what would be sent, in order, and how the reset would
    /// end. The end is `None` where the replies run out first; the request
    /// then due is the last one listed.
    pub fn rehearse(self, replies: Vec<BusReply>) -> (run: (
        Vec<BusRequest>,
        Option<Result<(), Mpr121Error>>,
    ))
        ensures
            run.0@ == reset_run_from(
                self.touch(),
                self.release(),
                self.position(),
                replies@,
            ).issued,
            run.1 == reset_run_from(
                self.touch(),
                self.release(),
                self.position(),
                replies@,
            ).outcome,
    {
        let ghost whole = reset_run_from(self.touch(), self.release(), self.position(), replies@);
        let ghost touch = self.touch();
        let ghost release = self.release();
        let mut issued: Vec<BusRequest> = Vec::new();
        let mut state = self;
        let mut rest = replies;
        while rest.len() > 0
            invariant
                whole == reset_run_from(self.touch(), self.release(), self.position(), replies@),
                state.touch() == touch,
                state.release() == release,
                whole.issued == issued@ + reset_run_from(
                    touch,
                    release,
                    state.position(),
                    rest@,
                ).issued,
                whole.outcome == reset_run_from(touch, release, state.position(), rest@).outcome,
            decreases rest.len(),
        {
            issued.push(state.request());
            let reply = rest.remove(0);
            match state.advance(reply) {
                ResetStep::Finished(result) => {
                    return (issued, Some(result));
                },
                ResetStep::Continue(next) => {
                    state = next;
                },
            }
        }
        issued.push(state.request());
        (issued, None)
    }
}

/// How a reset ends at a request whose reply is `reply`, if it ends there.
spec fn ending(request: BusRequest, reply: BusReply) -> Result<(), Mpr121Error> {
    match reset_verdict(request, reply) {
        Some(error) => Err(error),
        None => Ok(()),
    }
}

/// A run from `position` whose replies are accepted up to request `last`,
/// and which ends there, has sent the script from `position` through `last`.
proof fn lemma_run_from(touch: u8, release: u8, position: int, replies: Seq<BusReply>, last: int)
    requires
        0 <= position <= last < RESET_LENGTH,
        replies.len() > last - position,
        forall|i: int|
            position <= i < last ==> reset_verdict(
                reset_script(touch, release)[i],
                #[trigger] replies[i - position],
            ) is None,
        last + 1 == RESET_LENGTH || reset_verdict(
            reset_script(touch, release)[last],
            replies[last - position],
        ) is Some,
    ensures
        reset_run_from(touch, release, position as nat, replies) == (ResetRun {
            issued: reset_script(touch, release).subrange(position, last + 1),
            outcome: Some(ending(reset_script(touch, release)[last], replies[last - position])),
        }),
    decreases last - position,
{
    let script = reset_script(touch, release);
    if position == last {
        assert(seq![script[position]] =~= script.subrange(position, last + 1));
    } else {
        let rest = replies.skip(1);
        assert(reset_verdict(script[position], replies[position - position]) is None);
        assert forall|i: int| position + 1 <= i < last implies reset_verdict(
            script[i],
            #[trigger] rest[i - (position + 1)],
        ) is None by {
            assert(rest[i - (position + 1)] == replies[i - position]);
        }
        lemma_run_from(touch, release, position + 1, rest, last);
        assert(seq![script[position]] + script.subrange(position + 1, last + 1)
            =~= script.subrange(position, last + 1));
    }
}

/// The first reply that is not accepted ends the reset: what was sent is
/// the script up to and including the request it answers, and the reset
/// ends with the error of that reply.
pub proof fn lemma_reset_ends_at_first_rejection(
    touch: u8,
    release: u8,
    replies: Seq<BusReply>,
    last: int,
)
    requires
        0 <= last < RESET_LENGTH,
        last < replies.len(),
        forall|i: int|
            0 <= i < last ==> reset_verdict(reset_script(touch, release)[i], #[trigger] replies[i])
                is None,
        reset_verdict(reset_script(touch, release)[last], replies[last]) is Some,
    ensures
        reset_run(touch, release, replies).issued == reset_script(touch, release).take(last + 1),
        reset_run(touch, release, replies).outcome == Some(
            Err::<(), Mpr121Error>(
                reset_verdict(reset_script(touch, release)[last], replies[last])->0,
            ),
        ),
{
    lemma_run_from(touch, release, 0, replies, last);
}

/// A reset whose every reply is accepted sends the whole script, in order,
/// whatever the thresholds are, and completes.
pub proof fn lemma_reset_completes(touch: u8, release: u8, replies: Seq<BusReply>)
    requires
        replies.len() >= RESET_LENGTH,
        forall|i: int|
            0 <= i < RESET_LENGTH ==> reset_verdict(
                reset_script(touch, release)[i],
                #[trigger] replies[i],
            ) is None,
    ensures
        reset_run(touch, release, replies) == (ResetRun {
            issued: reset_script(touch, release),
            outcome: Some(Ok(())),
        }),
{
    let script = reset_script(touch, release);
    lemma_run_from(touch, release, 0, replies, RESET_LENGTH - 1);
    assert(script.subrange(0, RESET_LENGTH as int) =~= script);
}

/// A transfer that fails ends the reset at once with the transport's own
/// error: the failed request is the last one sent.
pub proof fn lemma_reset_aborts_on_failure(
    touch: u8,
    release: u8,
    replies: Seq<BusReply>,
    last: int,
    error: i2cdev::linux::LinuxI2CError,
)
    requires
        0 <= last < RESET_LENGTH,
        last < replies.len(),
        forall|i: int|
            0 <= i < last ==> reset_verdict(reset_script(touch, release)[i], #[trigger] replies[i])
                is None,
        replies[last] == BusReply::Failed(error),
    ensures
        reset_run(touch, release, replies) == (ResetRun {
            issued: reset_script(touch, release).take(last + 1),
            outcome: Some(Err(Mpr121Error::Transport(error))),
        }),
{
    lemma_reset_ends_at_first_rejection(touch, release, replies, last);
}

/// Whether `request` writes to a threshold register or to a baseline filter
/// register.
pub open spec fn writes_threshold_or_filter(request: BusRequest) -> bool {
    request matches BusRequest::WriteByte { register, .. } && (0x2B <= register <= 0x35 || 0x41
        <= register <= 0x58)
}

/// A chip that does not show the configuration of a fresh reset ends the
/// reset with `UnexpectedDeviceState` after the opening: no threshold and no
/// filter register has been written by then.
pub proof fn lemma_reset_stops_at_wrong_state(
    touch: u8,
    release: u8,
    replies: Seq<BusReply>,
    value: u8,
)
    requires
        replies.len() >= 4,
        replies[0] == BusReply::Written,
        replies[1] == BusReply::Slept,
        replies[2] == BusReply::Written,
        replies[3] == BusReply::Byte(value),
        value != 0x24,
    ensures
        reset_run(touch, release, replies) == (ResetRun {
            issued: reset_opening(),
            outcome: Some(Err(Mpr121Error::UnexpectedDeviceState)),
        }),
        forall|i: int|
            0 <= i < reset_run(touch, release, replies).issued.len()
                ==> !writes_threshold_or_filter(
                #[trigger] reset_run(touch, release, replies).issued[i],
            ),
{
    let script = reset_script(touch, release);
    lemma_reset_ends_at_first_rejection(touch, release, replies, 3);
    assert(script.take(4) =~= reset_opening());
}

} // verus!
