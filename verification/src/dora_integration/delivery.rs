//! Delivery of a prompt: which bridge takes it, and how often sending is
//! tried before the prompt is given up.

use vstd::prelude::*;

verus! {

/// How many times sending one prompt is tried at most.
pub const SEND_ATTEMPTS: u32 = 20;

/// Pause between two attempts, in milliseconds.
pub const RETRY_DELAY_MS: u64 = 150;

/// The bridges through which a prompt can enter the dataflow.
#[derive(Debug, Clone, Copy, PartialEq, Eq, Structural)]
pub enum PromptBridge {
    /// The prompt input that belongs to the speech pipeline alone.
    Dedicated,
    /// The prompt input that other pipelines use as well.
    Shared,
}

impl PromptBridge {
    /// The name under which the dispatcher knows the bridge.
    pub open spec fn spec_name(self) -> Seq<char> {
        match self {
            PromptBridge::Dedicated => "mofa-prompt-input-tts"@,
            PromptBridge::Shared => "mofa-prompt-input"@,
        }
    }

    /// The name under which the dispatcher knows the bridge.
    pub fn name(&self) -> (name: &'static str)
        ensures
            name@ == self.spec_name(),
    {
        match self {
            PromptBridge::Dedicated => "mofa-prompt-input-tts",
            PromptBridge::Shared => "mofa-prompt-input",
        }
    }
}

/// The output of the bridge on which a prompt is sent.
pub fn prompt_output() -> (output: &'static str)
    ensures
        output@ == "prompt"@,
{
    "prompt"
}

/// The bridge that takes a prompt: the dedicated one where the dispatcher has
/// it, else the shared one, else none.
pub open spec fn preferred_bridge(dedicated_present: bool, shared_present: bool) -> Option<
    PromptBridge,
> {
    if dedicated_present {
        Some(PromptBridge::Dedicated)
    } else if shared_present {
        Some(PromptBridge::Shared)
    } else {
        None
    }
}

/// Picks the bridge for a prompt from what the dispatcher offers. With
/// `None` the prompt is dropped at once: a missing bridge is not retried.
pub fn choose_bridge(dedicated_present: bool, shared_present: bool) -> (choice: Option<
    PromptBridge,
>)
    ensures
        choice == preferred_bridge(dedicated_present, shared_present),
{
    if dedicated_present {
        Some(PromptBridge::Dedicated)
    } else if shared_present {
        Some(PromptBridge::Shared)
    } else {
        None
    }
}

/// What follows from one attempt to send.
pub ghost enum Ruling {
    /// The prompt is through.
    Delivered,
    /// The attempt failed; another one follows after the pause.
    Retry,
    /// The attempt failed and was the last one.
    Exhausted,
}

/// The ruling on an attempt that was preceded by `made` failed ones.
pub open spec fn ruling(made: nat, delivered: bool) -> Ruling {
    if delivered {
        Ruling::Delivered
    } else if made + 1 < SEND_ATTEMPTS {
        Ruling::Retry
    } else {
        Ruling::Exhausted
    }
}

/// The attempts made so far to send one prompt, while another one is open.
#[derive(Debug)]
pub struct SendAttempts {
    made: u32,
}

/// What the host does after an attempt.
#[derive(Debug)]
pub enum Verdict {
    /// Nothing more: the prompt is through.
    Delivered,
    /// Wait `delay_ms` milliseconds, send again and record the result in
    /// `attempts`.
    Retry { delay_ms: u64, attempts: SendAttempts },
    /// Give the prompt up; `reason` is the last failure.
    Exhausted { reason: String },
}

impl SendAttempts {
    #[verifier::type_invariant]
    spec fn inv(self) -> bool {
        self.made < SEND_ATTEMPTS
    }

    /// The number of failed attempts so far.
    pub closed spec fn made(self) -> nat {
        self.made as nat
    }

    /// No attempt made yet.
    pub fn new() -> (attempts: SendAttempts)
        ensures
            attempts.made() == 0,
    {
        SendAttempts { made: 0 }
    }

    /// The number of failed attempts so far; always below [`SEND_ATTEMPTS`].
    pub fn failures(&self) -> (made: u32)
        ensures
            made == self.made(),
            made < SEND_ATTEMPTS,
    {
        proof {
            use_type_invariant(self);
        }
        self.made
    }

    /// Records the result of the attempt that was open and rules on what
    /// follows: success ends the sending, a failure is followed by a pause
    /// and another attempt, and the failure of the last attempt ends the
    /// sending with that failure's reason.
    pub fn record(self, result: Result<(), String>) -> (verdict: Verdict)
        ensures
            match ruling(self.made(), result is Ok) {
                Ruling::Delivered => verdict is Delivered,
                Ruling::Retry => verdict matches Verdict::Retry { delay_ms, attempts }
                    && delay_ms == RETRY_DELAY_MS && attempts.made() == self.made() + 1,
                Ruling::Exhausted => verdict matches Verdict::Exhausted { reason } && Err::<
                    (),
                    String,
                >(reason) == result,
            },
    {
        proof {
            use_type_invariant(&self);
        }
        match result {
            Ok(_) => Verdict::Delivered,
            Err(reason) => {
                if self.made + 1 < SEND_ATTEMPTS {
                    Verdict::Retry {
                        delay_ms: RETRY_DELAY_MS,
                        attempts: SendAttempts { made: self.made + 1 },
                    }
                } else {
                    Verdict::Exhausted { reason }
                }
            },
        }
    }
}

/// How the sending of one prompt went as a whole.
pub ghost struct Sending {
    /// Attempts made.
    pub attempts: nat,
    /// Time spent pausing between attempts, in milliseconds.
    pub waited_ms: nat,
    /// Whether the prompt got through.
    pub delivered: bool,
}

/// The sending of one prompt after `made` failed attempts, where the
/// attempts still to come end as `results` says, one entry per attempt and
/// `true` for success. The sending stops at the first success, at the last
/// attempt allowed, or where `results` ends.
pub open spec fn sending(made: nat, results: Seq<bool>) -> Sending
    decreases results.len(),
{
    if results.len() == 0 {
        Sending { attempts: 0, waited_ms: 0, delivered: false }
    } else {
        match ruling(made, results[0]) {
            Ruling::Delivered => Sending { attempts: 1, waited_ms: 0, delivered: true },
            Ruling::Exhausted => Sending { attempts: 1, waited_ms: 0, delivered: false },
            Ruling::Retry => {
                let rest = sending((made + 1) as nat, results.skip(1));
                Sending {
                    attempts: rest.attempts + 1,
                    waited_ms: rest.waited_ms + RETRY_DELAY_MS as nat,
                    delivered: rest.delivered,
                }
            },
        }
    }
}

/// However the attempts end, sending stops in bounded time: after `made`
/// failures at most `SEND_ATTEMPTS - made` further attempts are made, with a
/// pause before each but the first.
pub proof fn sending_is_bounded(made: nat, results: Seq<bool>)
    requires
        made < SEND_ATTEMPTS,
    ensures
        sending(made, results).attempts <= SEND_ATTEMPTS - made,
        sending(made, results).waited_ms <= RETRY_DELAY_MS * (SEND_ATTEMPTS - 1 - made),
    decreases results.len(),
{
    if results.len() > 0 && ruling(made, results[0]) is Retry {
        sending_is_bounded((made + 1) as nat, results.skip(1));
        assert(RETRY_DELAY_MS * (SEND_ATTEMPTS - 1 - (made + 1)) + RETRY_DELAY_MS == RETRY_DELAY_MS
            * (SEND_ATTEMPTS - 1 - made)) by (nonlinear_arith);
    }
}

/// A prompt blocks the worker for less than three seconds of pauses: twenty
/// attempts at most, and nineteen pauses of 150 milliseconds between them.
pub proof fn sending_takes_under_three_seconds(results: Seq<bool>)
    ensures
        sending(0, results).attempts <= 20,
        sending(0, results).waited_ms <= 2850,
{
    sending_is_bounded(0, results);
}

/// Sending goes on exactly as long as attempts fail: it delivers if and only
/// if one of the attempts it makes succeeds, and that attempt is its last.
pub proof fn sending_stops_at_first_success(made: nat, results: Seq<bool>)
    requires
        made < SEND_ATTEMPTS,
    ensures
        sending(made, results).attempts <= results.len(),
        forall|i: int| 0 <= i < sending(made, results).attempts - 1 ==> !results[i],
        sending(made, results).delivered <==> sending(made, results).attempts > 0
            && results[sending(made, results).attempts - 1],
    decreases results.len(),
{
    if results.len() > 0 && ruling(made, results[0]) is Retry {
        let rest = results.skip(1);
        sending_stops_at_first_success((made + 1) as nat, rest);
        assert forall|i: int| 0 <= i < sending(made, results).attempts - 1 implies !results[i] by {
            if i > 0 {
                assert(results[i] == rest[i - 1]);
            }
        }
        assert(sending((made + 1) as nat, rest).attempts > 0 ==> results[sending(made, results).attempts
            - 1] == rest[sending((made + 1) as nat, rest).attempts - 1]);
    }
}

} // verus!
