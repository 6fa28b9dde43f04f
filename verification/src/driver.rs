//! A whole resolution, with the outside work done by the caller's function.

use crate::chain::{Ambient, Handler, Outcome, Request, Stop};
use crate::laws::{resume_keeps_assurance, resume_makes_progress, resume_settles};
use vstd::prelude::*;

verus! {

/// `answer` replies to every request as the state `ambient` does.
pub open spec fn answers_as<F: Fn(&Request) -> Option<String>>(answer: F, ambient: Ambient) -> bool {
    forall|request: &Request, reply: Option<String>| #[trigger]
        answer.ensures((request,), reply) ==> reply.deep_view() == ambient.reply(request@)
}

/// Resolves `key` along the chain that starts at `handler`.
///
/// `answer` does the outside work: it is called once for each request that
/// the resolution stops at, in order, and replies with the variable's value
/// or the file's text, or with `None` where the variable is not set or the
/// file cannot be read. Whatever state outside `answer` stands for, the
/// result is the value that the resolution ends with under that state.
/// Where the chain ends in a default there is a value, whatever `answer`
/// replies.
pub fn resolve<H: Handler, F: Fn(&Request) -> Option<String>>(
    handler: &H,
    key: &str,
    answer: F,
) -> (value: Option<String>)
    requires
        forall|request: &Request| #[trigger] answer.requires((request,)),
    ensures
        forall|ambient: Ambient| #[trigger]
            answers_as(answer, ambient) ==> value.deep_view() == handler.first_stop(key@).settle(key@, ambient),
        handler.first_stop(key@).answer_assured() ==> value.is_some(),
{
    let mut outcome = handler.handle_request(key);
    loop
        invariant
            forall|request: &Request| #[trigger] answer.requires((request,)),
            forall|ambient: Ambient| #[trigger]
                answers_as(answer, ambient) ==> outcome@.settle(key@, ambient) == handler.first_stop(key@).settle(
                    key@,
                    ambient,
                ),
            handler.first_stop(key@).answer_assured() ==> outcome@.answer_assured(),
        decreases outcome@.requests_left(),
    {
        match outcome {
            Outcome::Resolved(value) => {
                return value;
            },
            Outcome::Pending { request, rest } => {
                let reply = answer(&request);
                let ghost given = reply.deep_view();
                let waiting = Outcome::Pending { request, rest };
                let ghost before = waiting@;
                outcome = waiting.resume(key, reply);
                proof {
                    resume_makes_progress(before, key@, given);
                    if before.answer_assured() {
                        resume_keeps_assurance(before, key@, given);
                    }
                    assert forall|ambient: Ambient| #[trigger] answers_as(answer, ambient) implies outcome@.settle(
                        key@,
                        ambient,
                    ) == handler.first_stop(key@).settle(key@, ambient) by {
                        resume_settles(before, key@, ambient);
                    }
                }
            },
        }
    }
}

} // verus!
