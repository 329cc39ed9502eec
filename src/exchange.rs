use vstd::prelude::*;
use crate::error::CacheError;
use crate::reply::{ack_of, decode_ack, Answer, Reply};

verus! {

/// What to do next in a sequence of commands.
#[derive(Clone, Copy, Debug, PartialEq, Eq)]
pub enum Step {
    /// Send the command at this position of the plan.
    Send(usize),
    /// Stop, with this outcome.
    Finished(Result<(), CacheError>),
}

/// The first failure among the replies, if any.
pub open spec fn first_failure(acks: Seq<Answer>) -> Option<CacheError>
    decreases acks.len(),
{
    if acks.len() == 0 {
        None
    } else {
        match ack_of(acks[0]) {
            Err(e) => Some(e),
            Ok(_) => first_failure(acks.drop_first()),
        }
    }
}

/// The replies, read as answers.
pub open spec fn answers_of(v: Seq<Reply>) -> Seq<Answer> {
    v.map_values(|r: Reply| r@)
}

/// What follows the given replies to the first commands of a plan of
/// `plan_len` commands: the first failure ends it, else the next command
/// is sent, and once all have succeeded it ends well.
pub open spec fn step_after(plan_len: nat, acks: Seq<Answer>) -> Step {
    match first_failure(acks) {
        Some(e) => Step::Finished(Err(e)),
        None => if acks.len() < plan_len {
            Step::Send(acks.len() as usize)
        } else {
            Step::Finished(Ok(()))
        },
    }
}

proof fn lemma_first_failure_extend(acks: Seq<Answer>, a: Answer)
    requires
        first_failure(acks) is None,
    ensures
        first_failure(acks.push(a)) == match ack_of(a) {
            Err(e) => Some(e),
            Ok(_) => None::<CacheError>,
        },
    decreases acks.len(),
{
    if acks.len() == 0 {
        assert(acks.push(a).drop_first() =~= Seq::<Answer>::empty());
    } else {
        assert(acks.push(a).drop_first() =~= acks.drop_first().push(a));
        lemma_first_failure_extend(acks.drop_first(), a);
    }
}

/// Decides the next step of a plan of `plan_len` commands, from the replies
/// to those sent so far, in order. Commands are sent one at a time, and
/// nothing is undone when one fails.
pub fn next_step(plan_len: usize, replies: &Vec<Reply>) -> (r: Step)
    requires
        replies.len() <= plan_len,
    ensures
        r == step_after(plan_len as nat, answers_of(replies@)),
{
    let ghost acks = answers_of(replies@);
    let mut i: usize = 0;
    while i < replies.len()
        invariant
            acks == answers_of(replies@),
            i <= replies.len(),
            first_failure(acks.subrange(0, i as int)) is None,
        decreases replies.len() - i,
    {
        proof {
            lemma_first_failure_extend(acks.subrange(0, i as int), acks[i as int]);
            assert(acks.subrange(0, i as int).push(acks[i as int]) =~= acks.subrange(0, i + 1));
        }
        match decode_ack(&replies[i]) {
            Err(e) => {
                proof {
                    lemma_first_failure_prefix(acks, (i + 1) as int);
                }
                return Step::Finished(Err(e));
            },
            Ok(_) => {},
        }
        i = i + 1;
    }
    assert(acks.subrange(0, i as int) =~= acks);
    if replies.len() < plan_len {
        Step::Send(replies.len())
    } else {
        Step::Finished(Ok(()))
    }
}

proof fn lemma_first_failure_prefix(acks: Seq<Answer>, n: int)
    requires
        0 <= n <= acks.len(),
        first_failure(acks.subrange(0, n)) is Some,
    ensures
        first_failure(acks) == first_failure(acks.subrange(0, n)),
    decreases n,
{
    if n > 0 {
        let p = acks.subrange(0, n);
        assert(p[0] == acks[0]);
        if ack_of(acks[0]) is Ok {
            assert(p.drop_first() =~= acks.drop_first().subrange(0, n - 1));
            lemma_first_failure_prefix(acks.drop_first(), n - 1);
        }
    }
}

} // verus!
