//! Whole runs of operations, from the first step to the last.
use crate::machine::{waits, KontView, Next, StepView, World};
use crate::protocol::{OutcomeView, RequestView};
use crate::resume::{apply_next, resume_next};
use vstd::prelude::*;

verus! {

/// What the host did for one request: the state that it left behind, and its
/// reply. The state can be any: Python code runs in between.
pub ghost struct Reply {
    pub world: World,
    pub outcome: OutcomeView,
}

/// Where an operation stands after the host's replies. Replies that come after its
/// end are not read.
#[verifier::opaque]
pub open spec fn drive(n: Next, replies: Seq<Reply>) -> Next
    decreases replies.len(),
{
    match n.step {
        StepView::Ask(_, ks) => if replies.len() == 0 {
            n
        } else {
            drive(
                resume_next(replies[0].world, ks, replies[0].outcome),
                replies.drop_first(),
            )
        },
        _ => n,
    }
}

/// How many of the replies an operation reads.
#[verifier::opaque]
pub open spec fn span(n: Next, replies: Seq<Reply>) -> nat
    decreases replies.len(),
{
    match n.step {
        StepView::Ask(_, ks) => if replies.len() == 0 {
            0
        } else {
            1 + span(
                resume_next(replies[0].world, ks, replies[0].outcome),
                replies.drop_first(),
            )
        },
        _ => 0,
    }
}

/// Whether an operation waits for the reply to `request`.
pub open spec fn asks_for(n: Next, request: RequestView) -> bool {
    n.step matches StepView::Ask(r, _) && r == request
}

/// An operation and the continuation that takes its outcome.
pub open spec fn followed(n: Next, k: KontView) -> Next {
    match n.step {
        StepView::Done(o) => apply_next(n.world, k, o),
        _ => waits(n, k),
    }
}

/// What the rest of a run is once the operation in front of `k` has come to `m`
/// and `rest` of the replies are left.
pub open spec fn drive_on(m: Next, k: KontView, rest: Seq<Reply>) -> Next {
    match m.step {
        StepView::Done(o) => drive(apply_next(m.world, k, o), rest),
        StepView::Ask(_, _) => waits(m, k),
        StepView::Panic(_) => m,
    }
}

/// How many of `rest` that reads.
pub open spec fn span_on(m: Next, k: KontView, rest: Seq<Reply>) -> nat {
    match m.step {
        StepView::Done(o) => span(apply_next(m.world, k, o), rest),
        _ => 0,
    }
}

/// A reply goes through the continuations above `k` first; `k` takes what they
/// come to.
pub proof fn resume_goes_upwards(w: World, k: KontView, ks: Seq<KontView>, o: OutcomeView)
    ensures
        resume_next(w, seq![k] + ks, o) == followed(resume_next(w, ks, o), k),
    decreases ks.len(),
{
    reveal(resume_next);
    let all = seq![k] + ks;
    if ks.len() == 0 {
        assert(all =~= seq![k]);
        let n = apply_next(w, k, o);
        assert(all.drop_last() =~= Seq::empty());
        match n.step {
            StepView::Done(o1) => {
                assert(resume_next(n.world, all.drop_last(), o1) == n);
            },
            StepView::Ask(request, inner) => {
                assert(all.drop_last() + inner =~= inner);
            },
            StepView::Panic(_) => {},
        }
    } else {
        assert(all.last() == ks.last());
        assert(all.drop_last() =~= seq![k] + ks.drop_last());
        let n = apply_next(w, ks.last(), o);
        match n.step {
            StepView::Done(o1) => {
                resume_goes_upwards(n.world, k, ks.drop_last(), o1);
            },
            StepView::Ask(request, inner) => {
                assert(all.drop_last() + inner =~= seq![k] + (ks.drop_last() + inner));
            },
            StepView::Panic(_) => {},
        }
    }
}

/// A run of an operation that a continuation follows is the run of the operation
/// and, if that ends with an outcome, the run of the continuation on it.
pub proof fn run_goes_on(n: Next, k: KontView, replies: Seq<Reply>)
    ensures
        span(n, replies) <= replies.len(),
        drive(followed(n, k), replies) == drive_on(
            drive(n, replies),
            k,
            replies.skip(span(n, replies) as int),
        ),
        span(followed(n, k), replies) == span(n, replies) + span_on(
            drive(n, replies),
            k,
            replies.skip(span(n, replies) as int),
        ),
    decreases replies.len(),
{
    reveal(drive);
    reveal(span);
    match n.step {
        StepView::Done(o) => {
            assert(replies.skip(0) =~= replies);
        },
        StepView::Panic(_) => {},
        StepView::Ask(request, ks) => {
            if replies.len() > 0 {
                let m = resume_next(replies[0].world, ks, replies[0].outcome);
                let rest = replies.drop_first();
                resume_goes_upwards(replies[0].world, k, ks, replies[0].outcome);
                run_goes_on(m, k, rest);
                assert(rest.skip(span(m, rest) as int) =~= replies.skip(
                    span(n, replies) as int,
                ));
            }
        },
    }
}

/// What is over stays as it is, whatever is replied; without replies nothing goes on.
pub broadcast proof fn run_stops(n: Next, replies: Seq<Reply>)
    requires
        !(n.step is Ask) || replies.len() == 0,
    ensures
        #[trigger] drive(n, replies) == n,
{
    reveal(drive);
}

/// No reply is read by what is over.
pub broadcast proof fn span_stops(n: Next, replies: Seq<Reply>)
    requires
        !(n.step is Ask) || replies.len() == 0,
    ensures
        #[trigger] span(n, replies) == 0,
{
    reveal(span);
}

/// Replies that come after the end of a run change nothing.
pub proof fn run_needs_no_more(n: Next, replies: Seq<Reply>, more: Seq<Reply>)
    requires
        !(drive(n, replies).step is Ask),
    ensures
        drive(n, replies + more) == drive(n, replies),
        span(n, replies + more) == span(n, replies),
    decreases replies.len(),
{
    reveal(drive);
    reveal(span);
    match n.step {
        StepView::Ask(_, ks) => {
            assert(replies.len() > 0);
            assert((replies + more).drop_first() =~= replies.drop_first() + more);
            run_needs_no_more(
                resume_next(replies[0].world, ks, replies[0].outcome),
                replies.drop_first(),
                more,
            );
        },
        _ => {},
    }
}

/// The host replies once to an operation that waits with the continuation `k`.
pub proof fn run_of_one_request(n: Next, k: KontView, replies: Seq<Reply>)
    requires
        n.step matches StepView::Ask(_, ks) && ks == seq![k],
        replies.len() > 0,
    ensures
        drive(n, replies) == drive(
            apply_next(replies[0].world, k, replies[0].outcome),
            replies.drop_first(),
        ),
        span(n, replies) == 1 + span(
            apply_next(replies[0].world, k, replies[0].outcome),
            replies.drop_first(),
        ),
{
    reveal(drive);
    reveal(span);
    reveal(resume_next);
    let r = replies[0];
    resume_goes_upwards(r.world, k, Seq::empty(), r.outcome);
    assert(seq![k] + Seq::<KontView>::empty() =~= seq![k]);
}

/// The reply to an operation that waits for nothing else is what it comes to.
pub proof fn run_of_last_request(n: Next, replies: Seq<Reply>)
    requires
        n.step matches StepView::Ask(_, ks) && ks.len() == 0,
        replies.len() > 0,
    ensures
        drive(n, replies) == (Next {
            world: replies[0].world,
            step: StepView::Done(replies[0].outcome),
        }),
        span(n, replies) == 1,
{
    reveal(drive);
    reveal(span);
    reveal(resume_next);
    let ks = n.step->Ask_1;
    let m = resume_next(replies[0].world, ks, replies[0].outcome);
    run_stops(m, replies.drop_first());
    span_stops(m, replies.drop_first());
}

} // verus!
