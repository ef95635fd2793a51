//! Waiting for the node's cache before a boot: a boot never pulls, so the cache must
//! be there first.

use vstd::prelude::*;

use crate::collections;

verus! {

/// How long a cold pull may take before the pod fails.
pub const DEADLINE_SECS: u64 = 300;

/// How long to wait between two looks.
pub const POLL_MILLIS: u64 = 250;

/// What to do after a look at the cache.
#[derive(Debug, PartialEq)]
pub enum WaitStep {
    /// The cache is there.
    Boot,
    /// Give up, and why.
    Fail(String),
    /// Look again after a while.
    Poll,
}

#[verifier::ext_equal]
pub enum WaitStepView {
    Boot,
    Fail(Seq<char>),
    Poll,
}

impl View for WaitStep {
    type V = WaitStepView;

    open spec fn view(&self) -> WaitStepView {
        match *self {
            WaitStep::Boot => WaitStepView::Boot,
            WaitStep::Fail(e) => WaitStepView::Fail(e@),
            WaitStep::Poll => WaitStepView::Poll,
        }
    }
}

/// What to do after a look at the cache: the ready marker wins, then the failure
/// marker, then the deadline.
pub open spec fn wait_step(
    ready: bool,
    failed: Option<Seq<char>>,
    waited_millis: int,
    image: Seq<char>,
) -> WaitStepView {
    if ready {
        WaitStepView::Boot
    } else if failed is Some {
        WaitStepView::Fail("daemon failed to pull "@ + image + ": "@ + failed->0)
    } else if waited_millis >= DEADLINE_SECS * 1000 {
        WaitStepView::Fail("cache for "@ + image + " not ready after 300s"@)
    } else {
        WaitStepView::Poll
    }
}

/// What to do after a look at the cache: whether the ready marker is there, what the
/// failure marker says where it can be read, and how long the wait has been.
pub fn wait(ready: bool, failed: Option<String>, waited_millis: u128, image: &str) -> (r: WaitStep)
    ensures
        r@ == wait_step(ready, collections::opt(failed), waited_millis as int, image@),
{
    if ready {
        return WaitStep::Boot;
    }
    match failed {
        Some(reason) => WaitStep::Fail(
            "daemon failed to pull ".to_owned().concat(image).concat(": ").concat(
                reason.as_str(),
            ),
        ),
        None => if waited_millis >= 300_000 {
            WaitStep::Fail(
                "cache for ".to_owned().concat(image).concat(" not ready after 300s"),
            )
        } else {
            WaitStep::Poll
        },
    }
}

/// No wait goes on past the deadline, and none ends in a boot without the cache.
pub proof fn the_wait_is_bounded(
    ready: bool,
    failed: Option<Seq<char>>,
    waited_millis: int,
    image: Seq<char>,
)
    ensures
        wait_step(ready, failed, waited_millis, image) == WaitStepView::Poll ==> waited_millis
            < DEADLINE_SECS * 1000,
        wait_step(ready, failed, waited_millis, image) == WaitStepView::Boot <==> ready,
{
}

/// What ends a wait: the cache, which is waited for no longer once it is there, whatever
/// else; else a failure that the daemon reports, which is told; else the deadline, of five
/// minutes. Until then it goes on.
pub proof fn what_ends_a_wait(
    ready: bool,
    failed: Option<Seq<char>>,
    waited_millis: int,
    image: Seq<char>,
)
    ensures
        ({
            let step = wait_step(ready, failed, waited_millis, image);
            &&& step is Boot <==> ready
            &&& step is Poll <==> !ready && failed is None && waited_millis < 300_000
            &&& !ready && failed is Some ==> step == WaitStepView::Fail(
                "daemon failed to pull "@ + image + ": "@ + failed->0,
            )
        }),
{
}

} // verus!
