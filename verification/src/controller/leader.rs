//! Leader election: how long a replica waits for the lease, and when it gives it
//! up.

use vstd::prelude::*;

use crate::text;

verus! {

pub const LEASE_NAME: &'static str = "msb-controller";

/// Consecutive errors after which a standby gives up. A standby sees the lease
/// held by another indefinitely, so only errors are capped: persistent ones mean a
/// misconfiguration that should surface.
pub const MAX_ACQUIRE_ERRORS: u32 = 5;

/// Consecutive errors after which a leader assumes that it lost the lease. One
/// error is no proof of that: the lease outlives a renewal that is missed.
pub const MAX_RENEW_ERRORS: u32 = 2;

/// Renewals per lease lifetime.
pub const RENEWALS_PER_LEASE: u128 = 3;

/// What an attempt to acquire or renew the lease came to.
#[derive(Clone, Copy, Debug, PartialEq, Eq, Structural)]
pub enum Attempt {
    Acquired,
    NotAcquired,
    Failed,
}

/// What a standby does next.
#[derive(Clone, Copy, Debug, PartialEq, Eq, Structural)]
pub enum AcquireStep {
    /// It leads.
    Lead,
    /// It tries again; so many attempts in a row have failed.
    Wait { errors: u32 },
    /// It gives up.
    GiveUp,
}

/// What a leader does next.
#[derive(Clone, Copy, Debug, PartialEq, Eq, Structural)]
pub enum RenewStep {
    /// It leads on; so many attempts in a row have failed.
    Hold { errors: u32 },
    /// It steps down.
    StepDown,
}

/// Why a replica stops contending for the lease.
#[derive(Clone, Copy, Debug, PartialEq, Eq, Structural)]
pub enum Outcome {
    WorkFinished,
    LostLease,
    ShutdownWhileStandby,
}

/// What a standby does after an attempt, `errors` having failed in a row before.
pub fn after_acquire(errors: u32, attempt: Attempt) -> (step: AcquireStep)
    requires
        errors < MAX_ACQUIRE_ERRORS,
    ensures
        step == (match attempt {
            Attempt::Acquired => AcquireStep::Lead,
            Attempt::NotAcquired => AcquireStep::Wait { errors: 0 },
            Attempt::Failed => if errors + 1 >= MAX_ACQUIRE_ERRORS {
                AcquireStep::GiveUp
            } else {
                AcquireStep::Wait { errors: (errors + 1) as u32 }
            },
        }),
        step matches AcquireStep::Wait { errors: n } ==> n < MAX_ACQUIRE_ERRORS,
{
    match attempt {
        Attempt::Acquired => AcquireStep::Lead,
        Attempt::NotAcquired => AcquireStep::Wait { errors: 0 },
        Attempt::Failed => if errors + 1 >= MAX_ACQUIRE_ERRORS {
            AcquireStep::GiveUp
        } else {
            AcquireStep::Wait { errors: errors + 1 }
        },
    }
}

/// What a leader does after an attempt, `errors` having failed in a row before.
pub open spec fn renewed(errors: u32, attempt: Attempt) -> RenewStep {
    match attempt {
        Attempt::Acquired => RenewStep::Hold { errors: 0 },
        Attempt::NotAcquired => RenewStep::StepDown,
        Attempt::Failed => if errors + 1 >= MAX_RENEW_ERRORS {
            RenewStep::StepDown
        } else {
            RenewStep::Hold { errors: (errors + 1) as u32 }
        },
    }
}

/// What a leader does after an attempt to renew. That another holds the lease is a
/// definitive loss; an error is tolerated, up to [`MAX_RENEW_ERRORS`] in a row; a
/// success resets the count.
pub fn after_renew(errors: u32, attempt: Attempt) -> (step: RenewStep)
    requires
        errors < MAX_RENEW_ERRORS,
    ensures
        step == renewed(errors, attempt),
        step matches RenewStep::Hold { errors: n } ==> n < MAX_RENEW_ERRORS,
{
    match attempt {
        Attempt::Acquired => RenewStep::Hold { errors: 0 },
        Attempt::NotAcquired => RenewStep::StepDown,
        Attempt::Failed => if errors + 1 >= MAX_RENEW_ERRORS {
            RenewStep::StepDown
        } else {
            RenewStep::Hold { errors: errors + 1 }
        },
    }
}

/// How a standby that gives up reports it.
pub fn give_up_text(error: &str) -> (out: String)
    ensures
        out@ == "gave up acquiring leadership after "@ + text::dec(MAX_ACQUIRE_ERRORS as nat)
            + " consecutive errors: "@ + error@,
{
    "gave up acquiring leadership after ".to_owned().concat(
        text::decimal(MAX_ACQUIRE_ERRORS as u64).as_str(),
    ).concat(" consecutive errors: ").concat(error)
}

/// The time between two renewals: a third of the lease lifetime, so that a missed
/// renewal does not drop the lease. In nanoseconds.
pub fn renew_interval(lease_ttl: u128) -> (out: u128)
    ensures
        out == lease_ttl / RENEWALS_PER_LEASE,
{
    lease_ttl / RENEWALS_PER_LEASE
}

/// What becomes of a leader over a run of attempts, `errors` having failed in a row
/// before them.
pub open spec fn led(errors: u32, attempts: Seq<Attempt>) -> RenewStep
    decreases attempts.len(),
{
    if attempts.len() == 0 {
        RenewStep::Hold { errors }
    } else {
        match renewed(errors, attempts[0]) {
            RenewStep::Hold { errors: n } => led(n, attempts.drop_first()),
            RenewStep::StepDown => RenewStep::StepDown,
        }
    }
}

/// Whether this attempt and the next one fail.
pub open spec fn fails_twice(attempts: Seq<Attempt>, i: int) -> bool {
    0 <= i < attempts.len() - 1 && attempts[i] == Attempt::Failed && attempts[i + 1]
        == Attempt::Failed
}

/// Whether this attempt finds the lease held by another.
pub open spec fn taken(attempts: Seq<Attempt>, i: int) -> bool {
    0 <= i < attempts.len() && attempts[i] == Attempt::NotAcquired
}

/// Whether a run of attempts costs a fresh leader the lease: another holds it, or
/// two attempts in a row fail.
pub open spec fn loses(attempts: Seq<Attempt>) -> bool {
    ||| exists|i: int| taken(attempts, i)
    ||| exists|i: int| fails_twice(attempts, i)
}

/// What costs the lease happens at the first attempt or after it.
proof fn loses_at_once_or_later(attempts: Seq<Attempt>)
    requires
        attempts.len() > 0,
    ensures
        loses(attempts) <==> taken(attempts, 0) || fails_twice(attempts, 0) || loses(
            attempts.drop_first(),
        ),
{
    let rest = attempts.drop_first();
    if exists|i: int| taken(attempts, i) {
        let i = choose|i: int| taken(attempts, i);
        if i > 0 {
            assert(taken(rest, i - 1));
        }
    }
    if exists|i: int| fails_twice(attempts, i) {
        let i = choose|i: int| fails_twice(attempts, i);
        if i > 0 {
            assert(fails_twice(rest, i - 1));
        }
    }
    if exists|i: int| taken(rest, i) {
        let i = choose|i: int| taken(rest, i);
        assert(taken(attempts, i + 1));
    }
    if exists|i: int| fails_twice(rest, i) {
        let i = choose|i: int| fails_twice(rest, i);
        assert(fails_twice(attempts, i + 1));
    }
}

/// A leader steps down exactly where another holds the lease or two renewals in a
/// row fail; one whose last renewal failed, also where the next one fails.
pub proof fn leader_steps_down_exactly_when_it_lost(attempts: Seq<Attempt>)
    ensures
        led(0, attempts) == RenewStep::StepDown <==> loses(attempts),
        led(1, attempts) == RenewStep::StepDown <==> loses(attempts) || (attempts.len() > 0
            && attempts[0] == Attempt::Failed),
    decreases attempts.len(),
{
    if attempts.len() > 0 {
        leader_steps_down_exactly_when_it_lost(attempts.drop_first());
        loses_at_once_or_later(attempts);
    }
}

} // verus!
