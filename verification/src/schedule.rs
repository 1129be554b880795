//! The fixed job table of the background scheduler: two daily jobs, each a
//! cron expression paired with the operation it fires. Registered once at
//! startup; a firing's failure is terminal only for that firing.

use vstd::prelude::*;
use crate::transitions::Operation;

verus! {

/// One recurring job: a six-field cron expression and the operation every
/// firing runs. Immutable after registration.
pub struct ScheduledJob {
    pub cron: String,
    pub op: Operation,
}

/// "00:00 every day", as a six-field cron expression.
pub open spec fn midnight_off_cron() -> Seq<char> {
    "0 0 0 * * *"@
}

/// "17:00 every day", as a six-field cron expression.
pub open spec fn evening_on_cron() -> Seq<char> {
    "0 0 17 * * *"@
}

/// The complete job table: turn the device off daily at midnight, and turn
/// it on plainly daily at 17:00. Nothing else is ever scheduled.
pub fn scheduled_jobs() -> (r: Vec<ScheduledJob>)
    ensures
        r@.len() == 2,
        r@[0].cron@ == midnight_off_cron(),
        r@[0].op == Operation::TurnOff,
        r@[1].cron@ == evening_on_cron(),
        r@[1].op == Operation::TurnOnPlain,
{
    let mut r: Vec<ScheduledJob> = Vec::new();
    r.push(ScheduledJob { cron: "0 0 0 * * *".to_owned(), op: Operation::TurnOff });
    r.push(ScheduledJob { cron: "0 0 17 * * *".to_owned(), op: Operation::TurnOnPlain });
    r
}

} // verus!
