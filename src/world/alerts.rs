use vstd::prelude::*;

use crate::screen::translations::Translation;

verus! {

/// A non-fatal notice that an action was skipped or that production was wasted.
#[derive(Copy, Clone, PartialEq, Eq, Structural, Debug)]
pub enum Alert {
    InefficientCleaners,
    CannotClean,
    InsufficientMoney,
    CannotSell,
}

impl Alert {
    /// The message for this alert in `translation`.
    pub fn to_string<'a>(&self, translation: &'a Translation) -> (r: &'a str)
        ensures
            r == match *self {
                Alert::InefficientCleaners => translation.alerts.inefficient_cleaners,
                Alert::CannotClean => translation.alerts.cannot_clean,
                Alert::InsufficientMoney => translation.alerts.insufficient_money,
                Alert::CannotSell => translation.alerts.cannot_sell,
            },
    {
        match self {
            Alert::InefficientCleaners => translation.alerts.inefficient_cleaners,
            Alert::CannotClean => translation.alerts.cannot_clean,
            Alert::InsufficientMoney => translation.alerts.insufficient_money,
            Alert::CannotSell => translation.alerts.cannot_sell,
        }
    }
}

/// Milliseconds on the host's monotonic clock.
pub type Millis = u64;

/// How long an alert other than `InefficientCleaners` stays in the log.
pub const ALERT_PERSISTENCE: Millis = 5000;

/// Whether a logged alert is kept by the pruning done at the start of a tick at `now`:
/// `InefficientCleaners` never is, any other kind while its persistence window lasts.
pub open spec fn survives(entry: (Millis, Alert), now: Millis) -> bool {
    entry.1 != Alert::InefficientCleaners && entry.0 + ALERT_PERSISTENCE >= now
}

pub open spec fn pruned(alerts: Seq<(Millis, Alert)>, now: Millis) -> Seq<(Millis, Alert)> {
    alerts.filter(|e: (Millis, Alert)| survives(e, now))
}

/// The alerts of `alerts` that survive a tick at `now`, in their order.
pub fn prune_alerts(alerts: &Vec<(Millis, Alert)>, now: Millis) -> (r: Vec<(Millis, Alert)>)
    ensures
        r@ == pruned(alerts@, now),
{
    let mut kept: Vec<(Millis, Alert)> = Vec::new();
    let mut i: usize = 0;
    while i < alerts.len()
        invariant
            i <= alerts@.len(),
            kept@ == pruned(alerts@.subrange(0, i as int), now),
        decreases alerts@.len() - i,
    {
        let entry = alerts[i];
        proof {
            let prefix = alerts@.subrange(0, i as int);
            let next = alerts@.subrange(0, i as int + 1);
            assert(next.drop_last() =~= prefix);
            assert(next.last() == entry);
            reveal(Seq::filter);
        }
        let keep = entry.1 != Alert::InefficientCleaners && (now <= entry.0 || now - entry.0
            <= ALERT_PERSISTENCE);
        if keep {
            kept.push(entry);
        }
        i = i + 1;
    }
    assert(alerts@.subrange(0, alerts@.len() as int) =~= alerts@);
    kept
}

} // verus!
