use vstd::prelude::*;
use crate::level::BatteryLevel;

verus! {

/// A notification is due when the level is not Normal and differs from the
/// level of the last notification shown.
pub open spec fn should_notify(last: Option<BatteryLevel>, level: BatteryLevel) -> bool {
    level !is Normal && last != Some(level)
}

/// The level of the last notification after `level` has been observed.
pub open spec fn latch_after(last: Option<BatteryLevel>, level: BatteryLevel) -> Option<BatteryLevel> {
    if should_notify(last, level) {
        Some(level)
    } else {
        last
    }
}

/// The latch before the observation at position `i`, starting unset.
pub open spec fn latch_before(levels: Seq<BatteryLevel>, i: int) -> Option<BatteryLevel>
    decreases i,
{
    if i <= 0 {
        None
    } else {
        latch_after(latch_before(levels, i - 1), levels[i - 1])
    }
}

/// Whether the observation at position `i` shows a notification.
pub open spec fn fires_at(levels: Seq<BatteryLevel>, i: int) -> bool {
    should_notify(latch_before(levels, i), levels[i])
}

/// The most recent level other than Normal among the observations.
pub open spec fn last_alert_level(levels: Seq<BatteryLevel>) -> Option<BatteryLevel>
    decreases levels.len(),
{
    if levels.len() == 0 {
        None
    } else if levels.last() is Normal {
        last_alert_level(levels.drop_last())
    } else {
        Some(levels.last())
    }
}

/// Position `k` starts a run of a level other than Normal right after Normal
/// observations, and that level is the one that was alerted before them.
pub open spec fn resumes_after_normal(levels: Seq<BatteryLevel>, k: int) -> bool {
    &&& 0 < k < levels.len()
    &&& levels[k - 1] is Normal
    &&& levels[k] !is Normal
    &&& last_alert_level(levels.take(k)) == Some(levels[k])
}

/// The latch always holds the most recent level other than Normal that was
/// observed, and is unset while none was.
pub proof fn lemma_latch_is_last_alert(levels: Seq<BatteryLevel>, i: int)
    requires
        0 <= i <= levels.len(),
    ensures
        latch_before(levels, i) == last_alert_level(levels.take(i)),
    decreases i,
{
    if i > 0 {
        lemma_latch_is_last_alert(levels, i - 1);
        assert(levels.take(i).drop_last() =~= levels.take(i - 1));
    } else {
        assert(levels.take(i) =~= Seq::<BatteryLevel>::empty());
    }
}

/// An observation shows a notification exactly when its level is not Normal
/// and differs from the most recent earlier level that was not Normal.
pub proof fn lemma_fires_on_new_alert_level(levels: Seq<BatteryLevel>, i: int)
    requires
        0 <= i < levels.len(),
    ensures
        fires_at(levels, i) <==> (levels[i] !is Normal && last_alert_level(levels.take(i)) != Some(
            levels[i],
        )),
{
    lemma_latch_is_last_alert(levels, i);
}

/// One notification per maximal run of a level other than Normal, shown at
/// the first observation of the run, and none while the level is Normal;
/// for every sequence in which no run returns, after Normal observations
/// only, to the level alerted just before them.
pub proof fn lemma_one_notification_per_run(levels: Seq<BatteryLevel>, i: int)
    requires
        0 <= i < levels.len(),
        forall|k: int| !#[trigger] resumes_after_normal(levels, k),
    ensures
        fires_at(levels, i) <==> (levels[i] !is Normal && (i == 0 || levels[i - 1] != levels[i])),
{
    lemma_fires_on_new_alert_level(levels, i);
    if i == 0 {
        assert(levels.take(0) =~= Seq::<BatteryLevel>::empty());
    } else {
        let prefix = levels.take(i);
        assert(prefix.last() == levels[i - 1]);
        assert(!resumes_after_normal(levels, i));
    }
}

/// Leaving a level for another alert level re-arms it: coming back to the
/// first level notifies again, whatever was notified before.
pub proof fn lemma_refires_after_other_alert(
    last: Option<BatteryLevel>,
    level: BatteryLevel,
    other: BatteryLevel,
)
    requires
        level !is Normal,
        other !is Normal,
        other != level,
    ensures
        should_notify(latch_after(latch_after(last, level), other), level),
{
}

/// Once set, the latch is never unset, and it changes only to the observed
/// level, when that observation notifies.
pub proof fn lemma_latch_only_moves_on_notification(
    last: Option<BatteryLevel>,
    level: BatteryLevel,
)
    ensures
        last is Some ==> latch_after(last, level) is Some,
        latch_after(last, level) != last ==> should_notify(last, level) && latch_after(last, level)
            == Some(level),
{
}

} // verus!
