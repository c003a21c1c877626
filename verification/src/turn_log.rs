//! The turn log of a session: an append-only list of the events of each
//! turn, in the order of the turns.
//!
//! The events of a resolution are filed under the number that the turn had
//! before the resolution: one entry for each turn number, with the events
//! that were produced while that turn was resolved. Turn numbers do not go
//! back: resolutions of an earlier turn than the last entry's are not
//! filed at all.

use crate::text::clone_strings;
use crate::ticks::{all_events, ResolvedTurn, ResolvedTurnModel};
use crate::types::{TurnLog, TurnLogModel};
use vstd::prelude::*;

verus! {

/// The turn numbers of a log increase strictly from entry to entry.
pub open spec fn turn_numbers_increasing(logs: Seq<TurnLogModel>) -> bool {
    forall|i: int, j: int|
        0 <= i < j < logs.len() ==> (#[trigger] logs[i]).turn_number < (
        #[trigger] logs[j]).turn_number
}

/// All events of a log, in order.
pub open spec fn log_events(logs: Seq<TurnLogModel>) -> Seq<Seq<char>>
    decreases logs.len(),
{
    if logs.len() == 0 {
        Seq::empty()
    } else {
        log_events(logs.drop_last()) + logs.last().events
    }
}

/// Whether the events of a resolution open a new entry: the log is empty,
/// or the resolution was of a later turn than the last entry's.
pub open spec fn opens_entry(logs: Seq<TurnLogModel>, turn: ResolvedTurnModel) -> bool {
    logs.len() == 0 || logs.last().turn_number < turn.turn_number
}

/// The log after the events of one resolution have been filed.
///
/// A resolution without events leaves the log as it is. Events of a later
/// turn than the last entry's open a new entry, stamped `now`. Events of
/// the turn of the last entry are added to that entry, which keeps its
/// turn number and its stamp.
///
/// Events of an earlier turn than the last entry's have no entry to go to.
/// [`turns_follow`] says whether the resolutions are free of them, and a
/// session files only such resolutions: [`lemma_filed_by_turn`]. On
/// resolutions that are not, this function adds to the last entry, so that
/// the turn numbers of the log stay in order whatever is handed in.
pub open spec fn log_with_turn(logs: Seq<TurnLogModel>, turn: ResolvedTurnModel, now: i64) -> Seq<
    TurnLogModel,
> {
    if turn.events.len() == 0 {
        logs
    } else if opens_entry(logs, turn) {
        logs.push(
            TurnLogModel { turn_number: turn.turn_number, events: turn.events, timestamp: now },
        )
    } else {
        logs.update(
            logs.len() - 1,
            TurnLogModel { events: logs.last().events + turn.events, ..logs.last() },
        )
    }
}

/// The log after the events of several resolutions have been filed, in
/// order.
pub open spec fn log_with_turns(
    logs: Seq<TurnLogModel>,
    turns: Seq<ResolvedTurnModel>,
    now: i64,
) -> Seq<TurnLogModel>
    decreases turns.len(),
{
    if turns.len() == 0 {
        logs
    } else {
        log_with_turn(log_with_turns(logs, turns.drop_last(), now), turns.last(), now)
    }
}

/// The entries that a request for events is answered with: the whole log,
/// or its last `last_turns` entries where it has more.
pub open spec fn recent_logs(logs: Seq<TurnLogModel>, last_turns: Option<u32>) -> Seq<
    TurnLogModel,
> {
    match last_turns {
        Some(n) => if logs.len() > n {
            logs.subrange(logs.len() - n, logs.len() as int)
        } else {
            logs
        },
        None => logs,
    }
}

/// The turn number of the last entry of a log, if it has one.
pub open spec fn last_number(logs: Seq<TurnLogModel>) -> Option<u32> {
    if logs.len() == 0 {
        None
    } else {
        Some(logs.last().turn_number)
    }
}

/// Whether a resolution may be filed after an entry of the given turn
/// number: it has no events, or there is no entry yet, or its turn is not
/// earlier than that of the entry.
pub open spec fn turn_follows(last: Option<u32>, turn: ResolvedTurnModel) -> bool {
    turn.events.len() == 0 || (last matches Some(n) ==> n <= turn.turn_number)
}

/// The turn number of the last entry once the events of a resolution have
/// been filed.
pub open spec fn number_after(last: Option<u32>, turn: ResolvedTurnModel) -> Option<u32> {
    if turn.events.len() == 0 {
        last
    } else {
        match last {
            Some(n) => if n < turn.turn_number {
                Some(turn.turn_number)
            } else {
                last
            },
            None => Some(turn.turn_number),
        }
    }
}

/// The turn number of the last entry once the events of several
/// resolutions have been filed, in order.
pub open spec fn number_after_all(last: Option<u32>, turns: Seq<ResolvedTurnModel>) -> Option<u32>
    decreases turns.len(),
{
    if turns.len() == 0 {
        last
    } else {
        number_after(number_after_all(last, turns.drop_last()), turns.last())
    }
}

/// Whether the turn numbers never go back: each of the resolutions, filed
/// in order after an entry of the given turn number, is of the turn of the
/// last entry or of a later one.
pub open spec fn turns_follow(last: Option<u32>, turns: Seq<ResolvedTurnModel>) -> bool
    decreases turns.len(),
{
    turns.len() == 0 || (turns_follow(last, turns.drop_last()) && turn_follows(
        number_after_all(last, turns.drop_last()),
        turns.last(),
    ))
}

/// Whether the turn numbers of the resolutions never go back behind the
/// log and one another.
pub fn turns_follow_log(logs: &Vec<TurnLog>, turns: &Vec<ResolvedTurn>) -> (r: bool)
    ensures
        r == turns_follow(last_number(logs.deep_view()), turns.deep_view()),
{
    let mut last: Option<u32> = if logs.len() == 0 {
        None
    } else {
        Some(logs[logs.len() - 1].turn_number)
    };
    let ghost first = last;
    let ghost all = turns.deep_view();
    let mut i: usize = 0;
    while i < turns.len()
        invariant
            i <= turns.len(),
            all == turns.deep_view(),
            first == last_number(logs.deep_view()),
            last == number_after_all(first, all.take(i as int)),
            turns_follow(first, all.take(i as int)),
        decreases turns.len() - i,
    {
        proof {
            assert(all.take(i + 1).drop_last() =~= all.take(i as int));
            assert(all.take(i + 1).last() == turns[i as int]@);
            assert(turns[i as int]@.events.len() == turns[i as int].events.len());
        }
        if turns[i].events.len() > 0 {
            match last {
                Some(n) => {
                    if turns[i].turn_number < n {
                        proof {
                            if turns_follow(first, all) {
                                lemma_follow_so_far(first, all, i + 1);
                            }
                        }
                        return false;
                    }
                    if n < turns[i].turn_number {
                        last = Some(turns[i].turn_number);
                    }
                },
                None => {
                    last = Some(turns[i].turn_number);
                },
            }
        }
        i += 1;
    }
    assert(all.take(i as int) =~= all);
    true
}

/// Turn numbers that never go back have not gone back at any point of the
/// way.
pub proof fn lemma_follow_so_far(last: Option<u32>, turns: Seq<ResolvedTurnModel>, n: int)
    requires
        0 <= n <= turns.len(),
        turns_follow(last, turns),
    ensures
        turns_follow(last, turns.take(n)),
    decreases turns.len(),
{
    if n < turns.len() {
        assert(turns.drop_last().take(n) =~= turns.take(n));
        lemma_follow_so_far(last, turns.drop_last(), n);
    } else {
        assert(turns.take(n) =~= turns);
    }
}

/// The turn number of the last entry is as [`number_after_all`] says.
pub proof fn lemma_last_number(logs: Seq<TurnLogModel>, turns: Seq<ResolvedTurnModel>, now: i64)
    ensures
        last_number(log_with_turns(logs, turns, now)) == number_after_all(
            last_number(logs),
            turns,
        ),
    decreases turns.len(),
{
    if turns.len() > 0 {
        lemma_last_number(logs, turns.drop_last(), now);
    }
}

/// Every entry holds the events of its own turn: where the turn numbers
/// never go back, the events of each resolution open an entry of its turn,
/// or are added to the last entry, which is of the same turn.
pub proof fn lemma_filed_by_turn(
    logs: Seq<TurnLogModel>,
    turns: Seq<ResolvedTurnModel>,
    now: i64,
    k: int,
)
    requires
        turns_follow(last_number(logs), turns),
        0 <= k < turns.len(),
        turns[k].events.len() > 0,
    ensures
        ({
            let before = log_with_turns(logs, turns.take(k), now);
            let after = log_with_turns(logs, turns.take(k + 1), now);
            &&& after == log_with_turn(before, turns[k], now)
            &&& after.len() > 0
            &&& after.last().turn_number == turns[k].turn_number
            &&& opens_entry(before, turns[k]) || (after.len() == before.len()
                && before.last().turn_number == turns[k].turn_number)
        }),
{
    lemma_follow_so_far(last_number(logs), turns, k + 1);
    assert(turns.take(k + 1).drop_last() =~= turns.take(k));
    assert(turns.take(k + 1).last() == turns[k]);
    lemma_last_number(logs, turns.take(k), now);
}

/// Files the events of one resolution in the log.
pub fn append_turn(logs: &mut Vec<TurnLog>, turn: &ResolvedTurn, now: i64)
    ensures
        final(logs).deep_view() == log_with_turn(old(logs).deep_view(), turn@, now),
{
    let ghost before = logs.deep_view();
    if turn.events.len() == 0 {
        assert(turn@.events.len() == 0);
        return ;
    }
    assert(turn@.events.len() == turn.events.len());
    let events = clone_strings(&turn.events);
    let opens = logs.len() == 0 || logs[logs.len() - 1].turn_number < turn.turn_number;
    if opens {
        let entry = TurnLog { turn_number: turn.turn_number, events, timestamp: now };
        logs.push(entry);
        assert(logs.deep_view() =~= before.push(entry@));
    } else {
        let last = logs.pop().unwrap();
        let ghost shorter = logs.deep_view();
        assert(shorter =~= before.drop_last());
        let mut merged = last.events;
        let ghost had = merged.deep_view();
        let mut events = events;
        merged.append(&mut events);
        assert(merged.deep_view() =~= had + turn@.events);
        let entry = TurnLog {
            turn_number: last.turn_number,
            events: merged,
            timestamp: last.timestamp,
        };
        logs.push(entry);
        assert(logs.deep_view() =~= before.update(before.len() - 1, entry@));
    }
}

/// Files the events of several resolutions in the log, in order.
pub fn append_turns(logs: &mut Vec<TurnLog>, turns: &Vec<ResolvedTurn>, now: i64)
    ensures
        final(logs).deep_view() == log_with_turns(old(logs).deep_view(), turns.deep_view(), now),
{
    let ghost before = logs.deep_view();
    let ghost all = turns.deep_view();
    let mut i: usize = 0;
    while i < turns.len()
        invariant
            i <= turns.len(),
            all == turns.deep_view(),
            logs.deep_view() == log_with_turns(before, all.take(i as int), now),
        decreases turns.len() - i,
    {
        proof {
            assert(all.take(i + 1).drop_last() =~= all.take(i as int));
            assert(all.take(i + 1).last() == turns[i as int]@);
        }
        append_turn(logs, &turns[i], now);
        i += 1;
    }
    assert(all.take(i as int) =~= all);
}

/// The entries that a request for events is answered with.
pub fn recent_turn_logs(logs: &Vec<TurnLog>, last_turns: Option<u32>) -> (r: Vec<TurnLog>)
    ensures
        r.deep_view() == recent_logs(logs.deep_view(), last_turns),
{
    let total = logs.len();
    let start: usize = match last_turns {
        Some(n) => if total > n as usize {
            total - n as usize
        } else {
            0
        },
        None => 0,
    };
    let mut recent: Vec<TurnLog> = Vec::new();
    let mut i: usize = start;
    while i < total
        invariant
            start <= i <= total,
            total == logs.len(),
            recent.len() == i - start,
            forall|k: int| 0 <= k < recent.len() ==> recent[k]@ == logs[start + k]@,
        decreases total - i,
    {
        recent.push(logs[i].clone());
        i += 1;
    }
    assert(recent.deep_view() =~= recent_logs(logs.deep_view(), last_turns));
    recent
}

/// Filing the events of a resolution keeps the turn numbers of a log
/// strictly increasing.
pub proof fn lemma_append_keeps_order(logs: Seq<TurnLogModel>, turn: ResolvedTurnModel, now: i64)
    requires
        turn_numbers_increasing(logs),
    ensures
        turn_numbers_increasing(log_with_turn(logs, turn, now)),
{
    let after = log_with_turn(logs, turn, now);
    assert forall|i: int, j: int| 0 <= i < j < after.len() implies (#[trigger] after[i]).turn_number
        < (#[trigger] after[j]).turn_number by {
        if turn.events.len() == 0 {
        } else if opens_entry(logs, turn) {
            if j == logs.len() {
                assert(after[i] == logs[i]);
                if i < logs.len() - 1 {
                    assert(logs[i].turn_number < logs[logs.len() - 1].turn_number);
                }
            } else {
                assert(after[i] == logs[i] && after[j] == logs[j]);
            }
        } else {
            assert(after[i].turn_number == logs[i].turn_number);
            assert(after[j].turn_number == logs[j].turn_number);
        }
    }
}

/// Filing the events of several resolutions keeps the turn numbers of a log
/// strictly increasing.
pub proof fn lemma_appends_keep_order(
    logs: Seq<TurnLogModel>,
    turns: Seq<ResolvedTurnModel>,
    now: i64,
)
    requires
        turn_numbers_increasing(logs),
    ensures
        turn_numbers_increasing(log_with_turns(logs, turns, now)),
    decreases turns.len(),
{
    if turns.len() > 0 {
        lemma_appends_keep_order(logs, turns.drop_last(), now);
        lemma_append_keeps_order(log_with_turns(logs, turns.drop_last(), now), turns.last(), now);
    }
}

/// The log is append-only: filing the events of a resolution adds them
/// after all earlier events, never shortens the log, and leaves every entry
/// but the last as it was.
pub proof fn lemma_append_only(logs: Seq<TurnLogModel>, turn: ResolvedTurnModel, now: i64)
    ensures
        log_events(log_with_turn(logs, turn, now)) == log_events(logs) + turn.events,
        log_with_turn(logs, turn, now).len() >= logs.len(),
        forall|i: int|
            0 <= i < logs.len() - 1 ==> #[trigger] log_with_turn(logs, turn, now)[i] == logs[i],
{
    let after = log_with_turn(logs, turn, now);
    if turn.events.len() == 0 {
        assert(log_events(logs) + turn.events =~= log_events(logs));
    } else if opens_entry(logs, turn) {
        assert(after.drop_last() =~= logs);
    } else {
        assert(after.drop_last() =~= logs.drop_last());
        assert(log_events(logs.drop_last()) + (logs.last().events + turn.events) =~= log_events(
            logs.drop_last(),
        ) + logs.last().events + turn.events);
    }
}

/// Filing the events of several resolutions adds exactly their events, in
/// order, after all earlier events.
pub proof fn lemma_appends_only(logs: Seq<TurnLogModel>, turns: Seq<ResolvedTurnModel>, now: i64)
    ensures
        log_events(log_with_turns(logs, turns, now)) == log_events(logs) + all_events(turns),
        log_with_turns(logs, turns, now).len() >= logs.len(),
    decreases turns.len(),
{
    if turns.len() == 0 {
        assert(log_events(logs) + all_events(turns) =~= log_events(logs));
    } else {
        let earlier = log_with_turns(logs, turns.drop_last(), now);
        lemma_appends_only(logs, turns.drop_last(), now);
        lemma_append_only(earlier, turns.last(), now);
        assert(log_events(logs) + all_events(turns.drop_last()) + turns.last().events
            =~= log_events(logs) + all_events(turns));
    }
}

/// The entry that the events of a resolution open.
pub open spec fn entry_of(turn: ResolvedTurnModel, now: i64) -> TurnLogModel {
    TurnLogModel { turn_number: turn.turn_number, events: turn.events, timestamp: now }
}

/// Whether the resolutions are of later and later turns, each with events,
/// and the first of a later turn than the last entry of the log.
pub open spec fn turns_advance(logs: Seq<TurnLogModel>, turns: Seq<ResolvedTurnModel>) -> bool {
    &&& forall|i: int| 0 <= i < turns.len() ==> (#[trigger] turns[i]).events.len() > 0
    &&& forall|i: int, j: int|
        0 <= i < j < turns.len() ==> (#[trigger] turns[i]).turn_number < (
        #[trigger] turns[j]).turn_number
    &&& logs.len() > 0 && turns.len() > 0 ==> logs.last().turn_number < turns[0].turn_number
}

/// One entry for each resolved turn: where the resolutions are of later and
/// later turns, each with events, the log gains exactly one entry for each
/// of them, with the number of the turn and the events of that turn alone,
/// and the log as it was is the beginning of the log as it is written.
pub proof fn lemma_later_turns_gain_entries(
    logs: Seq<TurnLogModel>,
    turns: Seq<ResolvedTurnModel>,
    now: i64,
)
    requires
        turns_advance(logs, turns),
    ensures
        log_with_turns(logs, turns, now) == logs + Seq::new(
            turns.len(),
            |i: int| entry_of(turns[i], now),
        ),
    decreases turns.len(),
{
    let gained = Seq::new(turns.len(), |i: int| entry_of(turns[i], now));
    if turns.len() == 0 {
        assert(logs + gained =~= logs);
    } else {
        let before = turns.drop_last();
        let gained_before = Seq::new(before.len(), |i: int| entry_of(before[i], now));
        assert(turns_advance(logs, before)) by {
            assert forall|i: int| 0 <= i < before.len() implies (#[trigger] before[i]).events.len()
                > 0 by {
                assert(before[i] == turns[i]);
            }
            assert forall|i: int, j: int| 0 <= i < j < before.len() implies (
            #[trigger] before[i]).turn_number < (#[trigger] before[j]).turn_number by {
                assert(before[i] == turns[i] && before[j] == turns[j]);
            }
            if before.len() > 0 {
                assert(before[0] == turns[0]);
            }
        }
        lemma_later_turns_gain_entries(logs, before, now);
        let earlier = logs + gained_before;
        let last = turns.last();
        assert(last == turns[turns.len() - 1]);
        assert(last.events.len() > 0);
        assert(opens_entry(earlier, last)) by {
            if before.len() > 0 {
                assert(earlier.last() == entry_of(before[before.len() - 1], now));
                assert(before[before.len() - 1] == turns[turns.len() - 2]);
                assert(turns[turns.len() - 2].turn_number < turns[turns.len() - 1].turn_number);
            } else if logs.len() > 0 {
                assert(earlier =~= logs);
                assert(turns[0] == last);
            }
        }
        assert(earlier.push(entry_of(last, now)) =~= logs + gained);
    }
}

/// What is logged stays logged: the log never gets shorter, every entry but
/// the last is left as it was, and the last keeps its turn number and its
/// stamp, and its events as the beginning of its events.
pub proof fn lemma_appends_keep_entries(
    logs: Seq<TurnLogModel>,
    turns: Seq<ResolvedTurnModel>,
    now: i64,
)
    ensures
        log_with_turns(logs, turns, now).len() >= logs.len(),
        forall|i: int|
            0 <= i < logs.len() - 1 ==> #[trigger] log_with_turns(logs, turns, now)[i] == logs[i],
        logs.len() > 0 ==> {
            let kept = log_with_turns(logs, turns, now)[logs.len() - 1];
            &&& kept.turn_number == logs.last().turn_number
            &&& kept.timestamp == logs.last().timestamp
            &&& logs.last().events.is_prefix_of(kept.events)
        },
    decreases turns.len(),
{
    if turns.len() > 0 {
        let earlier = log_with_turns(logs, turns.drop_last(), now);
        lemma_appends_keep_entries(logs, turns.drop_last(), now);
        lemma_append_only(earlier, turns.last(), now);
        let after = log_with_turn(earlier, turns.last(), now);
        assert forall|i: int| 0 <= i < logs.len() - 1 implies #[trigger] after[i] == logs[i] by {
            assert(after[i] == earlier[i]);
        }
        if logs.len() > 0 {
            let at = logs.len() - 1;
            if at < earlier.len() - 1 {
                assert(after[at] == earlier[at]);
            }
        }
    }
}

} // verus!
