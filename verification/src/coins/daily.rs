//! The daily allowance: once per day, each user of a server may ask for
//! coins. Days change at midnight UTC.
use vstd::prelude::*;

use std::collections::HashMap;

use crate::error::BotError;

verus! {

broadcast use vstd::std_specs::hash::group_hash_axioms;

/// The coins a user gets each day.
pub const DAILY_AMOUNT: i64 = 10;

/// The item id of the member card, which doubles the daily allowance.
pub const ITEM_ID_MEMBER_CARD: u64 = 1;

/// The seconds of a day.
pub const SECONDS_PER_DAY: i64 = 86400;

/// The bound, either way from the Unix epoch and in seconds, on the
/// times the daily log handles. The clock read by `time` stays within
/// it: its dates end in the years -999999 and 999999 (-9999 and 9999
/// without its large dates).
pub const LATEST_TIME: i64 = 40_000_000_000_000;

/// A whole number of days beyond `LATEST_TIME`, added to a time so that
/// days can be counted on non-negative numbers.
const DAY_SHIFT: i64 = 43_200_000_000_000;

/// The coins of the daily allowance: twice as many for members.
pub fn daily_amount(is_member: bool) -> (r: i64)
    ensures
        is_member ==> r == DAILY_AMOUNT * 2,
        !is_member ==> r == DAILY_AMOUNT,
{
    if is_member {
        DAILY_AMOUNT * 2
    } else {
        DAILY_AMOUNT
    }
}

/// The coins a daily request pays: the allowance for a user's first
/// request since the last reset (twice as much for members), nothing
/// otherwise.
pub open spec fn daily_grant_spec(granted: bool, is_member: bool) -> Option<i64> {
    if !granted {
        None
    } else if is_member {
        Some((DAILY_AMOUNT * 2) as i64)
    } else {
        Some(DAILY_AMOUNT)
    }
}

/// The coins a daily request pays, given whether the log let the user in
/// (`granted`) and whether they hold the member card.
pub fn daily_grant(granted: bool, is_member: bool) -> (r: Option<i64>)
    ensures
        r == daily_grant_spec(granted, is_member),
{
    if granted {
        Some(daily_amount(is_member))
    } else {
        None
    }
}

/// The outcome of paying the allowance: paying it must change a record.
pub fn check_daily_records(num_records: usize) -> (r: Result<bool, BotError>)
    ensures
        num_records == 0 ==> (r matches Err(BotError::Unknown(m)) && m@ == "no records changed"@),
        num_records != 0 ==> r == Ok::<bool, BotError>(true),
{
    if num_records == 0 {
        Err(BotError::Unknown(String::from_str("no records changed")))
    } else {
        Ok(true)
    }
}

/// The next time the daily log resets after `now` (seconds since the Unix
/// epoch): the coming midnight, or `now` itself at midnight.
pub open spec fn daily_epoch_spec(now: int) -> int {
    let midnight = (now / SECONDS_PER_DAY as int) * SECONDS_PER_DAY as int;
    if midnight < now {
        midnight + SECONDS_PER_DAY
    } else {
        midnight
    }
}

/// The next time the daily log resets after `now`.
pub fn daily_epoch_at(now: i64) -> (r: i64)
    requires
        -LATEST_TIME <= now <= LATEST_TIME,
    ensures
        r == daily_epoch_spec(now as int),
        now <= r < now + SECONDS_PER_DAY,
{
    let shifted: i64 = now + DAY_SHIFT;
    let midnight: i64 = (shifted / SECONDS_PER_DAY) * SECONDS_PER_DAY - DAY_SHIFT;
    proof {
        let d = SECONDS_PER_DAY as int;
        let m = DAY_SHIFT as int / d;
        assert(DAY_SHIFT as int == m * d);
        vstd::arithmetic::div_mod::lemma_hoist_over_denominator(now as int, m, d as nat);
        assert((shifted as int) / d == (now as int) / d + m);
        assert(((now as int) / d + m) * d == ((now as int) / d) * d + m * d) by (nonlinear_arith);
        assert(midnight as int == ((now as int) / d) * d);
        assert(((now as int) / d) * d <= (now as int) < ((now as int) / d) * d + d) by (nonlinear_arith)
            requires
                d == 86400,
        ;
    }
    if midnight < now {
        midnight + SECONDS_PER_DAY
    } else {
        midnight
    }
}

/// `time::OffsetDateTime::now_utc().unix_timestamp()`: the current time in
/// seconds since the Unix epoch. It depends on the clock; stated is only
/// that it is within `time`'s dates, which a clock before 1970 is too
/// (`now_utc` fails only past the end of those dates).
#[verifier::external_body]
fn now_seconds() -> (r: i64)
    ensures
        -LATEST_TIME <= r <= LATEST_TIME,
{
    time::OffsetDateTime::now_utc().unix_timestamp()
}

/// The next time the daily log resets after the current time.
pub fn daily_epoch() -> (r: i64)
    ensures
        exists|now: int| -LATEST_TIME <= now <= LATEST_TIME && r == daily_epoch_spec(now),
{
    let now = now_seconds();
    daily_epoch_at(now)
}

/// Who has had their allowance since the last reset, per server, and
/// when the log resets next.
#[derive(Debug)]
pub struct DailyLog {
    /// the next reset, in seconds since the Unix epoch
    epoch: i64,
    /// the users of each server who had their allowance, in order
    map: HashMap<u64, Vec<u64>>,
}

/// The users logged per server.
pub open spec fn logs_view(m: Map<u64, Vec<u64>>) -> Map<u64, Seq<u64>> {
    Map::new(|k: u64| m.contains_key(k), |k: u64| m[k]@)
}

/// Storing a server's log stores its users.
proof fn lemma_logs_insert(m: Map<u64, Vec<u64>>, k: u64, v: Vec<u64>)
    ensures
        logs_view(m.insert(k, v)) == logs_view(m).insert(k, v@),
{
    assert(logs_view(m.insert(k, v)) =~= logs_view(m).insert(k, v@));
}

/// Whether `user_id` is in `list`.
fn contains_user(list: &Vec<u64>, user_id: u64) -> (r: bool)
    ensures
        r == list@.contains(user_id),
{
    let mut i: usize = 0;
    while i < list.len()
        invariant
            i <= list.len(),
            forall|j: int| 0 <= j < i ==> list@[j] != user_id,
        decreases list.len() - i,
    {
        if list[i] == user_id {
            proof {
                assert(list@[i as int] == user_id);
            }
            return true;
        }
        i = i + 1;
    }
    false
}

/// The log of a server, empty when it has none.
pub open spec fn server_log(m: Map<u64, Seq<u64>>, server_id: u64) -> Seq<u64> {
    if m.contains_key(server_id) {
        m[server_id]
    } else {
        Seq::empty()
    }
}

/// Logging a user at `now`: first a reset when `now` is past the epoch,
/// then the user joins the server's log unless already in it. Gives the
/// new epoch, the new logs, and whether the user was new.
pub open spec fn log_user_spec(
    epoch: int,
    logs: Map<u64, Seq<u64>>,
    server_id: u64,
    user_id: u64,
    now: int,
) -> (int, Map<u64, Seq<u64>>, bool) {
    let (e, m) = if now > epoch {
        (daily_epoch_spec(now), Map::<u64, Seq<u64>>::empty())
    } else {
        (epoch, logs)
    };
    let list = server_log(m, server_id);
    if list.contains(user_id) {
        (e, m, false)
    } else {
        (e, m.insert(server_id, list.push(user_id)), true)
    }
}

impl DailyLog {
    /// When the log resets next.
    pub closed spec fn epoch_view(&self) -> int {
        self.epoch as int
    }

    /// The users logged per server.
    pub closed spec fn logs(&self) -> Map<u64, Seq<u64>> {
        logs_view(self.map@)
    }

    /// An empty log that resets at `epoch`.
    pub fn new(epoch: i64) -> (r: Self)
        ensures
            r.epoch_view() == epoch,
            r.logs() == Map::<u64, Seq<u64>>::empty(),
    {
        let r = DailyLog { epoch, map: HashMap::new() };
        proof {
            assert(r.logs() =~= Map::<u64, Seq<u64>>::empty());
        }
        r
    }

    /// An empty log that resets at the next midnight.
    pub fn starting_now() -> (r: Self)
        ensures
            r.logs() == Map::<u64, Seq<u64>>::empty(),
            exists|now: int|
                -LATEST_TIME <= now <= LATEST_TIME && r.epoch_view() == daily_epoch_spec(now),
    {
        DailyLog::new(daily_epoch())
    }

    /// The next reset, in seconds since the Unix epoch.
    pub fn epoch(&self) -> (r: i64)
        ensures
            r == self.epoch_view(),
    {
        self.epoch
    }

    /// Forgets every logged user.
    fn clear(&mut self)
        ensures
            final(self).logs() == Map::<u64, Seq<u64>>::empty(),
            final(self).epoch_view() == old(self).epoch_view(),
    {
        self.map.clear();
        proof {
            assert(self.logs() =~= Map::<u64, Seq<u64>>::empty());
        }
    }

    /// The log of a server, created empty when it has none.
    fn get_or_create(&mut self, server_id: &u64) -> (r: &mut Vec<u64>)
        ensures
            r@ == server_log(old(self).logs(), *server_id),
            final(self).map@ == old(self).map@.insert(*server_id, *final(r)),
            final(self).epoch == old(self).epoch,
    {
        self.map.entry(*server_id).or_insert(Vec::new())
    }

    /// Logs a user of a server at `now` (seconds since the Unix epoch),
    /// resetting the log first when `now` is past its epoch. Returns
    /// whether the user had not been logged yet, that is, whether they get
    /// the allowance.
    pub fn log_user_at(&mut self, server_id: &u64, user_id: u64, now: i64) -> (r: bool)
        requires
            -LATEST_TIME <= now <= LATEST_TIME,
        ensures
            (final(self).epoch_view(), final(self).logs(), r) == log_user_spec(
                old(self).epoch_view(),
                old(self).logs(),
                *server_id,
                user_id,
                now as int,
            ),
    {
        if now > self.epoch {
            self.epoch = daily_epoch_at(now);
            self.clear();
        }
        let logged = match self.map.get(server_id) {
            Some(list) => contains_user(list, user_id),
            None => false,
        };
        if logged {
            return false;
        }
        let ghost before = self.map@;
        let channel_log = self.get_or_create(server_id);
        channel_log.push(user_id);
        let ghost pushed = *channel_log;
        proof {
            lemma_logs_insert(before, *server_id, pushed);
        }
        true
    }

    /// Logs a user of a server now; see `log_user_at`.
    pub fn log_user(&mut self, server_id: &u64, user_id: u64) -> (r: bool)
        ensures
            exists|now: int|
                -LATEST_TIME <= now <= LATEST_TIME && (final(self).epoch_view(), final(self).logs(), r)
                    == log_user_spec(old(self).epoch_view(), old(self).logs(), *server_id, user_id, now),
    {
        let now = now_seconds();
        self.log_user_at(server_id, user_id, now)
    }
}

/// A user gets the allowance at most once between resets: after being
/// logged, logging the same user of the same server again before the
/// next reset gives nothing, and changes nothing.
pub proof fn lemma_daily_once(
    epoch: int,
    logs: Map<u64, Seq<u64>>,
    server_id: u64,
    user_id: u64,
    now: int,
    later: int,
)
    requires
        later <= log_user_spec(epoch, logs, server_id, user_id, now).0,
    ensures
        ({
            let (e1, m1, _) = log_user_spec(epoch, logs, server_id, user_id, now);
            log_user_spec(e1, m1, server_id, user_id, later) == (e1, m1, false)
        }),
{
    let (e1, m1, _) = log_user_spec(epoch, logs, server_id, user_id, now);
    let (e0, m0) = if now > epoch {
        (daily_epoch_spec(now), Map::<u64, Seq<u64>>::empty())
    } else {
        (epoch, logs)
    };
    let list = server_log(m0, server_id);
    if !list.contains(user_id) {
        assert(server_log(m1, server_id) == list.push(user_id));
        assert(list.push(user_id)[list.len() as int] == user_id);
    }
    assert(server_log(m1, server_id).contains(user_id));
}

/// After a reset every user may have the allowance again: logging a
/// user past the epoch always gives it.
pub proof fn lemma_daily_after_reset(
    epoch: int,
    logs: Map<u64, Seq<u64>>,
    server_id: u64,
    user_id: u64,
    now: int,
)
    requires
        now > epoch,
    ensures
        log_user_spec(epoch, logs, server_id, user_id, now).2,
        log_user_spec(epoch, logs, server_id, user_id, now).0 >= now,
{
    let d = SECONDS_PER_DAY as int;
    assert((now / d) * d <= now < (now / d) * d + d) by (nonlinear_arith)
        requires
            d == 86400,
    ;
    assert(server_log(Map::<u64, Seq<u64>>::empty(), server_id) == Seq::<u64>::empty());
}

/// A daily request pays the allowance once per user, server and epoch: a
/// user not yet logged gets the allowance (twice as much as a member),
/// and asking again before the next reset pays nothing.
pub proof fn lemma_daily_pays_once(
    epoch: int,
    logs: Map<u64, Seq<u64>>,
    server_id: u64,
    user_id: u64,
    now: int,
    later: int,
    is_member: bool,
)
    requires
        now <= epoch,
        !server_log(logs, server_id).contains(user_id),
        later <= epoch,
    ensures
        ({
            let (e1, m1, g1) = log_user_spec(epoch, logs, server_id, user_id, now);
            let (e2, m2, g2) = log_user_spec(e1, m1, server_id, user_id, later);
            &&& daily_grant_spec(g1, is_member) == Some(
                if is_member {
                    (DAILY_AMOUNT * 2) as i64
                } else {
                    DAILY_AMOUNT
                },
            )
            &&& daily_grant_spec(g2, is_member) is None
            &&& (e2, m2) == (e1, m1)
        }),
{
    lemma_daily_once(epoch, logs, server_id, user_id, now, later);
}

/// A reset forgets the log of every server, not only of the server that
/// caused it: logging a user past the epoch leaves that user alone in
/// the log, so until the next reset every other user, on every server,
/// gets the allowance.
pub proof fn lemma_reset_clears_every_server(
    epoch: int,
    logs: Map<u64, Seq<u64>>,
    server_id: u64,
    user_id: u64,
    now: int,
    other_server: u64,
    other_user: u64,
    later: int,
)
    requires
        now > epoch,
        later <= log_user_spec(epoch, logs, server_id, user_id, now).0,
        other_server != server_id || other_user != user_id,
    ensures
        log_user_spec(epoch, logs, server_id, user_id, now).1 == map![server_id => seq![user_id]],
        ({
            let (e1, m1, _) = log_user_spec(epoch, logs, server_id, user_id, now);
            log_user_spec(e1, m1, other_server, other_user, later).2
        }),
{
    let empty = Map::<u64, Seq<u64>>::empty();
    assert(server_log(empty, server_id) =~= Seq::<u64>::empty());
    assert(Seq::<u64>::empty().push(user_id) =~= seq![user_id]);
    let m1 = empty.insert(server_id, seq![user_id]);
    assert(m1 =~= map![server_id => seq![user_id]]);
    let (e1, m, _) = log_user_spec(epoch, logs, server_id, user_id, now);
    assert(m == m1);
    if other_server == server_id {
        assert(server_log(m1, other_server) == seq![user_id]);
        assert(!seq![user_id].contains(other_user)) by {
            if seq![user_id].contains(other_user) {
                let k = choose|k: int| 0 <= k < 1 && seq![user_id][k] == other_user;
                assert(seq![user_id][k] == user_id);
            }
        }
    } else {
        assert(server_log(m1, other_server) =~= Seq::<u64>::empty());
    }
}

} // verus!
