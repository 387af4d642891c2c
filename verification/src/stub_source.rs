use vstd::prelude::*;

use crate::clock::{now_micros, rfc3339, rfc3339_text, MAX_INSTANT, MIN_INSTANT};
use crate::entity::Entity;
use crate::identifiers::{DataKind, EntityUser, IdentifiableSource};

verus! {

/// The whole seconds in `micros` microseconds, rounded towards zero.
pub open spec fn whole_seconds(micros: int) -> int {
    if micros >= 0 {
        micros / 1_000_000
    } else {
        -((-micros) / 1_000_000)
    }
}

/// Whether `t` microseconds after the Unix epoch is an instant that dates can be given for.
pub open spec fn in_time_bound(t: int) -> bool {
    MIN_INSTANT <= t <= MAX_INSTANT
}

/// The start of the window that a call for `since` at `now` covers.
pub open spec fn window_start(last: Option<i64>, since: i64, now: i64) -> int {
    let l = match last {
        Some(t) => t as int,
        None => now as int,
    };
    if l <= since {
        l
    } else {
        since as int
    }
}

/// How many entities a call makes (before the check that at least a second has passed).
pub open spec fn window_seconds(last: Option<i64>, since: i64, now: i64) -> int {
    whole_seconds(now - window_start(last, since, now))
}

/// Whether a call is refused because less than a second has passed since the previous one.
pub open spec fn too_soon(last: Option<i64>, since: i64, now: i64) -> bool {
    last is Some && window_seconds(last, since, now) < 1
}

/// The name of the entity created at `created`.
pub open spec fn stub_entity_name(created: i64) -> Seq<char> {
    "uuid at "@ + rfc3339_text(created)->0
}

/// What the `i`-th entity of a call for `since` looks like, but for its random data.
pub open spec fn stub_entity_matches(e: Entity<u128>, i: int, last: Option<i64>, since: i64, now: i64) -> bool {
    let start = window_start(last, since, now);
    let upper = since + (i + 1) * 1_000_000;
    &&& e.created_at == since + i * 1_000_000
    &&& e.updated_at == if upper >= start { upper } else { start }
    &&& e.id@.name == stub_entity_name(e.created_at)
    &&& e.id@.source == "stub"@
}

/// Whether the entities of a call for `since` at `now` would reach past the last instant that
/// dates can be given for: the call is not refused, and the last entity's update time,
/// `since` plus the window's seconds, lies beyond `MAX_INSTANT`.
pub open spec fn window_overflows(last: Option<i64>, since: i64, now: i64) -> bool {
    &&& !too_soon(last, since, now)
    &&& window_seconds(last, since, now) > 0
    &&& since + window_seconds(last, since, now) * 1_000_000 > MAX_INSTANT
}

/// What a call for `since` at `now`, after a last call at `last`, makes: `v` and the new
/// last-call time `next`.
pub open spec fn window_made(
    last: Option<i64>,
    since: i64,
    now: i64,
    v: Seq<Entity<u128>>,
    next: Option<i64>,
) -> bool {
    &&& too_soon(last, since, now) ==> v.len() == 0 && next == last
    &&& !too_soon(last, since, now) ==> {
        &&& next == Some(now)
        &&& v.len() == if window_seconds(last, since, now) > 0 {
            window_seconds(last, since, now)
        } else {
            0
        }
        &&& forall|i: int|
            0 <= i < v.len() ==> stub_entity_matches(#[trigger] v[i], i, last, since, now)
    }
}

/// What a call for `since` at the clock reading `now`, after a last call at `last`, gives:
/// the error carrying `now` where the window overflows, the last-call time kept; else what
/// `window_made` says.
pub open spec fn reading_gives(
    last: Option<i64>,
    since: i64,
    now: i64,
    r: Result<Vec<Entity<u128>>, StubError>,
    next: Option<i64>,
) -> bool {
    match r {
        Ok(v) => !window_overflows(last, since, now) && window_made(last, since, now, v@, next),
        Err(e) => window_overflows(last, since, now) && e == StubError::WindowOutOfRange(now)
            && next == last,
    }
}

/// A window overflows only where the last call came before `since`: otherwise it starts at
/// `since` and ends no later than `now`.
pub proof fn overflow_needs_an_earlier_call(last: Option<i64>, since: i64, now: i64)
    requires
        in_time_bound(now as int),
        window_overflows(last, since, now),
    ensures
        last matches Some(l) && l < since,
{
    let start = window_start(last, since, now);
    let d = now - start;
    if d >= 0 {
        assert((d / 1_000_000) * 1_000_000 <= d) by (nonlinear_arith)
            requires
                d >= 0,
        ;
    }
}

/// An error of the stub source.
#[derive(Debug, PartialEq, Eq)]
pub enum StubError {
    /// At the clock reading carried, the entities asked for would be dated past the last
    /// instant that dates can be given for.
    WindowOutOfRange(i64),
    /// The system clock reads an instant that dates cannot be given for.
    ClockUnreadable,
}

/// A source that makes one entity of random data for each second since the time asked for.
#[derive(Debug)]
pub struct StubSource {
    last: Option<i64>,
}

impl IdentifiableSource for StubSource {
    const SOURCE_ID: &'static str = "stub";

    fn this_identifier(&self) -> (r: &'static str)
        ensures
            r@ == "stub"@,
    {
        Self::SOURCE_ID
    }
}

impl EntityUser for StubSource {
    fn supported_entity_data() -> (r: Vec<DataKind>)
        ensures
            r@ == seq![DataKind::Uuid],
    {
        vec![DataKind::Uuid]
    }
}

impl StubSource {
    pub fn new() -> (r: Self)
        ensures
            r.wf(),
            r.last_call() is None,
    {
        StubSource { last: None }
    }

    /// The time of the last call that made entities.
    pub closed spec fn last_call(&self) -> Option<i64> {
        self.last
    }

    pub closed spec fn wf(&self) -> bool {
        match self.last {
            Some(t) => in_time_bound(t as int),
            None => true,
        }
    }

    /// The entities for the whole seconds between the earlier of `since` and the previous
    /// call, and the clock reading `now`: the `i`-th created `i` seconds after `since`,
    /// updated a second later (but not before the start of the window), named after its
    /// creation time. Nothing is made, and nothing changes, where less than a second has
    /// passed since the previous call; an error carrying `now`, and no change, where the
    /// entities would be dated past `MAX_INSTANT`.
    pub fn get_with_reading<F: Fn() -> u128>(&mut self, since: i64, now: i64, draw: F) -> (r:
        Result<Vec<Entity<u128>>, StubError>)
        requires
            old(self).wf(),
            in_time_bound(since as int),
            in_time_bound(now as int),
            call_requires(draw, ()),
        ensures
            final(self).wf(),
            r is Err <==> window_overflows(old(self).last_call(), since, now),
            reading_gives(old(self).last_call(), since, now, r, final(self).last_call()),
            r matches Ok(v) ==> forall|i: int|
                0 <= i < v.len() ==> call_ensures(draw, (), #[trigger] v@[i].data),
    {
        let ghost prev = self.last;
        let prior_state = self.last.is_some();
        let previous = match self.last {
            Some(t) => t,
            None => now,
        };
        let start = if previous <= since {
            previous
        } else {
            since
        };
        let diff: i128 = now as i128 - start as i128;
        let wide_seconds: i128 = if diff >= 0 {
            diff / 1_000_000
        } else {
            -((-diff) / 1_000_000)
        };
        assert(start == window_start(prev, since, now));
        assert(wide_seconds == window_seconds(prev, since, now));
        assert(-20_000_000_000_000 <= wide_seconds <= 20_000_000_000_000);
        let seconds: i64 = wide_seconds as i64;
        if prior_state && seconds < 1 {
            return Ok(Vec::new());
        }
        if seconds > 0 && since as i128 + seconds as i128 * 1_000_000 > MAX_INSTANT as i128 {
            return Err(StubError::WindowOutOfRange(now));
        }
        assert(seconds > 0 ==> since + seconds * 1_000_000 <= MAX_INSTANT);
        self.last = Some(now);
        let mut results: Vec<Entity<u128>> = Vec::new();
        let mut i: i64 = 0;
        while i < seconds
            invariant
                in_time_bound(since as int),
                in_time_bound(now as int),
                in_time_bound(start as int),
                start == window_start(prev, since, now),
                seconds == window_seconds(prev, since, now),
                seconds > 0 ==> since + seconds * 1_000_000 <= MAX_INSTANT,
                start <= since,
                0 <= i,
                seconds > 0 ==> i <= seconds,
                seconds <= 0 ==> i == 0,
                results.len() == i,
                forall|j: int|
                    0 <= j < results.len() ==> stub_entity_matches(#[trigger] results@[j], j, prev, since, now),
                call_requires(draw, ()),
                forall|j: int|
                    0 <= j < results.len() ==> call_ensures(draw, (), #[trigger] results@[j].data),
            decreases seconds - i,
        {
            assert(i * 1_000_000 < seconds * 1_000_000) by (nonlinear_arith)
                requires
                    i < seconds,
            ;
            assert((i + 1) * 1_000_000 <= seconds * 1_000_000) by (nonlinear_arith)
                requires
                    i + 1 <= seconds,
            ;
            assert(0 <= i * 1_000_000) by (nonlinear_arith)
                requires
                    0 <= i,
            ;
            let created = (since as i128 + i as i128 * 1_000_000) as i64;
            let upper = (since as i128 + (i as i128 + 1) * 1_000_000) as i64;
            let updated = if upper >= start {
                upper
            } else {
                start
            };
            let text = rfc3339(created);
            let mut name = "uuid at ".to_owned();
            match text {
                Some(t) => {
                    name.append(t.as_str());
                },
                None => {
                    assert(false);
                },
            }
            let data = draw();
            let e = Entity::new::<StubSource>(created, data, name.as_str(), updated);
            results.push(e);
            i = i + 1;
        }
        assert(window_made(prev, since, now, results@, self.last));
        Ok(results)
    }

    /// As `get_with_reading`, at the time the clock reads; `ClockUnreadable`, and no change,
    /// where the clock reads an instant that dates cannot be given for. An error on the
    /// window comes only where the previous call came before `since`.
    pub fn get<F: Fn() -> u128>(&mut self, since: i64, draw: F) -> (r: Result<
        Vec<Entity<u128>>,
        StubError,
    >)
        requires
            old(self).wf(),
            in_time_bound(since as int),
            call_requires(draw, ()),
        ensures
            final(self).wf(),
            (r == Err::<Vec<Entity<u128>>, StubError>(StubError::ClockUnreadable)
                && final(self).last_call() == old(self).last_call()) || exists|now: i64|
                in_time_bound(now as int) && #[trigger] reading_gives(
                    old(self).last_call(),
                    since,
                    now,
                    r,
                    final(self).last_call(),
                ),
            r matches Ok(v) ==> forall|i: int|
                0 <= i < v.len() ==> call_ensures(draw, (), #[trigger] v@[i].data),
            old(self).last_call() is None ==> (r is Ok || r == Err::<Vec<Entity<u128>>, StubError>(
                StubError::ClockUnreadable,
            )),
            r matches Err(StubError::WindowOutOfRange(_)) ==> (old(self).last_call() matches Some(l)
                && l < since),
    {
        match now_micros() {
            None => Err(StubError::ClockUnreadable),
            Some(now) => {
                let ghost prev = self.last;
                let r = self.get_with_reading(since, now, draw);
                proof {
                    if window_overflows(prev, since, now) {
                        overflow_needs_an_earlier_call(prev, since, now);
                    }
                }
                r
            },
        }
    }
}

} // verus!

verus! {

/// After a call that made entities at `now`, a call for a time no earlier than `now` that
/// comes less than a second later makes nothing.
pub proof fn no_entities_within_a_second(now: i64, since: i64, later: i64)
    requires
        now <= since,
        now <= later,
        later - now < 1_000_000,
    ensures
        too_soon(Some(now), since, later),
{
}

/// Three calls made less than a second after the instant `start`, for a second before it, for
/// two seconds after it, then for two seconds before it: the first makes the one entity of
/// the second before `start`, the second is refused, and the third makes the two entities
/// of the two seconds before `start`. None of them fails.
pub proof fn calls_within_a_second(start: i64, first: i64, second: i64, third: i64)
    requires
        MIN_INSTANT + 2_000_000 <= start,
        start + 2_000_000 <= MAX_INSTANT,
        start <= first <= second <= third < start + 1_000_000,
    ensures
        !window_overflows(None, (start - 1_000_000) as i64, first),
        forall|v: Seq<Entity<u128>>, next: Option<i64>|
            #[trigger] window_made(None, (start - 1_000_000) as i64, first, v, next) ==> {
                &&& v.len() == 1
                &&& v[0].created_at == start - 1_000_000
                &&& v[0].updated_at == start
                &&& next == Some(first)
            },
        !window_overflows(Some(first), (start + 2_000_000) as i64, second),
        forall|v: Seq<Entity<u128>>, next: Option<i64>|
            #[trigger] window_made(Some(first), (start + 2_000_000) as i64, second, v, next) ==> {
                &&& v.len() == 0
                &&& next == Some(first)
            },
        !window_overflows(Some(first), (start - 2_000_000) as i64, third),
        forall|v: Seq<Entity<u128>>, next: Option<i64>|
            #[trigger] window_made(Some(first), (start - 2_000_000) as i64, third, v, next) ==> {
                &&& v.len() == 2
                &&& v[1].created_at == start - 1_000_000
                &&& v[1].updated_at == start
                &&& next == Some(third)
            },
{
    assert(window_seconds(None, (start - 1_000_000) as i64, first) == 1);
    assert(window_seconds(Some(first), (start + 2_000_000) as i64, second) == 0);
    assert(window_seconds(Some(first), (start - 2_000_000) as i64, third) == 2);
    assert forall|v: Seq<Entity<u128>>, next: Option<i64>|
        #[trigger] window_made(None, (start - 1_000_000) as i64, first, v, next) implies v.len() == 1
            && v[0].created_at == start - 1_000_000 && v[0].updated_at == start && next == Some(
            first,
        ) by {
        assert(stub_entity_matches(v[0], 0, None, (start - 1_000_000) as i64, first));
    }
    assert forall|v: Seq<Entity<u128>>, next: Option<i64>|
        #[trigger] window_made(Some(first), (start - 2_000_000) as i64, third, v, next) implies v.len()
            == 2 && v[1].created_at == start - 1_000_000 && v[1].updated_at == start && next == Some(
            third,
        ) by {
        assert(stub_entity_matches(v[1], 1, Some(first), (start - 2_000_000) as i64, third));
    }
}

} // verus!
