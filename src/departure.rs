//! Departures: what the display shows of each usable leg, and how a countdown
//! is split into minutes and seconds.
use vstd::prelude::*;
use crate::instant::{current_instant, div_toward_zero, instant_of, Duration, Timestamp};
use crate::trip::{Leg, LegView, ResponseView, TopLevelData, Trip};

verus! {

/// One upcoming departure.
#[derive(Debug)]
pub struct Departure {
    pub start_time: Timestamp,
    pub leaving_in: Duration,
    pub line_number: String,
}

/// What a departure holds: its start, the signed nanoseconds until it, and the
/// public code of its line.
pub struct DepartureView {
    pub start_time: Timestamp,
    pub leaving_in: int,
    pub line_number: Seq<char>,
}

impl View for Departure {
    type V = DepartureView;

    open spec fn view(&self) -> DepartureView {
        DepartureView {
            start_time: self.start_time,
            leaving_in: self.leaving_in.nanos as int,
            line_number: self.line_number@,
        }
    }
}

/// Why a leg gives no departure.
#[derive(Clone, Copy, Debug, PartialEq, Eq, Structural)]
pub enum LegError {
    /// The expected start time is not an ISO 8601 timestamp.
    InvalidStartTime,
    /// The leg has no line: it is a walk, not a ride.
    NoLine,
}

/// The departure that a leg gives at instant `now`, if any: one whose start
/// time parses and which has a line.
pub open spec fn leg_departure(leg: LegView, now: Timestamp) -> Option<DepartureView> {
    match instant_of(leg.expected_start_time) {
        None => None,
        Some(start) => match leg.line {
            None => None,
            Some(code) => Some(
                DepartureView {
                    start_time: start,
                    leaving_in: start.total_nanos() - now.total_nanos(),
                    line_number: code,
                },
            ),
        },
    }
}

/// `leg_departure` at instant `now`, as a function of the leg.
pub open spec fn departure_at(now: Timestamp) -> spec_fn(LegView) -> Option<DepartureView> {
    |leg: LegView| leg_departure(leg, now)
}

/// The departures of a sequence of legs at instant `now`: one for each leg that
/// gives one, in the legs' order.
pub open spec fn departures_of(legs: Seq<LegView>, now: Timestamp) -> Seq<DepartureView> {
    legs.filter_map(departure_at(now))
}

/// The departures of a response at instant `now`.
pub open spec fn extract(r: ResponseView, now: Timestamp) -> Seq<DepartureView> {
    departures_of(r.all_legs(), now)
}

/// The views of a sequence of departures.
pub open spec fn views(ds: Seq<Departure>) -> Seq<DepartureView> {
    ds.map_values(|d: Departure| d@)
}

/// Minutes of a countdown of `nanos` nanoseconds, rounded toward zero.
pub open spec fn countdown_minutes(nanos: int) -> int {
    div_toward_zero(div_toward_zero(nanos, 1_000_000_000), 60)
}

/// Seconds past the whole minutes of a countdown of `nanos` nanoseconds, never
/// below zero.
pub open spec fn countdown_seconds(nanos: int) -> int {
    let s = div_toward_zero(nanos, 1_000_000_000) - 60 * countdown_minutes(nanos);
    if s < 0 {
        0
    } else {
        s
    }
}

/// Filtering and mapping a concatenation is concatenating the results.
pub proof fn lemma_filter_map_append<A, B>(a: Seq<A>, b: Seq<A>, f: spec_fn(A) -> Option<B>)
    ensures
        (a + b).filter_map(f) == a.filter_map(f) + b.filter_map(f),
    decreases b.len(),
{
    if b.len() == 0 {
        assert(a + b =~= a);
        assert(a.filter_map(f) + b.filter_map(f) =~= a.filter_map(f));
    } else {
        lemma_filter_map_append(a, b.drop_last(), f);
        assert((a + b).drop_last() =~= a + b.drop_last());
        assert((a + b).last() == b.last());
        match f(b.last()) {
            Some(x) => {
                assert(a.filter_map(f) + b.filter_map(f) =~= a.filter_map(f) + b.drop_last().filter_map(
                    f,
                ) + seq![x]);
            },
            None => {},
        }
    }
}

/// Departures come in the order of the legs that give them: those of `trip1`
/// before those of `trip2`, each trip's patterns and legs in their order. Where
/// every leg gives a departure, the i-th departure is the i-th leg's.
pub proof fn lemma_extraction_order(r: ResponseView, now: Timestamp)
    ensures
        extract(r, now) == departures_of(r.trip1.flatten(), now) + departures_of(
            r.trip2.flatten(),
            now,
        ),
        (forall|k: int|
            0 <= k < r.all_legs().len() ==> (#[trigger] leg_departure(r.all_legs()[k], now))
                is Some) ==> {
            &&& extract(r, now).len() == r.all_legs().len()
            &&& forall|k: int|
                0 <= k < r.all_legs().len() ==> Some(#[trigger] extract(r, now)[k])
                    == leg_departure(r.all_legs()[k], now)
        },
{
    lemma_filter_map_append(r.trip1.flatten(), r.trip2.flatten(), departure_at(now));
    if forall|k: int|
        0 <= k < r.all_legs().len() ==> (#[trigger] leg_departure(r.all_legs()[k], now))
            is Some {
        lemma_departures_of_usable_legs(r.all_legs(), now);
    }
}

/// Where every leg gives a departure, there is one for each leg, in order.
proof fn lemma_departures_of_usable_legs(legs: Seq<LegView>, now: Timestamp)
    requires
        forall|k: int| 0 <= k < legs.len() ==> (#[trigger] leg_departure(legs[k], now)) is Some,
    ensures
        departures_of(legs, now).len() == legs.len(),
        forall|k: int|
            0 <= k < legs.len() ==> Some(#[trigger] departures_of(legs, now)[k]) == leg_departure(
                legs[k],
                now,
            ),
    decreases legs.len(),
{
    if legs.len() > 0 {
        let rest = legs.drop_last();
        assert forall|k: int| 0 <= k < rest.len() implies (#[trigger] leg_departure(
            rest[k],
            now,
        )) is Some by {
            assert(rest[k] == legs[k]);
        }
        lemma_departures_of_usable_legs(rest, now);
        assert(leg_departure(legs[legs.len() - 1], now) is Some);
        assert forall|k: int| 0 <= k < legs.len() implies Some(
            #[trigger] departures_of(legs, now)[k],
        ) == leg_departure(legs[k], now) by {
            if k < legs.len() - 1 {
                assert(rest[k] == legs[k]);
            }
        }
    }
}

/// A leg without a line gives no departure: every departure of a response comes
/// from one of its legs that has a line, the departure's line.
pub proof fn lemma_extraction_drops_lineless_legs(r: ResponseView, now: Timestamp)
    ensures
        forall|leg: LegView| #[trigger] leg.line is None ==> leg_departure(leg, now) is None,
        forall|d: DepartureView|
            #[trigger] extract(r, now).contains(d) ==> exists|leg: LegView|
                #[trigger] r.all_legs().contains(leg) && leg.line == Some(d.line_number)
                    && leg_departure(leg, now) == Some(d),
{
    assert forall|d: DepartureView| #[trigger] extract(r, now).contains(d) implies exists|
        leg: LegView,
    |
        #[trigger] r.all_legs().contains(leg) && leg.line == Some(d.line_number) && leg_departure(
            leg,
            now,
        ) == Some(d) by {
        r.all_legs().lemma_filter_map_contains(departure_at(now), d);
        let leg = choose|leg: LegView|
            #[trigger] r.all_legs().contains(leg) && departure_at(now)(leg) == Some(d);
        assert(leg_departure(leg, now) == Some(d));
    }
}

/// Extracting the same response twice gives the same departures, with the same
/// start times and lines; only the countdowns differ, by the time between the
/// two instants.
pub proof fn lemma_extraction_repeatable(r: ResponseView, now1: Timestamp, now2: Timestamp)
    ensures
        extract(r, now1).len() == extract(r, now2).len(),
        forall|k: int|
            0 <= k < extract(r, now1).len() ==> {
                &&& (#[trigger] extract(r, now1)[k]).start_time == extract(r, now2)[k].start_time
                &&& extract(r, now1)[k].line_number == extract(r, now2)[k].line_number
                &&& extract(r, now1)[k].leaving_in - extract(r, now2)[k].leaving_in
                    == now2.total_nanos() - now1.total_nanos()
            },
{
    lemma_departures_repeatable(r.all_legs(), now1, now2);
}

/// `lemma_extraction_repeatable`, over a sequence of legs.
proof fn lemma_departures_repeatable(legs: Seq<LegView>, now1: Timestamp, now2: Timestamp)
    ensures
        departures_of(legs, now1).len() == departures_of(legs, now2).len(),
        forall|k: int|
            0 <= k < departures_of(legs, now1).len() ==> {
                &&& (#[trigger] departures_of(legs, now1)[k]).start_time == departures_of(
                    legs,
                    now2,
                )[k].start_time
                &&& departures_of(legs, now1)[k].line_number == departures_of(
                    legs,
                    now2,
                )[k].line_number
                &&& departures_of(legs, now1)[k].leaving_in - departures_of(legs, now2)[k].leaving_in
                    == now2.total_nanos() - now1.total_nanos()
            },
    decreases legs.len(),
{
    if legs.len() > 0 {
        lemma_departures_repeatable(legs.drop_last(), now1, now2);
    }
}

impl Departure {
    /// The countdown as whole minutes, rounded toward zero, and the seconds past
    /// them, never below zero.
    pub fn format_time(&self) -> (r: (i128, i128))
        ensures
            r.0 == countdown_minutes(self.leaving_in.nanos as int),
            r.1 == countdown_seconds(self.leaving_in.nanos as int),
            0 <= r.1 < 60,
            self.leaving_in.nanos < 0 ==> r.1 == 0,
            self.leaving_in.nanos >= 0 ==> r.0 * 60 + r.1 == div_toward_zero(
                self.leaving_in.nanos as int,
                1_000_000_000,
            ),
    {
        let minutes = self.leaving_in.whole_minutes();
        let whole: i128 = self.leaving_in.whole_seconds();
        let seconds: i128 = whole - minutes * 60;
        if seconds < 0 {
            (minutes, 0)
        } else {
            (minutes, seconds)
        }
    }

    /// The departures of a response at instant `now`, in the order of its legs:
    /// those of `trip1` before those of `trip2`. Legs without a line, and legs
    /// whose start time does not parse, give none.
    pub fn from_top_level_data(data: TopLevelData, now: Timestamp) -> (r: Vec<Departure>)
        ensures
            views(r@) == extract(data@, now),
    {
        let mut departures = Departure::from_trip(&data.data.trip1, now);
        let mut second = Departure::from_trip(&data.data.trip2, now);
        let ghost first_views = views(departures@);
        let ghost second_views = views(second@);
        departures.append(&mut second);
        proof {
            lemma_filter_map_append(
                data@.trip1.flatten(),
                data@.trip2.flatten(),
                departure_at(now),
            );
            assert(views(departures@) =~= first_views + second_views);
        }
        departures
    }

    /// The departures of one trip query at instant `now`.
    fn from_trip(trip: &Trip, now: Timestamp) -> (r: Vec<Departure>)
        ensures
            views(r@) == departures_of(trip@.flatten(), now),
    {
        let mut out: Vec<Departure> = Vec::new();
        let mut i: usize = 0;
        while i < trip.trip_patterns.len()
            invariant
                i <= trip.trip_patterns.len(),
                views(out@) == departures_of(trip@.subrange(0, i as int).flatten(), now),
            decreases trip.trip_patterns.len() - i,
        {
            let legs = &trip.trip_patterns[i].legs;
            let ghost done = trip@.subrange(0, i as int).flatten();
            let mut j: usize = 0;
            while j < legs.len()
                invariant
                    i < trip.trip_patterns.len(),
                    legs == trip.trip_patterns@[i as int].legs,
                    j <= legs.len(),
                    done == trip@.subrange(0, i as int).flatten(),
                    views(out@) == departures_of(done + trip@[i as int].subrange(0, j as int), now),
                decreases legs.len() - j,
            {
                let ghost before = views(out@);
                let ghost seen = done + trip@[i as int].subrange(0, j as int);
                match Departure::from_leg(&legs[j], now) {
                    Ok(d) => {
                        out.push(d);
                    },
                    Err(_) => {},
                }
                proof {
                    let next = done + trip@[i as int].subrange(0, j + 1);
                    assert(next.drop_last() =~= seen);
                    assert(next.last() == legs@[j as int]@);
                    assert(views(out@) =~= departures_of(next, now));
                }
                j += 1;
            }
            proof {
                assert(trip@[i as int].subrange(0, j as int) =~= trip@[i as int]);
                assert(trip@.subrange(0, i + 1) =~= trip@.subrange(0, i as int).push(trip@[i as int]));
                trip@.subrange(0, i as int).lemma_flatten_push(trip@[i as int]);
            }
            i += 1;
        }
        assert(trip@.subrange(0, i as int) =~= trip@);
        out
    }

    /// The departure that one leg gives at instant `now`.
    fn from_leg(leg: &Leg, now: Timestamp) -> (r: Result<Departure, LegError>)
        ensures
            match leg_departure(leg@, now) {
                Some(d) => r is Ok && r->Ok_0@ == d,
                None => r is Err,
            },
            r == Err::<Departure, LegError>(LegError::InvalidStartTime) <==> instant_of(
                leg@.expected_start_time,
            ) is None,
    {
        let start = match Timestamp::parse(leg.expected_start_time.as_str()) {
            Some(t) => t,
            None => return Err(LegError::InvalidStartTime),
        };
        match &leg.line {
            Some(l) => Ok(
                Departure {
                    start_time: start,
                    leaving_in: start.since(&now),
                    line_number: l.public_code.clone(),
                },
            ),
            None => Err(LegError::NoLine),
        }
    }
}

impl Default for Departure {
    /// A departure now, with no time left and no line.
    fn default() -> (r: Departure)
        ensures
            r.start_time.wf(),
            r.leaving_in.nanos == 0,
            r.line_number@ == Seq::<char>::empty(),
    {
        Departure {
            start_time: current_instant(),
            leaving_in: Duration { nanos: 0 },
            line_number: String::new(),
        }
    }
}

} // verus!
