//! The journey planner's answer to the two trip queries.
use vstd::prelude::*;

verus! {

/// The public code of a line, such as a bus number.
#[derive(Debug)]
pub struct Line {
    pub public_code: String,
}

/// One segment of a trip pattern: a ride on a line, or a walk, which has no line.
#[derive(Debug)]
pub struct Leg {
    pub expected_start_time: String,
    pub line: Option<Line>,
}

/// What a leg holds, as text.
pub struct LegView {
    pub expected_start_time: Seq<char>,
    pub line: Option<Seq<char>>,
}

/// One candidate itinerary.
#[derive(Debug)]
pub struct TripPattern {
    pub legs: Vec<Leg>,
}

/// The itineraries found for one origin and destination.
#[derive(Debug)]
pub struct Trip {
    pub trip_patterns: Vec<TripPattern>,
}

/// The two named trip queries of one response.
#[derive(Debug)]
pub struct Data {
    pub trip1: Trip,
    pub trip2: Trip,
}

/// A whole response of the journey planner.
#[derive(Debug)]
pub struct TopLevelData {
    pub data: Data,
}

/// What a response holds: the legs of each trip pattern of each trip query.
pub struct ResponseView {
    pub trip1: Seq<Seq<LegView>>,
    pub trip2: Seq<Seq<LegView>>,
}

impl View for Line {
    type V = Seq<char>;

    open spec fn view(&self) -> Seq<char> {
        self.public_code@
    }
}

impl View for Leg {
    type V = LegView;

    open spec fn view(&self) -> LegView {
        LegView {
            expected_start_time: self.expected_start_time@,
            line: match self.line {
                Some(l) => Some(l@),
                None => None,
            },
        }
    }
}

impl View for TripPattern {
    type V = Seq<LegView>;

    open spec fn view(&self) -> Seq<LegView> {
        self.legs@.map_values(|l: Leg| l@)
    }
}

impl View for Trip {
    type V = Seq<Seq<LegView>>;

    open spec fn view(&self) -> Seq<Seq<LegView>> {
        self.trip_patterns@.map_values(|p: TripPattern| p@)
    }
}

impl View for TopLevelData {
    type V = ResponseView;

    open spec fn view(&self) -> ResponseView {
        ResponseView { trip1: self.data.trip1@, trip2: self.data.trip2@ }
    }
}

impl ResponseView {
    /// Every leg of the response: those of `trip1`, then those of `trip2`, each
    /// trip pattern after the one before it and each leg in its pattern's order.
    pub open spec fn all_legs(self) -> Seq<LegView> {
        self.trip1.flatten() + self.trip2.flatten()
    }
}

impl Line {
    /// A copy of this line.
    pub fn duplicate(&self) -> (r: Line)
        ensures
            r@ == self@,
    {
        Line { public_code: self.public_code.clone() }
    }
}

impl Leg {
    /// A copy of this leg.
    pub fn duplicate(&self) -> (r: Leg)
        ensures
            r@ == self@,
    {
        let line = match &self.line {
            Some(l) => Some(l.duplicate()),
            None => None,
        };
        Leg { expected_start_time: self.expected_start_time.clone(), line }
    }
}

impl TripPattern {
    /// A copy of this trip pattern.
    pub fn duplicate(&self) -> (r: TripPattern)
        ensures
            r@ == self@,
    {
        let mut legs: Vec<Leg> = Vec::new();
        let mut i: usize = 0;
        while i < self.legs.len()
            invariant
                i <= self.legs.len(),
                legs.len() == i,
                forall|j: int| 0 <= j < i ==> legs@[j]@ == self.legs@[j]@,
            decreases self.legs.len() - i,
        {
            legs.push(self.legs[i].duplicate());
            i += 1;
        }
        assert(legs@.map_values(|l: Leg| l@) =~= self.legs@.map_values(|l: Leg| l@));
        TripPattern { legs }
    }
}

impl Trip {
    /// A copy of this trip.
    pub fn duplicate(&self) -> (r: Trip)
        ensures
            r@ == self@,
    {
        let mut patterns: Vec<TripPattern> = Vec::new();
        let mut i: usize = 0;
        while i < self.trip_patterns.len()
            invariant
                i <= self.trip_patterns.len(),
                patterns.len() == i,
                forall|j: int| 0 <= j < i ==> patterns@[j]@ == self.trip_patterns@[j]@,
            decreases self.trip_patterns.len() - i,
        {
            patterns.push(self.trip_patterns[i].duplicate());
            i += 1;
        }
        assert(patterns@.map_values(|p: TripPattern| p@) =~= self.trip_patterns@.map_values(
            |p: TripPattern| p@,
        ));
        Trip { trip_patterns: patterns }
    }
}

impl TopLevelData {
    /// A copy of this response.
    pub fn duplicate(&self) -> (r: TopLevelData)
        ensures
            r@ == self@,
    {
        TopLevelData {
            data: Data { trip1: self.data.trip1.duplicate(), trip2: self.data.trip2.duplicate() },
        }
    }
}

impl Default for Line {
    /// Line `0`.
    fn default() -> (r: Line)
        ensures
            r@ == seq!['0'],
    {
        proof {
            reveal_strlit("0");
        }
        Line { public_code: String::from_str("0") }
    }
}

impl Default for Leg {
    /// A leg with no start time and no line.
    fn default() -> (r: Leg)
        ensures
            r@.expected_start_time == Seq::<char>::empty(),
            r@.line is None,
    {
        Leg { expected_start_time: String::new(), line: None }
    }
}

impl Default for TripPattern {
    /// A trip pattern of one default leg.
    fn default() -> (r: TripPattern)
        ensures
            r@.len() == 1,
            r@[0].expected_start_time == Seq::<char>::empty(),
            r@[0].line is None,
    {
        let mut legs: Vec<Leg> = Vec::new();
        legs.push(Leg::default());
        TripPattern { legs }
    }
}

impl Default for Trip {
    /// A trip of one default trip pattern.
    fn default() -> (r: Trip)
        ensures
            r@.len() == 1,
            r@[0].len() == 1,
            r@[0][0].expected_start_time == Seq::<char>::empty(),
            r@[0][0].line is None,
    {
        let mut trip_patterns: Vec<TripPattern> = Vec::new();
        trip_patterns.push(TripPattern::default());
        Trip { trip_patterns }
    }
}

impl Default for Data {
    /// Two default trips.
    fn default() -> (r: Data)
        ensures
            r.trip1@.len() == 1 && r.trip1@[0].len() == 1 && r.trip1@[0][0].line is None,
            r.trip2@.len() == 1 && r.trip2@[0].len() == 1 && r.trip2@[0][0].line is None,
    {
        Data { trip1: Trip::default(), trip2: Trip::default() }
    }
}

impl Default for TopLevelData {
    /// A response of two default trips.
    fn default() -> (r: TopLevelData)
        ensures
            r@.trip1.len() == 1 && r@.trip1[0].len() == 1 && r@.trip1[0][0].line is None,
            r@.trip2.len() == 1 && r@.trip2[0].len() == 1 && r@.trip2[0][0].line is None,
    {
        TopLevelData { data: Data::default() }
    }
}

} // verus!
