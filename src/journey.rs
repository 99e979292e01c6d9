//! Places and journeys as fetched from the remote source, and the composite
//! key that re-identifies a journey across independent fetches.
use vstd::prelude::*;

verus! {

/// A station or stop area, identified by its stable remote id.
#[derive(Clone)]
pub struct Place {
    pub id: String,
    pub name: String,
    pub embedded_type: Option<String>,
}

/// One scheduled trip between two places. Departure and arrival are instants
/// in whole seconds since the Unix epoch.
#[derive(Clone)]
pub struct Journey {
    pub dep: i64,
    pub arr: i64,
    pub date_str: String,
    pub duration_secs: i64,
    pub nb_transfers: i64,
}

/// The identity of a journey: departure, arrival, duration and transfers.
#[derive(Clone, Copy, Debug, PartialEq, Eq, Structural)]
pub struct JourneyKey {
    pub dep: i64,
    pub arr: i64,
    pub duration_secs: i64,
    pub nb_transfers: i64,
}

impl Journey {
    /// Whole minutes of the journey's duration, zero for a negative one.
    pub fn duration_minutes(&self) -> (r: i64)
        ensures
            self.duration_secs < 0 ==> r == 0,
            self.duration_secs >= 0 ==> r == self.duration_secs / 60,
    {
        if self.duration_secs < 0 {
            0
        } else {
            self.duration_secs / 60
        }
    }

    pub open spec fn key_spec(&self) -> JourneyKey {
        JourneyKey {
            dep: self.dep,
            arr: self.arr,
            duration_secs: self.duration_secs,
            nb_transfers: self.nb_transfers,
        }
    }

    /// The composite key of this journey.
    pub fn key(&self) -> (r: JourneyKey)
        ensures
            r == self.key_spec(),
    {
        JourneyKey {
            dep: self.dep,
            arr: self.arr,
            duration_secs: self.duration_secs,
            nb_transfers: self.nb_transfers,
        }
    }
}

/// Whether `i` is the first position of `s` whose journey has key `k`.
pub open spec fn is_first_match(s: Seq<Journey>, k: JourneyKey, i: int) -> bool {
    &&& 0 <= i < s.len()
    &&& s[i].key_spec() == k
    &&& forall|j: int| 0 <= j < i ==> #[trigger] s[j].key_spec() != k
}

/// The first position of `s` whose journey has key `k`, if there is one.
pub open spec fn first_match(s: Seq<Journey>, k: JourneyKey) -> Option<int> {
    if exists|i: int| is_first_match(s, k, i) {
        Some(choose|i: int| is_first_match(s, k, i))
    } else {
        None
    }
}

/// There is at most one first match.
pub proof fn lemma_first_match_unique(s: Seq<Journey>, k: JourneyKey, i: int, j: int)
    requires
        is_first_match(s, k, i),
        is_first_match(s, k, j),
    ensures
        i == j,
{
    if i < j {
        assert(s[i].key_spec() != k);
    } else if j < i {
        assert(s[j].key_spec() != k);
    }
}

/// Any journey with key `k` is preceded by a first one.
pub proof fn lemma_first_match_exists(s: Seq<Journey>, k: JourneyKey, i: int)
    requires
        0 <= i < s.len(),
        s[i].key_spec() == k,
    ensures
        first_match(s, k) is Some,
        is_first_match(s, k, first_match(s, k)->Some_0),
    decreases i,
{
    if exists|j: int| 0 <= j < i && #[trigger] s[j].key_spec() == k {
        let j = choose|j: int| 0 <= j < i && #[trigger] s[j].key_spec() == k;
        lemma_first_match_exists(s, k, j);
    } else {
        assert(is_first_match(s, k, i));
    }
}

/// Position of the first journey of `journeys` whose key is `k`.
pub fn find_key(journeys: &Vec<Journey>, k: JourneyKey) -> (r: Option<usize>)
    ensures
        r matches Some(i) ==> first_match(journeys@, k) == Some(i as int),
        r is None <==> first_match(journeys@, k) is None,
{
    let mut i: usize = 0;
    while i < journeys.len()
        invariant
            i <= journeys@.len(),
            forall|j: int| 0 <= j < i ==> #[trigger] journeys@[j].key_spec() != k,
        decreases journeys@.len() - i,
    {
        if journeys[i].key() == k {
            proof {
                assert(is_first_match(journeys@, k, i as int));
                let c = choose|c: int| is_first_match(journeys@, k, c);
                lemma_first_match_unique(journeys@, k, i as int, c);
            }
            return Some(i);
        }
        i = i + 1;
    }
    proof {
        assert(!exists|c: int| is_first_match(journeys@, k, c));
    }
    None
}

} // verus!
