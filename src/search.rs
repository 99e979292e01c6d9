//! The debounced station search: when a text edit triggers a remote lookup.
use vstd::prelude::*;
use crate::journey::Place;

verus! {

/// Fewest characters a query needs before a lookup is issued.
pub const MIN_QUERY_LEN: usize = 2;

/// Quiet time, in milliseconds, required after the last edit before a lookup.
pub const SUGGESTION_DEBOUNCE_MS: u64 = 350;

/// Text being typed and the suggestions it produced. Instants are monotonic
/// milliseconds.
pub struct InputState {
    pub text: Vec<char>,
    pub cursor: usize,
    pub suggestions: Vec<Place>,
    pub selected: usize,
    pub last_edit_at: u64,
    pub last_queried: Vec<char>,
    pub loading: bool,
    pub error: Option<String>,
}

/// Whether a lookup is due at monotonic `now`: the text is long enough, it is
/// not the last text served, no lookup is in flight, and the debounce interval
/// has passed since the last edit.
pub open spec fn fetch_due(s: InputState, now: u64) -> bool {
    &&& s.text@.len() >= MIN_QUERY_LEN
    &&& s.text@ != s.last_queried@
    &&& !s.loading
    &&& now >= s.last_edit_at + SUGGESTION_DEBOUNCE_MS
}

/// Lines shown under the input: a loading note, the error, a no-result note
/// for a long enough text, or the names of the suggestions.
pub open spec fn suggestion_lines(s: InputState) -> Seq<Seq<char>> {
    if s.loading {
        seq!["Loading..."@]
    } else if s.error is Some {
        seq!["Error: "@ + s.error->Some_0@]
    } else if s.suggestions@.len() == 0 && s.text@.len() >= MIN_QUERY_LEN {
        seq!["No results"@]
    } else {
        s.suggestions@.map_values(|p: Place| p.name@)
    }
}

/// Whether `a` and `b` hold the same characters.
pub fn same_chars(a: &Vec<char>, b: &Vec<char>) -> (r: bool)
    ensures
        r == (a@ == b@),
{
    if a.len() != b.len() {
        return false;
    }
    let mut i: usize = 0;
    while i < a.len()
        invariant
            a@.len() == b@.len(),
            i <= a@.len(),
            forall|j: int| 0 <= j < i ==> a@[j] == b@[j],
        decreases a@.len() - i,
    {
        if a[i] != b[i] {
            return false;
        }
        i = i + 1;
    }
    proof {
        assert(a@ =~= b@);
    }
    true
}

/// A text shorter than the minimum never triggers a lookup.
pub proof fn lemma_short_text_never_fetches(s: InputState, now: u64)
    requires
        s.text@.len() < MIN_QUERY_LEN,
    ensures
        !fetch_due(s, now),
{
}

/// A burst of edits, each less than the debounce interval after the one
/// before, issues no lookup before its last edit: `states[i]` is the input
/// right after the edit at `times[i]`, and a tick at any instant before the
/// next edit finds nothing due. After the last edit, a lookup is due once the
/// interval has passed (for the final text), and once that text has been
/// served nothing more is due until the text changes.
pub proof fn lemma_debounce_burst(states: Seq<InputState>, times: Seq<u64>, i: int, tick: u64)
    requires
        states.len() == times.len(),
        states.len() > 0,
        forall|k: int| 0 <= k < states.len() ==> #[trigger] states[k].last_edit_at == times[k],
        forall|k: int|
            0 <= k < times.len() - 1 ==> times[k] <= #[trigger] times[k + 1] < times[k]
                + SUGGESTION_DEBOUNCE_MS,
        0 <= i < states.len(),
        times[i] <= tick,
    ensures
        i < states.len() - 1 && tick < times[i + 1] ==> !fetch_due(states[i], tick),
        i == states.len() - 1 ==> (fetch_due(states[i], tick) <==> (
            tick >= times[i] + SUGGESTION_DEBOUNCE_MS
            && states[i].text@.len() >= MIN_QUERY_LEN
            && states[i].text@ != states[i].last_queried@
            && !states[i].loading)),
        states[i].text@ == states[i].last_queried@ ==> !fetch_due(states[i], tick),
{
    if i < states.len() - 1 {
        assert(times[i] <= times[i + 1] < times[i] + SUGGESTION_DEBOUNCE_MS);
    }
}

} // verus!
