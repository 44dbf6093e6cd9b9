//! Per-user conversation memory.
//!
//! Each user's history is a list of `(role, content)` turns, oldest first,
//! bounded to a window of `max_turns` (the oldest are dropped). The store
//! keeps the histories it has seen in a concurrent map; the persisted form
//! is a JSON array of `[role, content]` pairs, which the store produces for
//! the database and reads back from it.

use crate::json::{at, json_document_of, json_parse, text, text_of, value_at_index, JsonValue};
use vstd::utf8::encode_utf8;
use crate::text::to_owned;
use dashmap::DashMap;
use vstd::prelude::*;

verus! {

/// A single message of a conversation: `(role, content)`.
pub type Turn = (String, String);

/// A turn by its texts.
pub open spec fn turn_text(t: Turn) -> (Seq<char>, Seq<char>) {
    (t.0@, t.1@)
}

/// Turns by their texts.
pub open spec fn turn_texts(ts: Seq<Turn>) -> Seq<(Seq<char>, Seq<char>)> {
    ts.map_values(|t: Turn| turn_text(t))
}

/// The last `max` turns (all of them when there are no more than `max`).
pub open spec fn window<T>(s: Seq<T>, max: nat) -> Seq<T> {
    if s.len() > max {
        s.subrange(s.len() - max, s.len() as int)
    } else {
        s
    }
}

/// The history after one exchange: the user's turn and the assistant's turn
/// appended, then cut to the window.
pub open spec fn after_exchange(
    prior: Seq<(Seq<char>, Seq<char>)>,
    user: Seq<char>,
    assistant: Seq<char>,
    max: nat,
) -> Seq<(Seq<char>, Seq<char>)> {
    window(prior.push(("user"@, user)).push(("assistant"@, assistant)), max)
}

/// The pairs of a list of JSON items, skipping those that are not pairs of
/// strings.
pub open spec fn pairs_only(items: Seq<Option<(Seq<char>, Seq<char>)>>) -> Seq<
    (Seq<char>, Seq<char>),
>
    decreases items.len(),
{
    if items.len() == 0 {
        Seq::empty()
    } else {
        let rest = pairs_only(items.drop_last());
        match items.last() {
            Some(p) => rest.push(p),
            None => rest,
        }
    }
}

/// Every pair, as an item that is one.
pub open spec fn all_pairs(s: Seq<(Seq<char>, Seq<char>)>) -> Seq<Option<(Seq<char>, Seq<char>)>> {
    s.map_values(|p: (Seq<char>, Seq<char>)| Some(p))
}

/// What `serde_json` writes for a history: a JSON array of
/// `[role, content]` arrays.
pub uninterp spec fn json_turns_text(turns: Seq<(Seq<char>, Seq<char>)>) -> Seq<char>;

/// The pair an element of the persisted array stands for: its first two
/// elements, when it is an array whose first two elements are strings.
pub open spec fn pair_of(item: JsonValue) -> Option<(Seq<char>, Seq<char>)> {
    let v = Some(item);
    match (text_of(value_at_index(v, 0)), text_of(value_at_index(v, 1))) {
        (Some(role), Some(content)) => Some((role, content)),
        _ => None,
    }
}

/// What persisted text holds: `None` unless it is a JSON array; else, per
/// element, the pair it stands for.
pub open spec fn json_pair_items(raw: Seq<char>) -> Option<Seq<Option<(Seq<char>, Seq<char>)>>> {
    match json_document_of(encode_utf8(raw)) {
        Some(JsonValue::Array(items)) => Some(items@.map_values(|i: JsonValue| pair_of(i))),
        _ => None,
    }
}

/// The history read back from persisted text: its pairs, cut to the window;
/// nothing when the text is not a JSON array.
pub open spec fn loaded(raw: Seq<char>, max: nat) -> Seq<(Seq<char>, Seq<char>)> {
    match json_pair_items(raw) {
        Some(items) => window(pairs_only(items), max),
        None => Seq::empty(),
    }
}

/// Pair items taken by their texts.
pub open spec fn items_view(r: Option<Vec<Option<Turn>>>) -> Option<Seq<Option<(Seq<char>, Seq<char>)>>> {
    match r {
        Some(v) => Some(
            v@.map_values(
                |i: Option<Turn>|
                    match i {
                        Some(t) => Some(turn_text(t)),
                        None => None,
                    },
            ),
        ),
        None => None,
    }
}

/// `serde_json::to_string` of the history as a `Vec<Vec<&str>>` of
/// `[role, content]` pairs. The contract claims that the text is
/// serde_json's, as named by `json_turns_text`; that writing a list of
/// string lists does not fail (serde_json fails only on map keys that are
/// not strings, or on a `Serialize` impl that reports an error, and neither
/// occurs here); and that serde_json reads the array it wrote back as the
/// same pairs.
#[verifier::external_body]
fn encode_turns(turns: &[Turn]) -> (r: String)
    ensures
        r@ == json_turns_text(turn_texts(turns@)),
        json_pair_items(r@) == Some(all_pairs(turn_texts(turns@))),
{
    let arr: Vec<Vec<&str>> = turns.iter().map(|(r, c)| vec![r.as_str(), c.as_str()]).collect();
    serde_json::to_string(&arr).unwrap_or_default()
}

/// The pair an element of the persisted array stands for.
fn pair_in(item: &JsonValue) -> (r: Option<Turn>)
    ensures
        match r {
            Some(t) => pair_of(*item) == Some(turn_text(t)),
            None => pair_of(*item) is None,
        },
{
    let role = text(at(Some(item), 0));
    let content = text(at(Some(item), 1));
    match (role, content) {
        (Some(a), Some(b)) => Some((to_owned(a), to_owned(b))),
        _ => None,
    }
}

/// The elements of persisted text, each read as a pair when it is one;
/// `None` when the text is not a JSON array.
fn pair_items(raw: &str) -> (r: Option<Vec<Option<Turn>>>)
    ensures
        items_view(r) == json_pair_items(raw@),
{
    let doc = json_parse(raw.as_bytes());
    match doc {
        Some(JsonValue::Array(items)) => {
            let mut out: Vec<Option<Turn>> = Vec::new();
            let mut i: usize = 0;
            while i < items.len()
                invariant
                    i <= items@.len(),
                    items_view(Some(out)) == Some(
                        items@.take(i as int).map_values(|x: JsonValue| pair_of(x)),
                    ),
                decreases items@.len() - i,
            {
                let p = pair_in(&items[i]);
                let ghost before = out@;
                out.push(p);
                proof {
                    assert(items@.take(i + 1).map_values(|x: JsonValue| pair_of(x)) =~= items@.take(
                        i as int,
                    ).map_values(|x: JsonValue| pair_of(x)).push(pair_of(items@[i as int])));
                    assert(out@.map_values(
                        |o: Option<Turn>|
                            match o {
                                Some(t) => Some(turn_text(t)),
                                None => None,
                            },
                    ) =~= before.map_values(
                        |o: Option<Turn>|
                            match o {
                                Some(t) => Some(turn_text(t)),
                                None => None,
                            },
                    ).push(pair_of(items@[i as int])));
                }
                i = i + 1;
            }
            assert(items@.take(items@.len() as int) =~= items@);
            Some(out)
        },
        _ => None,
    }
}

/// What a map of per-user histories holds.
pub uninterp spec fn turns_of(m: DashMap<i64, Vec<Turn>>) -> Map<i64, Seq<Turn>>;

/// `DashMap::new`: an empty map.
#[verifier::external_body]
fn turns_new() -> (m: DashMap<i64, Vec<Turn>>)
    ensures
        turns_of(m).dom().is_empty(),
{
    DashMap::new()
}

/// `DashMap::get` then `Clone::clone` of the value.
#[verifier::external_body]
fn turns_get(m: &DashMap<i64, Vec<Turn>>, user_id: i64) -> (r: Option<Vec<Turn>>)
    ensures
        match r {
            Some(v) => turns_of(*m).contains_key(user_id) && turn_texts(v@) == turn_texts(
                turns_of(*m)[user_id],
            ),
            None => !turns_of(*m).contains_key(user_id),
        },
{
    m.get(&user_id).map(|v| v.value().clone())
}

/// `DashMap::insert`: stores a user's history, replacing any previous one.
#[verifier::external_body]
fn turns_insert(m: &mut DashMap<i64, Vec<Turn>>, user_id: i64, v: Vec<Turn>)
    ensures
        turns_of(*final(m)) == turns_of(*old(m)).insert(user_id, v@),
{
    m.insert(user_id, v);
}

/// `DashMap::remove`: drops a user's history.
#[verifier::external_body]
fn turns_remove(m: &mut DashMap<i64, Vec<Turn>>, user_id: i64)
    ensures
        turns_of(*final(m)) == turns_of(*old(m)).remove(user_id),
{
    m.remove(&user_id);
}

/// A copy of a list of turns.
fn copy_turns(ts: &[Turn], from: usize) -> (r: Vec<Turn>)
    requires
        from <= ts@.len(),
    ensures
        turn_texts(r@) == turn_texts(ts@).subrange(from as int, ts@.len() as int),
{
    let mut out: Vec<Turn> = Vec::new();
    let mut i = from;
    while i < ts.len()
        invariant
            from <= i <= ts@.len(),
            turn_texts(out@) =~= turn_texts(ts@).subrange(from as int, i as int),
        decreases ts@.len() - i,
    {
        let ghost before = out@;
        out.push((ts[i].0.clone(), ts[i].1.clone()));
        assert(turn_texts(out@) =~= turn_texts(before).push(turn_text(ts@[i as int])));
        i = i + 1;
    }
    out
}

/// The last `max` turns.
fn keep_window(ts: Vec<Turn>, max: usize) -> (r: Vec<Turn>)
    ensures
        turn_texts(r@) == window(turn_texts(ts@), max as nat),
{
    if ts.len() > max {
        copy_turns(ts.as_slice(), ts.len() - max)
    } else {
        ts
    }
}

/// The pairs of a list of JSON items.
fn keep_pairs(items: Vec<Option<Turn>>) -> (r: Vec<Turn>)
    ensures
        turn_texts(r@) == pairs_only(items_view(Some(items))->0),
{
    let ghost view = items_view(Some(items))->0;
    let mut out: Vec<Turn> = Vec::new();
    let mut i: usize = 0;
    while i < items.len()
        invariant
            i <= items@.len(),
            view == items_view(Some(items))->0,
            turn_texts(out@) =~= pairs_only(view.take(i as int)),
        decreases items@.len() - i,
    {
        assert(view.take(i + 1).drop_last() =~= view.take(i as int));
        match &items[i] {
            Some(t) => {
                out.push((t.0.clone(), t.1.clone()));
            },
            None => {},
        }
        i = i + 1;
    }
    assert(view.take(items@.len() as int) =~= view);
    out
}

/// Reading back what was written gives the same pairs.
proof fn lemma_pairs_of_all_pairs(s: Seq<(Seq<char>, Seq<char>)>)
    ensures
        pairs_only(all_pairs(s)) == s,
    decreases s.len(),
{
    if s.len() > 0 {
        assert(all_pairs(s).drop_last() =~= all_pairs(s.drop_last()));
        lemma_pairs_of_all_pairs(s.drop_last());
        assert(s.drop_last().push(s.last()) =~= s);
    }
}

/// Per-user conversation histories, bounded to a window.
pub struct ConversationStore {
    cache: DashMap<i64, Vec<Turn>>,
    max_turns: usize,
}

impl ConversationStore {
    /// The histories the store holds, by their texts.
    pub closed spec fn memory(&self) -> Map<i64, Seq<(Seq<char>, Seq<char>)>> {
        turns_of(self.cache).map_values(|ts: Seq<Turn>| turn_texts(ts))
    }

    /// The number of turns kept per user.
    pub closed spec fn max_turns(&self) -> nat {
        self.max_turns as nat
    }

    /// The window holds at least one exchange and no history exceeds it.
    pub closed spec fn wf(&self) -> bool {
        &&& self.max_turns >= 2
        &&& forall|u: i64| #[trigger]
            turns_of(self.cache).contains_key(u) ==> turns_of(self.cache)[u].len()
                <= self.max_turns
    }

    /// No history the store holds is longer than its window.
    pub proof fn lemma_memory_bounded(&self, user_id: i64)
        requires
            self.wf(),
            self.memory().contains_key(user_id),
        ensures
            self.memory()[user_id].len() <= self.max_turns(),
    {
        assert(turns_of(self.cache).contains_key(user_id));
    }

    /// An empty store keeping `max_turns` turns per user (at least two).
    pub fn new(max_turns: usize) -> (s: Self)
        ensures
            s.wf(),
            s.memory().dom().is_empty(),
            s.max_turns() == if max_turns < 2 {
                2
            } else {
                max_turns
            },
    {
        let m = turns_new();
        let s = ConversationStore { cache: m, max_turns: if max_turns < 2 { 2 } else { max_turns } };
        assert(s.memory().dom() =~= Set::empty());
        s
    }

    /// The history the store holds for a user, oldest first; `None` when it
    /// holds none, and the caller reads it from the database.
    pub fn cached_history(&self, user_id: i64) -> (r: Option<Vec<Turn>>)
        ensures
            match r {
                Some(v) => self.memory().contains_key(user_id) && turn_texts(v@) == self.memory()[user_id],
                None => !self.memory().contains_key(user_id),
            },
    {
        turns_get(&self.cache, user_id)
    }

    /// Take a user's persisted history text (the JSON array the store wrote),
    /// keep its pairs cut to the window, remember them, and return them.
    pub fn load(&mut self, user_id: i64, raw: &str) -> (r: Vec<Turn>)
        requires
            old(self).wf(),
        ensures
            final(self).wf(),
            final(self).max_turns() == old(self).max_turns(),
            turn_texts(r@) == loaded(raw@, old(self).max_turns()),
            final(self).memory() == old(self).memory().insert(user_id, turn_texts(r@)),
    {
        let turns = match pair_items(raw) {
            Some(items) => keep_window(keep_pairs(items), self.max_turns),
            None => Vec::new(),
        };
        proof {
            if json_pair_items(raw@) is None {
                assert(turn_texts(turns@) =~= Seq::empty());
            }
        }
        let ghost old_cache = turns_of(self.cache);
        turns_insert(&mut self.cache, user_id, copy_turns(turns.as_slice(), 0));
        proof {
            assert(turns@.subrange(0, turns@.len() as int) =~= turns@);
            assert(turn_texts(turns@).subrange(0, turns@.len() as int) =~= turn_texts(turns@));
            assert(self.memory() =~= old(self).memory().insert(user_id, turn_texts(turns@)));
        }
        turns
    }

    /// A user's history, oldest first: the one the store holds; else the
    /// one read from `persisted` (the text the caller read from the
    /// database), which the store then keeps; `None` when the store holds
    /// none and no text was given, and the caller reads the database.
    pub fn history(&mut self, user_id: i64, persisted: Option<&str>) -> (r: Option<Vec<Turn>>)
        requires
            old(self).wf(),
        ensures
            final(self).wf(),
            final(self).max_turns() == old(self).max_turns(),
            old(self).memory().contains_key(user_id) ==> final(self).memory() == old(self).memory()
                && (r matches Some(v) && turn_texts(v@) == old(self).memory()[user_id]),
            !old(self).memory().contains_key(user_id) ==> match persisted {
                None => r is None && final(self).memory() == old(self).memory(),
                Some(raw) => (r matches Some(v) && turn_texts(v@) == loaded(
                    raw@,
                    old(self).max_turns(),
                )) && final(self).memory() == old(self).memory().insert(
                    user_id,
                    loaded(raw@, old(self).max_turns()),
                ),
            },
    {
        match self.cached_history(user_id) {
            Some(h) => Some(h),
            None => match persisted {
                Some(raw) => Some(self.load(user_id, raw)),
                None => None,
            },
        }
    }

    /// Append a user turn and an assistant turn to the user's history (empty
    /// when the store holds none), cut it to the window, and return the text
    /// to persist for it.
    pub fn push(&mut self, user_id: i64, user: &str, assistant: &str) -> (r: String)
        requires
            old(self).wf(),
        ensures
            final(self).wf(),
            final(self).max_turns() == old(self).max_turns(),
            final(self).memory() == old(self).memory().insert(
                user_id,
                after_exchange(
                    if old(self).memory().contains_key(user_id) {
                        old(self).memory()[user_id]
                    } else {
                        Seq::empty()
                    },
                    user@,
                    assistant@,
                    old(self).max_turns(),
                ),
            ),
            forall|v: i64|
                v != user_id ==> (#[trigger] final(self).memory().contains_key(v)
                    == old(self).memory().contains_key(v) && (old(self).memory().contains_key(v)
                    ==> final(self).memory()[v] == old(self).memory()[v])),
            final(self).memory()[user_id].len() <= final(self).max_turns(),
            r@ == json_turns_text(final(self).memory()[user_id]),
            loaded(r@, old(self).max_turns()) == final(self).memory()[user_id],
    {
        let mut turns = match turns_get(&self.cache, user_id) {
            Some(t) => t,
            None => Vec::new(),
        };
        let ghost prior = turn_texts(turns@);
        proof {
            if turns_of(self.cache).contains_key(user_id) {
                assert(turns@.len() <= self.max_turns);
                assert(prior == old(self).memory()[user_id]);
            } else {
                assert(prior =~= Seq::empty());
            }
        }
        turns.push((to_owned("user"), to_owned(user)));
        turns.push((to_owned("assistant"), to_owned(assistant)));
        assert(turn_texts(turns@) =~= prior.push(("user"@, user@)).push(("assistant"@, assistant@)));
        let kept = keep_window(turns, self.max_turns);
        let json = encode_turns(kept.as_slice());
        turns_insert(&mut self.cache, user_id, kept);
        proof {
            let new_texts = after_exchange(prior, user@, assistant@, self.max_turns as nat);
            assert(self.memory() =~= old(self).memory().insert(user_id, new_texts));
            lemma_pairs_of_all_pairs(new_texts);
        }
        json
    }

    /// Forget a user's history and return the text to persist for it (an
    /// empty array).
    pub fn clear(&mut self, user_id: i64) -> (r: String)
        requires
            old(self).wf(),
        ensures
            final(self).wf(),
            final(self).max_turns() == old(self).max_turns(),
            final(self).memory() == old(self).memory().remove(user_id),
            r@ == json_turns_text(Seq::empty()),
            loaded(r@, old(self).max_turns()).len() == 0,
    {
        turns_remove(&mut self.cache, user_id);
        let empty: Vec<Turn> = Vec::new();
        let json = encode_turns(empty.as_slice());
        proof {
            assert(self.memory() =~= old(self).memory().remove(user_id));
            assert(turn_texts(empty@) =~= Seq::empty());
            lemma_pairs_of_all_pairs(Seq::empty());
        }
        json
    }
}

} // verus!
