//! Routing synthesis across a chain of TTS engines: the union of their
//! voices, and the engine that takes a request.

use crate::error::AnubisError;
use crate::text::{str_eq, to_owned};
use crate::tts::voices::VoiceMeta;
use vstd::prelude::*;

verus! {

/// The engines' voice lists, one after the other.
pub open spec fn concat_all(lists: Seq<Seq<VoiceMeta>>) -> Seq<VoiceMeta>
    decreases lists.len(),
{
    if lists.len() == 0 {
        Seq::empty()
    } else {
        concat_all(lists.drop_last()) + lists.last()
    }
}

/// Whether some voice in `s` has this id.
pub open spec fn has_id(s: Seq<VoiceMeta>, id: Seq<char>) -> bool {
    exists|j: int| 0 <= j < s.len() && (#[trigger] s[j]).id@ == id
}

/// The voices of `s` with each id kept once, at its first occurrence.
pub open spec fn dedup_ids(s: Seq<VoiceMeta>) -> Seq<VoiceMeta>
    decreases s.len(),
{
    if s.len() == 0 {
        Seq::empty()
    } else if has_id(s.drop_last(), s.last().id@) {
        dedup_ids(s.drop_last())
    } else {
        dedup_ids(s.drop_last()).push(s.last())
    }
}

proof fn lemma_dedup_ids_same_ids(s: Seq<VoiceMeta>, id: Seq<char>)
    ensures
        has_id(dedup_ids(s), id) == has_id(s, id),
    decreases s.len(),
{
    if s.len() > 0 {
        let p = s.drop_last();
        lemma_dedup_ids_same_ids(p, id);
        if has_id(p, id) {
            let j = choose|j: int| 0 <= j < p.len() && (#[trigger] p[j]).id@ == id;
            assert(s[j].id@ == id);
        }
        if has_id(s, id) && !has_id(p, id) {
            let j = choose|j: int| 0 <= j < s.len() && (#[trigger] s[j]).id@ == id;
            if j < p.len() {
                assert(p[j].id@ == id);
            }
        }
        if !has_id(p, s.last().id@) {
            let d = dedup_ids(p);
            let e = d.push(s.last());
            if has_id(d, id) {
                let k = choose|k: int| 0 <= k < d.len() && (#[trigger] d[k]).id@ == id;
                assert(e[k].id@ == id);
            }
            if has_id(e, id) && !has_id(d, id) {
                let k = choose|k: int| 0 <= k < e.len() && (#[trigger] e[k]).id@ == id;
                if k < d.len() {
                    assert(d[k].id@ == id);
                }
            }
            if s.last().id@ == id {
                assert(e[d.len() as int].id@ == id);
            }
        } else {
            if s.last().id@ == id {
                assert(has_id(p, id));
            }
        }
    }
}

/// Whether a voice list has this id.
fn list_has_id(s: &Vec<VoiceMeta>, id: &str) -> (r: bool)
    ensures
        r == has_id(s@, id@),
{
    let mut k: usize = 0;
    while k < s.len()
        invariant
            k <= s@.len(),
            forall|j: int| 0 <= j < k ==> (#[trigger] s@[j]).id@ != id@,
        decreases s@.len() - k,
    {
        if str_eq(s[k].id, id) {
            assert(s@[k as int].id@ == id@);
            return true;
        }
        k = k + 1;
    }
    false
}

/// Union of all engines' voices, in engine order, without duplicate ids.
pub fn union_voices(lists: &Vec<Vec<VoiceMeta>>) -> (all: Vec<VoiceMeta>)
    ensures
        all@ == dedup_ids(concat_all(lists@.map_values(|l: Vec<VoiceMeta>| l@))),
{
    let ghost ls = lists@.map_values(|l: Vec<VoiceMeta>| l@);
    let mut all: Vec<VoiceMeta> = Vec::new();
    let mut i: usize = 0;
    assert(ls.take(0) =~= Seq::<Seq<VoiceMeta>>::empty());
    while i < lists.len()
        invariant
            i <= lists@.len(),
            ls == lists@.map_values(|l: Vec<VoiceMeta>| l@),
            all@ == dedup_ids(concat_all(ls.take(i as int))),
        decreases lists@.len() - i,
    {
        let ghost prefix = concat_all(ls.take(i as int));
        let list = &lists[i];
        let mut j: usize = 0;
        assert(list@.take(0) =~= Seq::<VoiceMeta>::empty());
        assert(prefix + list@.take(0) =~= prefix);
        while j < list.len()
            invariant
                j <= list@.len(),
                all@ == dedup_ids(prefix + list@.take(j as int)),
            decreases list@.len() - j,
        {
            let v = list[j];
            let ghost cur = prefix + list@.take(j as int);
            let ghost next = prefix + list@.take(j + 1);
            assert(next.drop_last() =~= cur);
            assert(next.last() == v);
            proof {
                lemma_dedup_ids_same_ids(cur, v.id@);
            }
            if !list_has_id(&all, v.id) {
                all.push(v);
            }
            j = j + 1;
        }
        proof {
            assert(list@.take(list@.len() as int) =~= list@);
            assert(ls.take(i + 1).drop_last() =~= ls.take(i as int));
            assert(ls.take(i + 1).last() == list@);
        }
        i = i + 1;
    }
    assert(ls.take(lists@.len() as int) =~= ls);
    all
}

/// The engine that takes a request for a voice: the first whose voices have
/// the id; else the first engine (it may still resolve the voice); `None`
/// when there is no engine.
pub open spec fn engine_for(lists: Seq<Seq<VoiceMeta>>, voice_id: Seq<char>) -> Option<int> {
    if exists|i: int| 0 <= i < lists.len() && has_id(#[trigger] lists[i], voice_id) {
        Some(
            choose|i: int|
                0 <= i < lists.len() && has_id(#[trigger] lists[i], voice_id) && forall|k: int|
                    0 <= k < i ==> !has_id(#[trigger] lists[k], voice_id),
        )
    } else if lists.len() > 0 {
        Some(0)
    } else {
        None
    }
}

/// Pick the engine for a voice, by index into the engine chain.
pub fn pick_engine(lists: &Vec<Vec<VoiceMeta>>, voice_id: &str) -> (r: Result<usize, AnubisError>)
    ensures
        match r {
            Ok(i) => i < lists@.len() && engine_for(lists@.map_values(|l: Vec<VoiceMeta>| l@), voice_id@) == Some(
                i as int,
            ),
            Err(e) => lists@.len() == 0 && engine_for(lists@.map_values(|l: Vec<VoiceMeta>| l@), voice_id@) is None
                && (e matches AnubisError::Tts(m) && m@ == "no TTS engine configured"@),
        },
{
    let ghost ls = lists@.map_values(|l: Vec<VoiceMeta>| l@);
    let mut i: usize = 0;
    while i < lists.len()
        invariant
            i <= lists@.len(),
            ls == lists@.map_values(|l: Vec<VoiceMeta>| l@),
            forall|k: int| 0 <= k < i ==> !has_id(#[trigger] ls[k], voice_id@),
        decreases lists@.len() - i,
    {
        if list_has_id(&lists[i], voice_id) {
            proof {
                assert(has_id(ls[i as int], voice_id@));
                let c = choose|c: int|
                    0 <= c < ls.len() && has_id(#[trigger] ls[c], voice_id@) && forall|k: int|
                        0 <= k < c ==> !has_id(#[trigger] ls[k], voice_id@);
                if c < i {
                } else if c > i {
                    assert(!has_id(ls[i as int], voice_id@));
                }
            }
            return Ok(i);
        }
        i = i + 1;
    }
    if lists.len() > 0 {
        Ok(0)
    } else {
        Err(AnubisError::Tts(to_owned("no TTS engine configured")))
    }
}


/// An engine that can say which catalogue voices it speaks.
pub trait VoiceSource {
    fn available_voices(&self) -> Vec<VoiceMeta>;
}

/// Routes synthesis requests across a chain of engines: the first engine
/// that has the requested voice takes it.
pub struct TtsRouter<E: VoiceSource> {
    engines: Vec<E>,
}

impl<E: VoiceSource> TtsRouter<E> {
    /// The engines, in order.
    pub closed spec fn chain(&self) -> Seq<E> {
        self.engines@
    }

    pub fn new(engines: Vec<E>) -> (r: Self)
        ensures
            r.chain() == engines@,
    {
        TtsRouter { engines }
    }

    /// The engine at a position in the chain.
    pub fn engine(&self, i: usize) -> (e: &E)
        requires
            i < self.chain().len(),
        ensures
            *e == self.chain()[i as int],
    {
        &self.engines[i]
    }

    /// Each engine's voices, asked once, in chain order.
    fn voice_lists(&self) -> (ls: Vec<Vec<VoiceMeta>>)
        ensures
            ls@.len() == self.chain().len(),
    {
        let mut ls: Vec<Vec<VoiceMeta>> = Vec::new();
        let mut i: usize = 0;
        while i < self.engines.len()
            invariant
                i <= self.engines@.len(),
                ls@.len() == i,
            decreases self.engines@.len() - i,
        {
            ls.push(self.engines[i].available_voices());
            i = i + 1;
        }
        ls
    }

    /// Union of all engines' voices, in chain order, each id once (its
    /// first occurrence), over the lists the engines report now.
    pub fn available_voices(&self) -> (all: Vec<VoiceMeta>)
        ensures
            exists|ls: Seq<Seq<VoiceMeta>>|
                ls.len() == self.chain().len() && all@ == dedup_ids(concat_all(ls)),
    {
        let ls = self.voice_lists();
        let all = union_voices(&ls);
        assert(ls@.map_values(|l: Vec<VoiceMeta>| l@).len() == self.chain().len());
        all
    }

    /// The position of the engine that takes a request for a voice: the
    /// first that reports the voice, else the first engine; the error when
    /// the chain is empty.
    pub fn pick(&self, voice_id: &str) -> (r: Result<usize, AnubisError>)
        ensures
            match r {
                Ok(i) => i < self.chain().len(),
                Err(e) => self.chain().len() == 0 && (e matches AnubisError::Tts(m) && m@
                    == "no TTS engine configured"@),
            },
            exists|ls: Seq<Seq<VoiceMeta>>|
                ls.len() == self.chain().len() && match r {
                    Ok(i) => engine_for(ls, voice_id@) == Some(i as int),
                    Err(_) => engine_for(ls, voice_id@) is None,
                },
    {
        let ls = self.voice_lists();
        let r = pick_engine(&ls, voice_id);
        let ghost v = ls@.map_values(|l: Vec<VoiceMeta>| l@);
        assert(v.len() == self.chain().len());
        r
    }
}


/// No two voices of the list share an id.
pub open spec fn unique_ids(s: Seq<VoiceMeta>) -> bool {
    forall|i: int, j: int| 0 <= i < j < s.len() ==> (#[trigger] s[i]).id@ != (#[trigger] s[j]).id@
}

/// The union of the engines' voices lists every id once: no duplicates, and
/// every id some engine reports.
pub proof fn lemma_union_unique_and_complete(s: Seq<VoiceMeta>, id: Seq<char>)
    ensures
        unique_ids(dedup_ids(s)),
        has_id(dedup_ids(s), id) == has_id(s, id),
    decreases s.len(),
{
    lemma_dedup_ids_same_ids(s, id);
    if s.len() > 0 {
        let p = s.drop_last();
        lemma_union_unique_and_complete(p, id);
        let d = dedup_ids(p);
        if !has_id(p, s.last().id@) {
            lemma_dedup_ids_same_ids(p, s.last().id@);
            let e = d.push(s.last());
            assert forall|i: int, j: int| 0 <= i < j < e.len() implies (#[trigger] e[i]).id@
                != (#[trigger] e[j]).id@ by {
                if j == d.len() {
                    if e[i].id@ == e[j].id@ {
                        assert(d[i].id@ == s.last().id@);
                        assert(has_id(d, s.last().id@));
                    }
                } else {
                    assert(d[i] == e[i] && d[j] == e[j]);
                }
            }
        }
    }
}

} // verus!
