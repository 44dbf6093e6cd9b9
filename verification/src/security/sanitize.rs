//! Input sanitising: strip control characters (except newline) and trim, so
//! users cannot smuggle unexpected characters into TTS or the LLM prompt.

use crate::text::trim_end;
use crate::text::trim_start;
use crate::text::trim_vec;
use vstd::prelude::*;

verus! {

/// Unicode general category Cc (what `char::is_control` tests).
pub open spec fn is_control(c: char) -> bool {
    (c as u32) <= 0x1f || (0x7f <= (c as u32) && (c as u32) <= 0x9f)
}

/// Whether sanitising keeps a character: anything but a control character,
/// except that newline is kept.
pub open spec fn kept(c: char) -> bool {
    !is_control(c) || c == '\n'
}

/// `kept`, as a predicate for filtering.
pub open spec fn keep_pred() -> spec_fn(char) -> bool {
    |c: char| kept(c)
}

/// What sanitising a text yields.
pub open spec fn sanitized(s: Seq<char>) -> Seq<char> {
    trim_end(trim_start(s.filter(keep_pred())))
}

fn is_control_exec(c: char) -> (r: bool)
    ensures
        r == is_control(c),
{
    let u = c as u32;
    u <= 0x1f || (0x7f <= u && u <= 0x9f)
}

/// Strip control characters (except newline), then trim white space from
/// both ends.
pub fn sanitize_text(input: &str) -> (r: String)
    ensures
        r@ == sanitized(input@),
{
    let mut chars: Vec<char> = Vec::new();
    for c in it: input.chars()
        invariant
            it.seq() == input@,
            chars@ == input@.take(it.index()).filter(keep_pred()),
    {
        let ghost i = it.index();
        assert(c == input@[i]);
        proof {
            reveal_with_fuel(Seq::<_>::filter, 1);
            assert(input@.take(i + 1).drop_last() =~= input@.take(i));
            assert(input@.take(i + 1).last() == c);
        }
        if !is_control_exec(c) || c == '\n' {
            chars.push(c);
        }
    }
    proof {
        assert(input@.take(input@.len() as int) =~= input@);
    }
    trim_vec(&chars)
}


/// Every character of `s` is one sanitising keeps.
pub open spec fn all_kept(s: Seq<char>) -> bool {
    forall|i: int| 0 <= i < s.len() ==> kept(#[trigger] s[i])
}

proof fn lemma_trim_start_all_kept(s: Seq<char>)
    requires
        all_kept(s),
    ensures
        all_kept(trim_start(s)),
    decreases s.len(),
{
    if s.len() > 0 && crate::text::is_white_space(s[0]) {
        assert forall|i: int| 0 <= i < s.drop_first().len() implies kept(
            #[trigger] s.drop_first()[i],
        ) by {
            assert(s.drop_first()[i] == s[i + 1]);
        }
        lemma_trim_start_all_kept(s.drop_first());
    }
}

proof fn lemma_trim_end_all_kept(s: Seq<char>)
    requires
        all_kept(s),
    ensures
        all_kept(trim_end(s)),
    decreases s.len(),
{
    if s.len() > 0 && crate::text::is_white_space(s.last()) {
        assert forall|i: int| 0 <= i < s.drop_last().len() implies kept(
            #[trigger] s.drop_last()[i],
        ) by {
            assert(s.drop_last()[i] == s[i]);
        }
        lemma_trim_end_all_kept(s.drop_last());
    }
}

/// Sanitised text holds no control character other than newline.
pub proof fn lemma_sanitized_has_no_controls(s: Seq<char>)
    ensures
        all_kept(sanitized(s)),
{
    let f = s.filter(keep_pred());
    assert forall|i: int| 0 <= i < f.len() implies kept(#[trigger] f[i]) by {
        s.lemma_filter_pred(keep_pred(), i);
    }
    lemma_trim_start_all_kept(f);
    lemma_trim_end_all_kept(trim_start(f));
}

proof fn lemma_trim_start_head(s: Seq<char>)
    ensures
        trim_start(s).len() == 0 || !crate::text::is_white_space(trim_start(s)[0]),
    decreases s.len(),
{
    if s.len() > 0 && crate::text::is_white_space(s[0]) {
        lemma_trim_start_head(s.drop_first());
    }
}

proof fn lemma_trim_end_tail(s: Seq<char>)
    ensures
        trim_end(s).len() == 0 || !crate::text::is_white_space(trim_end(s).last()),
    decreases s.len(),
{
    if s.len() > 0 && crate::text::is_white_space(s.last()) {
        lemma_trim_end_tail(s.drop_last());
    }
}

proof fn lemma_trim_end_keeps_head(s: Seq<char>)
    requires
        s.len() > 0,
        !crate::text::is_white_space(s[0]),
    ensures
        trim_end(s).len() > 0,
        trim_end(s)[0] == s[0],
    decreases s.len(),
{
    if crate::text::is_white_space(s.last()) {
        assert(s.len() > 1);
        assert(s.drop_last()[0] == s[0]);
        lemma_trim_end_keeps_head(s.drop_last());
    }
}

proof fn lemma_filter_all_kept(t: Seq<char>)
    requires
        all_kept(t),
    ensures
        t.filter(keep_pred()) == t,
    decreases t.len(),
{
    reveal_with_fuel(Seq::<_>::filter, 1);
    if t.len() > 0 {
        assert forall|i: int| 0 <= i < t.drop_last().len() implies kept(
            #[trigger] t.drop_last()[i],
        ) by {
            assert(t.drop_last()[i] == t[i]);
        }
        lemma_filter_all_kept(t.drop_last());
        assert(kept(t[t.len() - 1]));
        assert(t.drop_last().push(t.last()) =~= t);
    }
}

/// Sanitising is idempotent: sanitised text comes through sanitising
/// again unchanged.
pub proof fn lemma_sanitize_idempotent(s: Seq<char>)
    ensures
        sanitized(sanitized(s)) == sanitized(s),
{
    let f = s.filter(keep_pred());
    let y = trim_start(f);
    let t = trim_end(y);
    lemma_sanitized_has_no_controls(s);
    lemma_filter_all_kept(t);
    lemma_trim_start_head(f);
    lemma_trim_end_tail(y);
    if t.len() > 0 {
        assert(y.len() > 0);
        lemma_trim_end_keeps_head(y);
    }
    assert(trim_start(t) == t);
    assert(trim_end(t) == t);
}

} // verus!
