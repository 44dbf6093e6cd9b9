//! The layouts of the bot's inline keyboards: rows of buttons, each with a
//! label and the callback data it sends.

use crate::i18n::{get, language_table, languages, table, lang_of, Strings, LangMeta};
use crate::bot::logic::{action_name, action_of, after, lemma_action_names, MenuAction};
use crate::text::{has_prefix, push_str, str_eq, to_owned};
use crate::tts::voices::{for_lang, in_lang, voice_table, VoiceMeta};
use vstd::prelude::*;

verus! {

/// One inline button.
#[derive(Debug)]
pub struct Button {
    pub label: String,
    pub data: String,
}

/// A button by its label and data.
pub open spec fn button_view(b: Button) -> (Seq<char>, Seq<char>) {
    (b.label@, b.data@)
}

/// Buttons by their texts.
pub open spec fn buttons_view(bs: Seq<Button>) -> Seq<(Seq<char>, Seq<char>)> {
    bs.map_values(|b: Button| button_view(b))
}

/// Rows of buttons by their texts.
pub open spec fn rows_view(rows: Seq<Vec<Button>>) -> Seq<Seq<(Seq<char>, Seq<char>)>> {
    rows.map_values(|r: Vec<Button>| buttons_view(r@))
}

/// Items laid out two per row (the last row holds one when the count is odd).
pub open spec fn chunks2<T>(s: Seq<T>) -> Seq<Seq<T>>
    decreases s.len(),
{
    if s.len() == 0 {
        Seq::empty()
    } else if s.len() == 1 {
        seq![s]
    } else {
        seq![s.subrange(0, 2)] + chunks2(s.subrange(2, s.len() as int))
    }
}

proof fn lemma_chunks2_append<T>(a: Seq<T>, b: Seq<T>)
    requires
        a.len() % 2 == 0,
    ensures
        chunks2(a + b) == chunks2(a) + chunks2(b),
    decreases a.len(),
{
    if a.len() == 0 {
        assert(a + b =~= b);
        assert(chunks2(a) + chunks2(b) =~= chunks2(b));
    } else {
        let rest = a.subrange(2, a.len() as int);
        assert((a + b).subrange(0, 2) =~= a.subrange(0, 2));
        assert((a + b).subrange(2, (a + b).len() as int) =~= rest + b);
        lemma_chunks2_append(rest, b);
        assert(chunks2(a + b) =~= chunks2(a) + chunks2(b));
    }
}

fn button(label: &str, data: &str) -> (b: Button)
    ensures
        button_view(b) == (label@, data@),
{
    Button { label: to_owned(label), data: to_owned(data) }
}

fn row1(a: Button) -> (r: Vec<Button>)
    ensures
        buttons_view(r@) == seq![button_view(a)],
{
    let mut r: Vec<Button> = Vec::new();
    r.push(a);
    assert(buttons_view(r@) =~= seq![button_view(a)]);
    r
}

fn row2(a: Button, b: Button) -> (r: Vec<Button>)
    ensures
        buttons_view(r@) == seq![button_view(a), button_view(b)],
{
    let mut r: Vec<Button> = Vec::new();
    r.push(a);
    r.push(b);
    assert(buttons_view(r@) =~= seq![button_view(a), button_view(b)]);
    r
}

fn copy_button(b: &Button) -> (c: Button)
    ensures
        button_view(c) == button_view(*b),
{
    Button { label: b.label.clone(), data: b.data.clone() }
}

/// Lay buttons out two per row.
fn two_per_row(items: &Vec<Button>) -> (rows: Vec<Vec<Button>>)
    ensures
        rows_view(rows@) == chunks2(buttons_view(items@)),
{
    let ghost all = buttons_view(items@);
    let mut rows: Vec<Vec<Button>> = Vec::new();
    let mut i: usize = 0;
    assert(all.take(0) =~= Seq::<(Seq<char>, Seq<char>)>::empty());
    while i < items.len()
        invariant
            i <= items@.len(),
            i % 2 == 0 || i == items@.len(),
            all == buttons_view(items@),
            rows_view(rows@) =~= chunks2(all.take(i as int)),
        decreases items@.len() - i,
    {
        let ghost before = rows@;
        let mut row: Vec<Button> = Vec::new();
        row.push(copy_button(&items[i]));
        if i + 1 < items.len() {
            row.push(copy_button(&items[i + 1]));
            proof {
                let chunk = all.subrange(i as int, i + 2);
                assert(all.take(i + 2) =~= all.take(i as int) + chunk);
                lemma_chunks2_append(all.take(i as int), chunk);
                assert(chunk.subrange(0, 2) =~= chunk);
                assert(chunks2(chunk.subrange(2, 2)).len() == 0);
                assert(chunks2(chunk) =~= seq![chunk.subrange(0, 2)] + chunks2(chunk.subrange(2, 2)));
                assert(chunks2(chunk) =~= seq![chunk]);
                assert(buttons_view(row@) =~= chunk);
            }
            rows.push(row);
            assert(rows_view(rows@) =~= rows_view(before).push(buttons_view(row@)));
            i = i + 2;
        } else {
            proof {
                let chunk = all.subrange(i as int, i + 1);
                assert(all.take(i + 1) =~= all.take(i as int) + chunk);
                lemma_chunks2_append(all.take(i as int), chunk);
                assert(buttons_view(row@) =~= chunk);
            }
            rows.push(row);
            assert(rows_view(rows@) =~= rows_view(before).push(buttons_view(row@)));
            i = i + 1;
        }
    }
    assert(all.take(items@.len() as int) =~= all);
    rows
}

/// The main menu of a set of strings.
pub open spec fn main_menu_rows(s: Strings) -> Seq<Seq<(Seq<char>, Seq<char>)>> {
    seq![
        seq![(s.btn_ask@, "act:ask"@)],
        seq![(s.btn_speak@, "act:speak"@)],
        seq![(s.btn_voices@, "act:voices"@), (s.btn_lang@, "act:lang"@)],
        seq![(s.btn_teacher@, "act:teacher"@), (s.btn_help@, "act:help"@)],
        seq![(s.btn_credits@, "act:credits"@), (s.btn_upgrade@, "act:upgrade"@)],
        seq![(s.btn_reset@, "act:reset"@)],
    ]
}

/// The main menu in a language.
pub fn main_menu(lang: &str) -> (rows: Vec<Vec<Button>>)
    ensures
        rows_view(rows@) == main_menu_rows(table(lang_of(lang@))),
{
    let s = get(lang);
    let mut rows: Vec<Vec<Button>> = Vec::new();
    rows.push(row1(button(s.btn_ask, "act:ask")));
    rows.push(row1(button(s.btn_speak, "act:speak")));
    rows.push(row2(button(s.btn_voices, "act:voices"), button(s.btn_lang, "act:lang")));
    rows.push(row2(button(s.btn_teacher, "act:teacher"), button(s.btn_help, "act:help")));
    rows.push(row2(button(s.btn_credits, "act:credits"), button(s.btn_upgrade, "act:upgrade")));
    rows.push(row1(button(s.btn_reset, "act:reset")));
    assert(rows_view(rows@) =~= main_menu_rows(s));
    rows
}

/// The button that picks a language.
pub open spec fn lang_button(l: LangMeta) -> (Seq<char>, Seq<char>) {
    (l.label@, "lang:"@ + l.code@)
}

/// The language picker: two languages per row.
pub fn lang_keyboard() -> (rows: Vec<Vec<Button>>)
    ensures
        rows_view(rows@) == chunks2(language_table().map_values(|l: LangMeta| lang_button(l))),
{
    let langs = languages();
    let mut items: Vec<Button> = Vec::new();
    let mut i: usize = 0;
    while i < langs.len()
        invariant
            i <= langs@.len(),
            langs@ == language_table(),
            buttons_view(items@) =~= language_table().take(i as int).map_values(
                |l: LangMeta| lang_button(l),
            ),
        decreases langs@.len() - i,
    {
        let mut data = to_owned("lang:");
        push_str(&mut data, langs[i].code);
        let ghost before = items@;
        items.push(Button { label: to_owned(langs[i].label), data });
        assert(buttons_view(items@) =~= buttons_view(before).push(lang_button(langs@[i as int])));
        i = i + 1;
    }
    assert(language_table().take(langs@.len() as int) =~= language_table());
    two_per_row(&items)
}

/// The label of a voice button: a gender icon, the name, and a check mark
/// on the active voice.
pub open spec fn voice_label(v: VoiceMeta, active_id: Seq<char>) -> Seq<char> {
    (if v.gender@ == "female"@ {
        "♀"@
    } else {
        "♂"@
    }) + " "@ + v.name@ + if v.id@ == active_id {
        " ✅"@
    } else {
        ""@
    }
}

/// The button that picks a voice.
pub open spec fn voice_button(v: VoiceMeta, active_id: Seq<char>) -> (Seq<char>, Seq<char>) {
    (voice_label(v, active_id), "voice:"@ + v.id@)
}

/// The voice picker of a language: its voices two per row, then a row with
/// the back button.
pub fn voices_keyboard(lang: &str, active_id: &str) -> (rows: Vec<Vec<Button>>)
    ensures
        rows_view(rows@) == chunks2(
            voice_table().filter(in_lang(lang@)).map_values(|v: VoiceMeta| voice_button(v, active_id@)),
        ).push(seq![("🔙"@, "menu:back"@)]),
{
    let voices = for_lang(lang);
    let ghost vs = voices@;
    let mut items: Vec<Button> = Vec::new();
    let mut i: usize = 0;
    while i < voices.len()
        invariant
            i <= voices@.len(),
            vs == voices@,
            buttons_view(items@) =~= vs.take(i as int).map_values(
                |v: VoiceMeta| voice_button(v, active_id@),
            ),
        decreases voices@.len() - i,
    {
        let v = voices[i];
        let icon = if str_eq(v.gender, "female") {
            "♀"
        } else {
            "♂"
        };
        let mut label = to_owned(icon);
        push_str(&mut label, " ");
        push_str(&mut label, v.name);
        if str_eq(v.id, active_id) {
            push_str(&mut label, " ✅");
        } else {
            push_str(&mut label, "");
        }
        let mut data = to_owned("voice:");
        push_str(&mut data, v.id);
        let ghost before = items@;
        items.push(Button { label, data });
        assert(buttons_view(items@) =~= buttons_view(before).push(voice_button(vs[i as int], active_id@)));
        i = i + 1;
    }
    assert(vs.take(voices@.len() as int) =~= vs);
    let mut rows = two_per_row(&items);
    let ghost before = rows@;
    rows.push(row1(button("🔙", "menu:back")));
    assert(rows_view(rows@) =~= rows_view(before).push(seq![("🔙"@, "menu:back"@)]));
    rows
}

/// The keyboard under an answer: one button to hear it spoken.
pub fn reply_voice_keyboard(lang: &str) -> (rows: Vec<Vec<Button>>)
    ensures
        rows_view(rows@) == seq![seq![(table(lang_of(lang@)).listen_hint@, "listen:last"@)]],
{
    let s = get(lang);
    let mut rows: Vec<Vec<Button>> = Vec::new();
    rows.push(row1(button(s.listen_hint, "listen:last")));
    assert(rows_view(rows@) =~= seq![seq![(s.listen_hint@, "listen:last"@)]]);
    rows
}


/// Callback data that `route_callback` sends to a main-menu action: it has
/// none of the prefixes checked before `act:`, and names a known action.
pub open spec fn routes_to_action(d: Seq<char>) -> bool {
    &&& !has_prefix(d, "lang:"@)
    &&& !has_prefix(d, "voice:"@)
    &&& !has_prefix(d, "listen:"@)
    &&& !has_prefix(d, "menu:"@)
    &&& has_prefix(d, "act:"@)
    &&& action_of(after(d, "act:"@)) is Some
}

proof fn lemma_act_data(d: Seq<char>, a: Seq<char>)
    requires
        d == "act:"@ + a,
        action_of(a) is Some,
    ensures
        routes_to_action(d),
{
    reveal_strlit("act:");
    reveal_strlit("lang:");
    reveal_strlit("voice:");
    reveal_strlit("listen:");
    reveal_strlit("menu:");
    assert(d.subrange(0, 4) =~= "act:"@);
    assert(after(d, "act:"@) =~= a);
    assert(d[0] == 'a');
}

/// Every main-menu button sends data that routes to a menu action.
pub proof fn lemma_main_menu_routes(s: Strings)
    ensures
        forall|r: int, k: int|
            0 <= r < main_menu_rows(s).len() && 0 <= k < main_menu_rows(s)[r].len()
                ==> routes_to_action(#[trigger] main_menu_rows(s)[r][k].1),
{
    reveal_strlit("act:");
    reveal_strlit("act:ask");
    reveal_strlit("act:speak");
    reveal_strlit("act:voices");
    reveal_strlit("act:lang");
    reveal_strlit("act:teacher");
    reveal_strlit("act:help");
    reveal_strlit("act:credits");
    reveal_strlit("act:upgrade");
    reveal_strlit("act:reset");
    reveal_strlit("ask");
    reveal_strlit("speak");
    reveal_strlit("voices");
    reveal_strlit("lang");
    reveal_strlit("teacher");
    reveal_strlit("help");
    reveal_strlit("credits");
    reveal_strlit("upgrade");
    reveal_strlit("reset");
    assert("act:ask"@ =~= "act:"@ + "ask"@);
    lemma_act_data("act:ask"@, "ask"@);
    assert("act:speak"@ =~= "act:"@ + "speak"@);
    lemma_act_data("act:speak"@, "speak"@);
    assert("act:voices"@ =~= "act:"@ + "voices"@);
    lemma_act_data("act:voices"@, "voices"@);
    assert("act:lang"@ =~= "act:"@ + "lang"@);
    lemma_act_data("act:lang"@, "lang"@);
    assert("act:teacher"@ =~= "act:"@ + "teacher"@);
    lemma_act_data("act:teacher"@, "teacher"@);
    assert("act:help"@ =~= "act:"@ + "help"@);
    lemma_act_data("act:help"@, "help"@);
    assert("act:credits"@ =~= "act:"@ + "credits"@);
    lemma_act_data("act:credits"@, "credits"@);
    assert("act:upgrade"@ =~= "act:"@ + "upgrade"@);
    lemma_act_data("act:upgrade"@, "upgrade"@);
    assert("act:reset"@ =~= "act:"@ + "reset"@);
    lemma_act_data("act:reset"@, "reset"@);
}

/// Every language-picker button sends `lang:` and the language's code,
/// which `route_callback` routes to that language.
pub proof fn lemma_lang_button_routes(l: LangMeta)
    ensures
        has_prefix(lang_button(l).1, "lang:"@),
        after(lang_button(l).1, "lang:"@) == l.code@,
{
    let d = lang_button(l).1;
    assert(d.subrange(0, "lang:"@.len() as int) =~= "lang:"@);
    assert(after(d, "lang:"@) =~= l.code@);
}

/// Every voice-picker button sends `voice:` and the voice's id, which
/// `route_callback` routes to that voice (the data does not begin with
/// `lang:`, checked first).
pub proof fn lemma_voice_button_routes(v: VoiceMeta, active_id: Seq<char>)
    ensures
        !has_prefix(voice_button(v, active_id).1, "lang:"@),
        has_prefix(voice_button(v, active_id).1, "voice:"@),
        after(voice_button(v, active_id).1, "voice:"@) == v.id@,
{
    reveal_strlit("lang:");
    reveal_strlit("voice:");
    let d = voice_button(v, active_id).1;
    assert(d.subrange(0, 6) =~= "voice:"@);
    assert(after(d, "voice:"@) =~= v.id@);
    assert(d[0] == 'v');
}

/// The label of each action's main-menu button.
pub open spec fn menu_label(s: Strings, m: MenuAction) -> Seq<char> {
    match m {
        MenuAction::Ask => s.btn_ask@,
        MenuAction::Speak => s.btn_speak@,
        MenuAction::Voices => s.btn_voices@,
        MenuAction::Lang => s.btn_lang@,
        MenuAction::Teacher => s.btn_teacher@,
        MenuAction::Help => s.btn_help@,
        MenuAction::Credits => s.btn_credits@,
        MenuAction::Upgrade => s.btn_upgrade@,
        MenuAction::Reset => s.btn_reset@,
    }
}

/// Every main-menu button routes to the action its label names: its data is
/// `act:` and that action's name, which `route_callback` sends to that
/// action.
pub proof fn lemma_main_menu_buttons_act(s: Strings)
    ensures
        forall|r: int, k: int|
            0 <= r < main_menu_rows(s).len() && 0 <= k < main_menu_rows(s)[r].len() ==> exists|
                m: MenuAction,
            |
                #[trigger] main_menu_rows(s)[r][k] == (menu_label(s, m), "act:"@ + action_name(m))
                    && action_of(after(main_menu_rows(s)[r][k].1, "act:"@)) == Some(m),
{
    reveal_strlit("act:ask");
    reveal_strlit("act:speak");
    reveal_strlit("act:voices");
    reveal_strlit("act:lang");
    reveal_strlit("act:teacher");
    reveal_strlit("act:help");
    reveal_strlit("act:credits");
    reveal_strlit("act:upgrade");
    reveal_strlit("act:reset");
    reveal_strlit("ask");
    reveal_strlit("speak");
    reveal_strlit("voices");
    reveal_strlit("lang");
    reveal_strlit("teacher");
    reveal_strlit("help");
    reveal_strlit("credits");
    reveal_strlit("upgrade");
    reveal_strlit("reset");
    reveal_strlit("act:");
    assert("act:ask"@ =~= "act:"@ + "ask"@);
    assert("act:speak"@ =~= "act:"@ + "speak"@);
    assert("act:voices"@ =~= "act:"@ + "voices"@);
    assert("act:lang"@ =~= "act:"@ + "lang"@);
    assert("act:teacher"@ =~= "act:"@ + "teacher"@);
    assert("act:help"@ =~= "act:"@ + "help"@);
    assert("act:credits"@ =~= "act:"@ + "credits"@);
    assert("act:upgrade"@ =~= "act:"@ + "upgrade"@);
    assert("act:reset"@ =~= "act:"@ + "reset"@);
    assert forall|m: MenuAction| #[trigger] after("act:"@ + action_name(m), "act:"@) == action_name(
        m,
    ) by {
        assert(after("act:"@ + action_name(m), "act:"@) =~= action_name(m));
    }
    assert forall|m: MenuAction| #[trigger] action_of(action_name(m)) == Some(m) by {
        lemma_action_names(action_name(m), m);
    }
    assert forall|r: int, k: int|
        0 <= r < main_menu_rows(s).len() && 0 <= k < main_menu_rows(s)[r].len() implies exists|
            m: MenuAction,
        |
            #[trigger] main_menu_rows(s)[r][k] == (menu_label(s, m), "act:"@ + action_name(m))
                && action_of(after(main_menu_rows(s)[r][k].1, "act:"@)) == Some(m) by {
        if r == 0 && k == 0 {
            assert(main_menu_rows(s)[r][k] == (menu_label(s, MenuAction::Ask), "act:"@ + action_name(MenuAction::Ask)));
        } else if r == 1 && k == 0 {
            assert(main_menu_rows(s)[r][k] == (menu_label(s, MenuAction::Speak), "act:"@ + action_name(MenuAction::Speak)));
        } else if r == 2 && k == 0 {
            assert(main_menu_rows(s)[r][k] == (menu_label(s, MenuAction::Voices), "act:"@ + action_name(MenuAction::Voices)));
        } else if r == 2 && k == 1 {
            assert(main_menu_rows(s)[r][k] == (menu_label(s, MenuAction::Lang), "act:"@ + action_name(MenuAction::Lang)));
        } else if r == 3 && k == 0 {
            assert(main_menu_rows(s)[r][k] == (menu_label(s, MenuAction::Teacher), "act:"@ + action_name(MenuAction::Teacher)));
        } else if r == 3 && k == 1 {
            assert(main_menu_rows(s)[r][k] == (menu_label(s, MenuAction::Help), "act:"@ + action_name(MenuAction::Help)));
        } else if r == 4 && k == 0 {
            assert(main_menu_rows(s)[r][k] == (menu_label(s, MenuAction::Credits), "act:"@ + action_name(MenuAction::Credits)));
        } else if r == 4 && k == 1 {
            assert(main_menu_rows(s)[r][k] == (menu_label(s, MenuAction::Upgrade), "act:"@ + action_name(MenuAction::Upgrade)));
        } else if r == 5 && k == 0 {
            assert(main_menu_rows(s)[r][k] == (menu_label(s, MenuAction::Reset), "act:"@ + action_name(MenuAction::Reset)));
        }
    }
}

} // verus!
