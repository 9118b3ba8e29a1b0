//! Journal enrichment drafts: the rules-based provider that reads a journal entry for
//! themes, emotions, mood, energy and open loops, the weekly summary draft, and the clean-up
//! applied to a language model's answer.

use vstd::prelude::*;
use vstd::utf8::encode_utf8;
use crate::decimal::{decimal_of, push_decimal};
use crate::fields::{split_chars, split_spec, string_views};
use crate::search_text::{first_line_trimmed, first_search_line, normalize_search_text, normalized_text, preview_of, truncate_preview};
use crate::text::{chars_of, contains_char, contains_str, has_substring, lowercase_of, owned, push_str, str_eq, to_lowercase, trim_spec, trim_str};

verus! {

/// The name the rules-based provider records.
pub const RULES_PROVIDER: &'static str = "rules";

/// Confidences are kept in millionths: 1_000_000 is certainty.
pub const FULL_CONFIDENCE: u64 = 1_000_000;

/// A search hit offered as context: which resource, its title and preview, and its score in
/// millionths.
#[derive(Debug, Clone)]
pub struct SearchHit {
    pub resource_type: String,
    pub resource_id: String,
    pub title: String,
    pub preview: String,
    pub score_millionths: u64,
}

/// The insight drafted for one journal entry.
#[derive(Debug, Clone)]
pub struct JournalEntryInsightInput {
    pub entry_id: String,
    pub summary: String,
    pub possible_mood: Option<String>,
    pub emotions: Vec<String>,
    pub energy: Option<String>,
    pub themes: Vec<String>,
    pub people: Vec<String>,
    pub projects: Vec<String>,
    pub open_loops: Vec<String>,
    pub provider: String,
    pub model: Option<String>,
}

/// One editable suggestion drafted for a journal entry, with its confidence in millionths.
#[derive(Debug, Clone)]
pub struct JournalEntrySuggestionInput {
    pub suggestion_type: String,
    pub value: String,
    pub target_resource_type: Option<String>,
    pub target_resource_id: Option<String>,
    pub confidence_millionths: Option<u64>,
    pub provider: String,
    pub model: Option<String>,
}

/// The draft of a weekly summary.
#[derive(Debug, Clone)]
pub struct WeeklyAiSummaryInput {
    pub week_start: String,
    pub week_end: String,
    pub summary: String,
    pub themes: Vec<String>,
    pub completed_work: Vec<String>,
    pub open_loops: Vec<String>,
    pub next_focus: Vec<String>,
    pub source_entry_ids: Vec<String>,
    pub source_task_ids: Vec<String>,
    pub source_goal_ids: Vec<String>,
    pub provider: String,
    pub model: Option<String>,
}

/// An entry's insight and its suggestions.
#[derive(Debug, Clone)]
pub struct EntryEnrichmentDraft {
    pub insight: JournalEntryInsightInput,
    pub suggestions: Vec<JournalEntrySuggestionInput>,
}

/// A weekly summary draft.
#[derive(Debug, Clone)]
pub struct WeeklySummaryDraft {
    pub summary: WeeklyAiSummaryInput,
}

/// The rules-based journal provider, which needs no model.
pub struct RulesJournalAiProvider;

// ---------------------------------------------------------------- lists without repeats

/// `v` added at the end unless the list holds it already.
pub open spec fn push_unique_spec(values: Seq<Seq<char>>, v: Seq<char>) -> Seq<Seq<char>> {
    if values.contains(v) {
        values
    } else {
        values.push(v)
    }
}

/// Adds `value` at the end unless the list holds it already.
pub fn push_unique(values: &mut Vec<String>, value: &str)
    ensures
        string_views(final(values)@) == push_unique_spec(string_views(old(values)@), value@),
{
    let mut i: usize = 0;
    while i < values.len()
        invariant
            i <= values.len(),
            forall|k: int| 0 <= k < i ==> values@[k]@ != value@,
        decreases values.len() - i,
    {
        if str_eq(values[i].as_str(), value) {
            assert(string_views(values@)[i as int] == value@);
            return;
        }
        i = i + 1;
    }
    assert(!string_views(values@).contains(value@)) by {
        if string_views(values@).contains(value@) {
            let k = choose|k: int| 0 <= k < string_views(values@).len() && string_views(values@)[k] == value@;
            assert(values@[k]@ == value@);
        }
    }
    let ghost before = values@;
    values.push(owned(value));
    assert(string_views(values@) =~= string_views(before).push(value@));
}

/// The first `n` strings of a list (all of them when it is shorter).
pub open spec fn first_n(values: Seq<Seq<char>>, n: nat) -> Seq<Seq<char>> {
    if values.len() <= n {
        values
    } else {
        values.take(n as int)
    }
}

/// Keeps the first `n` strings.
pub fn keep_first(values: &mut Vec<String>, n: usize)
    ensures
        string_views(final(values)@) == first_n(string_views(old(values)@), n as nat),
{
    if values.len() > n {
        values.truncate(n);
        assert(string_views(values@) =~= string_views(old(values)@).take(n as int));
    }
}

// ---------------------------------------------------------------- themes

/// The themes that the entry's tags give: each tag whose trimmed lower-case name has at least
/// three bytes and occurs in the text, named as trimmed, without repeats.
pub open spec fn tag_themes(lower: Seq<char>, names: Seq<Seq<char>>) -> Seq<Seq<char>>
    decreases names.len(),
{
    if names.len() == 0 {
        Seq::<Seq<char>>::empty()
    } else {
        let prev = tag_themes(lower, names.drop_last());
        let name = lowercase_of(trim_spec(names.last()));
        if encode_utf8(name).len() >= 3 && has_substring(lower, name) {
            push_unique_spec(prev, trim_spec(names.last()))
        } else {
            prev
        }
    }
}

/// Adds `theme` when `needle` occurs in the text.
pub open spec fn keyword_theme(acc: Seq<Seq<char>>, lower: Seq<char>, needle: Seq<char>, theme: Seq<char>) -> Seq<Seq<char>> {
    if has_substring(lower, needle) {
        push_unique_spec(acc, theme)
    } else {
        acc
    }
}

/// The themes of a lower-case text: those of its tags, then those of fixed keywords, at most
/// eight.
pub open spec fn themes_spec(lower: Seq<char>, names: Seq<Seq<char>>) -> Seq<Seq<char>> {
    let a = tag_themes(lower, names);
    let a = keyword_theme(a, lower, "work"@, "work"@);
    let a = keyword_theme(a, lower, "project"@, "projects"@);
    let a = keyword_theme(a, lower, "plan"@, "planning"@);
    let a = keyword_theme(a, lower, "learn"@, "learning"@);
    let a = keyword_theme(a, lower, "family"@, "family"@);
    let a = keyword_theme(a, lower, "friend"@, "relationships"@);
    let a = keyword_theme(a, lower, "money"@, "money"@);
    let a = keyword_theme(a, lower, "travel"@, "travel"@);
    let a = keyword_theme(a, lower, "write"@, "creative"@);
    first_n(a, 8)
}

fn add_keyword_theme(themes: &mut Vec<String>, lower: &Vec<char>, needle: &str, theme: &str)
    ensures
        string_views(final(themes)@) == keyword_theme(string_views(old(themes)@), lower@, needle@, theme@),
{
    if contains_str(lower, needle) {
        push_unique(themes, theme);
    }
}

/// The themes of an entry: its tags' names that the text mentions, then keyword themes.
pub fn detect_themes(lower: &str, tag_names: &Vec<String>) -> (r: Vec<String>)
    ensures
        string_views(r@) == themes_spec(lower@, string_views(tag_names@)),
{
    let l = chars_of(lower);
    let mut themes: Vec<String> = Vec::new();
    let mut i: usize = 0;
    while i < tag_names.len()
        invariant
            i <= tag_names.len(),
            l@ == lower@,
            string_views(themes@) == tag_themes(lower@, string_views(tag_names@.take(i as int))),
        decreases tag_names.len() - i,
    {
        let ghost names = string_views(tag_names@.take(i + 1));
        assert(names.drop_last() =~= string_views(tag_names@.take(i as int)));
        assert(names.last() == tag_names@[i as int]@);
        let trimmed = trim_str(tag_names[i].as_str());
        let name = to_lowercase(trimmed.as_str());
        if name.as_str().as_bytes().len() >= 3 {
            let nv = chars_of(name.as_str());
            if crate::text::contains_chars(&l, &nv) {
                push_unique(&mut themes, trimmed.as_str());
            }
        }
        i = i + 1;
    }
    assert(tag_names@.take(tag_names.len() as int) =~= tag_names@);
    add_keyword_theme(&mut themes, &l, "work", "work");
    add_keyword_theme(&mut themes, &l, "project", "projects");
    add_keyword_theme(&mut themes, &l, "plan", "planning");
    add_keyword_theme(&mut themes, &l, "learn", "learning");
    add_keyword_theme(&mut themes, &l, "family", "family");
    add_keyword_theme(&mut themes, &l, "friend", "relationships");
    add_keyword_theme(&mut themes, &l, "money", "money");
    add_keyword_theme(&mut themes, &l, "travel", "travel");
    add_keyword_theme(&mut themes, &l, "write", "creative");
    keep_first(&mut themes, 8);
    themes
}

// ---------------------------------------------------------------- emotions, mood, energy

/// Adds `emotion` when the condition holds.
pub open spec fn add_if(acc: Seq<Seq<char>>, cond: bool, v: Seq<char>) -> Seq<Seq<char>> {
    if cond {
        acc.push(v)
    } else {
        acc
    }
}

/// The emotions a lower-case text suggests, each found through its own words.
pub open spec fn emotions_spec(lower: Seq<char>) -> Seq<Seq<char>> {
    let e = Seq::<Seq<char>>::empty();
    let e = add_if(e, has_substring(lower, "happy"@) || has_substring(lower, "good"@) || has_substring(lower, "great"@)
        || has_substring(lower, "proud"@), "positive"@);
    let e = add_if(e, has_substring(lower, "excited"@) || has_substring(lower, "energized"@) || has_substring(
        lower,
        "motivated"@,
    ), "excited"@);
    let e = add_if(e, has_substring(lower, "calm"@) || has_substring(lower, "peaceful"@) || has_substring(
        lower,
        "steady"@,
    ), "calm"@);
    let e = add_if(e, has_substring(lower, "tired"@) || has_substring(lower, "drained"@) || has_substring(
        lower,
        "exhausted"@,
    ), "tired"@);
    let e = add_if(e, has_substring(lower, "stuck"@) || has_substring(lower, "blocked"@) || has_substring(
        lower,
        "frustrated"@,
    ), "frustrated"@);
    add_if(e, has_substring(lower, "overwhelmed"@) || has_substring(lower, "busy"@) || has_substring(
        lower,
        "too much"@,
    ), "overwhelmed"@)
}

fn add_emotion(emotions: &mut Vec<String>, cond: bool, emotion: &str)
    ensures
        string_views(final(emotions)@) == add_if(string_views(old(emotions)@), cond, emotion@),
{
    if cond {
        let ghost before = emotions@;
        emotions.push(owned(emotion));
        assert(string_views(emotions@) =~= string_views(before).push(emotion@));
    }
}

/// The emotions a lower-case text suggests.
pub fn detect_emotions(lower: &str) -> (r: Vec<String>)
    ensures
        string_views(r@) == emotions_spec(lower@),
{
    let l = chars_of(lower);
    let mut e: Vec<String> = Vec::new();
    assert(string_views(e@) =~= Seq::<Seq<char>>::empty());
    add_emotion(&mut e, contains_str(&l, "happy") || contains_str(&l, "good") || contains_str(&l, "great")
        || contains_str(&l, "proud"), "positive");
    add_emotion(&mut e, contains_str(&l, "excited") || contains_str(&l, "energized") || contains_str(
        &l,
        "motivated",
    ), "excited");
    add_emotion(&mut e, contains_str(&l, "calm") || contains_str(&l, "peaceful") || contains_str(&l, "steady"), "calm");
    add_emotion(&mut e, contains_str(&l, "tired") || contains_str(&l, "drained") || contains_str(&l, "exhausted"), "tired");
    add_emotion(&mut e, contains_str(&l, "stuck") || contains_str(&l, "blocked") || contains_str(&l, "frustrated"), "frustrated");
    add_emotion(&mut e, contains_str(&l, "overwhelmed") || contains_str(&l, "busy") || contains_str(&l, "too much"), "overwhelmed");
    e
}

/// The mood the emotions (and the text) suggest, worded as a possibility.
pub open spec fn mood_spec(emotions: Seq<Seq<char>>, lower: Seq<char>) -> Option<Seq<char>> {
    if emotions.contains("overwhelmed"@) {
        Some("possibly overwhelmed"@)
    } else if emotions.contains("frustrated"@) {
        Some("possibly frustrated"@)
    } else if has_substring(lower, "grateful"@) {
        Some("possibly grateful"@)
    } else if emotions.contains("positive"@) {
        Some("possibly positive"@)
    } else {
        None
    }
}

fn holds_value(values: &Vec<String>, value: &str) -> (r: bool)
    ensures
        r == string_views(values@).contains(value@),
{
    let mut i: usize = 0;
    while i < values.len()
        invariant
            i <= values.len(),
            forall|k: int| 0 <= k < i ==> values@[k]@ != value@,
        decreases values.len() - i,
    {
        if str_eq(values[i].as_str(), value) {
            assert(string_views(values@)[i as int] == value@);
            return true;
        }
        i = i + 1;
    }
    assert(!string_views(values@).contains(value@)) by {
        if string_views(values@).contains(value@) {
            let k = choose|k: int| 0 <= k < string_views(values@).len() && string_views(values@)[k] == value@;
            assert(values@[k]@ == value@);
        }
    }
    false
}

/// The mood the emotions and text suggest, if any.
pub fn detect_possible_mood(emotions: &Vec<String>, lower: &str) -> (r: Option<String>)
    ensures
        r matches Some(m) ==> mood_spec(string_views(emotions@), lower@) == Some(m@),
        r is None ==> mood_spec(string_views(emotions@), lower@) is None,
{
    let l = chars_of(lower);
    if holds_value(emotions, "overwhelmed") {
        Some(owned("possibly overwhelmed"))
    } else if holds_value(emotions, "frustrated") {
        Some(owned("possibly frustrated"))
    } else if contains_str(&l, "grateful") {
        Some(owned("possibly grateful"))
    } else if holds_value(emotions, "positive") {
        Some(owned("possibly positive"))
    } else {
        None
    }
}

/// The energy a lower-case text suggests, worded as a possibility.
pub open spec fn energy_spec(lower: Seq<char>) -> Option<Seq<char>> {
    if has_substring(lower, "energized"@) || has_substring(lower, "motivated"@) || has_substring(lower, "focused"@) {
        Some("possibly high"@)
    } else if has_substring(lower, "tired"@) || has_substring(lower, "drained"@) || has_substring(lower, "exhausted"@) {
        Some("possibly low"@)
    } else {
        None
    }
}

/// The energy a lower-case text suggests, if any.
pub fn detect_energy(lower: &str) -> (r: Option<String>)
    ensures
        r matches Some(m) ==> energy_spec(lower@) == Some(m@),
        r is None ==> energy_spec(lower@) is None,
{
    let l = chars_of(lower);
    if contains_str(&l, "energized") || contains_str(&l, "motivated") || contains_str(&l, "focused") {
        Some(owned("possibly high"))
    } else if contains_str(&l, "tired") || contains_str(&l, "drained") || contains_str(&l, "exhausted") {
        Some(owned("possibly low"))
    } else {
        None
    }
}

// ---------------------------------------------------------------- open loops

/// A line reads as an open loop: it asks a question or says that something still needs
/// doing.
pub open spec fn is_open_loop(line: Seq<char>) -> bool {
    let l = lowercase_of(line);
    line.contains('?') || has_substring(l, "need to"@) || has_substring(l, "follow up"@) || has_substring(
        l,
        "remember to"@,
    ) || has_substring(l, "todo"@)
}

/// The open-loop lines among these, trimmed and cut to 180-character previews.
pub open spec fn open_loop_lines(parts: Seq<Seq<char>>) -> Seq<Seq<char>>
    decreases parts.len(),
{
    if parts.len() == 0 {
        Seq::<Seq<char>>::empty()
    } else {
        let prev = open_loop_lines(parts.drop_last());
        let line = trim_spec(parts.last());
        if is_open_loop(line) {
            prev.push(preview_of(line, 180))
        } else {
            prev
        }
    }
}

/// The open loops of a text: its sentences and lines that ask or say something still needs
/// doing, at most five.
pub open spec fn open_loops_spec(text: Seq<char>) -> Seq<Seq<char>> {
    first_n(open_loop_lines(split_spec(text, seq!['.', '\n'])), 5)
}

/// Whether a line reads as an open loop.
pub fn is_open_loop_line(line: &str) -> (r: bool)
    ensures
        r == is_open_loop(line@),
{
    let lv = chars_of(line);
    let lower = to_lowercase(line);
    let l = chars_of(lower.as_str());
    contains_char(&lv, '?') || contains_str(&l, "need to") || contains_str(&l, "follow up") || contains_str(
        &l,
        "remember to",
    ) || contains_str(&l, "todo")
}

/// The open loops of a text, at most five.
pub fn detect_open_loops(text: &str) -> (r: Vec<String>)
    ensures
        string_views(r@) == open_loops_spec(text@),
{
    let tv = chars_of(text);
    let mut seps: Vec<char> = Vec::new();
    seps.push('.');
    seps.push('\n');
    assert(seps@ =~= seq!['.', '\n']);
    let parts = split_chars(&tv, &seps);
    let ghost ps = string_views(parts@);
    let mut out: Vec<String> = Vec::new();
    let mut i: usize = 0;
    while i < parts.len()
        invariant
            i <= parts.len(),
            ps == string_views(parts@),
            string_views(out@) == first_n(open_loop_lines(ps.take(i as int)), 5),
        decreases parts.len() - i,
    {
        assert(ps.take(i + 1).drop_last() =~= ps.take(i as int));
        assert(ps.take(i + 1).last() == parts@[i as int]@);
        let line = trim_str(parts[i].as_str());
        if is_open_loop_line(line.as_str()) {
            if out.len() < 5 {
                let p = truncate_preview(line.as_str(), 180);
                let ghost before = out@;
                out.push(p);
                assert(string_views(out@) =~= string_views(before).push(p@));
            } else {
                assert(first_n(open_loop_lines(ps.take(i + 1)), 5) =~= first_n(open_loop_lines(ps.take(i as int)), 5));
            }
        }
        i = i + 1;
    }
    assert(ps.take(parts.len() as int) =~= ps);
    out
}

// ---------------------------------------------------------------- suggestions

/// A suggestion with no target resource.
pub open spec fn simple_suggestion_spec(s: JournalEntrySuggestionInput, kind: Seq<char>, value: Seq<char>, confidence: u64) -> bool {
    &&& s.suggestion_type@ == kind
    &&& s.value@ == value
    &&& s.target_resource_type is None
    &&& s.target_resource_id is None
    &&& s.confidence_millionths == Some(confidence)
    &&& s.provider@ == RULES_PROVIDER@
    &&& s.model is None
}

/// A suggestion of a plain kind with a fixed confidence.
pub fn simple_suggestion(suggestion_type: &str, value: &str, confidence_millionths: u64) -> (r: JournalEntrySuggestionInput)
    ensures
        simple_suggestion_spec(r, suggestion_type@, value@, confidence_millionths),
{
    JournalEntrySuggestionInput {
        suggestion_type: owned(suggestion_type),
        value: owned(value),
        target_resource_type: None,
        target_resource_id: None,
        confidence_millionths: Some(confidence_millionths),
        provider: owned(RULES_PROVIDER),
        model: None,
    }
}

/// A tag suggestion.
pub fn tag_suggestion(value: &str, confidence_millionths: u64) -> (r: JournalEntrySuggestionInput)
    ensures
        simple_suggestion_spec(r, "tag"@, value@, confidence_millionths),
{
    simple_suggestion("tag", value, confidence_millionths)
}

/// The suggestion kind for a related resource of this type.
pub open spec fn related_kind(resource_type: Seq<char>) -> Seq<char> {
    if resource_type == "task"@ {
        "related_task"@
    } else if resource_type == "goal"@ {
        "related_goal"@
    } else {
        "related_entry"@
    }
}

/// A confidence capped at certainty.
pub open spec fn capped(score: u64) -> u64 {
    if score < FULL_CONFIDENCE { score } else { FULL_CONFIDENCE }
}

/// The suggestion that points at a related search hit.
pub open spec fn related_suggestion_spec(s: JournalEntrySuggestionInput, hit: SearchHit, provider: Seq<char>, model: Option<Seq<char>>) -> bool {
    &&& s.suggestion_type@ == related_kind(hit.resource_type@)
    &&& s.value@ == hit.title@
    &&& s.target_resource_type matches Some(t) && t@ == hit.resource_type@
    &&& s.target_resource_id matches Some(t) && t@ == hit.resource_id@
    &&& s.confidence_millionths == Some(capped(hit.score_millionths))
    &&& s.provider@ == provider
    &&& (match (s.model, model) {
        (Some(a), Some(b)) => a@ == b,
        (None, None) => true,
        _ => false,
    })
}

/// A suggestion pointing at a related resource found by search.
pub fn related_suggestion(hit: SearchHit, provider: &str, model: &Option<String>) -> (r: JournalEntrySuggestionInput)
    ensures
        related_suggestion_spec(r, hit, provider@, match model { Some(m) => Some(m@), None => None }),
{
    let kind = if str_eq(hit.resource_type.as_str(), "task") {
        "related_task"
    } else if str_eq(hit.resource_type.as_str(), "goal") {
        "related_goal"
    } else {
        "related_entry"
    };
    let confidence = if hit.score_millionths < FULL_CONFIDENCE { hit.score_millionths } else { FULL_CONFIDENCE };
    let ghost h = hit;
    let target_type = owned(hit.resource_type.as_str());
    JournalEntrySuggestionInput {
        suggestion_type: owned(kind),
        value: hit.title,
        target_resource_type: Some(target_type),
        target_resource_id: Some(hit.resource_id),
        confidence_millionths: Some(confidence),
        provider: owned(provider),
        model: match model {
            Some(m) => Some(owned(m.as_str())),
            None => None,
        },
    }
}

} // verus!
verus! {

/// The summary the rules provider writes: a fixed note for an empty text, else a 240-character
/// preview of its first line.
pub open spec fn rules_summary(normalized: Seq<char>) -> Seq<char> {
    if normalized.len() == 0 {
        "No journal text to summarize yet."@
    } else {
        preview_of(first_line_trimmed(normalized), 240)
    }
}

/// The suggestions of an entry draft: a tag per theme, an emotion per emotion, an open loop
/// per open loop (at fixed confidences), then a pointer to each of the first five related
/// resources.
pub open spec fn entry_suggestions(
    s: Seq<JournalEntrySuggestionInput>,
    themes: Seq<Seq<char>>,
    emotions: Seq<Seq<char>>,
    loops: Seq<Seq<char>>,
    related: Seq<SearchHit>,
) -> bool {
    let a = themes.len();
    let b = a + emotions.len();
    let c = b + loops.len();
    let n = if related.len() <= 5 { related.len() } else { 5 };
    &&& s.len() == c + n
    &&& forall|i: int| 0 <= i < a ==> simple_suggestion_spec(#[trigger] s[i], "tag"@, themes[i], 720_000)
    &&& forall|i: int| a <= i < b ==> simple_suggestion_spec(#[trigger] s[i], "emotion"@, emotions[i - a], 640_000)
    &&& forall|i: int| b <= i < c ==> simple_suggestion_spec(#[trigger] s[i], "open_loop"@, loops[i - b], 580_000)
    &&& forall|i: int| c <= i < c + n ==> related_suggestion_spec(#[trigger] s[i], related[i - c], RULES_PROVIDER@, None)
}

fn push_simple(out: &mut Vec<JournalEntrySuggestionInput>, values: &Vec<String>, kind: &str, confidence: u64)
    ensures
        final(out)@.len() == old(out)@.len() + values@.len(),
        forall|i: int| 0 <= i < old(out)@.len() ==> final(out)@[i] == old(out)@[i],
        forall|i: int| old(out)@.len() <= i < final(out)@.len() ==> simple_suggestion_spec(
            #[trigger] final(out)@[i],
            kind@,
            values@[i - old(out)@.len()]@,
            confidence,
        ),
{
    let ghost start = out@.len();
    let ghost orig = out@;
    let mut i: usize = 0;
    while i < values.len()
        invariant
            i <= values.len(),
            out@.len() == start + i,
            start == orig.len(),
            forall|k: int| 0 <= k < start ==> out@[k] == orig[k],
            forall|k: int| start <= k < out@.len() ==> simple_suggestion_spec(#[trigger] out@[k], kind@, values@[k - start]@, confidence),
        decreases values.len() - i,
    {
        let s = simple_suggestion(kind, values[i].as_str(), confidence);
        out.push(s);
        i = i + 1;
    }
}

impl RulesJournalAiProvider {
    /// Drafts the insight and suggestions for a journal entry from its text, its tags' names
    /// and related search hits.
    pub fn build_entry_draft(entry_id: &str, text: &str, tag_names: &Vec<String>, related: Vec<SearchHit>) -> (r: EntryEnrichmentDraft)
        ensures
            r.insight.entry_id@ == entry_id@,
            r.insight.summary@ == rules_summary(normalized_text(text@)),
            string_views(r.insight.themes@) == themes_spec(lowercase_of(normalized_text(text@)), string_views(tag_names@)),
            string_views(r.insight.emotions@) == emotions_spec(lowercase_of(normalized_text(text@))),
            r.insight.possible_mood matches Some(m) ==> mood_spec(emotions_spec(lowercase_of(normalized_text(text@))), lowercase_of(normalized_text(text@))) == Some(m@),
            r.insight.possible_mood is None ==> mood_spec(emotions_spec(lowercase_of(normalized_text(text@))), lowercase_of(normalized_text(text@))) is None,
            r.insight.energy matches Some(m) ==> energy_spec(lowercase_of(normalized_text(text@))) == Some(m@),
            r.insight.energy is None ==> energy_spec(lowercase_of(normalized_text(text@))) is None,
            string_views(r.insight.open_loops@) == open_loops_spec(normalized_text(text@)),
            r.insight.people@.len() == 0,
            r.insight.projects@.len() == 0,
            r.insight.provider@ == RULES_PROVIDER@,
            r.insight.model is None,
            entry_suggestions(
                r.suggestions@,
                string_views(r.insight.themes@),
                string_views(r.insight.emotions@),
                string_views(r.insight.open_loops@),
                related@,
            ),
    {
        let normalized = normalize_search_text(text);
        let lower = to_lowercase(normalized.as_str());
        let themes = detect_themes(lower.as_str(), tag_names);
        let emotions = detect_emotions(lower.as_str());
        let possible_mood = detect_possible_mood(&emotions, lower.as_str());
        let energy = detect_energy(lower.as_str());
        let open_loops = detect_open_loops(normalized.as_str());
        let summary = if normalized.as_str().is_empty() {
            owned("No journal text to summarize yet.")
        } else {
            let line = first_search_line(normalized.as_str());
            truncate_preview(line.as_str(), 240)
        };
        let mut suggestions: Vec<JournalEntrySuggestionInput> = Vec::new();
        push_simple(&mut suggestions, &themes, "tag", 720_000);
        let ghost s1 = suggestions@;
        push_simple(&mut suggestions, &emotions, "emotion", 640_000);
        let ghost s2 = suggestions@;
        push_simple(&mut suggestions, &open_loops, "open_loop", 580_000);
        let ghost s3 = suggestions@;
        proof {
            let a = themes@.len() as int;
            let b = a + emotions@.len();
            assert forall|i: int| 0 <= i < a implies simple_suggestion_spec(#[trigger] s3[i], "tag"@, string_views(themes@)[i], 720_000) by {
                assert(s3[i] == s2[i]);
                assert(s2[i] == s1[i]);
            }
            assert forall|i: int| a <= i < b implies simple_suggestion_spec(#[trigger] s3[i], "emotion"@, string_views(emotions@)[i - a], 640_000) by {
                assert(s3[i] == s2[i]);
            }
            assert forall|i: int| b <= i < s3.len() implies simple_suggestion_spec(#[trigger] s3[i], "open_loop"@, string_views(open_loops@)[i - b], 580_000) by {
            }
        }
        let ghost c = suggestions@.len();
        let ghost before = suggestions@;
        let ghost rel = related@;
        let none: Option<String> = None;
        let mut related = related;
        let mut taken: usize = 0;
        while taken < 5 && related.len() > 0
            invariant
                taken <= 5,
                related@ == rel.skip(taken as int),
                taken <= rel.len(),
                suggestions@.len() == c + taken,
                c == before.len(),
                none is None,
                forall|k: int| 0 <= k < c ==> suggestions@[k] == before[k],
                forall|k: int| c <= k < suggestions@.len() ==> related_suggestion_spec(#[trigger] suggestions@[k], rel[k - c], RULES_PROVIDER@, None),
            decreases 5 - taken,
        {
            let hit = related.remove(0);
            assert(hit == rel[taken as int]);
            assert(rel.skip(taken as int).remove(0) =~= rel.skip(taken + 1));
            let s = related_suggestion(hit, RULES_PROVIDER, &none);
            suggestions.push(s);
            taken = taken + 1;
        }
        proof {
            if taken < 5 {
                assert(rel.skip(taken as int).len() == 0);
            }
            let a = themes@.len() as int;
            let b = a + emotions@.len();
            let cc = b + open_loops@.len();
            assert forall|i: int| 0 <= i < a implies simple_suggestion_spec(#[trigger] suggestions@[i], "tag"@, string_views(themes@)[i], 720_000) by {
                assert(suggestions@[i] == s3[i]);
            }
            assert forall|i: int| a <= i < b implies simple_suggestion_spec(#[trigger] suggestions@[i], "emotion"@, string_views(emotions@)[i - a], 640_000) by {
                assert(suggestions@[i] == s3[i]);
            }
            assert forall|i: int| b <= i < cc implies simple_suggestion_spec(#[trigger] suggestions@[i], "open_loop"@, string_views(open_loops@)[i - b], 580_000) by {
                assert(suggestions@[i] == s3[i]);
            }
        }
        let insight = JournalEntryInsightInput {
            entry_id: owned(entry_id),
            summary,
            possible_mood,
            emotions,
            energy,
            themes,
            people: Vec::new(),
            projects: Vec::new(),
            open_loops,
            provider: owned(RULES_PROVIDER),
            model: None,
        };
        EntryEnrichmentDraft { insight, suggestions }
    }
}

} // verus!
verus! {

/// A preview mentions something still to do.
pub open spec fn mentions_follow_up(lower: Seq<char>) -> bool {
    has_substring(lower, "need to"@) || has_substring(lower, "follow up"@) || has_substring(lower, "remember to"@)
        || has_substring(lower, "todo"@)
}

/// What a week's context contributes: the source entries, tasks and goals, the completed work
/// (task titles), the open loops (previews that mention something to do) and the themes (tag
/// titles), each without repeats and in the order met.
pub struct WeeklyLists {
    pub entries: Seq<Seq<char>>,
    pub tasks: Seq<Seq<char>>,
    pub goals: Seq<Seq<char>>,
    pub completed: Seq<Seq<char>>,
    pub open_loops: Seq<Seq<char>>,
    pub themes: Seq<Seq<char>>,
}

/// The lists gathered from a week's context.
pub open spec fn weekly_lists(context: Seq<SearchHit>) -> WeeklyLists
    decreases context.len(),
{
    if context.len() == 0 {
        WeeklyLists {
            entries: Seq::empty(),
            tasks: Seq::empty(),
            goals: Seq::empty(),
            completed: Seq::empty(),
            open_loops: Seq::empty(),
            themes: Seq::empty(),
        }
    } else {
        let p = weekly_lists(context.drop_last());
        let r = context.last();
        let t = r.resource_type@;
        let q = if t == "entry"@ {
            WeeklyLists { entries: push_unique_spec(p.entries, r.resource_id@), ..p }
        } else if t == "task"@ {
            WeeklyLists {
                tasks: push_unique_spec(p.tasks, r.resource_id@),
                completed: push_unique_spec(p.completed, r.title@),
                ..p
            }
        } else if t == "goal"@ {
            WeeklyLists { goals: push_unique_spec(p.goals, r.resource_id@), ..p }
        } else if t == "tag"@ {
            WeeklyLists { themes: push_unique_spec(p.themes, r.title@), ..p }
        } else {
            p
        };
        if mentions_follow_up(lowercase_of(r.preview@)) {
            WeeklyLists { open_loops: push_unique_spec(q.open_loops, r.preview@), ..q }
        } else {
            q
        }
    }
}

/// The text of a weekly summary draft.
pub open spec fn weekly_summary_text(start: Seq<char>, end: Seq<char>, count: nat) -> Seq<char> {
    if count == 0 {
        "No indexed journal context was found for this week yet."@
    } else {
        "Draft summary for "@ + start + " through "@ + end + " based on "@ + decimal_of(count)
            + " indexed items."@
    }
}

impl RulesJournalAiProvider {
    /// Drafts a weekly summary from the week's indexed context.
    pub fn build_weekly_summary_draft(start_date: &str, end_date: &str, context: Vec<SearchHit>) -> (r: WeeklySummaryDraft)
        ensures
            r.summary.week_start@ == start_date@,
            r.summary.week_end@ == end_date@,
            r.summary.summary@ == weekly_summary_text(start_date@, end_date@, context@.len()),
            string_views(r.summary.source_entry_ids@) == weekly_lists(context@).entries,
            string_views(r.summary.source_task_ids@) == weekly_lists(context@).tasks,
            string_views(r.summary.source_goal_ids@) == weekly_lists(context@).goals,
            string_views(r.summary.themes@) == first_n(weekly_lists(context@).themes, 8),
            string_views(r.summary.completed_work@) == first_n(weekly_lists(context@).completed, 8),
            string_views(r.summary.open_loops@) == first_n(weekly_lists(context@).open_loops, 8),
            string_views(r.summary.next_focus@) == first_n(weekly_lists(context@).open_loops, 3),
            r.summary.provider@ == RULES_PROVIDER@,
            r.summary.model is None,
    {
        let mut entries: Vec<String> = Vec::new();
        let mut tasks: Vec<String> = Vec::new();
        let mut goals: Vec<String> = Vec::new();
        let mut completed: Vec<String> = Vec::new();
        let mut open_loops: Vec<String> = Vec::new();
        let mut themes: Vec<String> = Vec::new();
        let mut i: usize = 0;
        proof {
            assert(context@.take(0) =~= Seq::<SearchHit>::empty());
            assert(string_views(entries@) =~= Seq::<Seq<char>>::empty());
        }
        while i < context.len()
            invariant
                i <= context.len(),
                string_views(entries@) == weekly_lists(context@.take(i as int)).entries,
                string_views(tasks@) == weekly_lists(context@.take(i as int)).tasks,
                string_views(goals@) == weekly_lists(context@.take(i as int)).goals,
                string_views(completed@) == weekly_lists(context@.take(i as int)).completed,
                string_views(open_loops@) == weekly_lists(context@.take(i as int)).open_loops,
                string_views(themes@) == weekly_lists(context@.take(i as int)).themes,
            decreases context.len() - i,
        {
            let r = &context[i];
            assert(context@.take(i + 1).drop_last() =~= context@.take(i as int));
            assert(context@.take(i + 1).last() == context@[i as int]);
            let t = r.resource_type.as_str();
            if str_eq(t, "entry") {
                push_unique(&mut entries, r.resource_id.as_str());
            } else if str_eq(t, "task") {
                push_unique(&mut tasks, r.resource_id.as_str());
                push_unique(&mut completed, r.title.as_str());
            } else if str_eq(t, "goal") {
                push_unique(&mut goals, r.resource_id.as_str());
            } else if str_eq(t, "tag") {
                push_unique(&mut themes, r.title.as_str());
            }
            let lower = to_lowercase(r.preview.as_str());
            let l = chars_of(lower.as_str());
            if contains_str(&l, "need to") || contains_str(&l, "follow up") || contains_str(&l, "remember to")
                || contains_str(&l, "todo") {
                push_unique(&mut open_loops, r.preview.as_str());
            }
            i = i + 1;
        }
        assert(context@.take(context.len() as int) =~= context@);
        let summary = if context.len() == 0 {
            owned("No indexed journal context was found for this week yet.")
        } else {
            let mut s = owned("Draft summary for ");
            push_str(&mut s, start_date);
            push_str(&mut s, " through ");
            push_str(&mut s, end_date);
            push_str(&mut s, " based on ");
            push_decimal(&mut s, context.len() as u64);
            push_str(&mut s, " indexed items.");
            s
        };
        let mut next_focus: Vec<String> = Vec::new();
        let mut k: usize = 0;
        while k < open_loops.len() && k < 3
            invariant
                k <= open_loops.len(),
                k <= 3,
                string_views(next_focus@) == string_views(open_loops@).take(k as int),
            decreases 3 - k,
        {
            let ghost before = next_focus@;
            next_focus.push(owned(open_loops[k].as_str()));
            assert(string_views(next_focus@) =~= string_views(before).push(open_loops@[k as int]@));
            assert(string_views(open_loops@).take(k + 1) =~= string_views(open_loops@).take(k as int).push(open_loops@[k as int]@));
            k = k + 1;
        }
        assert(string_views(next_focus@) == first_n(string_views(open_loops@), 3)) by {
            if string_views(open_loops@).len() <= 3 {
                assert(string_views(open_loops@).take(k as int) =~= string_views(open_loops@));
            }
        }
        keep_first(&mut themes, 8);
        keep_first(&mut completed, 8);
        keep_first(&mut open_loops, 8);
        WeeklySummaryDraft {
            summary: WeeklyAiSummaryInput {
                week_start: owned(start_date),
                week_end: owned(end_date),
                summary,
                themes,
                completed_work: completed,
                open_loops,
                next_focus,
                source_entry_ids: entries,
                source_task_ids: tasks,
                source_goal_ids: goals,
                provider: owned(RULES_PROVIDER),
                model: None,
            },
        }
    }
}

// ---------------------------------------------------------------- model answers

/// The summary to keep: the model's when it has text, else a preview of the entry, else a
/// fixed note.
pub open spec fn fallback_summary_spec(summary: Seq<char>, text: Seq<char>) -> Seq<char> {
    if trim_spec(summary).len() == 0 {
        if trim_spec(text).len() == 0 {
            "No journal text to summarize yet."@
        } else {
            preview_of(text, 240)
        }
    } else {
        summary
    }
}

/// The model's summary, or a fallback when it is blank.
pub fn fallback_summary(summary: String, text: &str) -> (r: String)
    ensures
        r@ == fallback_summary_spec(summary@, text@),
{
    let st = trim_str(summary.as_str());
    if st.as_str().is_empty() {
        let tt = trim_str(text);
        if tt.as_str().is_empty() {
            owned("No journal text to summarize yet.")
        } else {
            truncate_preview(text, 240)
        }
    } else {
        summary
    }
}

/// The trimmed value, or `None` when it is blank.
pub fn non_empty(value: String) -> (r: Option<String>)
    ensures
        trim_spec(value@).len() == 0 ==> r is None,
        trim_spec(value@).len() > 0 ==> (r matches Some(v) && v@ == trim_spec(value@)),
{
    let t = trim_str(value.as_str());
    if t.as_str().is_empty() {
        None
    } else {
        Some(t)
    }
}

/// The trimmed non-blank values, in order.
pub open spec fn trimmed_non_blank(values: Seq<Seq<char>>) -> Seq<Seq<char>>
    decreases values.len(),
{
    if values.len() == 0 {
        Seq::<Seq<char>>::empty()
    } else {
        let p = trimmed_non_blank(values.drop_last());
        let t = trim_spec(values.last());
        if t.len() == 0 {
            p
        } else {
            p.push(t)
        }
    }
}

/// The first `limit` trimmed non-blank values.
pub fn limit_strings(values: Vec<String>, limit: usize) -> (r: Vec<String>)
    ensures
        string_views(r@) == first_n(trimmed_non_blank(string_views(values@)), limit as nat),
{
    let ghost vs = string_views(values@);
    let mut out: Vec<String> = Vec::new();
    let mut i: usize = 0;
    while i < values.len()
        invariant
            i <= values.len(),
            vs == string_views(values@),
            string_views(out@) == first_n(trimmed_non_blank(vs.take(i as int)), limit as nat),
        decreases values.len() - i,
    {
        assert(vs.take(i + 1).drop_last() =~= vs.take(i as int));
        assert(vs.take(i + 1).last() == values@[i as int]@);
        let t = trim_str(values[i].as_str());
        if !t.as_str().is_empty() {
            if out.len() < limit {
                let ghost before = out@;
                out.push(t);
                assert(string_views(out@) =~= string_views(before).push(out@.last()@));
            } else {
                assert(first_n(trimmed_non_blank(vs.take(i + 1)), limit as nat) =~= first_n(trimmed_non_blank(vs.take(i as int)), limit as nat));
            }
        }
        i = i + 1;
    }
    assert(vs.take(values.len() as int) =~= vs);
    out
}

/// The states a suggestion can be put in.
pub open spec fn is_suggestion_state(state: Seq<char>) -> bool {
    state == "pending"@ || state == "accepted"@ || state == "edited"@ || state == "dismissed"@
}

/// Accepts a suggestion state, or refuses it with the reason.
pub fn check_suggestion_state(state: &str) -> (r: Result<(), crate::error::AppError>)
    ensures
        r is Ok <==> is_suggestion_state(state@),
        r matches Err(e) ==> e is BadRequest && e->BadRequest_0@ == "Unsupported suggestion state: "@ + state@,
{
    if str_eq(state, "pending") || str_eq(state, "accepted") || str_eq(state, "edited") || str_eq(state, "dismissed") {
        Ok(())
    } else {
        Err(crate::error::AppError::BadRequest(crate::error::concat2("Unsupported suggestion state: ", state)))
    }
}

/// How energy is read from a lower-case text: any of `energized`, `motivated` or `focused`
/// reads as possibly high energy, whatever else the text says; otherwise any of `tired`,
/// `drained` or `exhausted` reads as possibly low; a text with none of these words suggests
/// nothing. High and low are different readings.
pub proof fn law_energy_words(lower: Seq<char>)
    ensures
        has_substring(lower, "energized"@) || has_substring(lower, "motivated"@) || has_substring(lower, "focused"@)
            ==> energy_spec(lower) == Some("possibly high"@),
        !(has_substring(lower, "energized"@) || has_substring(lower, "motivated"@) || has_substring(lower, "focused"@))
            && (has_substring(lower, "tired"@) || has_substring(lower, "drained"@) || has_substring(lower, "exhausted"@))
            ==> energy_spec(lower) == Some("possibly low"@),
        !(has_substring(lower, "energized"@) || has_substring(lower, "motivated"@) || has_substring(lower, "focused"@))
            && !(has_substring(lower, "tired"@) || has_substring(lower, "drained"@) || has_substring(lower, "exhausted"@))
            ==> energy_spec(lower) is None,
        "possibly high"@ != "possibly low"@,
{
    reveal_strlit("possibly high");
    reveal_strlit("possibly low");
    assert("possibly high"@[9] != "possibly low"@[9]);
}

proof fn lemma_add_if_contains(acc: Seq<Seq<char>>, cond: bool, v: Seq<char>, x: Seq<char>)
    ensures
        add_if(acc, cond, v).contains(x) <==> (acc.contains(x) || (cond && v == x)),
{
    if cond {
        let p = acc.push(v);
        if acc.contains(x) {
            let k = choose|k: int| 0 <= k < acc.len() && acc[k] == x;
            assert(p[k] == x);
        }
        if v == x {
            assert(p[acc.len() as int] == x);
        }
        if p.contains(x) {
            let k = choose|k: int| 0 <= k < p.len() && p[k] == x;
            if k < acc.len() {
                assert(acc[k] == x);
            }
        }
    }
}

/// Which emotions a lower-case text suggests: each emotion is listed exactly when the text
/// holds one of its own words (`tired`, `drained` or `exhausted` for tired; `stuck`, `blocked`
/// or `frustrated` for frustrated; and so on), whatever the other words say.
pub proof fn law_emotion_words(lower: Seq<char>)
    ensures
        emotions_spec(lower).contains("positive"@) <==> (has_substring(lower, "happy"@) || has_substring(lower, "good"@) || has_substring(lower, "great"@) || has_substring(lower, "proud"@)),
        emotions_spec(lower).contains("excited"@) <==> (has_substring(lower, "excited"@) || has_substring(lower, "energized"@) || has_substring(lower, "motivated"@)),
        emotions_spec(lower).contains("calm"@) <==> (has_substring(lower, "calm"@) || has_substring(lower, "peaceful"@) || has_substring(lower, "steady"@)),
        emotions_spec(lower).contains("tired"@) <==> (has_substring(lower, "tired"@) || has_substring(lower, "drained"@) || has_substring(lower, "exhausted"@)),
        emotions_spec(lower).contains("frustrated"@) <==> (has_substring(lower, "stuck"@) || has_substring(lower, "blocked"@) || has_substring(lower, "frustrated"@)),
        emotions_spec(lower).contains("overwhelmed"@) <==> (has_substring(lower, "overwhelmed"@) || has_substring(lower, "busy"@) || has_substring(lower, "too much"@)),
{
    reveal_strlit("positive");
    reveal_strlit("excited");
    reveal_strlit("calm");
    reveal_strlit("tired");
    reveal_strlit("frustrated");
    reveal_strlit("overwhelmed");
    let c1 = has_substring(lower, "happy"@) || has_substring(lower, "good"@) || has_substring(lower, "great"@) || has_substring(lower, "proud"@);
    let c2 = has_substring(lower, "excited"@) || has_substring(lower, "energized"@) || has_substring(lower, "motivated"@);
    let c3 = has_substring(lower, "calm"@) || has_substring(lower, "peaceful"@) || has_substring(lower, "steady"@);
    let c4 = has_substring(lower, "tired"@) || has_substring(lower, "drained"@) || has_substring(lower, "exhausted"@);
    let c5 = has_substring(lower, "stuck"@) || has_substring(lower, "blocked"@) || has_substring(lower, "frustrated"@);
    let c6 = has_substring(lower, "overwhelmed"@) || has_substring(lower, "busy"@) || has_substring(lower, "too much"@);
    let e0 = Seq::<Seq<char>>::empty();
    let e1 = add_if(e0, c1, "positive"@);
    let e2 = add_if(e1, c2, "excited"@);
    let e3 = add_if(e2, c3, "calm"@);
    let e4 = add_if(e3, c4, "tired"@);
    let e5 = add_if(e4, c5, "frustrated"@);
    let e6 = add_if(e5, c6, "overwhelmed"@);
    lemma_add_if_contains(e0, c1, "positive"@, "positive"@);
    lemma_add_if_contains(e0, c1, "positive"@, "excited"@);
    lemma_add_if_contains(e0, c1, "positive"@, "calm"@);
    lemma_add_if_contains(e0, c1, "positive"@, "tired"@);
    lemma_add_if_contains(e0, c1, "positive"@, "frustrated"@);
    lemma_add_if_contains(e0, c1, "positive"@, "overwhelmed"@);
    lemma_add_if_contains(e1, c2, "excited"@, "positive"@);
    lemma_add_if_contains(e1, c2, "excited"@, "excited"@);
    lemma_add_if_contains(e1, c2, "excited"@, "calm"@);
    lemma_add_if_contains(e1, c2, "excited"@, "tired"@);
    lemma_add_if_contains(e1, c2, "excited"@, "frustrated"@);
    lemma_add_if_contains(e1, c2, "excited"@, "overwhelmed"@);
    lemma_add_if_contains(e2, c3, "calm"@, "positive"@);
    lemma_add_if_contains(e2, c3, "calm"@, "excited"@);
    lemma_add_if_contains(e2, c3, "calm"@, "calm"@);
    lemma_add_if_contains(e2, c3, "calm"@, "tired"@);
    lemma_add_if_contains(e2, c3, "calm"@, "frustrated"@);
    lemma_add_if_contains(e2, c3, "calm"@, "overwhelmed"@);
    lemma_add_if_contains(e3, c4, "tired"@, "positive"@);
    lemma_add_if_contains(e3, c4, "tired"@, "excited"@);
    lemma_add_if_contains(e3, c4, "tired"@, "calm"@);
    lemma_add_if_contains(e3, c4, "tired"@, "tired"@);
    lemma_add_if_contains(e3, c4, "tired"@, "frustrated"@);
    lemma_add_if_contains(e3, c4, "tired"@, "overwhelmed"@);
    lemma_add_if_contains(e4, c5, "frustrated"@, "positive"@);
    lemma_add_if_contains(e4, c5, "frustrated"@, "excited"@);
    lemma_add_if_contains(e4, c5, "frustrated"@, "calm"@);
    lemma_add_if_contains(e4, c5, "frustrated"@, "tired"@);
    lemma_add_if_contains(e4, c5, "frustrated"@, "frustrated"@);
    lemma_add_if_contains(e4, c5, "frustrated"@, "overwhelmed"@);
    lemma_add_if_contains(e5, c6, "overwhelmed"@, "positive"@);
    lemma_add_if_contains(e5, c6, "overwhelmed"@, "excited"@);
    lemma_add_if_contains(e5, c6, "overwhelmed"@, "calm"@);
    lemma_add_if_contains(e5, c6, "overwhelmed"@, "tired"@);
    lemma_add_if_contains(e5, c6, "overwhelmed"@, "frustrated"@);
    lemma_add_if_contains(e5, c6, "overwhelmed"@, "overwhelmed"@);
    assert(!e0.contains("positive"@));
    assert(!e0.contains("excited"@));
    assert(!e0.contains("calm"@));
    assert(!e0.contains("tired"@));
    assert(!e0.contains("frustrated"@));
    assert(!e0.contains("overwhelmed"@));
    assert("positive"@.len() != "excited"@.len());
    assert("positive"@.len() != "calm"@.len());
    assert("positive"@.len() != "tired"@.len());
    assert("positive"@.len() != "frustrated"@.len());
    assert("positive"@.len() != "overwhelmed"@.len());
    assert("excited"@.len() != "positive"@.len());
    assert("excited"@.len() != "calm"@.len());
    assert("excited"@.len() != "tired"@.len());
    assert("excited"@.len() != "frustrated"@.len());
    assert("excited"@.len() != "overwhelmed"@.len());
    assert("calm"@.len() != "positive"@.len());
    assert("calm"@.len() != "excited"@.len());
    assert("calm"@.len() != "tired"@.len());
    assert("calm"@.len() != "frustrated"@.len());
    assert("calm"@.len() != "overwhelmed"@.len());
    assert("tired"@.len() != "positive"@.len());
    assert("tired"@.len() != "excited"@.len());
    assert("tired"@.len() != "calm"@.len());
    assert("tired"@.len() != "frustrated"@.len());
    assert("tired"@.len() != "overwhelmed"@.len());
    assert("frustrated"@.len() != "positive"@.len());
    assert("frustrated"@.len() != "excited"@.len());
    assert("frustrated"@.len() != "calm"@.len());
    assert("frustrated"@.len() != "tired"@.len());
    assert("frustrated"@.len() != "overwhelmed"@.len());
    assert("overwhelmed"@.len() != "positive"@.len());
    assert("overwhelmed"@.len() != "excited"@.len());
    assert("overwhelmed"@.len() != "calm"@.len());
    assert("overwhelmed"@.len() != "tired"@.len());
    assert("overwhelmed"@.len() != "frustrated"@.len());
    assert(e6 == emotions_spec(lower));
}

/// Which mood the emotions suggest: overwhelmed before frustrated, then grateful (from the text),
/// then positive; nothing otherwise.
pub proof fn law_mood_priority(emotions: Seq<Seq<char>>, lower: Seq<char>)
    ensures
        emotions.contains("overwhelmed"@) ==> mood_spec(emotions, lower) == Some("possibly overwhelmed"@),
        !emotions.contains("overwhelmed"@) && emotions.contains("frustrated"@)
            ==> mood_spec(emotions, lower) == Some("possibly frustrated"@),
        !emotions.contains("overwhelmed"@) && !emotions.contains("frustrated"@) && has_substring(lower, "grateful"@)
            ==> mood_spec(emotions, lower) == Some("possibly grateful"@),
        !emotions.contains("overwhelmed"@) && !emotions.contains("frustrated"@) && !has_substring(lower, "grateful"@)
            && emotions.contains("positive"@) ==> mood_spec(emotions, lower) == Some("possibly positive"@),
        !emotions.contains("overwhelmed"@) && !emotions.contains("frustrated"@) && !has_substring(lower, "grateful"@)
            && !emotions.contains("positive"@) ==> mood_spec(emotions, lower) is None,
{
}

} // verus!
