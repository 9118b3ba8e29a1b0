//! Journal enrichment by a language model: the prompts it is sent, and the drafts made from
//! its answers.

use vstd::prelude::*;
use crate::error::{error_detail, AppError};
use crate::fields::{join_spec, join_strings, string_views};
use crate::journal_ai::{
    fallback_summary, fallback_summary_spec, first_n, limit_strings, non_empty, push_unique, push_unique_spec,
    related_suggestion, related_suggestion_spec, trimmed_non_blank, weekly_lists, EntryEnrichmentDraft,
    JournalEntryInsightInput, JournalEntrySuggestionInput, SearchHit, WeeklyAiSummaryInput, WeeklySummaryDraft,
};
use crate::search_text::{normalize_search_text, normalized_text, preview_of, truncate_preview};
use crate::text::{owned, push_str, str_eq, trim_spec, trim_str};

verus! {

/// The name the language-model provider records.
pub const OPENAI_PROVIDER: &'static str = "openai";

/// A tag the model suggests, with its confidence in millionths as the model gave it.
#[derive(Debug, Clone)]
pub struct ModelSuggestion {
    pub value: String,
    pub confidence_millionths: i64,
}

/// The model's answer for one journal entry.
#[derive(Debug, Clone)]
pub struct EntryOutput {
    pub summary: String,
    pub possible_mood: String,
    pub emotions: Vec<String>,
    pub energy: String,
    pub themes: Vec<String>,
    pub people: Vec<String>,
    pub projects: Vec<String>,
    pub open_loops: Vec<String>,
    pub tag_suggestions: Vec<ModelSuggestion>,
}

/// The model's answer for one week.
#[derive(Debug, Clone)]
pub struct WeeklyOutput {
    pub summary: String,
    pub themes: Vec<String>,
    pub completed_work: Vec<String>,
    pub open_loops: Vec<String>,
    pub next_focus: Vec<String>,
}

/// A confidence kept between nothing and certainty.
pub open spec fn clamped_confidence(c: i64) -> u64 {
    if c < 0 {
        0
    } else if c > 1_000_000 {
        1_000_000
    } else {
        c as u64
    }
}

/// The model's tag suggestions that have a non-blank value, with clamped confidences.
pub open spec fn kept_tag_suggestions(s: Seq<ModelSuggestion>) -> Seq<(Seq<char>, u64)>
    decreases s.len(),
{
    if s.len() == 0 {
        Seq::empty()
    } else {
        let p = kept_tag_suggestions(s.drop_last());
        if trim_spec(s.last().value@).len() == 0 {
            p
        } else {
            p.push((s.last().value@, clamped_confidence(s.last().confidence_millionths)))
        }
    }
}

/// A tag suggestion of the model, as recorded.
pub open spec fn model_tag_spec(s: JournalEntrySuggestionInput, value: Seq<char>, confidence: u64, model: Seq<char>) -> bool {
    &&& s.suggestion_type@ == "tag"@
    &&& s.value@ == value
    &&& s.target_resource_type is None
    &&& s.target_resource_id is None
    &&& s.confidence_millionths == Some(confidence)
    &&& s.provider@ == OPENAI_PROVIDER@
    &&& s.model matches Some(m) && m@ == model
}

/// The tag suggestions to record from the model's answer: those with a non-blank value, in
/// order, with confidences clamped to between nothing and certainty.
pub fn model_tag_suggestions(suggestions: &Vec<ModelSuggestion>, model: &str) -> (r: Vec<JournalEntrySuggestionInput>)
    ensures
        r@.len() == kept_tag_suggestions(suggestions@).len(),
        forall|i: int| 0 <= i < r@.len() ==> model_tag_spec(
            #[trigger] r@[i],
            kept_tag_suggestions(suggestions@)[i].0,
            kept_tag_suggestions(suggestions@)[i].1,
            model@,
        ),
{
    let mut r: Vec<JournalEntrySuggestionInput> = Vec::new();
    let mut i: usize = 0;
    while i < suggestions.len()
        invariant
            i <= suggestions@.len(),
            r@.len() == kept_tag_suggestions(suggestions@.take(i as int)).len(),
            forall|k: int| 0 <= k < r@.len() ==> model_tag_spec(
                #[trigger] r@[k],
                kept_tag_suggestions(suggestions@.take(i as int))[k].0,
                kept_tag_suggestions(suggestions@.take(i as int))[k].1,
                model@,
            ),
        decreases suggestions@.len() - i,
    {
        let s = &suggestions[i];
        assert(suggestions@.take(i + 1).drop_last() =~= suggestions@.take(i as int));
        let t = trim_str(s.value.as_str());
        if !t.as_str().is_empty() {
            let c: u64 = if s.confidence_millionths < 0 {
                0
            } else if s.confidence_millionths > 1_000_000 {
                1_000_000
            } else {
                s.confidence_millionths as u64
            };
            r.push(JournalEntrySuggestionInput {
                suggestion_type: owned("tag"),
                value: s.value.clone(),
                target_resource_type: None,
                target_resource_id: None,
                confidence_millionths: Some(c),
                provider: owned(OPENAI_PROVIDER),
                model: Some(owned(model)),
            });
        }
        i = i + 1;
    }
    assert(suggestions@.take(suggestions@.len() as int) =~= suggestions@);
    r
}

impl EntryOutput {
    /// The draft made from the model's answer for an entry: the summary (or a fallback from
    /// the entry's normalised text), mood and energy when not blank, each list trimmed and cut
    /// to eight, then the model's tag suggestions and pointers to the first five related
    /// resources.
    pub fn into_draft(self, entry_id: &str, text: &str, model: &str, related: Vec<SearchHit>) -> (r: EntryEnrichmentDraft)
        ensures
            r.insight.entry_id@ == entry_id@,
            r.insight.summary@ == fallback_summary_spec(self.summary@, normalized_text(text@)),
            trim_spec(self.possible_mood@).len() == 0 ==> r.insight.possible_mood is None,
            trim_spec(self.possible_mood@).len() > 0 ==> (r.insight.possible_mood matches Some(m) && m@ == trim_spec(self.possible_mood@)),
            trim_spec(self.energy@).len() == 0 ==> r.insight.energy is None,
            trim_spec(self.energy@).len() > 0 ==> (r.insight.energy matches Some(m) && m@ == trim_spec(self.energy@)),
            string_views(r.insight.emotions@) == first_n(trimmed_non_blank(string_views(self.emotions@)), 8),
            string_views(r.insight.themes@) == first_n(trimmed_non_blank(string_views(self.themes@)), 8),
            string_views(r.insight.people@) == first_n(trimmed_non_blank(string_views(self.people@)), 8),
            string_views(r.insight.projects@) == first_n(trimmed_non_blank(string_views(self.projects@)), 8),
            string_views(r.insight.open_loops@) == first_n(trimmed_non_blank(string_views(self.open_loops@)), 8),
            r.insight.provider@ == OPENAI_PROVIDER@,
            r.insight.model matches Some(m) && m@ == model@,
            ({
                let tags = kept_tag_suggestions(self.tag_suggestions@);
                let n = if related@.len() <= 5 { related@.len() } else { 5 };
                &&& r.suggestions@.len() == tags.len() + n
                &&& forall|i: int| 0 <= i < tags.len() ==> model_tag_spec(#[trigger] r.suggestions@[i], tags[i].0, tags[i].1, model@)
                &&& forall|i: int| tags.len() <= i < tags.len() + n ==> related_suggestion_spec(
                    #[trigger] r.suggestions@[i],
                    related@[i - tags.len()],
                    OPENAI_PROVIDER@,
                    Some(model@),
                )
            }),
    {
        let normalized = normalize_search_text(text);
        let mut suggestions = model_tag_suggestions(&self.tag_suggestions, model);
        let ghost tags = kept_tag_suggestions(self.tag_suggestions@);
        let ghost start = suggestions@.len();
        let model_opt = Some(owned(model));
        let mut related = related;
        let n = if related.len() <= 5 { related.len() } else { 5 };
        related.truncate(n);
        let ghost rel = related@;
        let mut j: usize = 0;
        while j < n
            invariant
                n == rel.len(),
                j <= n,
                rel == related@,
                model_opt matches Some(m) && m@ == model@,
                suggestions@.len() == start + j,
                start == tags.len(),
                forall|i: int| 0 <= i < start ==> model_tag_spec(#[trigger] suggestions@[i], tags[i].0, tags[i].1, model@),
                forall|i: int| start <= i < start + j ==> related_suggestion_spec(
                    #[trigger] suggestions@[i],
                    rel[i - start],
                    OPENAI_PROVIDER@,
                    Some(model@),
                ),
            decreases n - j,
        {
            let s = related_suggestion(
                SearchHit {
                    resource_type: related[j].resource_type.clone(),
                    resource_id: related[j].resource_id.clone(),
                    title: related[j].title.clone(),
                    preview: related[j].preview.clone(),
                    score_millionths: related[j].score_millionths,
                },
                OPENAI_PROVIDER,
                &model_opt,
            );
            suggestions.push(s);
            j = j + 1;
        }
        EntryEnrichmentDraft {
            insight: JournalEntryInsightInput {
                entry_id: owned(entry_id),
                summary: fallback_summary(self.summary, normalized.as_str()),
                possible_mood: non_empty(self.possible_mood),
                emotions: limit_strings(self.emotions, 8),
                energy: non_empty(self.energy),
                themes: limit_strings(self.themes, 8),
                people: limit_strings(self.people, 8),
                projects: limit_strings(self.projects, 8),
                open_loops: limit_strings(self.open_loops, 8),
                provider: owned(OPENAI_PROVIDER),
                model: Some(owned(model)),
            },
            suggestions,
        }
    }
}

/// The source entries, tasks and goals of a week's context, each without repeats, in the
/// order met.
pub fn source_ids(context: &Vec<SearchHit>) -> (r: (Vec<String>, Vec<String>, Vec<String>))
    ensures
        string_views(r.0@) == weekly_lists(context@).entries,
        string_views(r.1@) == weekly_lists(context@).tasks,
        string_views(r.2@) == weekly_lists(context@).goals,
{
    let mut entries: Vec<String> = Vec::new();
    let mut tasks: Vec<String> = Vec::new();
    let mut goals: Vec<String> = Vec::new();
    let mut i: usize = 0;
    proof {
        assert(context@.take(0) =~= Seq::<SearchHit>::empty());
        assert(string_views(entries@) =~= Seq::<Seq<char>>::empty());
    }
    while i < context.len()
        invariant
            i <= context.len(),
            string_views(entries@) == weekly_lists(context@.take(i as int)).entries,
            string_views(tasks@) == weekly_lists(context@.take(i as int)).tasks,
            string_views(goals@) == weekly_lists(context@.take(i as int)).goals,
        decreases context.len() - i,
    {
        let r = &context[i];
        assert(context@.take(i + 1).drop_last() =~= context@.take(i as int));
        assert(context@.take(i + 1).last() == context@[i as int]);
        let t = r.resource_type.as_str();
        if str_eq(t, "entry") {
            push_unique(&mut entries, r.resource_id.as_str());
        } else if str_eq(t, "task") {
            push_unique(&mut tasks, r.resource_id.as_str());
        } else if str_eq(t, "goal") {
            push_unique(&mut goals, r.resource_id.as_str());
        }
        i = i + 1;
    }
    assert(context@.take(context.len() as int) =~= context@);
    (entries, tasks, goals)
}

impl WeeklyOutput {
    /// The weekly draft made from the model's answer: its summary as given, the lists trimmed
    /// and cut to eight (five for the next focus), and the source entries, tasks and goals of
    /// the week's context.
    pub fn into_draft(self, start_date: &str, end_date: &str, model: &str, context: &Vec<SearchHit>) -> (r: WeeklySummaryDraft)
        ensures
            r.summary.week_start@ == start_date@,
            r.summary.week_end@ == end_date@,
            r.summary.summary == self.summary,
            string_views(r.summary.themes@) == first_n(trimmed_non_blank(string_views(self.themes@)), 8),
            string_views(r.summary.completed_work@) == first_n(trimmed_non_blank(string_views(self.completed_work@)), 8),
            string_views(r.summary.open_loops@) == first_n(trimmed_non_blank(string_views(self.open_loops@)), 8),
            string_views(r.summary.next_focus@) == first_n(trimmed_non_blank(string_views(self.next_focus@)), 5),
            string_views(r.summary.source_entry_ids@) == weekly_lists(context@).entries,
            string_views(r.summary.source_task_ids@) == weekly_lists(context@).tasks,
            string_views(r.summary.source_goal_ids@) == weekly_lists(context@).goals,
            r.summary.provider@ == OPENAI_PROVIDER@,
            r.summary.model matches Some(m) && m@ == model@,
    {
        let (entries, tasks, goals) = source_ids(context);
        WeeklySummaryDraft {
            summary: WeeklyAiSummaryInput {
                week_start: owned(start_date),
                week_end: owned(end_date),
                summary: self.summary,
                themes: limit_strings(self.themes, 8),
                completed_work: limit_strings(self.completed_work, 8),
                open_loops: limit_strings(self.open_loops, 8),
                next_focus: limit_strings(self.next_focus, 5),
                source_entry_ids: entries,
                source_task_ids: tasks,
                source_goal_ids: goals,
                provider: owned(OPENAI_PROVIDER),
                model: Some(owned(model)),
            },
        }
    }
}

// ---------------------------------------------------------------- prompts

/// One line of context in a prompt: `- type id: title — preview`.
pub open spec fn context_line(h: SearchHit) -> Seq<char> {
    "- "@ + h.resource_type@ + " "@ + h.resource_id@ + ": "@ + h.title@ + " — "@ + h.preview@
}

/// The context lines of the first `n` hits.
pub open spec fn context_lines(hits: Seq<SearchHit>, n: nat) -> Seq<Seq<char>> {
    let m = if hits.len() <= n { hits.len() } else { n };
    Seq::new(m, |i: int| context_line(hits[i]))
}

fn context_line_exec(h: &SearchHit) -> (r: String)
    ensures
        r@ == context_line(*h),
{
    let mut r = owned("- ");
    push_str(&mut r, h.resource_type.as_str());
    push_str(&mut r, " ");
    push_str(&mut r, h.resource_id.as_str());
    push_str(&mut r, ": ");
    push_str(&mut r, h.title.as_str());
    push_str(&mut r, " — ");
    push_str(&mut r, h.preview.as_str());
    r
}

fn context_block(hits: &Vec<SearchHit>, n: usize) -> (r: String)
    ensures
        r@ == join_spec(context_lines(hits@, n as nat), "\n"@),
{
    let m = if hits.len() <= n { hits.len() } else { n };
    let mut lines: Vec<String> = Vec::new();
    let mut i: usize = 0;
    while i < m
        invariant
            m <= hits@.len(),
            i <= m,
            m == (if hits@.len() <= n { hits@.len() } else { n as nat }),
            string_views(lines@) == context_lines(hits@, n as nat).take(i as int),
        decreases m - i,
    {
        let line = context_line_exec(&hits[i]);
        let ghost before = lines@;
        lines.push(line);
        assert(string_views(lines@) =~= string_views(before).push(context_line(hits@[i as int])));
        assert(context_lines(hits@, n as nat).take(i + 1) =~= context_lines(hits@, n as nat).take(i as int).push(
            context_line(hits@[i as int]),
        ));
        i = i + 1;
    }
    assert(context_lines(hits@, n as nat).take(m as int) =~= context_lines(hits@, n as nat));
    join_strings(&lines, "\n")
}

/// The prompt for an entry: its text cut at 6000 characters, the first 80 tag names, and up to
/// eight related resources, one per line.
pub open spec fn entry_prompt_text(text: Seq<char>, tag_names: Seq<Seq<char>>, related: Seq<SearchHit>) -> Seq<char> {
    "Journal entry text:\n"@ + preview_of(text, 6000) + "\n\nExisting tags:\n"@ + join_spec(first_n(tag_names, 80), ", "@)
        + "\n\nPossible related local resources:\n"@ + join_spec(context_lines(related, 8), "\n"@)
        + "\n\nReturn only editable suggestions. Keep possible_mood and energy empty when unclear."@
}

/// The prompt sent for a journal entry.
pub fn entry_prompt(text: &str, tag_names: &Vec<String>, related: &Vec<SearchHit>) -> (r: String)
    ensures
        r@ == entry_prompt_text(text@, string_views(tag_names@), related@),
{
    let mut names: Vec<String> = Vec::new();
    let m = if tag_names.len() <= 80 { tag_names.len() } else { 80 };
    let mut i: usize = 0;
    while i < m
        invariant
            m <= tag_names@.len(),
            i <= m,
            m == (if tag_names@.len() <= 80 { tag_names@.len() } else { 80 }),
            string_views(names@) == string_views(tag_names@).take(i as int),
        decreases m - i,
    {
        let ghost before = names@;
        names.push(tag_names[i].clone());
        assert(string_views(names@) =~= string_views(before).push(tag_names@[i as int]@));
        assert(string_views(tag_names@).take(i + 1) =~= string_views(tag_names@).take(i as int).push(tag_names@[i as int]@));
        i = i + 1;
    }
    assert(string_views(names@) == first_n(string_views(tag_names@), 80)) by {
        if tag_names@.len() <= 80 {
            assert(string_views(tag_names@).take(m as int) =~= string_views(tag_names@));
        }
    }
    let tags = join_strings(&names, ", ");
    let lines = context_block(related, 8);
    let mut r = owned("Journal entry text:\n");
    let t = truncate_preview(text, 6000);
    push_str(&mut r, t.as_str());
    push_str(&mut r, "\n\nExisting tags:\n");
    push_str(&mut r, tags.as_str());
    push_str(&mut r, "\n\nPossible related local resources:\n");
    push_str(&mut r, lines.as_str());
    push_str(&mut r, "\n\nReturn only editable suggestions. Keep possible_mood and energy empty when unclear.");
    r
}

/// The prompt for a week: its dates and up to eighty indexed items, one per line.
pub open spec fn weekly_prompt_text(start: Seq<char>, end: Seq<char>, context: Seq<SearchHit>) -> Seq<char> {
    "Week: "@ + start + " through "@ + end + "\n\nIndexed local context:\n"@ + join_spec(context_lines(context, 80), "\n"@)
        + "\n\nReturn an editable weekly summary draft. Leave lists empty when evidence is weak."@
}

/// The prompt sent for a week.
pub fn weekly_prompt(start_date: &str, end_date: &str, context: &Vec<SearchHit>) -> (r: String)
    ensures
        r@ == weekly_prompt_text(start_date@, end_date@, context@),
{
    let lines = context_block(context, 80);
    let mut r = owned("Week: ");
    push_str(&mut r, start_date);
    push_str(&mut r, " through ");
    push_str(&mut r, end_date);
    push_str(&mut r, "\n\nIndexed local context:\n");
    push_str(&mut r, lines.as_str());
    push_str(&mut r, "\n\nReturn an editable weekly summary draft. Leave lists empty when evidence is weak.");
    r
}

/// The error for a request the model service refused: `ModelError` with the status and the
/// body it sent.
pub fn model_request_failed(status: &str, body: &str) -> (r: AppError)
    ensures
        r is ModelError,
        error_detail(r) == "OpenAI journal enrichment request failed "@ + status@ + ": "@ + body@,
{
    let mut m = owned("OpenAI journal enrichment request failed ");
    push_str(&mut m, status);
    push_str(&mut m, ": ");
    push_str(&mut m, body);
    AppError::ModelError(m)
}

/// The error for an answer without output text.
pub fn model_output_missing() -> (r: AppError)
    ensures
        r is ModelError,
        error_detail(r) == "OpenAI journal enrichment response had no output text"@,
{
    AppError::ModelError(owned("OpenAI journal enrichment response had no output text"))
}

} // verus!
