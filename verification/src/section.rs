//! The entries of each section, and the sections' bodies.
//!
//! Every kind of entry has its markup, and a section's body is the markup
//! of its entries in their order, joined by a separator: a blank line
//! between entries that span several lines, a line end between bullets.
//! A section without entries has an empty body.

use vstd::prelude::*;
use crate::escape::{append_escaped, escape_text};
use crate::field::{append_rendered, render_text, NOT_AVAILABLE, PRESENT};
use crate::record::{
    views, Education, EducationView, Experience, ExperienceView, Language, RatedView, Reference,
    ReferenceView, Skill,
};
use crate::text::{
    join, join_offset, join_text, lemma_join_keeps_order, lemma_join_places_each_part,
    lemma_occurs_in_middle, occurs_in, optional_text, stands_at, texts,
};

verus! {

/// The end of a line inside an entry, and the indentation of the next.
pub const LINE_BREAK: &'static str = " \\\n        ";

/// What separates two entries that span several lines: a blank line.
pub const ENTRY_GAP: &'static str = "\n\n";

/// What separates two bullets: a line end.
pub const ITEM_GAP: &'static str = "\n";

/// The command that begins a bullet.
pub const ITEM: &'static str = "\\item ";

/// The opening of a bulleted list, up to where its first bullet begins.
pub const LIST_OPEN: &'static str = "\\begin{itemize}\n        ";

/// The closing of a bulleted list, from the end of its last bullet.
pub const LIST_CLOSE: &'static str = "\n        \\end{itemize}";

/// One bullet of a list: the item command and the escaped text.
pub open spec fn item_markup(text: Seq<char>) -> Seq<char> {
    ITEM@ + escape_text(text)
}

/// One bullet for each text, in the order of the texts, one per line.
pub open spec fn items_body(items: Seq<Seq<char>>) -> Seq<char> {
    join_text(items.map_values(|text: Seq<char>| item_markup(text)), ITEM_GAP@)
}

/// A bulleted list around the given bullets.
pub open spec fn bullet_list(body: Seq<char>) -> Seq<char> {
    LIST_OPEN@ + body + LIST_CLOSE@
}

/// The first line of a position: the title in bold, the company in
/// italics, then the location.
pub open spec fn experience_head(e: ExperienceView) -> Seq<char> {
    "\\textbf{"@ + escape_text(e.job_title) + "} at \\textit{"@ + escape_text(e.company)
        + "}, "@ + escape_text(e.location)
}

/// The time a position was held. One that has not ended runs to the
/// present.
pub open spec fn experience_dates(e: ExperienceView) -> Seq<char> {
    escape_text(e.start_date) + " - "@ + render_text(e.end_date, PRESENT@)
}

/// A position: its first line, its dates, and its responsibilities as a
/// bulleted list in the order they were given.
pub open spec fn experience_markup(e: ExperienceView) -> Seq<char> {
    experience_head(e) + LINE_BREAK@ + experience_dates(e) + LINE_BREAK@ + bullet_list(
        items_body(e.responsibilities),
    )
}

/// The first line of a course of study: the degree in bold, the
/// institution in italics, then the location.
pub open spec fn education_head(e: EducationView) -> Seq<char> {
    "\\textbf{"@ + escape_text(e.degree) + "} from \\textit{"@ + escape_text(e.institution)
        + "}, "@ + escape_text(e.location)
}

/// The time a course of study took.
pub open spec fn education_dates(e: EducationView) -> Seq<char> {
    escape_text(e.start_date) + " - "@ + escape_text(e.end_date)
}

/// A course of study: its first line and its dates. Honors are not shown.
pub open spec fn education_markup(e: EducationView) -> Seq<char> {
    education_head(e) + LINE_BREAK@ + education_dates(e)
}

/// A skill or a language as a bullet: the name, and the level in
/// brackets, `N/A` where none is given.
pub open spec fn rated_markup(r: RatedView) -> Seq<char> {
    ITEM@ + escape_text(r.name) + " ("@ + render_text(r.proficiency, NOT_AVAILABLE@) + ")"@
}

/// A referee: the name in bold, then relation, email and phone, each on a
/// line of its own; `N/A` for a missing phone number.
pub open spec fn reference_markup(r: ReferenceView) -> Seq<char> {
    "\\textbf{"@ + escape_text(r.name) + "}"@ + LINE_BREAK@ + "Relation: "@ + escape_text(
        r.relation,
    ) + LINE_BREAK@ + "Email: "@ + escape_text(r.email) + LINE_BREAK@ + "Phone: "@
        + render_text(r.phone, NOT_AVAILABLE@)
}

/// The body of the experience section.
pub open spec fn experience_body(entries: Seq<ExperienceView>) -> Seq<char> {
    join_text(entries.map_values(|e: ExperienceView| experience_markup(e)), ENTRY_GAP@)
}

/// The body of the education section.
pub open spec fn education_body(entries: Seq<EducationView>) -> Seq<char> {
    join_text(entries.map_values(|e: EducationView| education_markup(e)), ENTRY_GAP@)
}

/// The bullets of the skills section, and of the languages section.
pub open spec fn rated_body(entries: Seq<RatedView>) -> Seq<char> {
    join_text(entries.map_values(|r: RatedView| rated_markup(r)), ITEM_GAP@)
}

/// The body of the references section.
pub open spec fn references_body(entries: Seq<ReferenceView>) -> Seq<char> {
    join_text(entries.map_values(|r: ReferenceView| reference_markup(r)), ENTRY_GAP@)
}

/// Where position `i` begins in the body of the experience section.
pub open spec fn experience_offset(entries: Seq<ExperienceView>, i: int) -> int {
    join_offset(entries.map_values(|e: ExperienceView| experience_markup(e)), ENTRY_GAP@, i)
}

/// Where bullet `i` begins among the bullets of a list.
pub open spec fn item_offset(items: Seq<Seq<char>>, i: int) -> int {
    join_offset(items.map_values(|text: Seq<char>| item_markup(text)), ITEM_GAP@, i)
}

/// Typesets one bullet.
pub fn format_item(text: &str) -> (out: String)
    ensures
        out@ == item_markup(text@),
{
    let mut out = String::from_str(ITEM);
    append_escaped(&mut out, text);
    out
}

/// Typesets the bullets of a list, one per line and in the order given.
pub fn compose_items(items: &Vec<String>) -> (out: String)
    ensures
        out@ == items_body(texts(items@)),
{
    let mut parts: Vec<String> = Vec::new();
    let mut i: usize = 0;
    while i < items.len()
        invariant
            i <= items.len(),
            parts@.len() == i,
            forall|k: int| 0 <= k < i ==> (#[trigger] parts@[k])@ == item_markup(items@[k]@),
        decreases items.len() - i,
    {
        parts.push(format_item(items[i].as_str()));
        i += 1;
    }
    proof {
        assert(texts(parts@) =~= texts(items@).map_values(|text: Seq<char>| item_markup(text)));
    }
    join(&parts, ITEM_GAP)
}

/// Wraps the bullets of a list in the list's environment.
pub fn format_bullet_list(body: &str) -> (out: String)
    ensures
        out@ == bullet_list(body@),
{
    let mut out = String::from_str(LIST_OPEN);
    out.append(body);
    out.append(LIST_CLOSE);
    out
}

/// Typesets one position.
pub fn format_experience(e: &Experience) -> (out: String)
    ensures
        out@ == experience_markup(e@),
{
    let items = compose_items(&e.responsibilities);
    let list = format_bullet_list(items.as_str());
    let mut out = String::from_str("\\textbf{");
    append_escaped(&mut out, e.job_title.as_str());
    out.append("} at \\textit{");
    append_escaped(&mut out, e.company.as_str());
    out.append("}, ");
    append_escaped(&mut out, e.location.as_str());
    out.append(LINE_BREAK);
    append_escaped(&mut out, e.start_date.as_str());
    out.append(" - ");
    append_rendered(&mut out, &e.end_date, PRESENT);
    out.append(LINE_BREAK);
    out.append(list.as_str());
    proof {
        assert(out@ =~= experience_markup(e@));
    }
    out
}

/// Typesets one course of study.
pub fn format_education(e: &Education) -> (out: String)
    ensures
        out@ == education_markup(e@),
{
    let mut out = String::from_str("\\textbf{");
    append_escaped(&mut out, e.degree.as_str());
    out.append("} from \\textit{");
    append_escaped(&mut out, e.institution.as_str());
    out.append("}, ");
    append_escaped(&mut out, e.location.as_str());
    out.append(LINE_BREAK);
    append_escaped(&mut out, e.start_date.as_str());
    out.append(" - ");
    append_escaped(&mut out, e.end_date.as_str());
    proof {
        assert(out@ =~= education_markup(e@));
    }
    out
}

/// Typesets a name with its optional level as one bullet.
fn format_rated(name: &String, proficiency: &Option<String>) -> (out: String)
    ensures
        out@ == rated_markup(
            (RatedView { name: name@, proficiency: optional_text(*proficiency) }),
        ),
{
    let mut out = String::from_str(ITEM);
    append_escaped(&mut out, name.as_str());
    out.append(" (");
    append_rendered(&mut out, proficiency, NOT_AVAILABLE);
    out.append(")");
    out
}

/// Typesets one skill.
pub fn format_skill(s: &Skill) -> (out: String)
    ensures
        out@ == rated_markup(s@),
{
    format_rated(&s.name, &s.proficiency)
}

/// Typesets one language.
pub fn format_language(l: &Language) -> (out: String)
    ensures
        out@ == rated_markup(l@),
{
    format_rated(&l.name, &l.proficiency)
}

/// Typesets one referee.
pub fn format_reference(r: &Reference) -> (out: String)
    ensures
        out@ == reference_markup(r@),
{
    let mut out = String::from_str("\\textbf{");
    append_escaped(&mut out, r.name.as_str());
    out.append("}");
    out.append(LINE_BREAK);
    out.append("Relation: ");
    append_escaped(&mut out, r.relation.as_str());
    out.append(LINE_BREAK);
    out.append("Email: ");
    append_escaped(&mut out, r.email.as_str());
    out.append(LINE_BREAK);
    out.append("Phone: ");
    append_rendered(&mut out, &r.phone, NOT_AVAILABLE);
    proof {
        assert(out@ =~= reference_markup(r@));
    }
    out
}

/// Typesets the body of the experience section.
pub fn compose_experience(entries: &Vec<Experience>) -> (out: String)
    ensures
        out@ == experience_body(views(entries@)),
{
    let mut parts: Vec<String> = Vec::new();
    let mut i: usize = 0;
    while i < entries.len()
        invariant
            i <= entries.len(),
            parts@.len() == i,
            forall|k: int|
                0 <= k < i ==> (#[trigger] parts@[k])@ == experience_markup(entries@[k]@),
        decreases entries.len() - i,
    {
        parts.push(format_experience(&entries[i]));
        i += 1;
    }
    proof {
        assert(texts(parts@) =~= views(entries@).map_values(
            |e: ExperienceView| experience_markup(e),
        ));
    }
    join(&parts, ENTRY_GAP)
}

/// Typesets the body of the education section.
pub fn compose_education(entries: &Vec<Education>) -> (out: String)
    ensures
        out@ == education_body(views(entries@)),
{
    let mut parts: Vec<String> = Vec::new();
    let mut i: usize = 0;
    while i < entries.len()
        invariant
            i <= entries.len(),
            parts@.len() == i,
            forall|k: int|
                0 <= k < i ==> (#[trigger] parts@[k])@ == education_markup(entries@[k]@),
        decreases entries.len() - i,
    {
        parts.push(format_education(&entries[i]));
        i += 1;
    }
    proof {
        assert(texts(parts@) =~= views(entries@).map_values(
            |e: EducationView| education_markup(e),
        ));
    }
    join(&parts, ENTRY_GAP)
}

/// Typesets the bullets of the skills section.
pub fn compose_skills(entries: &Vec<Skill>) -> (out: String)
    ensures
        out@ == rated_body(views(entries@)),
{
    let mut parts: Vec<String> = Vec::new();
    let mut i: usize = 0;
    while i < entries.len()
        invariant
            i <= entries.len(),
            parts@.len() == i,
            forall|k: int| 0 <= k < i ==> (#[trigger] parts@[k])@ == rated_markup(entries@[k]@),
        decreases entries.len() - i,
    {
        parts.push(format_skill(&entries[i]));
        i += 1;
    }
    proof {
        assert(texts(parts@) =~= views(entries@).map_values(|r: RatedView| rated_markup(r)));
    }
    join(&parts, ITEM_GAP)
}

/// Typesets the bullets of the languages section.
pub fn compose_languages(entries: &Vec<Language>) -> (out: String)
    ensures
        out@ == rated_body(views(entries@)),
{
    let mut parts: Vec<String> = Vec::new();
    let mut i: usize = 0;
    while i < entries.len()
        invariant
            i <= entries.len(),
            parts@.len() == i,
            forall|k: int| 0 <= k < i ==> (#[trigger] parts@[k])@ == rated_markup(entries@[k]@),
        decreases entries.len() - i,
    {
        parts.push(format_language(&entries[i]));
        i += 1;
    }
    proof {
        assert(texts(parts@) =~= views(entries@).map_values(|r: RatedView| rated_markup(r)));
    }
    join(&parts, ITEM_GAP)
}

/// Typesets the body of the references section.
pub fn compose_references(entries: &Vec<Reference>) -> (out: String)
    ensures
        out@ == references_body(views(entries@)),
{
    let mut parts: Vec<String> = Vec::new();
    let mut i: usize = 0;
    while i < entries.len()
        invariant
            i <= entries.len(),
            parts@.len() == i,
            forall|k: int|
                0 <= k < i ==> (#[trigger] parts@[k])@ == reference_markup(entries@[k]@),
        decreases entries.len() - i,
    {
        parts.push(format_reference(&entries[i]));
        i += 1;
    }
    proof {
        assert(texts(parts@) =~= views(entries@).map_values(
            |r: ReferenceView| reference_markup(r),
        ));
    }
    join(&parts, ENTRY_GAP)
}

/// The experience section keeps the order of the positions: each stands
/// in the body with its own markup, and of two positions the one that
/// comes first in the record ends before the other begins.
pub proof fn lemma_experience_keeps_order(entries: Seq<ExperienceView>, i: int, j: int)
    requires
        0 <= i < j < entries.len(),
    ensures
        stands_at(
            experience_body(entries),
            experience_offset(entries, i),
            experience_markup(entries[i]),
        ),
        stands_at(
            experience_body(entries),
            experience_offset(entries, j),
            experience_markup(entries[j]),
        ),
        experience_offset(entries, i) + experience_markup(entries[i]).len() < experience_offset(
            entries,
            j,
        ),
{
    let parts = entries.map_values(|e: ExperienceView| experience_markup(e));
    reveal_strlit("\n\n");
    lemma_join_places_each_part(parts, ENTRY_GAP@, i);
    lemma_join_places_each_part(parts, ENTRY_GAP@, j);
    lemma_join_keeps_order(parts, ENTRY_GAP@, i, j);
}

/// A list keeps the order of its bullets: each text stands among the
/// bullets as a bullet of its own, and of two texts the one that comes
/// first in the record ends before the other begins. No text is left out
/// and none is merged with another, equal or not.
pub proof fn lemma_items_keep_order(items: Seq<Seq<char>>, i: int, j: int)
    requires
        0 <= i < j < items.len(),
    ensures
        stands_at(items_body(items), item_offset(items, i), item_markup(items[i])),
        stands_at(items_body(items), item_offset(items, j), item_markup(items[j])),
        item_offset(items, i) + item_markup(items[i]).len() < item_offset(items, j),
{
    let parts = items.map_values(|text: Seq<char>| item_markup(text));
    reveal_strlit("\n");
    lemma_join_places_each_part(parts, ITEM_GAP@, i);
    lemma_join_places_each_part(parts, ITEM_GAP@, j);
    lemma_join_keeps_order(parts, ITEM_GAP@, i, j);
}

/// The markup of a position holds the bullets of its responsibilities.
pub proof fn lemma_experience_holds_responsibilities(e: ExperienceView)
    ensures
        occurs_in(items_body(e.responsibilities), experience_markup(e)),
{
    let before = experience_head(e) + LINE_BREAK@ + experience_dates(e) + LINE_BREAK@
        + LIST_OPEN@;
    let body = items_body(e.responsibilities);
    assert(experience_markup(e) =~= before + body + LIST_CLOSE@);
    lemma_occurs_in_middle(before, body, LIST_CLOSE@);
}

/// A position without an end date is shown as running to the present.
pub proof fn lemma_open_position_runs_to_present(e: ExperienceView)
    requires
        e.end_date is None,
    ensures
        experience_dates(e) == escape_text(e.start_date) + " - Present"@,
{
    reveal_strlit(" - ");
    reveal_strlit("Present");
    reveal_strlit(" - Present");
    assert(" - "@ + PRESENT@ =~= " - Present"@);
    assert(experience_dates(e) =~= escape_text(e.start_date) + " - Present"@);
}

/// A section without entries has an empty body: no entry markup and no
/// text in its place.
pub proof fn lemma_no_entries_no_body()
    ensures
        experience_body(Seq::empty()) == Seq::<char>::empty(),
        education_body(Seq::empty()) == Seq::<char>::empty(),
        rated_body(Seq::empty()) == Seq::<char>::empty(),
        references_body(Seq::empty()) == Seq::<char>::empty(),
        items_body(Seq::empty()) == Seq::<char>::empty(),
{
}

} // verus!
