//! The whole document: a fixed preamble, the personal details, and the
//! five lists of entries, each under its heading and always in the same
//! order.

use vstd::prelude::*;
use crate::escape::{append_escaped, escape_text};
use crate::field::{append_rendered, render_text, ANCHOR, BLANK, NOT_AVAILABLE};
use crate::record::{CVInput, CVInputView, ExperienceView, PersonalInfo, PersonalInfoView};
use crate::section::{
    bullet_list, compose_education, compose_experience, compose_languages, compose_references,
    compose_skills, education_body, experience_body, experience_markup, experience_offset,
    format_bullet_list, rated_body, references_body, ENTRY_GAP, LINE_BREAK,
};
use crate::text::{
    join, join_offset, join_text, lemma_join_places_each_part, lemma_occurs_in_middle,
    lemma_occurs_in_transitive, occurs_in, optional_text, stands_at, texts,
};

verus! {

/// What every document begins with: the class, the packages, and the
/// opening of the document body.
pub const PREAMBLE: &'static str = "\\documentclass[letterpaper, 10pt]{article}\
    \n        \\usepackage[utf8]{inputenc}\
    \n        \\usepackage[left=1in, right=1in, top=1in, bottom=1in]{geometry}\
    \n        \\usepackage{enumitem}\
    \n        \\usepackage{hyperref}\
    \n\
    \n        \\begin{document}";

/// What every document ends with.
pub const CLOSING: &'static str = "\\end{document}";

/// The blank line between two sections, and the indentation of the next.
pub const SECTION_GAP: &'static str = "\n\n        ";

/// The blank line behind the experience section, which is indented too.
pub const INDENTED_GAP: &'static str = "\n        \n        ";

/// The unnumbered heading of a section, up to where its body begins.
pub open spec fn heading(title: Seq<char>) -> Seq<char> {
    "\\section*{"@ + title + "}\n        "@
}

/// A section: its heading and, right behind it, its body.
pub open spec fn section(title: Seq<char>, body: Seq<char>) -> Seq<char> {
    heading(title) + body
}

/// A hyperlink that shows `label` and leads to `target`.
pub open spec fn hyperlink(target: Seq<char>, label: Seq<char>) -> Seq<char> {
    "\\href{"@ + target + "}{"@ + label + "}"@
}

/// The line with the name.
pub open spec fn name_line(p: PersonalInfoView) -> Seq<char> {
    "Name: "@ + escape_text(p.name)
}

/// The line with the email address.
pub open spec fn email_line(p: PersonalInfoView) -> Seq<char> {
    "Email: "@ + escape_text(p.email)
}

/// The line with the phone number, `N/A` where there is none.
pub open spec fn phone_line(p: PersonalInfoView) -> Seq<char> {
    "Phone: "@ + render_text(p.phone, NOT_AVAILABLE@)
}

/// The line with the address, `N/A` where there is none.
pub open spec fn address_line(p: PersonalInfoView) -> Seq<char> {
    "Address: "@ + render_text(p.address, NOT_AVAILABLE@)
}

/// The line with the link to a LinkedIn profile. Without one the link
/// leads to `#`, so that it stays a well-formed link.
pub open spec fn linkedin_line(p: PersonalInfoView) -> Seq<char> {
    "LinkedIn: "@ + hyperlink(render_text(p.linkedin, ANCHOR@), "LinkedIn"@)
}

/// The line with the link to a GitHub profile, leading to `#` without one.
pub open spec fn github_line(p: PersonalInfoView) -> Seq<char> {
    "GitHub: "@ + hyperlink(render_text(p.github, ANCHOR@), "GitHub"@)
}

/// The line with the link to a website, leading to `#` without one.
pub open spec fn website_line(p: PersonalInfoView) -> Seq<char> {
    "Website: "@ + hyperlink(render_text(p.personal_website, ANCHOR@), "Website"@)
}

/// The line with the objective, which is left empty where there is none.
pub open spec fn objective_line(p: PersonalInfoView) -> Seq<char> {
    "Objective: "@ + render_text(p.objective, BLANK@)
}

/// The lines of the personal details, in the order they are typeset.
pub open spec fn personal_lines(p: PersonalInfoView) -> Seq<Seq<char>> {
    seq![
        name_line(p),
        email_line(p),
        phone_line(p),
        address_line(p),
        linkedin_line(p),
        github_line(p),
        website_line(p),
        objective_line(p),
    ]
}

/// The body of the personal details: its lines, each but the last ended
/// by a line break.
pub open spec fn personal_details(p: PersonalInfoView) -> Seq<char> {
    join_text(personal_lines(p), LINE_BREAK@)
}

/// The section with the personal details.
pub open spec fn personal_section(r: CVInputView) -> Seq<char> {
    section("Personal Details"@, personal_details(r.personal_info))
}

/// The section with the positions held.
pub open spec fn experience_section(r: CVInputView) -> Seq<char> {
    section("Experience"@, experience_body(r.experience))
}

/// The section with the courses of study.
pub open spec fn education_section(r: CVInputView) -> Seq<char> {
    section("Education"@, education_body(r.education))
}

/// The section with the skills, as a bulleted list.
pub open spec fn skills_section(r: CVInputView) -> Seq<char> {
    section("Skills"@, bullet_list(rated_body(r.skills)))
}

/// The section with the languages, as a bulleted list.
pub open spec fn languages_section(r: CVInputView) -> Seq<char> {
    section("Languages"@, bullet_list(rated_body(r.languages)))
}

/// The section with the referees.
pub open spec fn references_section(r: CVInputView) -> Seq<char> {
    section("References"@, references_body(r.references))
}

/// The LaTeX source of a curriculum vitae: the preamble, the six sections
/// in their fixed order with a blank line before each, and the closing.
pub open spec fn document_markup(r: CVInputView) -> Seq<char> {
    PREAMBLE@ + SECTION_GAP@ + personal_section(r) + SECTION_GAP@ + experience_section(r)
        + INDENTED_GAP@ + education_section(r) + SECTION_GAP@ + skills_section(r) + SECTION_GAP@
        + languages_section(r) + SECTION_GAP@ + references_section(r) + SECTION_GAP@ + CLOSING@
}

/// Appends the section called `title`, with the given body, to `out`.
fn append_section(out: &mut String, title: &str, body: &str)
    ensures
        final(out)@ == old(out)@ + section(title@, body@),
{
    out.append("\\section*{");
    out.append(title);
    out.append("}\n        ");
    out.append(body);
    proof {
        assert(out@ =~= old(out)@ + section(title@, body@));
    }
}

/// Typesets a line of the personal details that holds a required field.
fn format_labelled(label: &str, value: &String) -> (out: String)
    ensures
        out@ == label@ + escape_text(value@),
{
    let mut out = String::from_str(label);
    append_escaped(&mut out, value.as_str());
    out
}

/// Typesets a line of the personal details that holds an optional field.
fn format_optional(label: &str, value: &Option<String>, fallback: &str) -> (out: String)
    ensures
        out@ == label@ + render_text(optional_text(*value), fallback@),
{
    let mut out = String::from_str(label);
    append_rendered(&mut out, value, fallback);
    out
}

/// Typesets a line of the personal details that holds a hyperlink, which
/// leads to `#` where there is no target.
fn format_link(label: &str, target: &Option<String>, shown: &str) -> (out: String)
    ensures
        out@ == label@ + hyperlink(render_text(optional_text(*target), ANCHOR@), shown@),
{
    let mut out = String::from_str(label);
    out.append("\\href{");
    append_rendered(&mut out, target, ANCHOR);
    out.append("}{");
    out.append(shown);
    out.append("}");
    proof {
        assert(out@ =~= label@ + hyperlink(
            render_text(optional_text(*target), ANCHOR@),
            shown@,
        ));
    }
    out
}

/// Typesets the body of the personal details.
pub fn format_personal_info(p: &PersonalInfo) -> (out: String)
    ensures
        out@ == personal_details(p@),
{
    let mut lines: Vec<String> = Vec::new();
    lines.push(format_labelled("Name: ", &p.name));
    lines.push(format_labelled("Email: ", &p.email));
    lines.push(format_optional("Phone: ", &p.phone, NOT_AVAILABLE));
    lines.push(format_optional("Address: ", &p.address, NOT_AVAILABLE));
    lines.push(format_link("LinkedIn: ", &p.linkedin, "LinkedIn"));
    lines.push(format_link("GitHub: ", &p.github, "GitHub"));
    lines.push(format_link("Website: ", &p.personal_website, "Website"));
    lines.push(format_optional("Objective: ", &p.objective, BLANK));
    proof {
        assert(texts(lines@) =~= personal_lines(p@));
    }
    join(&lines, LINE_BREAK)
}

/// Typesets the whole curriculum vitae as one LaTeX document.
///
/// The result depends on nothing but the record: the same record always
/// gives the same text. Every record can be typeset.
pub fn generate_latex(input: &CVInput) -> (out: String)
    ensures
        out@ == document_markup(input@),
{
    let personal = format_personal_info(&input.personal_info);
    let experience = compose_experience(&input.experience);
    let education = compose_education(&input.education);
    let skills = format_bullet_list(compose_skills(&input.skills).as_str());
    let languages = format_bullet_list(compose_languages(&input.languages).as_str());
    let references = compose_references(&input.references);
    let mut out = String::from_str(PREAMBLE);
    out.append(SECTION_GAP);
    append_section(&mut out, "Personal Details", personal.as_str());
    out.append(SECTION_GAP);
    append_section(&mut out, "Experience", experience.as_str());
    out.append(INDENTED_GAP);
    append_section(&mut out, "Education", education.as_str());
    out.append(SECTION_GAP);
    append_section(&mut out, "Skills", skills.as_str());
    out.append(SECTION_GAP);
    append_section(&mut out, "Languages", languages.as_str());
    out.append(SECTION_GAP);
    append_section(&mut out, "References", references.as_str());
    out.append(SECTION_GAP);
    out.append(CLOSING);
    out
}

/// The document is a function of the record: two records that hold the
/// same give the same document, character for character.
pub proof fn lemma_same_record_same_document(a: CVInput, b: CVInput)
    requires
        a@ == b@,
    ensures
        document_markup(a@) == document_markup(b@),
{
}

/// Without a phone number the phone line shows `N/A`.
pub proof fn lemma_missing_phone_shows_na(p: PersonalInfoView)
    requires
        p.phone is None,
    ensures
        phone_line(p) == "Phone: N/A"@,
{
    reveal_strlit("Phone: ");
    reveal_strlit("N/A");
    reveal_strlit("Phone: N/A");
    assert(phone_line(p) =~= "Phone: N/A"@);
}

/// A missing link leads to `#`, not to `N/A`.
pub proof fn lemma_missing_link_leads_to_anchor(p: PersonalInfoView)
    ensures
        p.linkedin is None ==> linkedin_line(p) == "LinkedIn: \\href{#}{LinkedIn}"@,
        p.github is None ==> github_line(p) == "GitHub: \\href{#}{GitHub}"@,
        p.personal_website is None ==> website_line(p) == "Website: \\href{#}{Website}"@,
{
    reveal_strlit("\\href{");
    reveal_strlit("#");
    reveal_strlit("}{");
    reveal_strlit("}");
    if p.linkedin is None {
        reveal_strlit("LinkedIn: ");
        reveal_strlit("LinkedIn");
        reveal_strlit("LinkedIn: \\href{#}{LinkedIn}");
        assert(linkedin_line(p) =~= "LinkedIn: \\href{#}{LinkedIn}"@);
    }
    if p.github is None {
        reveal_strlit("GitHub: ");
        reveal_strlit("GitHub");
        reveal_strlit("GitHub: \\href{#}{GitHub}");
        assert(github_line(p) =~= "GitHub: \\href{#}{GitHub}"@);
    }
    if p.personal_website is None {
        reveal_strlit("Website: ");
        reveal_strlit("Website");
        reveal_strlit("Website: \\href{#}{Website}");
        assert(website_line(p) =~= "Website: \\href{#}{Website}"@);
    }
}

/// The personal details hold each of their eight lines, whole and at its
/// place.
pub proof fn lemma_personal_details_hold_lines(p: PersonalInfoView, i: int)
    requires
        0 <= i < 8,
    ensures
        personal_lines(p).len() == 8,
        stands_at(
            personal_details(p),
            join_offset(personal_lines(p), LINE_BREAK@, i),
            personal_lines(p)[i],
        ),
{
    lemma_join_places_each_part(personal_lines(p), LINE_BREAK@, i);
}

/// The document holds the personal details.
proof fn lemma_document_holds_personal(r: CVInputView)
    ensures
        occurs_in(personal_section(r), document_markup(r)),
{
    let before = PREAMBLE@ + SECTION_GAP@;
    let after = SECTION_GAP@ + experience_section(r) + INDENTED_GAP@ + education_section(r)
        + SECTION_GAP@ + skills_section(r) + SECTION_GAP@ + languages_section(r) + SECTION_GAP@
        + references_section(r) + SECTION_GAP@ + CLOSING@;
    assert(document_markup(r) =~= before + personal_section(r) + after);
    lemma_occurs_in_middle(before, personal_section(r), after);
}

/// The document holds the experience section.
proof fn lemma_document_holds_experience(r: CVInputView)
    ensures
        occurs_in(experience_section(r), document_markup(r)),
{
    let before = PREAMBLE@ + SECTION_GAP@ + personal_section(r) + SECTION_GAP@;
    let after = INDENTED_GAP@ + education_section(r) + SECTION_GAP@ + skills_section(r)
        + SECTION_GAP@ + languages_section(r) + SECTION_GAP@ + references_section(r)
        + SECTION_GAP@ + CLOSING@;
    assert(document_markup(r) =~= before + experience_section(r) + after);
    lemma_occurs_in_middle(before, experience_section(r), after);
}

/// The document holds the education section.
proof fn lemma_document_holds_education(r: CVInputView)
    ensures
        occurs_in(education_section(r), document_markup(r)),
{
    let before = PREAMBLE@ + SECTION_GAP@ + personal_section(r) + SECTION_GAP@
        + experience_section(r) + INDENTED_GAP@;
    let after = SECTION_GAP@ + skills_section(r) + SECTION_GAP@ + languages_section(r)
        + SECTION_GAP@ + references_section(r) + SECTION_GAP@ + CLOSING@;
    assert(document_markup(r) =~= before + education_section(r) + after);
    lemma_occurs_in_middle(before, education_section(r), after);
}

/// The document holds the skills section.
proof fn lemma_document_holds_skills(r: CVInputView)
    ensures
        occurs_in(skills_section(r), document_markup(r)),
{
    let before = PREAMBLE@ + SECTION_GAP@ + personal_section(r) + SECTION_GAP@
        + experience_section(r) + INDENTED_GAP@ + education_section(r) + SECTION_GAP@;
    let after = SECTION_GAP@ + languages_section(r) + SECTION_GAP@ + references_section(r)
        + SECTION_GAP@ + CLOSING@;
    assert(document_markup(r) =~= before + skills_section(r) + after);
    lemma_occurs_in_middle(before, skills_section(r), after);
}

/// The document holds the languages section.
proof fn lemma_document_holds_languages(r: CVInputView)
    ensures
        occurs_in(languages_section(r), document_markup(r)),
{
    let before = PREAMBLE@ + SECTION_GAP@ + personal_section(r) + SECTION_GAP@
        + experience_section(r) + INDENTED_GAP@ + education_section(r) + SECTION_GAP@
        + skills_section(r) + SECTION_GAP@;
    let after = SECTION_GAP@ + references_section(r) + SECTION_GAP@ + CLOSING@;
    assert(document_markup(r) =~= before + languages_section(r) + after);
    lemma_occurs_in_middle(before, languages_section(r), after);
}

/// The document holds the references section.
proof fn lemma_document_holds_references(r: CVInputView)
    ensures
        occurs_in(references_section(r), document_markup(r)),
{
    let before = PREAMBLE@ + SECTION_GAP@ + personal_section(r) + SECTION_GAP@
        + experience_section(r) + INDENTED_GAP@ + education_section(r) + SECTION_GAP@
        + skills_section(r) + SECTION_GAP@ + languages_section(r) + SECTION_GAP@;
    let after = SECTION_GAP@ + CLOSING@;
    assert(document_markup(r) =~= before + references_section(r) + after);
    lemma_occurs_in_middle(before, references_section(r), after);
}

/// The document holds every section, heading and body, whatever the
/// record holds: the personal details and each of the five lists.
pub proof fn lemma_document_holds_sections(r: CVInputView)
    ensures
        occurs_in(personal_section(r), document_markup(r)),
        occurs_in(experience_section(r), document_markup(r)),
        occurs_in(education_section(r), document_markup(r)),
        occurs_in(skills_section(r), document_markup(r)),
        occurs_in(languages_section(r), document_markup(r)),
        occurs_in(references_section(r), document_markup(r)),
{
    lemma_document_holds_personal(r);
    lemma_document_holds_experience(r);
    lemma_document_holds_education(r);
    lemma_document_holds_skills(r);
    lemma_document_holds_languages(r);
    lemma_document_holds_references(r);
}

/// A record without positions still has its experience section: the
/// heading is there, nothing stands under it, and the heading of the
/// education section follows behind the blank line.
pub proof fn lemma_no_experience_leaves_heading(r: CVInputView)
    requires
        r.experience.len() == 0,
    ensures
        experience_section(r) == heading("Experience"@),
        occurs_in(
            heading("Experience"@) + INDENTED_GAP@ + heading("Education"@),
            document_markup(r),
        ),
{
    let part = heading("Experience"@) + INDENTED_GAP@ + heading("Education"@);
    let before = PREAMBLE@ + SECTION_GAP@ + personal_section(r) + SECTION_GAP@;
    let after = education_body(r.education) + SECTION_GAP@ + skills_section(r) + SECTION_GAP@
        + languages_section(r) + SECTION_GAP@ + references_section(r) + SECTION_GAP@ + CLOSING@;
    assert(experience_section(r) =~= heading("Experience"@));
    assert(document_markup(r) =~= before + part + after);
    lemma_occurs_in_middle(before, part, after);
}

/// The document holds the name, escaped, whatever the name is.
pub proof fn lemma_document_holds_name(r: CVInputView)
    ensures
        occurs_in(escape_text(r.personal_info.name), document_markup(r)),
{
    let p = r.personal_info;
    let name = escape_text(p.name);
    let none = Seq::<char>::empty();
    assert(name_line(p) =~= "Name: "@ + name + none);
    lemma_occurs_in_middle("Name: "@, name, none);
    lemma_personal_details_hold_lines(p, 0);
    assert(occurs_in(name_line(p), personal_details(p)));
    assert(personal_section(r) =~= heading("Personal Details"@) + personal_details(p) + none);
    lemma_occurs_in_middle(heading("Personal Details"@), personal_details(p), none);
    lemma_document_holds_personal(r);
    lemma_occurs_in_transitive(name, name_line(p), personal_details(p));
    lemma_occurs_in_transitive(name, personal_details(p), personal_section(r));
    lemma_occurs_in_transitive(name, personal_section(r), document_markup(r));
}

/// The document holds the markup of every position of the record.
pub proof fn lemma_document_holds_position(r: CVInputView, i: int)
    requires
        0 <= i < r.experience.len(),
    ensures
        occurs_in(experience_markup(r.experience[i]), document_markup(r)),
{
    let body = experience_body(r.experience);
    let entry = experience_markup(r.experience[i]);
    let none = Seq::<char>::empty();
    let parts = r.experience.map_values(|e: ExperienceView| experience_markup(e));
    lemma_join_places_each_part(parts, ENTRY_GAP@, i);
    assert(stands_at(body, experience_offset(r.experience, i), entry));
    assert(experience_section(r) =~= heading("Experience"@) + body + none);
    lemma_occurs_in_middle(heading("Experience"@), body, none);
    lemma_document_holds_experience(r);
    lemma_occurs_in_transitive(entry, body, experience_section(r));
    lemma_occurs_in_transitive(entry, experience_section(r), document_markup(r));
}

} // verus!
