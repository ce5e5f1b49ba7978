//! The curriculum vitae as structured data.
//!
//! Every type here is plain data with public fields. Its view holds the
//! same fields as mathematical text, which is what the rendering is stated
//! over. A missing optional field is `None`, which is not the same as a
//! field that holds the empty text.

use vstd::prelude::*;
use crate::text::{optional_text, texts};

verus! {

/// The views of a list of entries, in the order of the list.
pub open spec fn views<T: View>(entries: Seq<T>) -> Seq<T::V> {
    Seq::new(entries.len(), |i: int| entries[i]@)
}

/// Who the curriculum vitae is about and how to reach them.
#[derive(Clone, Debug, PartialEq, Eq)]
pub struct PersonalInfo {
    pub name: String,
    pub email: String,
    pub phone: Option<String>,
    pub address: Option<String>,
    pub linkedin: Option<String>,
    pub github: Option<String>,
    pub personal_website: Option<String>,
    pub objective: Option<String>,
}

/// The personal details as text.
pub struct PersonalInfoView {
    pub name: Seq<char>,
    pub email: Seq<char>,
    pub phone: Option<Seq<char>>,
    pub address: Option<Seq<char>>,
    pub linkedin: Option<Seq<char>>,
    pub github: Option<Seq<char>>,
    pub personal_website: Option<Seq<char>>,
    pub objective: Option<Seq<char>>,
}

impl View for PersonalInfo {
    type V = PersonalInfoView;

    open spec fn view(&self) -> PersonalInfoView {
        PersonalInfoView {
            name: self.name@,
            email: self.email@,
            phone: optional_text(self.phone),
            address: optional_text(self.address),
            linkedin: optional_text(self.linkedin),
            github: optional_text(self.github),
            personal_website: optional_text(self.personal_website),
            objective: optional_text(self.objective),
        }
    }
}

/// One position held. A position without an end date is still held.
#[derive(Clone, Debug, PartialEq, Eq)]
pub struct Experience {
    pub job_title: String,
    pub company: String,
    pub location: String,
    pub start_date: String,
    pub end_date: Option<String>,
    pub responsibilities: Vec<String>,
}

/// A position as text.
pub struct ExperienceView {
    pub job_title: Seq<char>,
    pub company: Seq<char>,
    pub location: Seq<char>,
    pub start_date: Seq<char>,
    pub end_date: Option<Seq<char>>,
    pub responsibilities: Seq<Seq<char>>,
}

impl View for Experience {
    type V = ExperienceView;

    open spec fn view(&self) -> ExperienceView {
        ExperienceView {
            job_title: self.job_title@,
            company: self.company@,
            location: self.location@,
            start_date: self.start_date@,
            end_date: optional_text(self.end_date),
            responsibilities: texts(self.responsibilities@),
        }
    }
}

/// One course of study. `honors` is part of the record and is not
/// typeset.
#[derive(Clone, Debug, PartialEq, Eq)]
pub struct Education {
    pub degree: String,
    pub institution: String,
    pub location: String,
    pub start_date: String,
    pub end_date: String,
    pub honors: Option<String>,
}

/// A course of study as text.
pub struct EducationView {
    pub degree: Seq<char>,
    pub institution: Seq<char>,
    pub location: Seq<char>,
    pub start_date: Seq<char>,
    pub end_date: Seq<char>,
    pub honors: Option<Seq<char>>,
}

impl View for Education {
    type V = EducationView;

    open spec fn view(&self) -> EducationView {
        EducationView {
            degree: self.degree@,
            institution: self.institution@,
            location: self.location@,
            start_date: self.start_date@,
            end_date: self.end_date@,
            honors: optional_text(self.honors),
        }
    }
}

/// A skill, with how well it is mastered where that is known.
#[derive(Clone, Debug, PartialEq, Eq)]
pub struct Skill {
    pub name: String,
    pub proficiency: Option<String>,
}

/// A language, with how well it is spoken where that is known.
#[derive(Clone, Debug, PartialEq, Eq)]
pub struct Language {
    pub name: String,
    pub proficiency: Option<String>,
}

/// What a skill and a language have in common: a name and an optional
/// level.
pub struct RatedView {
    pub name: Seq<char>,
    pub proficiency: Option<Seq<char>>,
}

impl View for Skill {
    type V = RatedView;

    open spec fn view(&self) -> RatedView {
        RatedView { name: self.name@, proficiency: optional_text(self.proficiency) }
    }
}

impl View for Language {
    type V = RatedView;

    open spec fn view(&self) -> RatedView {
        RatedView { name: self.name@, proficiency: optional_text(self.proficiency) }
    }
}

/// Someone who can vouch for the person.
#[derive(Clone, Debug, PartialEq, Eq)]
pub struct Reference {
    pub name: String,
    pub relation: String,
    pub email: String,
    pub phone: Option<String>,
}

/// A referee as text.
pub struct ReferenceView {
    pub name: Seq<char>,
    pub relation: Seq<char>,
    pub email: Seq<char>,
    pub phone: Option<Seq<char>>,
}

impl View for Reference {
    type V = ReferenceView;

    open spec fn view(&self) -> ReferenceView {
        ReferenceView {
            name: self.name@,
            relation: self.relation@,
            email: self.email@,
            phone: optional_text(self.phone),
        }
    }
}

/// A whole curriculum vitae. The order of each list is the order in which
/// its entries are typeset.
#[derive(Clone, Debug, PartialEq, Eq)]
pub struct CVInput {
    pub personal_info: PersonalInfo,
    pub experience: Vec<Experience>,
    pub education: Vec<Education>,
    pub skills: Vec<Skill>,
    pub languages: Vec<Language>,
    pub references: Vec<Reference>,
}

/// A whole curriculum vitae as text.
pub struct CVInputView {
    pub personal_info: PersonalInfoView,
    pub experience: Seq<ExperienceView>,
    pub education: Seq<EducationView>,
    pub skills: Seq<RatedView>,
    pub languages: Seq<RatedView>,
    pub references: Seq<ReferenceView>,
}

impl View for CVInput {
    type V = CVInputView;

    open spec fn view(&self) -> CVInputView {
        CVInputView {
            personal_info: self.personal_info@,
            experience: views(self.experience@),
            education: views(self.education@),
            skills: views(self.skills@),
            languages: views(self.languages@),
            references: views(self.references@),
        }
    }
}

} // verus!
