use cv_latex::record::{Education, Experience, Language, Reference, Skill};
use cv_latex::section::{
    compose_education, compose_experience, compose_items, compose_languages, compose_references,
    compose_skills, format_education, format_experience, format_item, format_language,
    format_reference, format_skill,
};

fn position(title: &str, end: Option<&str>, duties: &[&str]) -> Experience {
    Experience {
        job_title: title.to_string(),
        company: "Analytical Engines".to_string(),
        location: "London".to_string(),
        start_date: "1842".to_string(),
        end_date: end.map(|e| e.to_string()),
        responsibilities: duties.iter().map(|d| d.to_string()).collect(),
    }
}

fn study(degree: &str) -> Education {
    Education {
        degree: degree.to_string(),
        institution: "University of London".to_string(),
        location: "London".to_string(),
        start_date: "1835".to_string(),
        end_date: "1838".to_string(),
        honors: None,
    }
}

fn referee(name: &str, phone: Option<&str>) -> Reference {
    Reference {
        name: name.to_string(),
        relation: "Mentor".to_string(),
        email: "cb@example.org".to_string(),
        phone: phone.map(|p| p.to_string()),
    }
}

#[test]
fn bullet_is_the_item_command_and_the_text() {
    assert_eq!(format_item("Wrote programs"), "\\item Wrote programs");
    assert_eq!(format_item(""), "\\item ");
}

#[test]
fn bullet_text_is_escaped() {
    assert_eq!(format_item("Cut costs by 30%"), "\\item Cut costs by 30\\%");
}

#[test]
fn bullets_stand_one_per_line() {
    let items = vec!["first".to_string(), "second".to_string(), "third".to_string()];
    assert_eq!(compose_items(&items), "\\item first\n\\item second\n\\item third");
}

#[test]
fn no_texts_give_no_bullets() {
    assert_eq!(compose_items(&Vec::new()), "");
}

#[test]
fn position_with_an_end_date() {
    let e = position("Engineer", Some("1843"), &["Wrote programs", "Translated notes"]);
    assert_eq!(
        format_experience(&e),
        "\\textbf{Engineer} at \\textit{Analytical Engines}, London \\\n        \
         1842 - 1843 \\\n        \
         \\begin{itemize}\n        \
         \\item Wrote programs\n\\item Translated notes\n        \
         \\end{itemize}"
    );
}

#[test]
fn position_without_an_end_date_runs_to_present() {
    let e = position("Engineer", None, &["Wrote programs"]);
    let out = format_experience(&e);
    assert!(out.contains("\n        1842 - Present \\\n"));
    assert_eq!(
        out,
        "\\textbf{Engineer} at \\textit{Analytical Engines}, London \\\n        \
         1842 - Present \\\n        \
         \\begin{itemize}\n        \\item Wrote programs\n        \\end{itemize}"
    );
}

#[test]
fn position_with_an_empty_end_date_shows_no_word() {
    let e = position("Engineer", Some(""), &[]);
    let out = format_experience(&e);
    assert!(out.contains("1842 -  \\\n"));
    assert!(!out.contains("Present"));
}

#[test]
fn position_without_responsibilities_has_an_empty_list() {
    let e = position("Engineer", Some("1843"), &[]);
    assert_eq!(
        format_experience(&e),
        "\\textbf{Engineer} at \\textit{Analytical Engines}, London \\\n        \
         1842 - 1843 \\\n        \
         \\begin{itemize}\n        \n        \\end{itemize}"
    );
}

#[test]
fn responsibilities_keep_their_order() {
    let e = position("Engineer", None, &["zeta", "alpha", "midway"]);
    let out = format_experience(&e);
    let zeta = out.find("\\item zeta").unwrap();
    let alpha = out.find("\\item alpha").unwrap();
    let midway = out.find("\\item midway").unwrap();
    assert!(zeta < alpha);
    assert!(alpha < midway);
}

#[test]
fn repeated_responsibilities_are_all_kept() {
    let e = position("Engineer", None, &["same", "same", "other", "same"]);
    let out = format_experience(&e);
    assert_eq!(out.matches("\\item same").count(), 3);
    assert!(out.contains("\\item same\n\\item same\n\\item other\n\\item same"));
}

#[test]
fn every_field_of_a_position_is_escaped() {
    let e = Experience {
        job_title: "R&D Lead".to_string(),
        company: "Smith_Jones".to_string(),
        location: "Room #4".to_string(),
        start_date: "Q1$".to_string(),
        end_date: Some("100%".to_string()),
        responsibilities: vec!["Used {braces}".to_string()],
    };
    assert_eq!(
        format_experience(&e),
        "\\textbf{R\\&D Lead} at \\textit{Smith\\_Jones}, Room \\#4 \\\n        \
         Q1\\$ - 100\\% \\\n        \
         \\begin{itemize}\n        \\item Used \\{braces\\}\n        \\end{itemize}"
    );
}

#[test]
fn positions_are_separated_by_a_blank_line() {
    let entries = vec![position("First", Some("1843"), &[]), position("Second", None, &[])];
    let out = compose_experience(&entries);
    let expected = format!(
        "{}\n\n{}",
        format_experience(&entries[0]),
        format_experience(&entries[1])
    );
    assert_eq!(out, expected);
}

#[test]
fn positions_keep_their_order() {
    let entries = vec![
        position("Zookeeper", None, &[]),
        position("Architect", None, &[]),
        position("Miner", None, &[]),
    ];
    let out = compose_experience(&entries);
    let first = out.find("\\textbf{Zookeeper}").unwrap();
    let second = out.find("\\textbf{Architect}").unwrap();
    let third = out.find("\\textbf{Miner}").unwrap();
    assert!(first < second);
    assert!(second < third);
}

#[test]
fn one_position_has_no_separator() {
    let entries = vec![position("Only", None, &[])];
    assert_eq!(compose_experience(&entries), format_experience(&entries[0]));
}

#[test]
fn no_positions_give_an_empty_body() {
    assert_eq!(compose_experience(&Vec::new()), "");
}

#[test]
fn course_of_study_has_two_lines() {
    assert_eq!(
        format_education(&study("BSc Mathematics")),
        "\\textbf{BSc Mathematics} from \\textit{University of London}, London \\\n        \
         1835 - 1838"
    );
}

#[test]
fn honors_are_not_typeset() {
    let mut with = study("BSc Mathematics");
    with.honors = Some("First class".to_string());
    let without = study("BSc Mathematics");
    assert_eq!(format_education(&with), format_education(&without));
    assert!(!format_education(&with).contains("First class"));
}

#[test]
fn every_field_of_a_course_of_study_is_escaped() {
    let e = Education {
        degree: "B&A".to_string(),
        institution: "U_L".to_string(),
        location: "#1".to_string(),
        start_date: "~1835".to_string(),
        end_date: "^1838".to_string(),
        honors: None,
    };
    assert_eq!(
        format_education(&e),
        "\\textbf{B\\&A} from \\textit{U\\_L}, \\#1 \\\n        \
         \\textasciitilde{}1835 - \\textasciicircum{}1838"
    );
}

#[test]
fn courses_of_study_are_separated_by_a_blank_line() {
    let entries = vec![study("BSc"), study("MSc")];
    assert_eq!(
        compose_education(&entries),
        "\\textbf{BSc} from \\textit{University of London}, London \\\n        1835 - 1838\n\n\
         \\textbf{MSc} from \\textit{University of London}, London \\\n        1835 - 1838"
    );
    assert_eq!(compose_education(&Vec::new()), "");
}

#[test]
fn skill_with_and_without_a_level() {
    let rated = Skill { name: "Rust".to_string(), proficiency: Some("Expert".to_string()) };
    let unrated = Skill { name: "Rust".to_string(), proficiency: None };
    assert_eq!(format_skill(&rated), "\\item Rust (Expert)");
    assert_eq!(format_skill(&unrated), "\\item Rust (N/A)");
}

#[test]
fn skill_is_escaped() {
    let s = Skill { name: "C#".to_string(), proficiency: Some("90%".to_string()) };
    assert_eq!(format_skill(&s), "\\item C\\# (90\\%)");
}

#[test]
fn language_with_and_without_a_level() {
    let rated = Language { name: "French".to_string(), proficiency: Some("Fluent".to_string()) };
    let unrated = Language { name: "French".to_string(), proficiency: None };
    assert_eq!(format_language(&rated), "\\item French (Fluent)");
    assert_eq!(format_language(&unrated), "\\item French (N/A)");
}

#[test]
fn skills_and_languages_stand_one_per_line() {
    let skills = vec![
        Skill { name: "Rust".to_string(), proficiency: None },
        Skill { name: "Algebra".to_string(), proficiency: Some("Good".to_string()) },
    ];
    assert_eq!(compose_skills(&skills), "\\item Rust (N/A)\n\\item Algebra (Good)");
    let languages = vec![
        Language { name: "French".to_string(), proficiency: Some("Fluent".to_string()) },
        Language { name: "Italian".to_string(), proficiency: None },
    ];
    assert_eq!(compose_languages(&languages), "\\item French (Fluent)\n\\item Italian (N/A)");
    assert_eq!(compose_skills(&Vec::new()), "");
    assert_eq!(compose_languages(&Vec::new()), "");
}

#[test]
fn referee_with_a_phone_number() {
    assert_eq!(
        format_reference(&referee("Charles Babbage", Some("+44 20 7946 0000"))),
        "\\textbf{Charles Babbage} \\\n        \
         Relation: Mentor \\\n        \
         Email: cb@example.org \\\n        \
         Phone: +44 20 7946 0000"
    );
}

#[test]
fn referee_without_a_phone_number_shows_na() {
    let out = format_reference(&referee("Charles Babbage", None));
    assert!(out.ends_with("\n        Phone: N/A"));
}

#[test]
fn referee_is_escaped() {
    let r = Reference {
        name: "A & B".to_string(),
        relation: "Co_worker".to_string(),
        email: "a_b@example.org".to_string(),
        phone: Some("#123".to_string()),
    };
    assert_eq!(
        format_reference(&r),
        "\\textbf{A \\& B} \\\n        \
         Relation: Co\\_worker \\\n        \
         Email: a\\_b@example.org \\\n        \
         Phone: \\#123"
    );
}

#[test]
fn referees_are_separated_by_a_blank_line() {
    let entries = vec![referee("One", None), referee("Two", None)];
    let expected =
        format!("{}\n\n{}", format_reference(&entries[0]), format_reference(&entries[1]));
    assert_eq!(compose_references(&entries), expected);
    assert_eq!(compose_references(&Vec::new()), "");
}
