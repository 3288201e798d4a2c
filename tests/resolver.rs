use py_hyperpolyglot::resolver::{Answer, Detection, Query, Resolver, Step, Strategy};

/// Fixed answers of the knowledge bases for one file.
struct Stub {
    filename_language: Option<&'static str>,
    extension: Option<&'static str>,
    extension_languages: Vec<&'static str>,
    shebang: Option<Vec<&'static str>>,
    heuristics: Vec<&'static str>,
    classify: Option<&'static str>,
}

fn owned(v: &[&'static str]) -> Vec<String> {
    v.iter().map(|s| s.to_string()).collect()
}

fn reply(stub: &Stub, q: &Query) -> Answer {
    match q {
        Query::FilenameLanguage => Answer::Name(stub.filename_language.map(String::from)),
        Query::Extension => Answer::Name(stub.extension.map(String::from)),
        Query::ExtensionLanguages(_) => Answer::Languages(owned(&stub.extension_languages)),
        Query::ShebangLanguages => match &stub.shebang {
            Some(v) => Answer::Languages(owned(v)),
            None => Answer::ReadFault,
        },
        Query::HeuristicLanguages(_, _) => Answer::Languages(owned(&stub.heuristics)),
        Query::Classify(c) => Answer::Name(stub.classify.map(String::from).or(c.first().cloned())),
    }
}

fn resolve(stub: &Stub, has_filename: bool) -> (Vec<Query>, Step) {
    let (mut resolver, mut query) = Resolver::new(has_filename);
    let mut asked = Vec::new();
    loop {
        let answer = reply(stub, &query);
        asked.push(query);
        let (next, step) = resolver.answer(answer);
        match step {
            Step::Ask(q) => {
                resolver = next;
                query = q;
            }
            other => return (asked, other),
        }
    }
}

fn detected(step: &Step) -> Option<(&str, Strategy)> {
    match step {
        Step::Detected(Detection { language, strategy }) => Some((language.as_str(), *strategy)),
        _ => None,
    }
}

fn none() -> Stub {
    Stub {
        filename_language: None,
        extension: None,
        extension_languages: vec![],
        shebang: Some(vec![]),
        heuristics: vec![],
        classify: None,
    }
}

#[test]
fn makefile_is_decided_by_filename() {
    // "Makefile" with content "all:\n\techo hi"
    let stub = Stub { filename_language: Some("Makefile"), ..none() };
    let (asked, step) = resolve(&stub, true);
    assert_eq!(detected(&step), Some(("Makefile", Strategy::Filename)));
    assert_eq!(asked.len(), 1);
}

#[test]
fn filename_wins_over_disagreeing_shebang() {
    let stub = Stub {
        filename_language: Some("Makefile"),
        shebang: Some(vec!["Python"]),
        ..none()
    };
    let (asked, step) = resolve(&stub, true);
    assert_eq!(detected(&step), Some(("Makefile", Strategy::Filename)));
    assert!(!asked.iter().any(|q| matches!(q, Query::ShebangLanguages)));
}

#[test]
fn python_script_is_decided_by_extension() {
    // "script.py" with content "print(1)"
    let stub = Stub {
        extension: Some(".py"),
        extension_languages: vec!["Python"],
        shebang: Some(vec!["Shell"]),
        classify: Some("Ruby"),
        ..none()
    };
    let (asked, step) = resolve(&stub, true);
    assert_eq!(detected(&step), Some(("Python", Strategy::Extension)));
    assert_eq!(asked.len(), 3);
    assert!(matches!(&asked[2], Query::ExtensionLanguages(e) if e == ".py"));
    assert!(!asked.iter().any(|q| matches!(
        q,
        Query::ShebangLanguages | Query::HeuristicLanguages(_, _) | Query::Classify(_)
    )));
}

#[test]
fn bash_shebang_without_filename_is_shell() {
    // no filename, content "#!/usr/bin/env bash\necho hi"
    let stub = Stub { shebang: Some(vec!["Shell"]), ..none() };
    let (asked, step) = resolve(&stub, false);
    assert_eq!(detected(&step), Some(("Shell", Strategy::Shebang)));
    assert_eq!(asked.len(), 1);
    assert!(matches!(asked[0], Query::ShebangLanguages));
}

#[test]
fn ambiguous_header_falls_through_to_classifier() {
    // "file.h" with C-style code; C and C++ both fit and no heuristic decides
    let stub = Stub {
        extension: Some(".h"),
        extension_languages: vec!["C", "C++", "Objective-C"],
        shebang: Some(vec![]),
        heuristics: vec!["C", "C++"],
        classify: Some("C++"),
        ..none()
    };
    let (asked, step) = resolve(&stub, true);
    assert_eq!(detected(&step), Some(("C++", Strategy::Classifier)));
    match asked.last() {
        Some(Query::Classify(c)) => assert_eq!(c, &owned(&["C", "C++"])),
        _ => panic!("the classifier was not asked"),
    }
    match &asked[asked.len() - 2] {
        Query::HeuristicLanguages(e, c) => {
            assert_eq!(e, ".h");
            assert_eq!(c, &owned(&["C", "C++", "Objective-C"]));
        }
        _ => panic!("the heuristics were not asked"),
    }
}

#[test]
fn heuristics_decide_a_single_candidate() {
    let stub = Stub {
        extension: Some(".h"),
        extension_languages: vec!["C", "C++", "Objective-C"],
        heuristics: vec!["Objective-C"],
        classify: Some("C"),
        ..none()
    };
    let (_, step) = resolve(&stub, true);
    assert_eq!(detected(&step), Some(("Objective-C", Strategy::Heuristics)));
}

#[test]
fn shebang_narrows_extension_candidates() {
    let stub = Stub {
        extension: Some(".pl"),
        extension_languages: vec!["Perl", "Prolog", "Raku"],
        shebang: Some(vec!["Perl", "Shell"]),
        ..none()
    };
    let (_, step) = resolve(&stub, true);
    assert_eq!(detected(&step), Some(("Perl", Strategy::Shebang)));
}

#[test]
fn disagreeing_shebang_is_discarded() {
    let stub = Stub {
        extension: Some(".pl"),
        extension_languages: vec!["Perl", "Prolog"],
        shebang: Some(vec!["Python"]),
        heuristics: vec![],
        classify: Some("Prolog"),
        ..none()
    };
    let (asked, step) = resolve(&stub, true);
    assert_eq!(detected(&step), Some(("Prolog", Strategy::Classifier)));
    assert!(asked.iter().any(|q| matches!(q, Query::HeuristicLanguages(_, c) if c == &owned(&["Perl", "Prolog"]))));
}

#[test]
fn no_extension_skips_heuristics() {
    let stub = Stub { shebang: Some(vec!["Perl", "Raku"]), classify: Some("Raku"), ..none() };
    let (asked, step) = resolve(&stub, false);
    assert_eq!(detected(&step), Some(("Raku", Strategy::Classifier)));
    assert!(!asked.iter().any(|q| matches!(q, Query::HeuristicLanguages(_, _))));
}

#[test]
fn classifier_without_answer_is_undetected() {
    let stub = none();
    let (asked, step) = resolve(&stub, false);
    assert!(matches!(step, Step::Undetected));
    assert!(matches!(asked.last(), Some(Query::Classify(c)) if c.is_empty()));
}

#[test]
fn shebang_read_fault_fails() {
    let stub = Stub { extension: Some(".h"), extension_languages: vec!["C", "C++"], shebang: None, ..none() };
    let (_, step) = resolve(&stub, true);
    assert!(matches!(step, Step::Failed));
}

#[test]
fn mismatched_answer_fails() {
    let (resolver, _) = Resolver::new(true);
    let (_, step) = resolver.answer(Answer::Languages(vec![]));
    assert!(matches!(step, Step::Failed));
}

#[test]
fn same_input_same_outcome() {
    let stub = Stub {
        extension: Some(".h"),
        extension_languages: vec!["C", "C++"],
        heuristics: vec!["C", "C++"],
        classify: Some("C"),
        ..none()
    };
    let (q1, s1) = resolve(&stub, true);
    let (q2, s2) = resolve(&stub, true);
    assert_eq!(detected(&s1), detected(&s2));
    assert_eq!(format!("{:?}", q1), format!("{:?}", q2));
}

#[test]
fn strategy_names() {
    assert_eq!(Strategy::Filename.name(), "Filename");
    assert_eq!(Strategy::Extension.name(), "Extension");
    assert_eq!(Strategy::Shebang.name(), "Shebang");
    assert_eq!(Strategy::Heuristics.name(), "Heuristics");
    assert_eq!(Strategy::Classifier.name(), "Classifier");
}
