//! Batches of files: per index, the outcome of that file's resolution becomes a
//! language name and a strategy name, both absent where nothing was detected.
use vstd::prelude::*;
use crate::resolver::{strategy_name, Step, StepModel};

verus! {

/// The (language, strategy) names reported for a file whose resolution ended in
/// `step`; both absent unless a language was detected.
pub open spec fn report(step: StepModel) -> (Option<Seq<char>>, Option<Seq<char>>) {
    match step {
        StepModel::Detected(l, s) => (Some(l), Some(strategy_name(s))),
        _ => (None, None),
    }
}

/// The (language, strategy) names reported for one file.
pub fn report_step(step: &Step) -> (r: (Option<String>, Option<String>))
    ensures
        (crate::resolver::opt_view(r.0), crate::resolver::opt_view(r.1)) == report(step@),
{
    match step {
        Step::Detected(d) => {
            let language = d.language.clone();
            let strategy = d.strategy.name().to_owned();
            (Some(language), Some(strategy))
        },
        _ => (None, None),
    }
}

/// The report for index `i` of a batch: absent where the content is absent,
/// else the report of that file's resolution.
pub open spec fn batch_report(content_present: bool, step: StepModel) -> (
    Option<Seq<char>>,
    Option<Seq<char>>,
) {
    if content_present {
        report(step)
    } else {
        (None, None)
    }
}

/// Lays out the outcomes of a batch as two index-aligned columns of language
/// names and strategy names. `steps[i]` is the outcome of resolving file `i`; it
/// is not looked at where `contents[i]` is absent.
pub fn detect_languages(contents: &Vec<Option<String>>, steps: &Vec<Step>) -> (r: (
    Vec<Option<String>>,
    Vec<Option<String>>,
))
    requires
        contents@.len() == steps@.len(),
    ensures
        r.0@.len() == contents@.len(),
        r.1@.len() == contents@.len(),
        forall|i: int|
            0 <= i < contents@.len() ==> (
            crate::resolver::opt_view(#[trigger] r.0@[i]),
            crate::resolver::opt_view(r.1@[i]),
        ) == batch_report(contents@[i] is Some, steps@[i]@),
{
    let mut languages: Vec<Option<String>> = Vec::new();
    let mut strategies: Vec<Option<String>> = Vec::new();
    let mut i: usize = 0;
    while i < contents.len()
        invariant
            0 <= i <= contents@.len(),
            contents@.len() == steps@.len(),
            languages@.len() == i,
            strategies@.len() == i,
            forall|j: int|
                0 <= j < i ==> (
                crate::resolver::opt_view(#[trigger] languages@[j]),
                crate::resolver::opt_view(strategies@[j]),
            ) == batch_report(contents@[j] is Some, steps@[j]@),
        decreases contents@.len() - i,
    {
        if contents[i].is_some() {
            let (language, strategy) = report_step(&steps[i]);
            languages.push(language);
            strategies.push(strategy);
        } else {
            languages.push(None);
            strategies.push(None);
        }
        i = i + 1;
    }
    (languages, strategies)
}

/// A batch keeps its alignment: both columns have one entry per file, an absent
/// content gives two absent entries, and every other entry is what resolving
/// that file alone reports.
pub proof fn lemma_batch_alignment(
    contents: Vec<Option<String>>,
    steps: Vec<Step>,
    r: (Vec<Option<String>>, Vec<Option<String>>),
    i: int,
)
    requires
        contents@.len() == steps@.len(),
        r.0@.len() == contents@.len(),
        r.1@.len() == contents@.len(),
        forall|j: int|
            0 <= j < contents@.len() ==> (
            crate::resolver::opt_view(#[trigger] r.0@[j]),
            crate::resolver::opt_view(r.1@[j]),
        ) == batch_report(contents@[j] is Some, steps@[j]@),
        0 <= i < contents@.len(),
    ensures
        contents@[i] is None ==> r.0@[i] is None && r.1@[i] is None,
        contents@[i] is Some ==> crate::resolver::opt_view(r.0@[i]) == report(steps@[i]@).0
            && crate::resolver::opt_view(r.1@[i]) == report(steps@[i]@).1,
{
    assert(crate::resolver::opt_view(r.0@[i]) == batch_report(contents@[i] is Some, steps@[i]@).0);
}

} // verus!
