//! The per-file cascade, written as a state machine. The knowledge bases
//! (special filenames, extensions, interpreters, heuristics, classifier) live
//! outside: the resolver says which one to query next, the caller answers, and
//! the resolver either asks again or decides.
use vstd::prelude::*;
use crate::candidates::{filter_candidates, merged, names};

verus! {

/// The stage of the cascade that decided a file's language.
#[derive(Clone, Copy, Debug, PartialEq, Eq, Structural)]
pub enum Strategy {
    Filename,
    Extension,
    Shebang,
    Heuristics,
    Classifier,
}

/// The name under which a strategy is reported.
pub open spec fn strategy_name(s: Strategy) -> Seq<char> {
    match s {
        Strategy::Filename => "Filename"@,
        Strategy::Extension => "Extension"@,
        Strategy::Shebang => "Shebang"@,
        Strategy::Heuristics => "Heuristics"@,
        Strategy::Classifier => "Classifier"@,
    }
}

impl Strategy {
    /// The strategy's name, as reported to callers.
    pub fn name(&self) -> (r: &'static str)
        ensures
            r@ == strategy_name(*self),
    {
        match self {
            Strategy::Filename => "Filename",
            Strategy::Extension => "Extension",
            Strategy::Shebang => "Shebang",
            Strategy::Heuristics => "Heuristics",
            Strategy::Classifier => "Classifier",
        }
    }
}

/// A decided language and the strategy that decided it.
#[derive(Clone, Debug)]
pub struct Detection {
    pub language: String,
    pub strategy: Strategy,
}

/// A lookup that the resolver needs answered.
#[derive(Clone, Debug)]
pub enum Query {
    /// The language of the filename, if it is a known special filename
    /// (answered with `Answer::Name`).
    FilenameLanguage,
    /// The extension of the filename, if it has a known one (`Answer::Name`).
    Extension,
    /// The languages tied to this extension (`Answer::Languages`).
    ExtensionLanguages(String),
    /// The languages that the content's shebang line names
    /// (`Answer::Languages`, or `Answer::ReadFault`).
    ShebangLanguages,
    /// The languages among these candidates that the content rules of this
    /// extension allow, on the truncated content (`Answer::Languages`).
    HeuristicLanguages(String, Vec<String>),
    /// The classifier's best guess among these candidates (all languages when
    /// there are none), on the truncated content (`Answer::Name`).
    Classify(Vec<String>),
}

/// The answer to a `Query`.
#[derive(Clone, Debug)]
pub enum Answer {
    Name(Option<String>),
    Languages(Vec<String>),
    ReadFault,
}

/// What the resolver does after an answer.
#[derive(Clone, Debug)]
pub enum Step {
    Ask(Query),
    Detected(Detection),
    /// No stage could name a language.
    Undetected,
    /// The content could not be read, or an answer did not fit its query.
    Failed,
}

/// Which answer the resolver waits for.
#[derive(Clone, Copy, Debug, PartialEq, Eq, Structural)]
pub enum Stage {
    Filename,
    Extension,
    ExtensionLanguages,
    Shebang,
    Heuristics,
    Classifier,
    Finished,
}

/// The state of one file's resolution.
#[derive(Debug)]
pub struct Resolver {
    pub stage: Stage,
    pub extension: Option<String>,
    pub candidates: Vec<String>,
}

/// The mathematical value of a `Query`: names as character sequences.
pub enum QueryModel {
    FilenameLanguage,
    Extension,
    ExtensionLanguages(Seq<char>),
    ShebangLanguages,
    HeuristicLanguages(Seq<char>, Seq<Seq<char>>),
    Classify(Seq<Seq<char>>),
}

/// The mathematical value of an `Answer`.
pub enum AnswerModel {
    Name(Option<Seq<char>>),
    Languages(Seq<Seq<char>>),
    ReadFault,
}

/// The mathematical value of a `Step`: a detection is its language and strategy.
pub enum StepModel {
    Ask(QueryModel),
    Detected(Seq<char>, Strategy),
    Undetected,
    Failed,
}

/// The mathematical value of a `Resolver`.
pub struct ResolverModel {
    pub stage: Stage,
    pub extension: Option<Seq<char>>,
    pub candidates: Seq<Seq<char>>,
}

/// An optional name as an optional character sequence.
pub open spec fn opt_view(o: Option<String>) -> Option<Seq<char>> {
    match o {
        Some(s) => Some(s@),
        None => None,
    }
}

impl View for Query {
    type V = QueryModel;

    open spec fn view(&self) -> QueryModel {
        match self {
            Query::FilenameLanguage => QueryModel::FilenameLanguage,
            Query::Extension => QueryModel::Extension,
            Query::ExtensionLanguages(e) => QueryModel::ExtensionLanguages(e@),
            Query::ShebangLanguages => QueryModel::ShebangLanguages,
            Query::HeuristicLanguages(e, c) => QueryModel::HeuristicLanguages(e@, names(c@)),
            Query::Classify(c) => QueryModel::Classify(names(c@)),
        }
    }
}

impl View for Answer {
    type V = AnswerModel;

    open spec fn view(&self) -> AnswerModel {
        match self {
            Answer::Name(n) => AnswerModel::Name(opt_view(*n)),
            Answer::Languages(v) => AnswerModel::Languages(names(v@)),
            Answer::ReadFault => AnswerModel::ReadFault,
        }
    }
}

impl View for Step {
    type V = StepModel;

    open spec fn view(&self) -> StepModel {
        match self {
            Step::Ask(q) => StepModel::Ask(q@),
            Step::Detected(d) => StepModel::Detected(d.language@, d.strategy),
            Step::Undetected => StepModel::Undetected,
            Step::Failed => StepModel::Failed,
        }
    }
}

impl View for Resolver {
    type V = ResolverModel;

    open spec fn view(&self) -> ResolverModel {
        ResolverModel {
            stage: self.stage,
            extension: opt_view(self.extension),
            candidates: names(self.candidates@),
        }
    }
}

/// The state after the resolver has decided.
pub open spec fn finished() -> ResolverModel {
    ResolverModel { stage: Stage::Finished, extension: None, candidates: Seq::empty() }
}

/// The state waiting for `stage`'s answer, with these candidates.
pub open spec fn waiting(
    stage: Stage,
    extension: Option<Seq<char>>,
    candidates: Seq<Seq<char>>,
) -> ResolverModel {
    ResolverModel { stage, extension, candidates }
}

/// The state in which a resolution starts, and its first query. Without a
/// filename there is no extension either: the cascade starts at the shebang.
pub open spec fn start(has_filename: bool) -> (ResolverModel, QueryModel) {
    if has_filename {
        (waiting(Stage::Filename, None, Seq::empty()), QueryModel::FilenameLanguage)
    } else {
        (waiting(Stage::Shebang, None, Seq::empty()), QueryModel::ShebangLanguages)
    }
}

/// Where the cascade goes once a merged candidate set `c` is known after the
/// shebang stage: one candidate decides; several go to the heuristics of a known
/// extension; otherwise the classifier decides.
pub open spec fn after_shebang(extension: Option<Seq<char>>, c: Seq<Seq<char>>) -> (
    ResolverModel,
    StepModel,
) {
    if c.len() == 1 {
        (finished(), StepModel::Detected(c[0], Strategy::Shebang))
    } else if c.len() > 1 && extension is Some {
        (
            waiting(Stage::Heuristics, extension, c),
            StepModel::Ask(QueryModel::HeuristicLanguages(extension->Some_0, c)),
        )
    } else {
        (waiting(Stage::Classifier, extension, c), StepModel::Ask(QueryModel::Classify(c)))
    }
}

/// One move of the cascade: the resolver in state `r` receives answer `a`.
pub open spec fn transition(r: ResolverModel, a: AnswerModel) -> (ResolverModel, StepModel) {
    match (r.stage, a) {
        (Stage::Filename, AnswerModel::Name(Some(l))) => (
            finished(),
            StepModel::Detected(l, Strategy::Filename),
        ),
        (Stage::Filename, AnswerModel::Name(None)) => (
            waiting(Stage::Extension, None, Seq::empty()),
            StepModel::Ask(QueryModel::Extension),
        ),
        (Stage::Extension, AnswerModel::Name(Some(e))) => (
            waiting(Stage::ExtensionLanguages, Some(e), Seq::empty()),
            StepModel::Ask(QueryModel::ExtensionLanguages(e)),
        ),
        (Stage::Extension, AnswerModel::Name(None)) => (
            waiting(Stage::Shebang, None, Seq::empty()),
            StepModel::Ask(QueryModel::ShebangLanguages),
        ),
        (Stage::ExtensionLanguages, AnswerModel::Languages(v)) => if v.len() == 1 {
            (finished(), StepModel::Detected(v[0], Strategy::Extension))
        } else {
            (
                waiting(Stage::Shebang, r.extension, v),
                StepModel::Ask(QueryModel::ShebangLanguages),
            )
        },
        (Stage::Shebang, AnswerModel::Languages(v)) => after_shebang(
            r.extension,
            merged(r.candidates, v),
        ),
        (Stage::Heuristics, AnswerModel::Languages(v)) => {
            let c = merged(r.candidates, v);
            if c.len() == 1 {
                (finished(), StepModel::Detected(c[0], Strategy::Heuristics))
            } else {
                (waiting(Stage::Classifier, r.extension, c), StepModel::Ask(QueryModel::Classify(c)))
            }
        },
        (Stage::Classifier, AnswerModel::Name(Some(l))) => (
            finished(),
            StepModel::Detected(l, Strategy::Classifier),
        ),
        (Stage::Classifier, AnswerModel::Name(None)) => (finished(), StepModel::Undetected),
        _ => (finished(), StepModel::Failed),
    }
}

/// What the knowledge bases say about one file: each field is the answer that
/// one of them gives for this file's name and content.
pub struct Knowledge {
    pub filename_language: Option<Seq<char>>,
    pub extension: Option<Seq<char>>,
    pub extension_languages: spec_fn(Seq<char>) -> Seq<Seq<char>>,
    /// `None` when the first line of the content cannot be read.
    pub shebang: Option<Seq<Seq<char>>>,
    pub heuristics: spec_fn(Seq<char>, Seq<Seq<char>>) -> Seq<Seq<char>>,
    pub classify: spec_fn(Seq<Seq<char>>) -> Option<Seq<char>>,
}

/// The answer that the knowledge bases `k` give to query `q`.
pub open spec fn reply(k: Knowledge, q: QueryModel) -> AnswerModel {
    match q {
        QueryModel::FilenameLanguage => AnswerModel::Name(k.filename_language),
        QueryModel::Extension => AnswerModel::Name(k.extension),
        QueryModel::ExtensionLanguages(e) => AnswerModel::Languages((k.extension_languages)(e)),
        QueryModel::ShebangLanguages => match k.shebang {
            Some(v) => AnswerModel::Languages(v),
            None => AnswerModel::ReadFault,
        },
        QueryModel::HeuristicLanguages(e, c) => AnswerModel::Languages((k.heuristics)(e, c)),
        QueryModel::Classify(c) => AnswerModel::Name((k.classify)(c)),
    }
}

/// Runs the cascade from state `r` with query `q` pending, answering from `k`,
/// for at most `fuel` further queries: the queries made, and the final step.
pub open spec fn run(k: Knowledge, r: ResolverModel, q: QueryModel, fuel: nat) -> (
    Seq<QueryModel>,
    StepModel,
)
    decreases fuel,
{
    let (next, step) = transition(r, reply(k, q));
    match step {
        StepModel::Ask(q2) => if fuel == 0 {
            (seq![q], StepModel::Failed)
        } else {
            let (rest, last) = run(k, next, q2, (fuel - 1) as nat);
            (seq![q] + rest, last)
        },
        _ => (seq![q], step),
    }
}

/// The most queries one file can need.
pub open spec fn max_queries() -> nat {
    6
}

/// The whole cascade for one file: the queries made, in order, and the outcome.
pub open spec fn resolution(k: Knowledge, has_filename: bool) -> (Seq<QueryModel>, StepModel) {
    run(k, start(has_filename).0, start(has_filename).1, max_queries())
}

/// A special filename decides before anything else: the outcome is its language,
/// by the `Filename` strategy, whatever the shebang or the other knowledge bases
/// would say, and nothing else is queried.
pub proof fn lemma_filename_takes_precedence(k: Knowledge, l: Seq<char>)
    requires
        k.filename_language == Some(l),
    ensures
        resolution(k, true).1 == StepModel::Detected(l, Strategy::Filename),
        resolution(k, true).0 == seq![QueryModel::FilenameLanguage],
{
    reveal_with_fuel(run, 2);
}

/// An extension tied to exactly one language decides (unless a special filename
/// already did): neither the shebang, nor the heuristics, nor the classifier is
/// queried.
pub proof fn lemma_single_extension_language_short_circuits(k: Knowledge, e: Seq<char>)
    requires
        k.extension == Some(e),
        (k.extension_languages)(e).len() == 1,
    ensures
        k.filename_language is None ==> resolution(k, true).1 == StepModel::Detected(
            (k.extension_languages)(e)[0],
            Strategy::Extension,
        ),
        k.filename_language is None ==> resolution(k, true).0 == seq![
            QueryModel::FilenameLanguage,
            QueryModel::Extension,
            QueryModel::ExtensionLanguages(e),
        ],
        forall|i: int|
            0 <= i < resolution(k, true).0.len() ==> !(#[trigger] resolution(k, true).0[i] is ShebangLanguages
                || resolution(k, true).0[i] is HeuristicLanguages
                || resolution(k, true).0[i] is Classify),
{
    reveal_with_fuel(run, 4);
    let qs = resolution(k, true).0;
    if k.filename_language is None {
        assert(qs =~= seq![
            QueryModel::FilenameLanguage,
            QueryModel::Extension,
            QueryModel::ExtensionLanguages(e),
        ]);
    } else {
        assert(qs =~= seq![QueryModel::FilenameLanguage]);
    }
}

/// The cascade never runs out of queries: within `max_queries()` it detects a
/// language or finds none, unless the content's first line cannot be read.
pub proof fn lemma_resolution_completes(k: Knowledge, has_filename: bool)
    ensures
        resolution(k, has_filename).1 is Failed ==> k.shebang is None,
{
    reveal_with_fuel(run, 7);
}

/// Resolution is deterministic: the same state and the same answer, as values,
/// give the same next state and the same step.
pub proof fn lemma_answer_deterministic(
    r1: Resolver,
    a1: Answer,
    out1: (Resolver, Step),
    r2: Resolver,
    a2: Answer,
    out2: (Resolver, Step),
)
    requires
        r1@ == r2@,
        a1@ == a2@,
        (out1.0@, out1.1@) == transition(r1@, a1@),
        (out2.0@, out2.1@) == transition(r2@, a2@),
    ensures
        out1.0@ == out2.0@,
        out1.1@ == out2.1@,
{
}

/// For one file, the same knowledge gives the same queries and the same outcome.
pub proof fn lemma_resolution_deterministic(k1: Knowledge, k2: Knowledge, has_filename: bool)
    requires
        k1 == k2,
    ensures
        resolution(k1, has_filename) == resolution(k2, has_filename),
{
}

impl Resolver {
    fn finished() -> (r: Resolver)
        ensures
            r@ == finished(),
    {
        let r = Resolver { stage: Stage::Finished, extension: None, candidates: Vec::new() };
        assert(r@.candidates =~= Seq::empty());
        r
    }

    fn waiting(stage: Stage, extension: Option<String>, candidates: Vec<String>) -> (r: Resolver)
        ensures
            r@ == waiting(stage, opt_view(extension), names(candidates@)),
    {
        Resolver { stage, extension, candidates }
    }

    /// Starts resolving a file, with or without a filename; returns the state
    /// and the first query.
    pub fn new(has_filename: bool) -> (r: (Resolver, Query))
        ensures
            (r.0@, r.1@) == start(has_filename),
    {
        let empty: Vec<String> = Vec::new();
        assert(names(empty@) =~= Seq::empty());
        if has_filename {
            (Resolver::waiting(Stage::Filename, None, empty), Query::FilenameLanguage)
        } else {
            (Resolver::waiting(Stage::Shebang, None, empty), Query::ShebangLanguages)
        }
    }

    /// Takes the answer to the last query; returns the next state and what to
    /// do next.
    pub fn answer(self, a: Answer) -> (r: (Resolver, Step))
        ensures
            (r.0@, r.1@) == transition(self@, a@),
    {
        let Resolver { stage, extension, candidates } = self;
        let empty: Vec<String> = Vec::new();
        assert(names(empty@) =~= Seq::empty());
        match (stage, a) {
            (Stage::Filename, Answer::Name(Some(l))) => (
                Resolver::finished(),
                Step::Detected(Detection { language: l, strategy: Strategy::Filename }),
            ),
            (Stage::Filename, Answer::Name(None)) => (
                Resolver::waiting(Stage::Extension, None, empty),
                Step::Ask(Query::Extension),
            ),
            (Stage::Extension, Answer::Name(Some(e))) => {
                let asked = e.clone();
                (
                    Resolver::waiting(Stage::ExtensionLanguages, Some(e), empty),
                    Step::Ask(Query::ExtensionLanguages(asked)),
                )
            },
            (Stage::Extension, Answer::Name(None)) => (
                Resolver::waiting(Stage::Shebang, None, empty),
                Step::Ask(Query::ShebangLanguages),
            ),
            (Stage::ExtensionLanguages, Answer::Languages(v)) => {
                if v.len() == 1 {
                    let language = v[0].clone();
                    (
                        Resolver::finished(),
                        Step::Detected(Detection { language, strategy: Strategy::Extension }),
                    )
                } else {
                    (
                        Resolver::waiting(Stage::Shebang, extension, v),
                        Step::Ask(Query::ShebangLanguages),
                    )
                }
            },
            (Stage::Shebang, Answer::Languages(v)) => {
                let c = filter_candidates(candidates, v);
                if c.len() == 1 {
                    let language = c[0].clone();
                    (
                        Resolver::finished(),
                        Step::Detected(Detection { language, strategy: Strategy::Shebang }),
                    )
                } else if c.len() > 1 && extension.is_some() {
                    let e = extension.clone().unwrap();
                    let asked = c.clone();
                    (
                        Resolver::waiting(Stage::Heuristics, extension, c),
                        Step::Ask(Query::HeuristicLanguages(e, asked)),
                    )
                } else {
                    let asked = c.clone();
                    (Resolver::waiting(Stage::Classifier, extension, c), Step::Ask(Query::Classify(asked)))
                }
            },
            (Stage::Heuristics, Answer::Languages(v)) => {
                let c = filter_candidates(candidates, v);
                if c.len() == 1 {
                    let language = c[0].clone();
                    (
                        Resolver::finished(),
                        Step::Detected(Detection { language, strategy: Strategy::Heuristics }),
                    )
                } else {
                    let asked = c.clone();
                    (Resolver::waiting(Stage::Classifier, extension, c), Step::Ask(Query::Classify(asked)))
                }
            },
            (Stage::Classifier, Answer::Name(Some(l))) => (
                Resolver::finished(),
                Step::Detected(Detection { language: l, strategy: Strategy::Classifier }),
            ),
            (Stage::Classifier, Answer::Name(None)) => (Resolver::finished(), Step::Undetected),
            _ => (Resolver::finished(), Step::Failed),
        }
    }
}

} // verus!
