//! The prompt templates that steer the style of a summary, the ways of
//! summarising a log, and the choice of both by name.

use vstd::prelude::*;
use crate::text::views;

verus! {

/// A prompt template: a pair of instructions, one that sets the endpoint's
/// role and one that introduces the changes.
#[derive(Clone, Copy, Debug, PartialEq, Eq, Structural)]
pub enum PromptKind {
    /// A general overview.
    Summary,
    /// A code-focused analysis.
    Technical,
    /// A narrative of the project's progress.
    Blog,
}

impl PromptKind {
    /// The name by which the template is chosen, and under which its
    /// summaries stand in the report.
    pub open spec fn name_text(self) -> Seq<char> {
        match self {
            PromptKind::Summary => "summary"@,
            PromptKind::Technical => "technical"@,
            PromptKind::Blog => "blog"@,
        }
    }

    /// The instruction that sets the endpoint's role.
    pub open spec fn system_text(self) -> Seq<char> {
        match self {
            PromptKind::Summary => "You are an AI assistant specializing in summarizing git changes. Provide clear, concise summaries that capture the essence of the changes made. Focus on the most important modifications and their potential impact on the project."@,
            PromptKind::Technical => "You are an expert software developer with deep knowledge of various programming languages and software architecture. Analyze git changes from a technical perspective, focusing on code changes, potential optimizations, and adherence to best practices."@,
            PromptKind::Blog => "You are a tech blogger with a knack for explaining complex technical concepts in an engaging and accessible way. Your goal is to create interesting, informative content about software development and project progress based on git changes."@,
        }
    }

    /// The instruction that introduces the changes.
    pub open spec fn user_text(self) -> Seq<char> {
        match self {
            PromptKind::Summary => "Summarize the following git changes, highlighting the key modifications:"@,
            PromptKind::Technical => "Provide a technical summary of the following git changes, including code analysis and potential implications:"@,
            PromptKind::Blog => "Write a brief, engaging blog post summarizing the following git changes, focusing on the overall progress and interesting developments:"@,
        }
    }

    /// The name of the template.
    pub fn name(self) -> (text: &'static str)
        ensures
            text@ == self.name_text(),
    {
        match self {
            PromptKind::Summary => "summary",
            PromptKind::Technical => "technical",
            PromptKind::Blog => "blog",
        }
    }

    /// The instruction that sets the endpoint's role.
    pub fn system_instruction(self) -> (text: &'static str)
        ensures
            text@ == self.system_text(),
    {
        match self {
            PromptKind::Summary => "You are an AI assistant specializing in summarizing git changes. Provide clear, concise summaries that capture the essence of the changes made. Focus on the most important modifications and their potential impact on the project.",
            PromptKind::Technical => "You are an expert software developer with deep knowledge of various programming languages and software architecture. Analyze git changes from a technical perspective, focusing on code changes, potential optimizations, and adherence to best practices.",
            PromptKind::Blog => "You are a tech blogger with a knack for explaining complex technical concepts in an engaging and accessible way. Your goal is to create interesting, informative content about software development and project progress based on git changes.",
        }
    }

    /// The instruction that introduces the changes.
    pub fn user_instruction(self) -> (text: &'static str)
        ensures
            text@ == self.user_text(),
    {
        match self {
            PromptKind::Summary => "Summarize the following git changes, highlighting the key modifications:",
            PromptKind::Technical => "Provide a technical summary of the following git changes, including code analysis and potential implications:",
            PromptKind::Blog => "Write a brief, engaging blog post summarizing the following git changes, focusing on the overall progress and interesting developments:",
        }
    }

    /// The template that goes by `name`, if there is one.
    pub fn from_name(name: &str) -> (kind: Option<PromptKind>)
        ensures
            kind == kind_named(name@),
    {
        if same_text(name, "summary") {
            Some(PromptKind::Summary)
        } else if same_text(name, "technical") {
            Some(PromptKind::Technical)
        } else if same_text(name, "blog") {
            Some(PromptKind::Blog)
        } else {
            None
        }
    }
}

/// The template that goes by `name`, if there is one.
pub open spec fn kind_named(name: Seq<char>) -> Option<PromptKind> {
    if name == "summary"@ {
        Some(PromptKind::Summary)
    } else if name == "technical"@ {
        Some(PromptKind::Technical)
    } else if name == "blog"@ {
        Some(PromptKind::Blog)
    } else {
        None
    }
}

/// Tells whether two texts hold the same characters.
pub fn same_text(a: &str, b: &str) -> (same: bool)
    ensures
        same == (a@ == b@),
{
    String::from_str(a) == String::from_str(b)
}

/// The templates in the order in which they are declared.
pub open spec fn declared_kinds() -> Seq<PromptKind> {
    seq![PromptKind::Summary, PromptKind::Technical, PromptKind::Blog]
}

/// The template `kind` alone if `names` holds its name, and nothing if not.
pub open spec fn chosen(names: Seq<Seq<char>>, kind: PromptKind) -> Seq<PromptKind> {
    if names.contains(kind.name_text()) {
        seq![kind]
    } else {
        Seq::empty()
    }
}

/// The templates whose names are among `names`, in the order in which the
/// templates are declared.
pub open spec fn selected_kinds(names: Seq<Seq<char>>) -> Seq<PromptKind> {
    chosen(names, PromptKind::Summary) + chosen(names, PromptKind::Technical) + chosen(
        names,
        PromptKind::Blog,
    )
}

/// Tells whether `names` holds `name`.
pub fn names_contain(names: &Vec<String>, name: &str) -> (found: bool)
    ensures
        found == views(names@).contains(name@),
{
    let mut i: usize = 0;
    while i < names.len()
        invariant
            i <= names.len(),
            forall|j: int| 0 <= j < i ==> #[trigger] views(names@)[j] != name@,
        decreases names.len() - i,
    {
        if same_text(names[i].as_str(), name) {
            assert(views(names@)[i as int] == name@);
            return true;
        }
        i += 1;
    }
    false
}

/// Selects the templates that `names` asks for. The order of `names` and
/// names that no template goes by play no part: the templates come in the
/// order in which they are declared, each at most once.
pub fn select_templates(names: &Vec<String>) -> (kinds: Vec<PromptKind>)
    ensures
        kinds@ == selected_kinds(views(names@)),
{
    let mut kinds: Vec<PromptKind> = Vec::new();
    if names_contain(names, PromptKind::Summary.name()) {
        kinds.push(PromptKind::Summary);
    }
    if names_contain(names, PromptKind::Technical.name()) {
        kinds.push(PromptKind::Technical);
    }
    if names_contain(names, PromptKind::Blog.name()) {
        kinds.push(PromptKind::Blog);
    }
    assert(kinds@ =~= selected_kinds(views(names@)));
    kinds
}

/// The names to select by: those that were given, or that of the general
/// overview where none was given.
pub fn requested_names(given: Option<Vec<String>>) -> (names: Vec<String>)
    ensures
        match given {
            Some(list) => names == list,
            None => views(names@) == seq!["summary"@],
        },
{
    match given {
        Some(list) => list,
        None => {
            let mut names: Vec<String> = Vec::new();
            names.push(String::from_str("summary"));
            assert(views(names@) =~= seq!["summary"@]);
            names
        },
    }
}

/// A template is selected exactly if its name was asked for, and the
/// selection keeps the order of declaration: it holds no template twice, and
/// of two templates in it the one declared first comes first.
pub proof fn lemma_selection_follows_names(names: Seq<Seq<char>>)
    ensures
        forall|kind: PromptKind|
            selected_kinds(names).contains(kind) <==> names.contains(kind.name_text()),
        forall|i: int, j: int|
            0 <= i < j < selected_kinds(names).len() ==> declared_kinds().index_of(
                selected_kinds(names)[i],
            ) < declared_kinds().index_of(selected_kinds(names)[j]),
        selected_kinds(names).len() <= 3,
{
    let s = selected_kinds(names);
    let a = chosen(names, PromptKind::Summary);
    let b = chosen(names, PromptKind::Technical);
    let c = chosen(names, PromptKind::Blog);
    assert forall|kind: PromptKind| names.contains(kind.name_text()) implies s.contains(kind) by {
        match kind {
            PromptKind::Summary => {
                assert(s[0] == kind);
            },
            PromptKind::Technical => {
                assert(s[a.len() as int] == kind);
            },
            PromptKind::Blog => {
                assert(s[(a.len() + b.len()) as int] == kind);
            },
        }
    }
    let d = declared_kinds();
    assert(d[0] == PromptKind::Summary && d[1] == PromptKind::Technical && d[2]
        == PromptKind::Blog);
    lemma_declared_positions();
}

/// Where each template stands in the order of declaration.
pub proof fn lemma_declared_positions()
    ensures
        declared_kinds().index_of(PromptKind::Summary) == 0,
        declared_kinds().index_of(PromptKind::Technical) == 1,
        declared_kinds().index_of(PromptKind::Blog) == 2,
{
    let d = declared_kinds();
    assert(d[0] == PromptKind::Summary && d[1] == PromptKind::Technical && d[2]
        == PromptKind::Blog);
    assert(d.contains(PromptKind::Summary));
    assert(d.contains(PromptKind::Technical));
    assert(d.contains(PromptKind::Blog));
}

/// The way of summarising the commits of a log.
#[derive(Clone, Copy, Debug, PartialEq, Eq, Structural)]
pub enum SummaryMode {
    /// One summary for each template, over all commits together.
    All,
    /// One summary for each template and commit.
    Individual,
    /// First the summaries over all commits, then those of each commit.
    Both,
}

impl SummaryMode {
    /// The name by which the way is chosen.
    pub open spec fn name_text(self) -> Seq<char> {
        match self {
            SummaryMode::All => "all"@,
            SummaryMode::Individual => "individual"@,
            SummaryMode::Both => "both"@,
        }
    }

    /// Whether the commits are summarised together.
    pub open spec fn batch(self) -> bool {
        self != SummaryMode::Individual
    }

    /// Whether each commit is summarised by itself.
    pub open spec fn individual(self) -> bool {
        self != SummaryMode::All
    }

    /// The name of the way.
    pub fn name(self) -> (text: &'static str)
        ensures
            text@ == self.name_text(),
    {
        match self {
            SummaryMode::All => "all",
            SummaryMode::Individual => "individual",
            SummaryMode::Both => "both",
        }
    }

    /// The way that goes by `name`, if there is one.
    pub fn from_name(name: &str) -> (mode: Option<SummaryMode>)
        ensures
            mode == mode_named(name@),
    {
        if same_text(name, "all") {
            Some(SummaryMode::All)
        } else if same_text(name, "individual") {
            Some(SummaryMode::Individual)
        } else if same_text(name, "both") {
            Some(SummaryMode::Both)
        } else {
            None
        }
    }

    /// Tells whether the commits are summarised together.
    pub fn includes_batch(self) -> (b: bool)
        ensures
            b == self.batch(),
    {
        match self {
            SummaryMode::Individual => false,
            _ => true,
        }
    }

    /// Tells whether each commit is summarised by itself.
    pub fn includes_individual(self) -> (b: bool)
        ensures
            b == self.individual(),
    {
        match self {
            SummaryMode::All => false,
            _ => true,
        }
    }
}

/// The way that goes by `name`, if there is one.
pub open spec fn mode_named(name: Seq<char>) -> Option<SummaryMode> {
    if name == "all"@ {
        Some(SummaryMode::All)
    } else if name == "individual"@ {
        Some(SummaryMode::Individual)
    } else if name == "both"@ {
        Some(SummaryMode::Both)
    } else {
        None
    }
}

} // verus!
