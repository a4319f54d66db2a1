//! The course of a run as a state machine over sequences and natural
//! numbers: its states, what each answer does to a state, what holds of
//! every state, and what follows for the report.

use vstd::prelude::*;
use crate::client::{completion_request, CompletionRequestView};
use crate::commits::mentioned_ids;
use crate::process::{git_command_line, show_command, InvocationView};
use crate::prompts::{lemma_selection_follows_names, selected_kinds, PromptKind, SummaryMode};
use crate::report::{lemma_sections_push, sections, BlockView, SectionView, SubjectView};
use crate::text::{is_blank, joined};

verus! {

/// The most tokens of a summary of all commits, or of a diff.
pub const BATCH_MAX_TOKENS: u32 = 500;

/// The most tokens of a summary of a single commit.
pub const COMMIT_MAX_TOKENS: u32 = 200;

/// How a run ended.
#[derive(Clone, Copy, Debug, PartialEq, Eq, Structural)]
pub enum Outcome {
    /// None of the names asked for is the name of a template.
    NothingSelected,
    /// The command that was to give the log or the diff failed.
    FetchFailed,
    /// The log or the diff is blank.
    NoChanges,
    /// The report is written.
    Completed,
}

/// Where a run stands: what it waits for.
#[derive(Clone, Copy, Debug, PartialEq, Eq, Structural)]
pub enum Phase {
    /// The log or the diff.
    Fetching,
    /// The summary of the diff under the template at `template`.
    DiffSummaries { template: usize },
    /// The details of the commit at `commit`, for the summaries of all commits.
    BatchDetails { commit: usize },
    /// The summary of all commits under the template at `template`.
    BatchSummaries { template: usize },
    /// The details of the commit at `commit`, for its own summaries.
    IndividualDetails { commit: usize },
    /// The summary of the commit at `commit` under the template at `template`.
    IndividualSummaries { commit: usize, template: usize },
    /// Nothing: the run is over.
    Done(Outcome),
}

/// Where a run stands, with positions as natural numbers.
pub enum Stage {
    Fetching,
    DiffSummaries { template: nat },
    BatchDetails { commit: nat },
    BatchSummaries { template: nat },
    IndividualDetails { commit: nat },
    IndividualSummaries { commit: nat, template: nat },
    Done(Outcome),
}

impl View for Phase {
    type V = Stage;

    open spec fn view(&self) -> Stage {
        match *self {
            Phase::Fetching => Stage::Fetching,
            Phase::DiffSummaries { template } => Stage::DiffSummaries { template: template as nat },
            Phase::BatchDetails { commit } => Stage::BatchDetails { commit: commit as nat },
            Phase::BatchSummaries { template } => Stage::BatchSummaries {
                template: template as nat,
            },
            Phase::IndividualDetails { commit } => Stage::IndividualDetails {
                commit: commit as nat,
            },
            Phase::IndividualSummaries { commit, template } => Stage::IndividualSummaries {
                commit: commit as nat,
                template: template as nat,
            },
            Phase::Done(outcome) => Stage::Done(outcome),
        }
    }
}

/// What an `Action` holds, as sequences of characters.
pub enum ActionView {
    Invoke(InvocationView),
    Summarize(CompletionRequestView),
    Finish(Outcome),
}

/// The state of a run.
pub struct Machine {
    /// The path of the repository.
    pub repo: Seq<char>,
    /// The command that gives the log or the diff.
    pub command: Seq<Seq<char>>,
    /// The way of summarising a log.
    pub mode: SummaryMode,
    /// The templates that were selected, in the order of their declaration.
    pub kinds: Seq<PromptKind>,
    /// What the run waits for.
    pub phase: Stage,
    /// The commits that the log mentions.
    pub commits: Seq<Seq<char>>,
    /// The details gathered so far for the summaries of all commits.
    pub details: Seq<Seq<char>>,
    /// The text that is being summarised.
    pub content: Seq<char>,
    /// The report as far as it is written.
    pub report: Seq<BlockView>,
    /// What the user has been told beside the report.
    pub notices: Seq<Seq<char>>,
    /// Whether every summary asked for so far stands in the report.
    pub complete: bool,
}

/// What came back from the caller: the text of a command's output or of a
/// summary, or the message of the error that stood in its way.
pub type Answer = Result<Seq<char>, Seq<char>>;

/// What the user is told when no template was selected.
pub open spec fn nothing_selected_notice() -> Seq<char> {
    "No valid prompt types selected. Using summary prompt."@
}

/// What the user is told when the log or the diff is blank.
pub open spec fn no_changes_notice() -> Seq<char> {
    "No changes found in the specified range."@
}

/// What the user is told when the details of a commit could not be had.
pub open spec fn details_failed_notice(id: Seq<char>, cause: Seq<char>) -> Seq<char> {
    "Error running git show for "@ + id + ": "@ + cause
}

/// What the user is told when a summary could not be had.
pub open spec fn summary_failed_notice(
    subject: SubjectView,
    kind: PromptKind,
    cause: Seq<char>,
) -> Seq<char> {
    match subject {
        SubjectView::AllCommits => "Error summarizing all changes for "@ + kind.name_text() + ": "@
            + cause,
        SubjectView::Diff => "Error summarizing diff for "@ + kind.name_text() + ": "@ + cause,
        SubjectView::Commit { number, id } => "Error summarizing changes for "@ + id + " ("@
            + kind.name_text() + "): "@ + cause,
    }
}

/// A command asks for the diff where its first word is `diff`; every other
/// command is taken to give a log.
pub open spec fn is_diff(command: Seq<Seq<char>>) -> bool {
    command.len() > 0 && command[0] == "diff"@
}

/// The state in which a run starts. Where no template was selected the run
/// is over before it has begun, and the user is told so.
pub open spec fn initial(
    repo: Seq<char>,
    command: Seq<Seq<char>>,
    mode: SummaryMode,
    names: Seq<Seq<char>>,
) -> Machine {
    let kinds = selected_kinds(names);
    Machine {
        repo,
        command,
        mode,
        kinds,
        phase: if kinds.len() == 0 {
            Stage::Done(Outcome::NothingSelected)
        } else {
            Stage::Fetching
        },
        commits: Seq::empty(),
        details: Seq::empty(),
        content: Seq::empty(),
        report: Seq::empty(),
        notices: if kinds.len() == 0 {
            seq![nothing_selected_notice()]
        } else {
            Seq::empty()
        },
        complete: true,
    }
}

impl Machine {
    /// The request for a summary of the text at hand under the template at
    /// `template`.
    pub open spec fn request(self, template: int, max_tokens: u32) -> CompletionRequestView {
        completion_request(
            self.kinds[template].system_text(),
            self.kinds[template].user_text(),
            self.content,
            max_tokens,
        )
    }

    /// `request` asks for a summary of the text at hand under the template
    /// at `template`.
    pub open spec fn asks_under(self, request: CompletionRequestView, template: int) -> bool {
        request == self.request(template, BATCH_MAX_TOKENS) || request == self.request(
            template,
            COMMIT_MAX_TOKENS,
        )
    }

    /// The command that shows the commit at `commit`.
    pub open spec fn show(self, commit: int) -> InvocationView {
        git_command_line(self.repo, show_command(self.commits[commit]))
    }

    /// What the caller is to do in this state.
    pub open spec fn pending(self) -> ActionView {
        match self.phase {
            Stage::Fetching => ActionView::Invoke(git_command_line(self.repo, self.command)),
            Stage::DiffSummaries { template } => ActionView::Summarize(
                self.request(template as int, BATCH_MAX_TOKENS),
            ),
            Stage::BatchDetails { commit } => ActionView::Invoke(self.show(commit as int)),
            Stage::BatchSummaries { template } => ActionView::Summarize(
                self.request(template as int, BATCH_MAX_TOKENS),
            ),
            Stage::IndividualDetails { commit } => ActionView::Invoke(self.show(commit as int)),
            Stage::IndividualSummaries { commit, template } => ActionView::Summarize(
                self.request(template as int, COMMIT_MAX_TOKENS),
            ),
            Stage::Done(outcome) => ActionView::Finish(outcome),
        }
    }

    /// This state with `block` at the end of the report.
    pub open spec fn with_block(self, block: BlockView) -> Machine {
        Machine { report: self.report.push(block), ..self }
    }

    /// This state with one more notice to the user.
    pub open spec fn with_notice(self, notice: Seq<char>) -> Machine {
        Machine { notices: self.notices.push(notice), ..self }
    }

    /// This state in another phase.
    pub open spec fn in_phase(self, phase: Stage) -> Machine {
        Machine { phase, ..self }
    }

    /// The state after a summary that could not be had: the user is told, and
    /// the report is no longer complete.
    pub open spec fn with_gap(self, notice: Seq<char>) -> Machine {
        Machine { notices: self.notices.push(notice), complete: false, ..self }
    }

    /// The subject that the commit at `commit` is.
    pub open spec fn commit_subject(self, commit: int) -> SubjectView {
        SubjectView::Commit { number: (commit + 1) as nat, id: self.commits[commit] }
    }

    /// The state after the answer to the request for a summary of `subject`
    /// under the template at `template`: the summary stands in the report,
    /// or the user is told why it does not.
    pub open spec fn with_summary(self, template: int, subject: SubjectView, answer: Answer) -> Machine {
        match answer {
            Ok(text) => self.with_block(
                BlockView::Summary(SectionView { kind: self.kinds[template], subject, text }),
            ),
            Err(cause) => self.with_gap(summary_failed_notice(subject, self.kinds[template], cause)),
        }
    }

    /// The summaries of all commits begin: the details gathered are joined
    /// into one text, and the heading is written.
    pub open spec fn begin_batch_summaries(self) -> Machine {
        Machine {
            content: joined(self.details, "\n\n"@),
            phase: Stage::BatchSummaries { template: 0 },
            report: self.report.push(BlockView::BatchHeading),
            ..self
        }
    }

    /// The summaries of the single commits begin: the heading is written, and
    /// the first commit is asked for, if there is one.
    pub open spec fn begin_individual(self) -> Machine {
        let headed = self.with_block(BlockView::IndividualHeading);
        if self.commits.len() == 0 {
            headed.in_phase(Stage::Done(Outcome::Completed))
        } else {
            headed.in_phase(Stage::IndividualDetails { commit: 0 })
        }
    }

    /// The state after the commit at `commit` is dealt with: the next commit
    /// is asked for, or the run is over.
    pub open spec fn after_commit(self, commit: int) -> Machine {
        if commit + 1 < self.commits.len() {
            self.in_phase(Stage::IndividualDetails { commit: (commit + 1) as nat })
        } else {
            self.in_phase(Stage::Done(Outcome::Completed))
        }
    }

    /// The state after the log or the diff has arrived.
    pub open spec fn after_fetch(self, answer: Answer) -> Machine {
        match answer {
            Err(cause) => self.with_notice(cause).in_phase(Stage::Done(Outcome::FetchFailed)),
            Ok(changes) => if is_blank(changes) {
                self.with_notice(no_changes_notice()).in_phase(Stage::Done(Outcome::NoChanges))
            } else if is_diff(self.command) {
                Machine {
                    content: changes,
                    phase: Stage::DiffSummaries { template: 0 },
                    report: self.report.push(BlockView::Title).push(BlockView::DiffHeading),
                    ..self
                }
            } else {
                let commits = mentioned_ids(changes);
                let counted = Machine {
                    commits,
                    report: self.report.push(BlockView::Title).push(
                        BlockView::CommitCount(commits.len()),
                    ),
                    ..self
                };
                if !self.mode.batch() {
                    counted.begin_individual()
                } else if commits.len() == 0 {
                    counted.begin_batch_summaries()
                } else {
                    counted.in_phase(Stage::BatchDetails { commit: 0 })
                }
            },
        }
    }

    /// The state after the answer to a command. A run that waits for no
    /// command stays as it is.
    pub open spec fn after_invocation(self, answer: Answer) -> Machine {
        match self.phase {
            Stage::Fetching => self.after_fetch(answer),
            Stage::BatchDetails { commit } => {
                let gathered = match answer {
                    Ok(details) => Machine { details: self.details.push(details), ..self },
                    Err(_) => self,
                };
                if commit + 1 < self.commits.len() {
                    gathered.in_phase(Stage::BatchDetails { commit: (commit + 1) as nat })
                } else {
                    gathered.begin_batch_summaries()
                }
            },
            Stage::IndividualDetails { commit } => match answer {
                Ok(details) => Machine {
                    content: details,
                    phase: Stage::IndividualSummaries { commit, template: 0 },
                    ..self
                },
                Err(cause) => self.with_gap(
                    details_failed_notice(self.commits[commit as int], cause),
                ).after_commit(commit as int),
            },
            _ => self,
        }
    }

    /// The state after the answer to a request for a summary. A run that
    /// waits for no summary stays as it is.
    pub open spec fn after_summary(self, answer: Answer) -> Machine {
        match self.phase {
            Stage::DiffSummaries { template } => {
                let written = self.with_summary(template as int, SubjectView::Diff, answer);
                if template + 1 < self.kinds.len() {
                    written.in_phase(Stage::DiffSummaries { template: (template + 1) as nat })
                } else {
                    written.with_block(BlockView::Rule).in_phase(Stage::Done(Outcome::Completed))
                }
            },
            Stage::BatchSummaries { template } => {
                let written = self.with_summary(template as int, SubjectView::AllCommits, answer);
                if template + 1 < self.kinds.len() {
                    written.in_phase(Stage::BatchSummaries { template: (template + 1) as nat })
                } else if self.mode.individual() {
                    written.with_block(BlockView::Rule).begin_individual()
                } else {
                    written.with_block(BlockView::Rule).in_phase(Stage::Done(Outcome::Completed))
                }
            },
            Stage::IndividualSummaries { commit, template } => {
                let written = self.with_summary(
                    template as int,
                    self.commit_subject(commit as int),
                    answer,
                );
                if template + 1 < self.kinds.len() {
                    written.in_phase(
                        Stage::IndividualSummaries { commit, template: (template + 1) as nat },
                    )
                } else {
                    written.with_block(BlockView::Rule).after_commit(commit as int)
                }
            },
            _ => self,
        }
    }
}

/// How many summaries of all commits together a full report holds.
pub open spec fn batch_summaries(mode: SummaryMode, kinds: Seq<PromptKind>) -> int {
    if mode.batch() {
        kinds.len() as int
    } else {
        0
    }
}

/// The place of the summary of commit `commit` under template `template`
/// among the summaries of a report with `k` templates, where `base`
/// summaries stand before those of the single commits.
pub open spec fn slot(base: int, k: int, commit: int, template: int) -> int {
    base + commit * k + template
}

/// The summary `section` is that of `subject` under `kind`.
pub open spec fn is_for(section: SectionView, kind: PromptKind, subject: SubjectView) -> bool {
    section.kind == kind && section.subject == subject
}

/// What a run is handed: the answer to a command, or to a request.
pub enum Event {
    Invoked(Answer),
    Summarized(Answer),
}

impl Machine {
    /// How many summaries of all commits together a full report holds.
    pub open spec fn batch_share(self) -> int {
        batch_summaries(self.mode, self.kinds)
    }

    /// How many summaries a full report holds.
    pub open spec fn planned_total(self) -> int {
        if is_diff(self.command) {
            self.kinds.len() as int
        } else if self.mode.individual() {
            self.batch_share() + self.commits.len() * self.kinds.len()
        } else {
            self.batch_share()
        }
    }

    /// How many summaries the run has had an answer for, or has given up.
    pub open spec fn decided(self) -> int {
        match self.phase {
            Stage::Fetching => 0,
            Stage::DiffSummaries { template } => template as int,
            Stage::BatchDetails { commit } => 0,
            Stage::BatchSummaries { template } => template as int,
            Stage::IndividualDetails { commit } => slot(
                self.batch_share(),
                self.kinds.len() as int,
                commit as int,
                0,
            ),
            Stage::IndividualSummaries { commit, template } => slot(
                self.batch_share(),
                self.kinds.len() as int,
                commit as int,
                template as int,
            ),
            Stage::Done(Outcome::Completed) => self.planned_total(),
            Stage::Done(_) => 0,
        }
    }

    /// The phase suits the settings, and points at a commit and a template
    /// that there are.
    pub open spec fn phase_fits(self) -> bool {
        match self.phase {
            Stage::Fetching => self.kinds.len() > 0 && self.report.len() == 0,
            Stage::DiffSummaries { template } => is_diff(self.command) && template
                < self.kinds.len(),
            Stage::BatchDetails { commit } => !is_diff(self.command) && self.mode.batch() && commit
                < self.commits.len() && self.kinds.len() > 0,
            Stage::BatchSummaries { template } => !is_diff(self.command) && self.mode.batch()
                && template < self.kinds.len(),
            Stage::IndividualDetails { commit } => !is_diff(self.command)
                && self.mode.individual() && commit < self.commits.len() && self.kinds.len() > 0,
            Stage::IndividualSummaries { commit, template } => !is_diff(self.command)
                && self.mode.individual() && commit < self.commits.len() && template
                < self.kinds.len(),
            Stage::Done(Outcome::Completed) => self.kinds.len() > 0,
            Stage::Done(_) => self.report.len() == 0,
        }
    }

    /// Every summary of the report stands where a full report has it: those
    /// of a diff or of all commits first, one for each template in the order
    /// of the templates, then those of the single commits, commit by commit
    /// and, for each commit, template by template.
    pub open spec fn as_planned(self) -> bool {
        let found = sections(self.report);
        let k = self.kinds.len() as int;
        if is_diff(self.command) {
            forall|j: int|
                0 <= j < found.len() && j < k ==> is_for(
                    #[trigger] found[j],
                    self.kinds[j],
                    SubjectView::Diff,
                )
        } else {
            &&& self.mode.batch() ==> forall|j: int|
                0 <= j < found.len() && j < k ==> is_for(
                    #[trigger] found[j],
                    self.kinds[j],
                    SubjectView::AllCommits,
                )
            &&& self.mode.individual() ==> forall|i: int, j: int|
                0 <= i < self.commits.len() && 0 <= j < k && slot(self.batch_share(), k, i, j)
                    < found.len() ==> is_for(
                    found[#[trigger] slot(self.batch_share(), k, i, j)],
                    self.kinds[j],
                    self.commit_subject(i),
                )
        }
    }

    /// What holds of every state of a run.
    pub open spec fn wf(self) -> bool {
        let found = sections(self.report);
        &&& self.phase_fits()
        &&& found.len() <= self.decided()
        &&& self.complete ==> found.len() == self.decided()
        &&& self.complete ==> self.as_planned()
        &&& forall|s: int| 0 <= s < found.len() ==> self.kinds.contains(#[trigger] found[s].kind)
    }

    /// The settings of two states are the same.
    pub open spec fn same_settings(self, other: Machine) -> bool {
        &&& self.repo == other.repo
        &&& self.command == other.command
        &&& self.mode == other.mode
        &&& self.kinds == other.kinds
    }

    /// The state after `event`.
    pub open spec fn after(self, event: Event) -> Machine {
        match event {
            Event::Invoked(answer) => self.after_invocation(answer),
            Event::Summarized(answer) => self.after_summary(answer),
        }
    }

    /// The state after `events`, one after another.
    pub open spec fn after_all(self, events: Seq<Event>) -> Machine
        decreases events.len(),
    {
        if events.len() == 0 {
            self
        } else {
            self.after_all(events.drop_last()).after(events.last())
        }
    }
}

/// Products of positions: what the proofs need of them.
proof fn lemma_products(i: int, n: int, k: int)
    requires
        0 <= i < n,
        0 <= k,
    ensures
        0 <= i * k,
        (i + 1) * k == i * k + k,
        (i + 1) * k <= n * k,
        0 * k == 0,
{
    assert(0 <= i * k) by (nonlinear_arith)
        requires
            0 <= i,
            0 <= k,
    ;
    assert((i + 1) * k == i * k + k) by (nonlinear_arith);
    assert((i + 1) * k <= n * k) by (nonlinear_arith)
        requires
            i + 1 <= n,
            0 <= k,
    ;
}

/// Two summaries of single commits that share a place are one summary.
proof fn lemma_slot_is_one_to_one(base: int, k: int, i: int, j: int, i0: int, j0: int)
    requires
        0 <= j < k,
        0 <= j0 < k,
        0 <= i,
        0 <= i0,
        slot(base, k, i, j) == slot(base, k, i0, j0),
    ensures
        i == i0,
        j == j0,
{
    if i < i0 {
        assert((i + 1) * k <= i0 * k) by (nonlinear_arith)
            requires
                i + 1 <= i0,
                0 <= k,
        ;
        assert((i + 1) * k == i * k + k) by (nonlinear_arith);
    } else if i0 < i {
        assert((i0 + 1) * k <= i * k) by (nonlinear_arith)
            requires
                i0 + 1 <= i,
                0 <= k,
        ;
        assert((i0 + 1) * k == i0 * k + k) by (nonlinear_arith);
    }
}

/// A run starts in a state of which the invariant holds.
pub proof fn lemma_initial_is_wf(
    repo: Seq<char>,
    command: Seq<Seq<char>>,
    mode: SummaryMode,
    names: Seq<Seq<char>>,
)
    ensures
        initial(repo, command, mode, names).wf(),
{
    let m = initial(repo, command, mode, names);
    assert(sections(m.report) =~= Seq::empty());
}

/// The answer to a command leaves the settings as they are, and the
/// invariant in force.
pub proof fn lemma_invocation_keeps_wf(m: Machine, answer: Answer)
    requires
        m.wf(),
    ensures
        m.after_invocation(answer).wf(),
        m.after_invocation(answer).same_settings(m),
        !(m.phase is Fetching) ==> m.after_invocation(answer).commits == m.commits && !(
        m.after_invocation(answer).phase is Fetching),
{
    let next = m.after_invocation(answer);
    let k = m.kinds.len() as int;
    match m.phase {
        Stage::Fetching => {
            assert(m.report =~= Seq::empty());
            assert(sections(m.report) =~= Seq::empty());
            lemma_sections_push(m.report, BlockView::Title);
            let titled = m.report.push(BlockView::Title);
            lemma_sections_push(titled, BlockView::DiffHeading);
            if let Ok(changes) = answer {
                let commits = mentioned_ids(changes);
                let counted = titled.push(BlockView::CommitCount(commits.len()));
                lemma_sections_push(titled, BlockView::CommitCount(commits.len()));
                lemma_sections_push(counted, BlockView::BatchHeading);
                lemma_sections_push(counted, BlockView::IndividualHeading);
                assert(0 * k == 0);
                if !is_blank(changes) && !is_diff(m.command) {
                    assert(sections(next.report) =~= Seq::empty());
                }
            }
        },
        Stage::BatchDetails { commit } => {
            lemma_sections_push(m.report, BlockView::BatchHeading);
        },
        Stage::IndividualDetails { commit } => {
            lemma_products(commit as int, m.commits.len() as int, k);
        },
        _ => {},
    }
}

/// The answer to a request leaves the settings as they are, and the
/// invariant in force.
pub proof fn lemma_summary_keeps_wf(m: Machine, answer: Answer)
    requires
        m.wf(),
    ensures
        m.after_summary(answer).wf(),
        m.after_summary(answer).same_settings(m),
        m.after_summary(answer).commits == m.commits,
        !(m.phase is Fetching) ==> !(m.after_summary(answer).phase is Fetching),
{
    let next = m.after_summary(answer);
    let k = m.kinds.len() as int;
    let n = m.commits.len() as int;
    let base = m.batch_share();
    let found = sections(m.report);
    match m.phase {
        Stage::DiffSummaries { template } => {
            let written = m.with_summary(template as int, SubjectView::Diff, answer);
            lemma_summary_written(m, template as int, SubjectView::Diff, answer);
            lemma_sections_push(written.report, BlockView::Rule);
        },
        Stage::BatchSummaries { template } => {
            let written = m.with_summary(template as int, SubjectView::AllCommits, answer);
            lemma_summary_written(m, template as int, SubjectView::AllCommits, answer);
            lemma_sections_push(written.report, BlockView::Rule);
            let ruled = written.report.push(BlockView::Rule);
            lemma_sections_push(ruled, BlockView::IndividualHeading);
            assert(0 * k == 0);
            if template + 1 == k && m.mode.individual() && next.complete {
                assert forall|i: int, j: int|
                    0 <= i < n && 0 <= j < k && slot(base, k, i, j) < sections(
                        next.report,
                    ).len() implies is_for(
                    sections(next.report)[#[trigger] slot(base, k, i, j)],
                    next.kinds[j],
                    next.commit_subject(i),
                ) by {
                    lemma_products(i, n, k);
                }
            }
        },
        Stage::IndividualSummaries { commit, template } => {
            let subject = m.commit_subject(commit as int);
            let written = m.with_summary(template as int, subject, answer);
            lemma_summary_written(m, template as int, subject, answer);
            lemma_sections_push(written.report, BlockView::Rule);
            lemma_products(commit as int, n, k);
            if next.complete {
                let after = sections(next.report);
                assert(after == found.push(after.last()));
                assert(found.len() == slot(base, k, commit as int, template as int));
                assert forall|i: int, j: int|
                    0 <= i < n && 0 <= j < k && slot(base, k, i, j)
                        < after.len() implies is_for(
                    after[#[trigger] slot(base, k, i, j)],
                    next.kinds[j],
                    next.commit_subject(i),
                ) by {
                    if slot(base, k, i, j) == found.len() {
                        lemma_slot_is_one_to_one(base, k, i, j, commit as int, template as int);
                    }
                }
            }
        },
        _ => {},
    }
}

/// What an answer to a request does to the summaries of the report.
proof fn lemma_summary_written(m: Machine, template: int, subject: SubjectView, answer: Answer)
    requires
        0 <= template < m.kinds.len(),
    ensures
        ({
            let written = m.with_summary(template, subject, answer);
            match answer {
                Ok(text) => written.complete == m.complete && sections(written.report)
                    == sections(m.report).push(
                    SectionView { kind: m.kinds[template], subject, text },
                ),
                Err(_) => !written.complete && sections(written.report) == sections(m.report),
            }
        }),
{
    if let Ok(text) = answer {
        lemma_sections_push(
            m.report,
            BlockView::Summary(SectionView { kind: m.kinds[template], subject, text }),
        );
    }
}

/// A run that is over stays as it is, whatever it is handed.
pub proof fn lemma_done_is_final(m: Machine, events: Seq<Event>)
    requires
        m.phase is Done,
    ensures
        m.after_all(events) == m,
    decreases events.len(),
{
    if events.len() > 0 {
        lemma_done_is_final(m, events.drop_last());
    }
}

/// An event leaves the settings as they are and the invariant in force, and
/// the commits of a log, once found, stay the same.
pub proof fn lemma_event_keeps_wf(m: Machine, event: Event)
    requires
        m.wf(),
    ensures
        m.after(event).wf(),
        m.after(event).same_settings(m),
        !(m.phase is Fetching) ==> m.after(event).commits == m.commits && !(m.after(
            event,
        ).phase is Fetching),
{
    match event {
        Event::Invoked(answer) => lemma_invocation_keeps_wf(m, answer),
        Event::Summarized(answer) => lemma_summary_keeps_wf(m, answer),
    }
}

/// What holds of one state holds of every state that follows it.
pub proof fn lemma_events_keep_wf(m: Machine, events: Seq<Event>)
    requires
        m.wf(),
    ensures
        m.after_all(events).wf(),
        m.after_all(events).same_settings(m),
        !(m.phase is Fetching) ==> m.after_all(events).commits == m.commits && !(m.after_all(
            events,
        ).phase is Fetching),
    decreases events.len(),
{
    if events.len() > 0 {
        lemma_events_keep_wf(m, events.drop_last());
        lemma_event_keeps_wf(m.after_all(events.drop_last()), events.last());
    }
}

/// Only the templates that were asked for by name are used, whatever the
/// run is handed: every summary of the report, and every request that the
/// run makes, is that of a template whose name is among `names`. Where no
/// name is that of a template, the run is over at once: the user is told,
/// and the report stays empty.
pub proof fn lemma_only_selected_templates_are_used(
    repo: Seq<char>,
    command: Seq<Seq<char>>,
    mode: SummaryMode,
    names: Seq<Seq<char>>,
    events: Seq<Event>,
)
    ensures
        ({
            let m = initial(repo, command, mode, names).after_all(events);
            let found = sections(m.report);
            &&& m.kinds == selected_kinds(names)
            &&& forall|s: int|
                0 <= s < found.len() ==> names.contains((#[trigger] found[s]).kind.name_text())
            &&& m.pending() matches ActionView::Summarize(request) ==> exists|t: int|
                0 <= t < m.kinds.len() && names.contains(m.kinds[t].name_text())
                    && #[trigger] m.asks_under(request, t)
            &&& selected_kinds(names).len() == 0 ==> {
                &&& m.phase == Stage::Done(Outcome::NothingSelected)
                &&& m.report.len() == 0
                &&& m.notices == seq![nothing_selected_notice()]
            }
        }),
{
    let start = initial(repo, command, mode, names);
    let m = start.after_all(events);
    let found = sections(m.report);
    lemma_initial_is_wf(repo, command, mode, names);
    lemma_events_keep_wf(start, events);
    lemma_selection_follows_names(names);
    if selected_kinds(names).len() == 0 {
        lemma_done_is_final(start, events);
    }
    assert forall|s: int| 0 <= s < found.len() implies names.contains(
        (#[trigger] found[s]).kind.name_text(),
    ) by {
        assert(m.kinds.contains(found[s].kind));
    }
    if let ActionView::Summarize(request) = m.pending() {
        let t = match m.phase {
            Stage::DiffSummaries { template } => template as int,
            Stage::BatchSummaries { template } => template as int,
            Stage::IndividualSummaries { commit, template } => template as int,
            _ => 0,
        };
        assert(m.kinds.contains(m.kinds[t]));
        assert(m.asks_under(request, t));
    }
}

/// Where the commits of a log are summarised together, a report that is
/// written in full begins with exactly one such summary for each template
/// selected, in the order of the templates, however many commits the log
/// mentions, and however many of them could be shown. Where they are
/// summarised in no other way, these are all the summaries of the report.
/// Whether in full or not, a report holds no more summaries than were planned.
pub proof fn lemma_batch_gives_one_summary_per_template(
    repo: Seq<char>,
    command: Seq<Seq<char>>,
    mode: SummaryMode,
    names: Seq<Seq<char>>,
    events: Seq<Event>,
)
    requires
        mode.batch(),
        !is_diff(command),
    ensures
        ({
            let m = initial(repo, command, mode, names).after_all(events);
            let found = sections(m.report);
            let k = selected_kinds(names).len() as int;
            &&& m.phase == Stage::Done(Outcome::Completed) ==> found.len() <= m.planned_total()
            &&& m.phase == Stage::Done(Outcome::Completed) && m.complete ==> {
                &&& found.len() == m.planned_total()
                &&& found.len() >= k
                &&& forall|j: int|
                    0 <= j < k ==> is_for(
                        #[trigger] found[j],
                        selected_kinds(names)[j],
                        SubjectView::AllCommits,
                    )
                &&& mode == SummaryMode::All ==> found.len() == k
            }
        }),
{
    let start = initial(repo, command, mode, names);
    let m = start.after_all(events);
    lemma_initial_is_wf(repo, command, mode, names);
    lemma_events_keep_wf(start, events);
    if m.mode.individual() {
        assert(0 <= m.commits.len() * m.kinds.len()) by (nonlinear_arith);
    }
}

/// Where each commit of a log is summarised by itself, a report that is
/// written in full holds exactly one summary for each commit and each
/// template selected: as many as there are commits times templates, commit
/// by commit in the order of the log and, for each commit, in the order of
/// the templates. They follow the summaries of all commits together where
/// there are such. The commits are those that the log mentions.
pub proof fn lemma_individual_gives_one_summary_per_commit_and_template(
    repo: Seq<char>,
    command: Seq<Seq<char>>,
    mode: SummaryMode,
    names: Seq<Seq<char>>,
    log: Seq<char>,
    events: Seq<Event>,
)
    requires
        mode.individual(),
        !is_diff(command),
    ensures
        ({
            let m = initial(repo, command, mode, names).after_invocation(Ok(log)).after_all(
                events,
            );
            let found = sections(m.report);
            let kinds = selected_kinds(names);
            let k = kinds.len() as int;
            let commits = mentioned_ids(log);
            let base = batch_summaries(mode, kinds);
            &&& m.phase == Stage::Done(Outcome::Completed) ==> {
                &&& m.commits == commits
                &&& found.len() <= base + commits.len() * k
            }
            &&& m.phase == Stage::Done(Outcome::Completed) && m.complete ==> {
                &&& found.len() == base + commits.len() * k
                &&& forall|i: int, j: int|
                    0 <= i < commits.len() && 0 <= j < k ==> 0 <= slot(base, k, i, j)
                        < found.len() && is_for(
                        found[#[trigger] slot(base, k, i, j)],
                        kinds[j],
                        SubjectView::Commit { number: (i + 1) as nat, id: commits[i] },
                    )
            }
        }),
{
    let start = initial(repo, command, mode, names);
    let fetched = start.after_invocation(Ok(log));
    let m = fetched.after_all(events);
    let k = selected_kinds(names).len() as int;
    let n = mentioned_ids(log).len() as int;
    lemma_initial_is_wf(repo, command, mode, names);
    lemma_invocation_keeps_wf(start, Ok(log));
    lemma_events_keep_wf(fetched, events);
    if fetched.phase is Done {
        lemma_done_is_final(fetched, events);
    }
    if m.phase == Stage::Done(Outcome::Completed) && m.complete {
        assert forall|i: int, j: int| 0 <= i < n && 0 <= j < k implies 0 <= #[trigger] slot(
            m.batch_share(),
            k,
            i,
            j,
        ) < sections(m.report).len() by {
            lemma_products(i, n, k);
        }
    }
}

/// Where the command gives the diff, the diff as a whole is the one subject,
/// whatever the way of summarising a log is set to: a report that is written
/// in full holds exactly one summary of the diff for each template selected,
/// in the order of the templates.
pub proof fn lemma_diff_gives_one_summary_per_template(
    repo: Seq<char>,
    command: Seq<Seq<char>>,
    mode: SummaryMode,
    names: Seq<Seq<char>>,
    events: Seq<Event>,
)
    requires
        is_diff(command),
    ensures
        ({
            let m = initial(repo, command, mode, names).after_all(events);
            let found = sections(m.report);
            let kinds = selected_kinds(names);
            &&& m.phase == Stage::Done(Outcome::Completed) ==> found.len() <= kinds.len()
            &&& m.phase == Stage::Done(Outcome::Completed) && m.complete ==> {
                &&& found.len() == kinds.len()
                &&& forall|j: int|
                    0 <= j < kinds.len() ==> is_for(
                        #[trigger] found[j],
                        kinds[j],
                        SubjectView::Diff,
                    )
            }
        }),
{
    let start = initial(repo, command, mode, names);
    lemma_initial_is_wf(repo, command, mode, names);
    lemma_events_keep_wf(start, events);
}

/// Where the command that was to give the log or the diff fails, the run is
/// over: nothing is written to the report, then or later, and the user is
/// told the reason of the failure.
pub proof fn lemma_failed_fetch_leaves_no_report(
    repo: Seq<char>,
    command: Seq<Seq<char>>,
    mode: SummaryMode,
    names: Seq<Seq<char>>,
    cause: Seq<char>,
    events: Seq<Event>,
)
    requires
        selected_kinds(names).len() > 0,
    ensures
        ({
            let start = initial(repo, command, mode, names);
            let m = start.after_invocation(Err(cause)).after_all(events);
            &&& start.pending() == ActionView::Invoke(git_command_line(repo, command))
            &&& m.phase == Stage::Done(Outcome::FetchFailed)
            &&& m.pending() == ActionView::Finish(Outcome::FetchFailed)
            &&& m.report.len() == 0
            &&& m.notices == seq![cause]
        }),
{
    let start = initial(repo, command, mode, names);
    let failed = start.after_invocation(Err(cause));
    lemma_done_is_final(failed, events);
    assert(failed.notices =~= seq![cause]);
}

} // verus!
