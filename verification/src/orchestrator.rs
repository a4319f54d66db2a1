//! The orchestrator: the order in which work is asked for, and what becomes
//! of every answer. It runs nothing itself. It says what is to be done next,
//! a command to run or a request to send, takes the answer, and writes the
//! report as the answers arrive.

use vstd::prelude::*;
use crate::client::{
    build_request,
    summarize_error_message,
    CompletionRequest,
    SummarizeError,
};
use crate::commits::{extract_commits, id_views, CommitId};
use crate::machine::{
    details_failed_notice,
    initial,
    is_diff,
    lemma_initial_is_wf,
    lemma_invocation_keeps_wf,
    lemma_summary_keeps_wf,
    summary_failed_notice,
    ActionView,
    Answer,
    Machine,
    Outcome,
    Phase,
    BATCH_MAX_TOKENS,
    COMMIT_MAX_TOKENS,
};
use crate::process::{error_message, git_invocation, show_invocation, Invocation, InvokeError};
use crate::prompts::{same_text, select_templates, PromptKind, SummaryMode};
use crate::report::{block_text, block_views, render_report, report_text, Block, Section, Subject};
use crate::text::{join, text_is_blank, views};

verus! {

/// What the caller is to do next.
pub enum Action {
    /// Run this command and hand back what became of it.
    Invoke(Invocation),
    /// Send this request and hand back what became of it.
    Summarize(CompletionRequest),
    /// Stop: the run is over.
    Finish(Outcome),
}

impl View for Action {
    type V = ActionView;

    open spec fn view(&self) -> ActionView {
        match *self {
            Action::Invoke(invocation) => ActionView::Invoke(invocation@),
            Action::Summarize(request) => ActionView::Summarize(request@),
            Action::Finish(outcome) => ActionView::Finish(outcome),
        }
    }
}

/// What became of a command, as the run takes it: the text of its output, or
/// the message of the error.
pub open spec fn invoke_answer(outcome: Result<String, InvokeError>) -> Answer {
    match outcome {
        Ok(text) => Ok(text@),
        Err(error) => Err(error_message(error)),
    }
}

/// What became of a request, as the run takes it: the text of the summary, or
/// the message of the error.
pub open spec fn summary_answer(outcome: Result<String, SummarizeError>) -> Answer {
    match outcome {
        Ok(text) => Ok(text@),
        Err(error) => Err(summarize_error_message(error)),
    }
}

/// Tells whether `command` asks for the diff.
pub fn asks_for_diff(command: &Vec<String>) -> (diff: bool)
    ensures
        diff == is_diff(views(command@)),
{
    command.len() > 0 && same_text(command[0].as_str(), "diff")
}

/// What a run keeps between two answers.
struct State {
    repo: String,
    command: Vec<String>,
    mode: SummaryMode,
    kinds: Vec<PromptKind>,
    phase: Phase,
    commits: Vec<CommitId>,
    details: Vec<String>,
    content: String,
    report: Vec<Block>,
    notices: Vec<String>,
    complete: bool,
}

impl View for State {
    type V = Machine;

    closed spec fn view(&self) -> Machine {
        Machine {
            repo: self.repo@,
            command: views(self.command@),
            mode: self.mode,
            kinds: self.kinds@,
            phase: self.phase@,
            commits: id_views(self.commits@),
            details: views(self.details@),
            content: self.content@,
            report: block_views(self.report@),
            notices: views(self.notices@),
            complete: self.complete,
        }
    }
}

impl State {
    /// Appends `block` to the report.
    fn with_block(self, block: Block) -> (next: State)
        ensures
            next@ == self@.with_block(block@),
    {
        let ghost before = self.report@;
        let mut next = self;
        next.report.push(block);
        assert(block_views(next.report@) =~= block_views(before).push(block@));
        next
    }

    /// Tells the user `notice`.
    fn with_notice(self, notice: String) -> (next: State)
        ensures
            next@ == self@.with_notice(notice@),
    {
        let ghost before = self.notices@;
        let mut next = self;
        next.notices.push(notice);
        assert(views(next.notices@) =~= views(before).push(notice@));
        next
    }

    /// Tells the user why a summary is missing, and marks the report as
    /// incomplete.
    fn with_gap(self, notice: String) -> (next: State)
        ensures
            next@ == self@.with_gap(notice@),
    {
        let mut next = self.with_notice(notice);
        next.complete = false;
        next
    }

    /// Moves on to `phase`.
    fn in_phase(self, phase: Phase) -> (next: State)
        ensures
            next@ == self@.in_phase(phase@),
    {
        let mut next = self;
        next.phase = phase;
        next
    }

    /// The request for a summary of the text at hand under the template at
    /// `template`.
    fn request(&self, template: usize, max_tokens: u32) -> (request: CompletionRequest)
        requires
            template < self.kinds.len(),
        ensures
            request@ == self@.request(template as int, max_tokens),
    {
        let kind = self.kinds[template];
        build_request(
            kind.system_instruction(),
            kind.user_instruction(),
            self.content.as_str(),
            max_tokens,
        )
    }

    /// The command that shows the commit at `commit`.
    fn show(&self, commit: usize) -> (invocation: Invocation)
        requires
            commit < self.commits.len(),
        ensures
            invocation@ == self@.show(commit as int),
    {
        show_invocation(self.repo.as_str(), &self.commits[commit])
    }

    /// The commit at `commit` as the subject of a summary.
    fn commit_subject(&self, commit: usize) -> (subject: Subject)
        requires
            commit < self.commits.len(),
        ensures
            subject@ == self@.commit_subject(commit as int),
    {
        Subject::Commit { number: commit + 1, id: self.commits[commit].clone() }
    }

    /// Writes the summary that arrived to the report, or tells the user why
    /// none arrived.
    fn with_summary(self, template: usize, subject: Subject, outcome: Result<
        String,
        SummarizeError,
    >) -> (next: State)
        requires
            template < self.kinds.len(),
        ensures
            next@ == self@.with_summary(template as int, subject@, summary_answer(outcome)),
    {
        let kind = self.kinds[template];
        match outcome {
            Ok(text) => self.with_block(Block::Summary(Section { kind, subject, text })),
            Err(error) => {
                let cause = error.message();
                let notice = match &subject {
                    Subject::AllCommits => String::from_str(
                        "Error summarizing all changes for ",
                    ).concat(kind.name()).concat(": ").concat(cause.as_str()),
                    Subject::Diff => String::from_str("Error summarizing diff for ").concat(
                        kind.name(),
                    ).concat(": ").concat(cause.as_str()),
                    Subject::Commit { number, id } => String::from_str(
                        "Error summarizing changes for ",
                    ).concat(id.as_str()).concat(" (").concat(kind.name()).concat("): ").concat(
                        cause.as_str(),
                    ),
                };
                assert(notice@ == summary_failed_notice(subject@, kind, cause@));
                self.with_gap(notice)
            },
        }
    }

    /// Joins the details gathered and begins the summaries of all commits.
    fn begin_batch_summaries(self) -> (next: State)
        ensures
            next@ == self@.begin_batch_summaries(),
    {
        let content = join(&self.details, "\n\n");
        let mut next = self.with_block(Block::BatchHeading);
        next.content = content;
        next.phase = Phase::BatchSummaries { template: 0 };
        next
    }

    /// Begins the summaries of the single commits.
    fn begin_individual(self) -> (next: State)
        ensures
            next@ == self@.begin_individual(),
    {
        let none = self.commits.len() == 0;
        let headed = self.with_block(Block::IndividualHeading);
        if none {
            headed.in_phase(Phase::Done(Outcome::Completed))
        } else {
            headed.in_phase(Phase::IndividualDetails { commit: 0 })
        }
    }

    /// Moves on to the commit after the one at `commit`, or ends the run.
    fn after_commit(self, commit: usize) -> (next: State)
        requires
            commit < self.commits.len(),
        ensures
            next@ == self@.after_commit(commit as int),
    {
        if commit + 1 < self.commits.len() {
            self.in_phase(Phase::IndividualDetails { commit: commit + 1 })
        } else {
            self.in_phase(Phase::Done(Outcome::Completed))
        }
    }

    /// Takes the log or the diff, or the reason why there is none.
    fn after_fetch(self, outcome: Result<String, InvokeError>) -> (next: State)
        ensures
            next@ == self@.after_fetch(invoke_answer(outcome)),
    {
        match outcome {
            Err(error) => self.with_notice(error.message()).in_phase(
                Phase::Done(Outcome::FetchFailed),
            ),
            Ok(changes) => {
                if text_is_blank(changes.as_str()) {
                    self.with_notice(
                        String::from_str("No changes found in the specified range."),
                    ).in_phase(Phase::Done(Outcome::NoChanges))
                } else if asks_for_diff(&self.command) {
                    let mut next = self.with_block(Block::Title).with_block(Block::DiffHeading);
                    next.content = changes;
                    next.phase = Phase::DiffSummaries { template: 0 };
                    next
                } else {
                    let commits = extract_commits(changes.as_str());
                    let count = commits.len();
                    let batch = self.mode.includes_batch();
                    let mut counted = self.with_block(Block::Title).with_block(
                        Block::CommitCount(count),
                    );
                    counted.commits = commits;
                    if !batch {
                        counted.begin_individual()
                    } else if count == 0 {
                        counted.begin_batch_summaries()
                    } else {
                        counted.in_phase(Phase::BatchDetails { commit: 0 })
                    }
                }
            },
        }
    }
}

/// A run of the summariser.
pub struct Orchestrator {
    state: State,
}

impl View for Orchestrator {
    type V = Machine;

    closed spec fn view(&self) -> Machine {
        self.state@
    }
}

impl Orchestrator {
    /// What holds of a run at any time.
    #[verifier::type_invariant]
    spec fn well_formed(&self) -> bool {
        self.state@.wf()
    }

    /// Begins a run on the repository at `repo_path`: `command` is to give
    /// the log or the diff, `mode` says how a log is summarised, and `names`
    /// selects the templates.
    pub fn begin(repo_path: &str, command: Vec<String>, mode: SummaryMode, names: &Vec<String>) -> (run:
        Orchestrator)
        ensures
            run@ == initial(repo_path@, views(command@), mode, views(names@)),
            run@.wf(),
    {
        let kinds = select_templates(names);
        let none = kinds.len() == 0;
        let mut notices: Vec<String> = Vec::new();
        if none {
            notices.push(String::from_str("No valid prompt types selected. Using summary prompt."));
        }
        let state = State {
            repo: String::from_str(repo_path),
            command,
            mode,
            kinds,
            phase: if none {
                Phase::Done(Outcome::NothingSelected)
            } else {
                Phase::Fetching
            },
            commits: Vec::new(),
            details: Vec::new(),
            content: String::new(),
            report: Vec::new(),
            notices,
            complete: true,
        };
        proof {
            let m = initial(repo_path@, views(command@), mode, views(names@));
            lemma_initial_is_wf(repo_path@, views(command@), mode, views(names@));
            assert(state@.commits =~= m.commits);
            assert(state@.details =~= m.details);
            assert(state@.report =~= m.report);
            assert(state@.notices =~= m.notices);
            assert(state@.content =~= m.content);
        }
        Orchestrator { state }
    }

    /// What the caller is to do next.
    pub fn pending(&self) -> (action: Action)
        ensures
            action@ == self@.pending(),
    {
        proof {
            use_type_invariant(self);
        }
        match self.state.phase {
            Phase::Fetching => Action::Invoke(
                git_invocation(self.state.repo.as_str(), &self.state.command),
            ),
            Phase::DiffSummaries { template } => Action::Summarize(
                self.state.request(template, BATCH_MAX_TOKENS),
            ),
            Phase::BatchDetails { commit } => Action::Invoke(self.state.show(commit)),
            Phase::BatchSummaries { template } => Action::Summarize(
                self.state.request(template, BATCH_MAX_TOKENS),
            ),
            Phase::IndividualDetails { commit } => Action::Invoke(self.state.show(commit)),
            Phase::IndividualSummaries { commit, template } => Action::Summarize(
                self.state.request(template, COMMIT_MAX_TOKENS),
            ),
            Phase::Done(outcome) => Action::Finish(outcome),
        }
    }

    /// Takes what became of the command that the run waited for. A run that
    /// waits for no command stays as it is.
    pub fn on_invoked(self, outcome: Result<String, InvokeError>) -> (next: Orchestrator)
        ensures
            next@ == self@.after_invocation(invoke_answer(outcome)),
            next@.wf(),
    {
        proof {
            use_type_invariant(&self);
            lemma_invocation_keeps_wf(self@, invoke_answer(outcome));
        }
        let state = self.state;
        let next = match state.phase {
            Phase::Fetching => state.after_fetch(outcome),
            Phase::BatchDetails { commit } => {
                assert(state@.commits.len() == state.commits.len());
                let more = commit + 1 < state.commits.len();
                let gathered = match outcome {
                    Ok(details) => {
                        let ghost before = state.details@;
                        let mut gathered = state;
                        gathered.details.push(details);
                        assert(views(gathered.details@) =~= views(before).push(details@));
                        gathered
                    },
                    Err(_) => state,
                };
                if more {
                    gathered.in_phase(Phase::BatchDetails { commit: commit + 1 })
                } else {
                    gathered.begin_batch_summaries()
                }
            },
            Phase::IndividualDetails { commit } => match outcome {
                Ok(details) => {
                    let mut next = state;
                    next.content = details;
                    next.phase = Phase::IndividualSummaries { commit, template: 0 };
                    next
                },
                Err(error) => {
                    let notice = String::from_str("Error running git show for ").concat(
                        state.commits[commit].as_str(),
                    ).concat(": ").concat(error.message().as_str());
                    assert(notice@ == details_failed_notice(
                        state@.commits[commit as int],
                        error_message(error),
                    ));
                    state.with_gap(notice).after_commit(commit)
                },
            },
            _ => state,
        };
        Orchestrator { state: next }
    }

    /// Takes what became of the request that the run waited for. A run that
    /// waits for no summary stays as it is.
    pub fn on_summarized(self, outcome: Result<String, SummarizeError>) -> (next: Orchestrator)
        ensures
            next@ == self@.after_summary(summary_answer(outcome)),
            next@.wf(),
    {
        proof {
            use_type_invariant(&self);
            lemma_summary_keeps_wf(self@, summary_answer(outcome));
        }
        let state = self.state;
        let templates = state.kinds.len();
        let next = match state.phase {
            Phase::DiffSummaries { template } => {
                let written = state.with_summary(template, Subject::Diff, outcome);
                if template + 1 < templates {
                    written.in_phase(Phase::DiffSummaries { template: template + 1 })
                } else {
                    written.with_block(Block::Rule).in_phase(Phase::Done(Outcome::Completed))
                }
            },
            Phase::BatchSummaries { template } => {
                let individual = state.mode.includes_individual();
                let written = state.with_summary(template, Subject::AllCommits, outcome);
                if template + 1 < templates {
                    written.in_phase(Phase::BatchSummaries { template: template + 1 })
                } else if individual {
                    written.with_block(Block::Rule).begin_individual()
                } else {
                    written.with_block(Block::Rule).in_phase(Phase::Done(Outcome::Completed))
                }
            },
            Phase::IndividualSummaries { commit, template } => {
                let subject = state.commit_subject(commit);
                let written = state.with_summary(template, subject, outcome);
                if template + 1 < templates {
                    written.in_phase(
                        Phase::IndividualSummaries { commit, template: template + 1 },
                    )
                } else {
                    written.with_block(Block::Rule).after_commit(commit)
                }
            },
            _ => state,
        };
        Orchestrator { state: next }
    }

    /// What the run waits for.
    pub fn phase(&self) -> (phase: Phase)
        ensures
            phase@ == self@.phase,
    {
        self.state.phase
    }

    /// How the run ended, once it is over.
    pub fn outcome(&self) -> (outcome: Option<Outcome>)
        ensures
            outcome == (match self@.pending() {
                ActionView::Finish(o) => Some(o),
                _ => None,
            }),
    {
        match self.state.phase {
            Phase::Done(outcome) => Some(outcome),
            _ => None,
        }
    }

    /// Tells whether every summary that was asked for so far stands in the
    /// report.
    pub fn is_complete(&self) -> (complete: bool)
        ensures
            complete == self@.complete,
    {
        self.state.complete
    }

    /// The commits that the log mentions, once it has arrived.
    pub fn commits(&self) -> (commits: &Vec<CommitId>)
        ensures
            id_views(commits@) == self@.commits,
    {
        &self.state.commits
    }

    /// The number of blocks of the report.
    pub fn block_count(&self) -> (count: usize)
        ensures
            count == self@.report.len(),
    {
        self.state.report.len()
    }

    /// The markdown of the block at `index` of the report, if there is one.
    pub fn render_block(&self, index: usize) -> (text: Option<String>)
        ensures
            match text {
                Some(t) => index < self@.report.len() && t@ == block_text(
                    self@.report[index as int],
                ),
                None => index >= self@.report.len(),
            },
    {
        if index < self.state.report.len() {
            Some(self.state.report[index].render())
        } else {
            None
        }
    }

    /// The markdown of the report as far as it is written.
    pub fn render(&self) -> (text: String)
        ensures
            text@ == report_text(self@.report),
    {
        render_report(&self.state.report)
    }

    /// The number of notices to the user.
    pub fn notice_count(&self) -> (count: usize)
        ensures
            count == self@.notices.len(),
    {
        self.state.notices.len()
    }

    /// The notice at `index`, if there is one.
    pub fn notice(&self, index: usize) -> (text: Option<String>)
        ensures
            match text {
                Some(t) => index < self@.notices.len() && t@ == self@.notices[index as int],
                None => index >= self@.notices.len(),
            },
    {
        if index < self.state.notices.len() {
            Some(self.state.notices[index].clone())
        } else {
            None
        }
    }
}

} // verus!
