//! The report: a markdown document that grows block by block, in the order
//! in which the summaries arrive.

use vstd::prelude::*;
use crate::commits::CommitId;
use crate::prompts::PromptKind;
use crate::text::{decimal, decimal_text};

verus! {

/// The name of the file that the report is written to.
pub const REPORT_FILE: &'static str = "git_changes_summary.md";

/// What a summary is about.
pub enum Subject {
    /// All commits of the log together.
    AllCommits,
    /// The changes that are not yet committed.
    Diff,
    /// One commit: its number in the log, counted from 1, and its identifier.
    Commit { number: usize, id: CommitId },
}

/// What a `Subject` holds, as sequences of characters.
pub enum SubjectView {
    AllCommits,
    Diff,
    Commit { number: nat, id: Seq<char> },
}

impl View for Subject {
    type V = SubjectView;

    open spec fn view(&self) -> SubjectView {
        match *self {
            Subject::AllCommits => SubjectView::AllCommits,
            Subject::Diff => SubjectView::Diff,
            Subject::Commit { number, id } => SubjectView::Commit { number: number as nat, id: id@ },
        }
    }
}

/// One summary: the template that steered it, its subject, and the text that
/// the endpoint wrote.
pub struct Section {
    pub kind: PromptKind,
    pub subject: Subject,
    pub text: String,
}

/// What a `Section` holds, as sequences of characters.
pub struct SectionView {
    pub kind: PromptKind,
    pub subject: SubjectView,
    pub text: Seq<char>,
}

impl View for Section {
    type V = SectionView;

    open spec fn view(&self) -> SectionView {
        SectionView { kind: self.kind, subject: self.subject@, text: self.text@ }
    }
}

/// One block of the report.
pub enum Block {
    /// The title of the report.
    Title,
    /// The heading over the summaries of a diff.
    DiffHeading,
    /// The line that says how many commits the log mentions.
    CommitCount(usize),
    /// The heading over the summaries of all commits together.
    BatchHeading,
    /// The heading over the summaries of the single commits.
    IndividualHeading,
    /// A summary.
    Summary(Section),
    /// The rule that closes a group of summaries.
    Rule,
}

/// What a `Block` holds, as sequences of characters.
pub enum BlockView {
    Title,
    DiffHeading,
    CommitCount(nat),
    BatchHeading,
    IndividualHeading,
    Summary(SectionView),
    Rule,
}

impl View for Block {
    type V = BlockView;

    open spec fn view(&self) -> BlockView {
        match *self {
            Block::Title => BlockView::Title,
            Block::DiffHeading => BlockView::DiffHeading,
            Block::CommitCount(n) => BlockView::CommitCount(n as nat),
            Block::BatchHeading => BlockView::BatchHeading,
            Block::IndividualHeading => BlockView::IndividualHeading,
            Block::Summary(section) => BlockView::Summary(section@),
            Block::Rule => BlockView::Rule,
        }
    }
}

/// The views of the blocks of a report.
pub open spec fn block_views(blocks: Seq<Block>) -> Seq<BlockView> {
    blocks.map_values(|b: Block| b@)
}

/// The markdown of a summary: a heading and the text for all commits or a
/// diff, a block that folds for a single commit.
pub open spec fn section_text(section: SectionView) -> Seq<char> {
    match section.subject {
        SubjectView::AllCommits => "### "@ + section.kind.name_text() + " for all commits\n\n"@
            + section.text + "\n\n"@,
        SubjectView::Diff => "### "@ + section.kind.name_text() + " for current diff\n\n"@
            + section.text + "\n\n"@,
        SubjectView::Commit { number, id } => "<details>\n<summary>"@ + section.kind.name_text()
            + " for commit "@ + decimal(number) + " ("@ + id + ")</summary>\n\n"@
            + section.text + "\n</details>\n\n"@,
    }
}

/// The markdown of a block.
pub open spec fn block_text(block: BlockView) -> Seq<char> {
    match block {
        BlockView::Title => "# Git Changes Summary\n\n"@,
        BlockView::DiffHeading => "## Current Diff Summary\n\n"@,
        BlockView::CommitCount(n) => "Total number of commits: "@ + decimal(n) + "\n\n"@,
        BlockView::BatchHeading => "## Summary of All Commits\n\n"@,
        BlockView::IndividualHeading => "## Individual Commit Summaries\n\n"@,
        BlockView::Summary(section) => section_text(section),
        BlockView::Rule => "------------------------------------------------------------------------\n\n"@,
    }
}

/// The markdown of a report: that of its blocks, one after another.
pub open spec fn report_text(blocks: Seq<BlockView>) -> Seq<char>
    decreases blocks.len(),
{
    if blocks.len() == 0 {
        Seq::empty()
    } else {
        report_text(blocks.drop_last()) + block_text(blocks.last())
    }
}

/// The summaries of a report, in the order in which they stand in it.
pub open spec fn sections(blocks: Seq<BlockView>) -> Seq<SectionView>
    decreases blocks.len(),
{
    if blocks.len() == 0 {
        Seq::empty()
    } else {
        match blocks.last() {
            BlockView::Summary(section) => sections(blocks.drop_last()).push(section),
            _ => sections(blocks.drop_last()),
        }
    }
}

/// A summary that is appended to a report becomes its last summary, and a
/// block of any other kind leaves the summaries as they are.
pub proof fn lemma_sections_push(blocks: Seq<BlockView>, block: BlockView)
    ensures
        sections(blocks.push(block)) == match block {
            BlockView::Summary(section) => sections(blocks).push(section),
            _ => sections(blocks),
        },
{
    assert(blocks.push(block).drop_last() =~= blocks);
}

impl Section {
    /// Writes the summary as markdown.
    pub fn render(&self) -> (text: String)
        ensures
            text@ == section_text(self@),
    {
        match &self.subject {
            Subject::AllCommits => String::from_str("### ").concat(self.kind.name()).concat(
                " for all commits\n\n",
            ).concat(self.text.as_str()).concat("\n\n"),
            Subject::Diff => String::from_str("### ").concat(self.kind.name()).concat(
                " for current diff\n\n",
            ).concat(self.text.as_str()).concat("\n\n"),
            Subject::Commit { number, id } => {
                let count = decimal_text(*number);
                String::from_str("<details>\n<summary>").concat(self.kind.name()).concat(
                    " for commit ",
                ).concat(count.as_str()).concat(" (").concat(id.as_str()).concat(
                    ")</summary>\n\n",
                ).concat(self.text.as_str()).concat("\n</details>\n\n")
            },
        }
    }
}

impl Block {
    /// Writes the block as markdown.
    pub fn render(&self) -> (text: String)
        ensures
            text@ == block_text(self@),
    {
        match self {
            Block::Title => String::from_str("# Git Changes Summary\n\n"),
            Block::DiffHeading => String::from_str("## Current Diff Summary\n\n"),
            Block::CommitCount(n) => {
                let count = decimal_text(*n);
                String::from_str("Total number of commits: ").concat(count.as_str()).concat("\n\n")
            },
            Block::BatchHeading => String::from_str("## Summary of All Commits\n\n"),
            Block::IndividualHeading => String::from_str("## Individual Commit Summaries\n\n"),
            Block::Summary(section) => section.render(),
            Block::Rule => String::from_str(
                "------------------------------------------------------------------------\n\n",
            ),
        }
    }
}

/// Writes a report as markdown.
pub fn render_report(blocks: &Vec<Block>) -> (text: String)
    ensures
        text@ == report_text(block_views(blocks@)),
{
    let mut text = String::new();
    let mut i: usize = 0;
    while i < blocks.len()
        invariant
            i <= blocks.len(),
            text@ == report_text(block_views(blocks@).take(i as int)),
        decreases blocks.len() - i,
    {
        proof {
            let upto = block_views(blocks@).take(i + 1);
            assert(upto.drop_last() =~= block_views(blocks@).take(i as int));
            assert(upto.last() == blocks@[i as int]@);
        }
        let block = blocks[i].render();
        text.append(block.as_str());
        i += 1;
    }
    assert(block_views(blocks@).take(blocks.len() as int) =~= block_views(blocks@));
    text
}

} // verus!
