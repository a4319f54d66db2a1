use git_commit_summarizer::commits::CommitId;
use git_commit_summarizer::prompts::PromptKind;
use git_commit_summarizer::report::{render_report, Block, Section, Subject, REPORT_FILE};

const RULE: &str = "------------------------------------------------------------------------\n\n";

#[test]
fn report_goes_to_its_file() {
    assert_eq!(REPORT_FILE, "git_changes_summary.md");
}

#[test]
fn headings_are_markdown() {
    assert_eq!(Block::Title.render(), "# Git Changes Summary\n\n");
    assert_eq!(Block::DiffHeading.render(), "## Current Diff Summary\n\n");
    assert_eq!(Block::BatchHeading.render(), "## Summary of All Commits\n\n");
    assert_eq!(Block::IndividualHeading.render(), "## Individual Commit Summaries\n\n");
}

#[test]
fn rule_has_seventy_two_dashes() {
    let rule = Block::Rule.render();
    assert_eq!(rule, RULE);
    assert_eq!(rule.len(), 74);
}

#[test]
fn count_line_says_the_number() {
    assert_eq!(Block::CommitCount(0).render(), "Total number of commits: 0\n\n");
    assert_eq!(Block::CommitCount(25).render(), "Total number of commits: 25\n\n");
}

#[test]
fn summary_of_all_commits_is_a_flat_heading() {
    let section = Section {
        kind: PromptKind::Technical,
        subject: Subject::AllCommits,
        text: "Refactors the parser.".to_string(),
    };
    assert_eq!(section.render(), "### technical for all commits\n\nRefactors the parser.\n\n");
}

#[test]
fn summary_of_a_diff_is_a_flat_heading() {
    let section =
        Section { kind: PromptKind::Summary, subject: Subject::Diff, text: "Two files.".to_string() };
    assert_eq!(section.render(), "### summary for current diff\n\nTwo files.\n\n");
    assert_eq!(Block::Summary(section).render(), "### summary for current diff\n\nTwo files.\n\n");
}

#[test]
fn summary_of_a_commit_folds() {
    let section = Section {
        kind: PromptKind::Blog,
        subject: Subject::Commit { number: 12, id: CommitId::parse("abc1234").unwrap() },
        text: "A story.".to_string(),
    };
    assert_eq!(
        section.render(),
        "<details>\n<summary>blog for commit 12 (abc1234)</summary>\n\nA story.\n</details>\n\n"
    );
}

#[test]
fn report_is_its_blocks_in_order() {
    let blocks = vec![
        Block::Title,
        Block::CommitCount(1),
        Block::BatchHeading,
        Block::Summary(Section {
            kind: PromptKind::Summary,
            subject: Subject::AllCommits,
            text: "S".to_string(),
        }),
        Block::Rule,
    ];
    let expected = format!(
        "# Git Changes Summary\n\nTotal number of commits: 1\n\n## Summary of All Commits\n\n### summary for all commits\n\nS\n\n{}",
        RULE
    );
    assert_eq!(render_report(&blocks), expected);
    assert_eq!(render_report(&vec![]), "");
}
