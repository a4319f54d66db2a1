use git_commit_summarizer::prompts::{
    names_contain, requested_names, same_text, select_templates, PromptKind, SummaryMode,
};

fn words(list: &[&str]) -> Vec<String> {
    list.iter().map(|w| w.to_string()).collect()
}

#[test]
fn templates_go_by_their_names() {
    assert_eq!(PromptKind::from_name("summary"), Some(PromptKind::Summary));
    assert_eq!(PromptKind::from_name("technical"), Some(PromptKind::Technical));
    assert_eq!(PromptKind::from_name("blog"), Some(PromptKind::Blog));
    assert_eq!(PromptKind::from_name("Summary"), None);
    assert_eq!(PromptKind::from_name(""), None);
    for kind in [PromptKind::Summary, PromptKind::Technical, PromptKind::Blog] {
        assert_eq!(PromptKind::from_name(kind.name()), Some(kind));
    }
}

#[test]
fn templates_carry_their_instructions() {
    assert_eq!(
        PromptKind::Summary.user_instruction(),
        "Summarize the following git changes, highlighting the key modifications:"
    );
    assert!(PromptKind::Summary.system_instruction().starts_with("You are an AI assistant"));
    assert!(PromptKind::Technical.system_instruction().starts_with("You are an expert software developer"));
    assert!(PromptKind::Technical.user_instruction().starts_with("Provide a technical summary"));
    assert!(PromptKind::Blog.system_instruction().starts_with("You are a tech blogger"));
    assert!(PromptKind::Blog.user_instruction().ends_with("interesting developments:"));
}

#[test]
fn selection_keeps_the_order_of_declaration() {
    assert_eq!(
        select_templates(&words(&["blog", "summary"])),
        vec![PromptKind::Summary, PromptKind::Blog]
    );
    assert_eq!(
        select_templates(&words(&["technical", "blog", "summary"])),
        vec![PromptKind::Summary, PromptKind::Technical, PromptKind::Blog]
    );
    assert_eq!(select_templates(&words(&["technical"])), vec![PromptKind::Technical]);
}

#[test]
fn selection_holds_no_template_twice() {
    assert_eq!(select_templates(&words(&["blog", "blog", "blog"])), vec![PromptKind::Blog]);
}

#[test]
fn selection_passes_over_unknown_names() {
    assert_eq!(select_templates(&words(&["poem", "technical", ""])), vec![PromptKind::Technical]);
    assert_eq!(select_templates(&words(&["poem", "SUMMARY"])), vec![]);
    assert_eq!(select_templates(&words(&[])), vec![]);
}

#[test]
fn general_overview_is_selected_where_nothing_is_asked_for() {
    assert_eq!(requested_names(None), words(&["summary"]));
    assert_eq!(requested_names(Some(words(&["blog", "x"]))), words(&["blog", "x"]));
    assert_eq!(requested_names(Some(vec![])), Vec::<String>::new());
}

#[test]
fn ways_of_summarising_go_by_their_names() {
    assert_eq!(SummaryMode::from_name("all"), Some(SummaryMode::All));
    assert_eq!(SummaryMode::from_name("individual"), Some(SummaryMode::Individual));
    assert_eq!(SummaryMode::from_name("both"), Some(SummaryMode::Both));
    assert_eq!(SummaryMode::from_name("none"), None);
    for mode in [SummaryMode::All, SummaryMode::Individual, SummaryMode::Both] {
        assert_eq!(SummaryMode::from_name(mode.name()), Some(mode));
    }
}

#[test]
fn ways_of_summarising_say_what_they_include() {
    assert!(SummaryMode::All.includes_batch() && !SummaryMode::All.includes_individual());
    assert!(!SummaryMode::Individual.includes_batch() && SummaryMode::Individual.includes_individual());
    assert!(SummaryMode::Both.includes_batch() && SummaryMode::Both.includes_individual());
}

#[test]
fn texts_are_compared_by_their_characters() {
    assert!(same_text("diff", "diff"));
    assert!(!same_text("diff", "diff "));
    assert!(!same_text("diff", "Diff"));
    assert!(names_contain(&words(&["a", "b"]), "b"));
    assert!(!names_contain(&words(&["a", "b"]), "c"));
    assert!(!names_contain(&words(&[]), ""));
}
