use aigit::chat::Role;
use aigit::prompt::{
    prompt_create_commit_msg, prompt_diff, COMMIT_LEAD_IN, COMMIT_SYSTEM_PROMPT, EXPLAIN_LEAD_IN,
    EXPLAIN_SYSTEM_PROMPT,
};

#[test]
fn explain_prompt_ends_with_the_diff() {
    let diff = "diff --git a/x b/x\n--- a/x\n+++ b/x\n@@ -1 +1 @@\n-old\n+new\n";
    let msgs = prompt_diff(diff.to_string());
    assert_eq!(msgs.len(), 2);
    assert_eq!(msgs[0].role, Role::System);
    assert_eq!(msgs[1].role, Role::User);
    assert!(msgs[1].content.ends_with(diff));
    assert_eq!(
        msgs[1].content,
        format!("Hello, please explain the code modification below. \n{}", diff)
    );
    assert_eq!(msgs[0].content, EXPLAIN_SYSTEM_PROMPT);
}

#[test]
fn explain_instruction_names_the_report_format() {
    let s = EXPLAIN_SYSTEM_PROMPT;
    assert!(s.starts_with("You are a senior software engineer skilled in parsing Git patches."));
    assert!(s.contains("## Analysis Report"));
    assert!(s.contains("- Modified file paths  \n"));
    assert!(s.contains("Change type for each file (Added/Deleted/Modified/Renamed)"));
    assert!(s.contains("**Line range**: @@ -15,6 +15,8 @@"));
    assert!(s.contains("Use ⚠️ warning when conflict markers are detected"));
    assert!(s.ends_with("- Do not speculate about context not present in the patch"));
    assert_eq!(s.chars().count(), 1727);
}

#[test]
fn commit_prompt_ends_with_the_explanation() {
    let text = "## Analysis Report\n- Modified files: 1\n";
    let msgs = prompt_create_commit_msg(text.to_string());
    assert_eq!(msgs.len(), 2);
    assert_eq!(msgs[0].role, Role::System);
    assert_eq!(msgs[0].content, COMMIT_SYSTEM_PROMPT);
    assert_eq!(msgs[1].role, Role::User);
    assert_eq!(
        msgs[1].content,
        format!(
            "Please help me to generate commit message. \nPlease populate the content within the <body> section according to the file granularity.\nThe following is Git patch's description:\n{}",
            text
        )
    );
}

#[test]
fn commit_instruction_lays_down_the_grammar() {
    let s = COMMIT_SYSTEM_PROMPT;
    assert!(s.contains("<type>(<scope>): <subject>\n<body>\n<footer>"));
    for kind in ["feat", "fix", "docs", "style", "refactor", "test", "chore"] {
        assert!(s.contains(&format!("   - {}: ", kind)), "{}", kind);
    }
    assert!(s.ends_with("Output ONLY the commit message with no additional text."));
}

#[test]
fn lead_ins_end_with_a_line_break() {
    assert_eq!(EXPLAIN_LEAD_IN, "Hello, please explain the code modification below. \n");
    assert!(COMMIT_LEAD_IN.ends_with("The following is Git patch's description:\n"));
}

#[test]
fn empty_and_large_inputs_pass_through_whole() {
    assert_eq!(prompt_diff(String::new())[1].content, EXPLAIN_LEAD_IN);
    assert_eq!(prompt_create_commit_msg(String::new())[1].content, COMMIT_LEAD_IN);
    let big = "+line é≤\n".repeat(20000);
    let msgs = prompt_diff(big.clone());
    assert_eq!(msgs[1].content.len(), EXPLAIN_LEAD_IN.len() + big.len());
    assert!(msgs[1].content.ends_with(&big));
}
