use wt::diff::{render_section, run, target_choice, DiffArgs};
use wt::trunk::TrunkChoice;

#[test]
fn diff_plan_without_stat() {
    let args = DiffArgs { stat: false, target: None };
    let plan = run(&args, "feature", "main");
    assert_eq!(plan.len(), 3);
    assert_eq!(plan[0].header, "Committed changes (feature vs main):");
    assert_eq!(plan[0].git_args, vec!["diff", "main...HEAD"]);
    assert_eq!(plan[1].header, "Uncommitted changes:");
    assert_eq!(plan[1].git_args, vec!["diff"]);
    assert_eq!(plan[2].header, "Staged changes:");
    assert_eq!(plan[2].git_args, vec!["diff", "--cached"]);
}

#[test]
fn diff_plan_with_stat_adds_stat_after_diff() {
    let args = DiffArgs { stat: true, target: None };
    let plan = run(&args, "topic", "target-branch");
    assert_eq!(plan[0].header, "Committed changes (topic vs target-branch):");
    assert_eq!(plan[0].git_args, vec!["diff", "--stat", "target-branch...HEAD"]);
    assert_eq!(plan[1].git_args, vec!["diff", "--stat"]);
    assert_eq!(plan[2].git_args, vec!["diff", "--stat", "--cached"]);
}

#[test]
fn empty_section_prints_nothing() {
    assert_eq!(render_section("Staged changes:", ""), "");
}

#[test]
fn section_prints_header_then_output() {
    assert_eq!(
        render_section("Staged changes:", " staged.txt | 1 +\n"),
        "Staged changes:\n staged.txt | 1 +\n"
    );
}

#[test]
fn target_prefers_option_then_config() {
    let with_target = DiffArgs { stat: false, target: Some("target-branch".to_string()) };
    assert!(matches!(target_choice(&with_target, Some("trunk".to_string())), TrunkChoice::Known(b) if b == "target-branch"));
    let without = DiffArgs { stat: false, target: None };
    assert!(matches!(target_choice(&without, Some("trunk".to_string())), TrunkChoice::Known(b) if b == "trunk"));
    assert!(matches!(target_choice(&without, None), TrunkChoice::Detect));
}
