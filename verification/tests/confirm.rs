use ripper::{answer_is_yes, confirms_deletion, plan_deletion, DeletePlan};

#[test]
fn yes_in_either_case_confirms() {
    assert!(confirms_deletion("y\n"));
    assert!(confirms_deletion("Y"));
    assert!(confirms_deletion("  y \t\r\n"));
}

#[test]
fn anything_else_declines() {
    assert!(!confirms_deletion("n\n"));
    assert!(!confirms_deletion("yes\n"));
    assert!(!confirms_deletion(""));
    assert!(!confirms_deletion("\n"));
    assert!(!confirms_deletion("y y"));
}

#[test]
fn answer_must_be_exactly_one_letter() {
    assert!(answer_is_yes("y"));
    assert!(answer_is_yes("Y"));
    assert!(!answer_is_yes(" y"));
    assert!(!answer_is_yes("ý"));
    assert!(!answer_is_yes("yy"));
}

#[test]
fn unicode_white_space_is_trimmed_too() {
    assert!(confirms_deletion("\u{a0}y\u{3000}"));
    assert!(confirms_deletion("\u{2009}Y\u{85}"));
    assert!(!confirms_deletion("\u{200b}y"));
}

#[test]
fn plan_follows_the_list_and_the_yes_flag() {
    assert!(matches!(plan_deletion(0, true), DeletePlan::NothingFound));
    assert!(matches!(plan_deletion(0, false), DeletePlan::NothingFound));
    assert!(matches!(plan_deletion(3, true), DeletePlan::DeleteNow));
    assert!(matches!(plan_deletion(1, false), DeletePlan::AskFirst));
}
