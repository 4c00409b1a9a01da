use std::collections::HashSet;

use yukin::agent::skills::SkillRegistry;
use yukin::errors::RuntimeError;

fn tools() -> Vec<String> {
    ["current_time", "save_text_note"]
        .into_iter()
        .map(str::to_string)
        .collect()
}

fn as_set(values: &[String]) -> HashSet<String> {
    values.iter().cloned().collect()
}

#[test]
fn no_selection_keeps_all_available_tools() {
    let resolved = SkillRegistry::resolve(&Vec::new(), &tools()).expect("general agent");

    assert_eq!(as_set(&resolved.allowed_tools), as_set(&tools()));
    assert!(resolved.selected.is_empty());
}

#[test]
fn selected_skill_adds_instructions_and_restricts_tools() {
    let resolved =
        SkillRegistry::resolve(&vec!["time_assistant".into()], &tools()).expect("time skill");

    assert_eq!(
        as_set(&resolved.allowed_tools),
        HashSet::from(["current_time".to_string()])
    );
    assert!(resolved.instructions.contains("current_time"));
    assert_eq!(resolved.selected[0].version, "1");
}

#[test]
fn rejects_unknown_skill() {
    let error = SkillRegistry::resolve(&vec!["missing".into()], &tools())
        .err()
        .expect("unknown skill rejected");

    assert_eq!(error, RuntimeError::SkillNotFound("missing".into()));
}

#[test]
fn rejects_skill_with_unavailable_tool() {
    let error = SkillRegistry::resolve(&vec!["note_writer".into()], &vec!["current_time".into()])
        .err()
        .expect("unavailable tool rejected");

    assert_eq!(
        error,
        RuntimeError::SkillToolUnavailable {
            skill: "note_writer".into(),
            tool: "save_text_note".into(),
        }
    );
}

#[test]
fn selecting_a_skill_twice_selects_it_once() {
    let resolved = SkillRegistry::resolve(
        &vec!["time_assistant".into(), "time_assistant".into()],
        &tools(),
    )
    .expect("time skill");
    assert_eq!(resolved.selected.len(), 1);
    assert_eq!(resolved.allowed_tools, vec!["current_time".to_string()]);
}

#[test]
fn both_skills_allow_only_their_tools_in_order() {
    let resolved = SkillRegistry::resolve(
        &vec!["note_writer".into(), "time_assistant".into()],
        &vec![
            "current_time".into(),
            "save_text_note".into(),
            "read_selected_text_file".into(),
        ],
    )
    .expect("both skills");
    assert_eq!(
        as_set(&resolved.allowed_tools),
        as_set(&["current_time".to_string(), "save_text_note".to_string()])
    );
    assert_eq!(resolved.selected[0].id, "note_writer");
    assert_eq!(resolved.selected[1].id, "time_assistant");
    assert!(resolved
        .instructions
        .starts_with("You are Yukin, a concise and helpful desktop assistant."));
    assert!(resolved.instructions.contains("\n\nSelected skill: 文本笔记\n"));
}

#[test]
fn lists_the_built_in_skills() {
    let skills = SkillRegistry::list();
    assert_eq!(skills.len(), 2);
    assert_eq!(skills[0].id, "time_assistant");
    assert_eq!(skills[1].id, "note_writer");
}

#[test]
fn repeating_a_skill_changes_nothing() {
    let once = SkillRegistry::resolve(&vec!["time_assistant".into()], &tools()).expect("once");
    let twice = SkillRegistry::resolve(
        &vec!["time_assistant".into(), "time_assistant".into()],
        &tools(),
    )
    .expect("twice");
    assert_eq!(once, twice);
}

#[test]
fn no_selection_lists_each_available_tool_once() {
    let available: Vec<String> = vec!["current_time".into(), "save_text_note".into(), "current_time".into()];
    let resolved = SkillRegistry::resolve(&Vec::new(), &available).expect("general agent");
    assert_eq!(resolved.allowed_tools, vec!["current_time".to_string(), "save_text_note".to_string()]);
}
