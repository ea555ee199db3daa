use rose_offline_client::ui::ui_debug_skill_list_system::{
    controls_changed, get_ability_types, get_skill_ability_types, learn_skill_command,
    model_viewer_cast_command, name_filter_pattern_string, phase_motion, refresh_ability_types,
    set_filtered_skills, skill_passes_filter, skill_row_controls, weapon_motion_gender,
    weapon_motion_type, AppStateKind, CastControl, CastSkillPhase, CharacterGender,
    PlayerCommandKind, SkillFilterError, SkillSummary, UiStateDebugSkillList,
};

fn skill(id: u16, name: &str) -> SkillSummary {
    SkillSummary {
        id,
        name: name.to_string(),
        base_skill_id: None,
        casting_motion_id: None,
        casting_repeat_motion_id: None,
        action_motion_id: None,
        use_ability: Vec::new(),
        add_ability: Vec::new(),
    }
}

fn open_state() -> UiStateDebugSkillList {
    let mut state = UiStateDebugSkillList::default();
    state.filter_base = false;
    state.filter_named = false;
    state
}

fn sample_skills() -> Vec<SkillSummary> {
    let mut fire = skill(1, "Fire Ball");
    fire.casting_motion_id = Some(100);
    fire.use_ability = vec![16, 17, 16];
    fire.add_ability = vec![None, Some(17), Some(30)];
    let mut fire2 = skill(2, "Fire Ball");
    fire2.base_skill_id = Some(1);
    fire2.casting_motion_id = Some(100);
    let mut ice = skill(3, "Ice Spear");
    ice.base_skill_id = Some(3);
    ice.add_ability = vec![Some(40)];
    let unnamed = skill(4, "");
    let dotted = skill(5, "a.b");
    let other = skill(6, "axb");
    vec![fire, fire2, ice, unnamed, dotted, other]
}

#[test]
fn skill_list_default_state() {
    let state = UiStateDebugSkillList::default();
    assert!(state.ability_types.is_empty());
    assert!(state.filter_name.is_empty());
    assert_eq!(state.filter_ability_type, None);
    assert!(!state.filter_castable);
    assert!(state.filter_base);
    assert!(state.filter_named);
    assert!(state.filtered_skills.is_empty());
}

#[test]
fn skill_ability_types_are_distinct_in_order() {
    let skills = sample_skills();
    assert_eq!(get_skill_ability_types(&skills[0]), vec![16, 17, 30]);
    assert_eq!(get_skill_ability_types(&skills[2]), vec![40]);
    assert_eq!(get_skill_ability_types(&skills[3]), Vec::<u32>::new());
}

#[test]
fn all_ability_types_are_distinct_and_complete() {
    let skills = sample_skills();
    let types = get_ability_types(&skills);
    assert_eq!(types, vec![16, 17, 30, 40]);
}

#[test]
fn ability_types_are_computed_once() {
    let skills = sample_skills();
    let mut state = UiStateDebugSkillList::default();
    refresh_ability_types(&mut state, &skills);
    assert_eq!(state.ability_types, vec![16, 17, 30, 40]);
    refresh_ability_types(&mut state, &vec![skill(9, "x")]);
    assert_eq!(state.ability_types, vec![16, 17, 30, 40]);
}

#[test]
fn no_filter_lists_every_skill() {
    let skills = sample_skills();
    let mut state = open_state();
    assert!(set_filtered_skills(&mut state, &skills).is_ok());
    assert_eq!(state.filtered_skills, vec![1, 2, 3, 4, 5, 6]);
}

#[test]
fn default_filters_hide_derived_and_unnamed_skills() {
    let skills = sample_skills();
    let mut state = UiStateDebugSkillList::default();
    assert!(set_filtered_skills(&mut state, &skills).is_ok());
    assert_eq!(state.filtered_skills, vec![1, 3, 5, 6]);
}

#[test]
fn castable_filter() {
    let skills = sample_skills();
    let mut state = open_state();
    state.filter_castable = true;
    assert!(set_filtered_skills(&mut state, &skills).is_ok());
    assert_eq!(state.filtered_skills, vec![1, 2]);
}

#[test]
fn name_filter_ignores_case() {
    let skills = sample_skills();
    let mut state = open_state();
    state.filter_name = "fire".to_string();
    assert!(set_filtered_skills(&mut state, &skills).is_ok());
    assert_eq!(state.filtered_skills, vec![1, 2]);
    state.filter_name = "SPEAR".to_string();
    assert!(set_filtered_skills(&mut state, &skills).is_ok());
    assert_eq!(state.filtered_skills, vec![3]);
}

#[test]
fn name_filter_is_literal() {
    let skills = sample_skills();
    let mut state = open_state();
    state.filter_name = "a.b".to_string();
    assert!(set_filtered_skills(&mut state, &skills).is_ok());
    assert_eq!(state.filtered_skills, vec![5]);
}

#[test]
fn ability_type_filter() {
    let skills = sample_skills();
    let mut state = open_state();
    state.filter_ability_type = Some(30);
    assert!(set_filtered_skills(&mut state, &skills).is_ok());
    assert_eq!(state.filtered_skills, vec![1]);
    state.filter_ability_type = Some(99);
    assert!(set_filtered_skills(&mut state, &skills).is_ok());
    assert!(state.filtered_skills.is_empty());
}

#[test]
fn name_filter_too_large_to_compile_leaves_list() {
    let skills = sample_skills();
    let mut state = open_state();
    state.filtered_skills = vec![7];
    state.filter_name = "ab".repeat(1_000_000);
    match set_filtered_skills(&mut state, &skills) {
        Err(SkillFilterError::InvalidNameFilter) => {}
        Ok(()) => panic!("pattern compiled"),
    }
    assert_eq!(state.filtered_skills, vec![7]);
}

#[test]
fn skill_passes_filter_takes_name_result() {
    let skills = sample_skills();
    let state = open_state();
    assert!(skill_passes_filter(&state, &skills[0], true));
    assert!(!skill_passes_filter(&state, &skills[0], false));
}

#[test]
fn escape_and_pattern() {
    assert_eq!(name_filter_pattern_string("x+(y)"), "(?i)x\\+\\(y\\)");
    assert_eq!(name_filter_pattern_string("plain"), "(?i)plain");
    assert_eq!(name_filter_pattern_string(""), "(?i)");
    assert_eq!(name_filter_pattern_string("a.b"), "(?i)a\\.b");
}

#[test]
fn controls_refilter() {
    let mut state = UiStateDebugSkillList::default();
    assert!(controls_changed(&state, false));
    state.filtered_skills = vec![1];
    assert!(!controls_changed(&state, false));
    assert!(controls_changed(&state, true));
    state.filtered_skills.clear();
    state.filter_name = "x".to_string();
    assert!(!controls_changed(&state, false));
}

#[test]
fn learn_command() {
    assert_eq!(learn_skill_command(42), "/skill add 42");
    assert_eq!(learn_skill_command(65535), "/skill add 65535");
}

#[test]
fn row_controls_in_game() {
    let skills = sample_skills();
    let fire = &skills[0];
    let c = skill_row_controls(AppStateKind::Game, fire, Some(PlayerCommandKind::Other));
    assert!(c.learn);
    assert!(c.cast == Some(CastControl::Cast));
    let c = skill_row_controls(
        AppStateKind::Game,
        fire,
        Some(PlayerCommandKind::CastSkill { skill_id: 1, ready_action: false }),
    );
    assert!(c.cast == Some(CastControl::Action));
    let c = skill_row_controls(
        AppStateKind::Game,
        fire,
        Some(PlayerCommandKind::CastSkill { skill_id: 1, ready_action: true }),
    );
    assert!(c.cast == Some(CastControl::Stop));
    let c = skill_row_controls(
        AppStateKind::Game,
        fire,
        Some(PlayerCommandKind::CastSkill { skill_id: 2, ready_action: false }),
    );
    assert!(c.cast == Some(CastControl::Stop));
    let c = skill_row_controls(AppStateKind::Game, fire, None);
    assert!(c.cast.is_none());
    let c = skill_row_controls(AppStateKind::Game, &skills[2], Some(PlayerCommandKind::Other));
    assert!(c.learn);
    assert!(c.cast.is_none());
}

#[test]
fn row_controls_elsewhere() {
    let skills = sample_skills();
    let c = skill_row_controls(AppStateKind::ModelViewer, &skills[0], None);
    assert!(!c.learn);
    assert!(c.cast == Some(CastControl::ModelViewerCastAndAction));
    let c = skill_row_controls(AppStateKind::Other, &skills[0], None);
    assert!(!c.learn);
    assert!(c.cast.is_none());
}

#[test]
fn model_viewer_motions() {
    assert_eq!(weapon_motion_gender(CharacterGender::Male), 0);
    assert_eq!(weapon_motion_gender(CharacterGender::Female), 1);
    assert_eq!(weapon_motion_type(None), 0);
    assert_eq!(weapon_motion_type(Some(5)), 5);
    let mut s = skill(8, "Strike");
    s.casting_motion_id = Some(11);
    s.action_motion_id = Some(12);
    s.casting_repeat_motion_id = Some(13);
    assert_eq!(phase_motion(&s, CastSkillPhase::Casting), Some(11));
    assert_eq!(phase_motion(&s, CastSkillPhase::Action), Some(12));
    let cmd = model_viewer_cast_command(&s, CastSkillPhase::Action);
    assert_eq!(cmd.skill_id, 8);
    assert_eq!(cmd.cast_motion_id, Some(11));
    assert_eq!(cmd.action_motion_id, Some(12));
    assert_eq!(cmd.cast_repeat_motion_id, Some(13));
    assert!(cmd.cast_skill_state == CastSkillPhase::Action);
    assert!(cmd.ready_action);
}
