use rose_offline_client::ui::ui_character_info_system::{
    character_info_tab, fraction_label, shown_ability_values, get_simulated_stat, get_simulated_stat_raw,
    simulate_amount_for_modifiers, simulated_basic_stats, stat_button_response,
    stat_increase_tooltip, window_open_after_close, BasicStatType, BasicStats, ButtonState,
    CharacterInfoTab, StatColor, UiStateCharacterInfo, IID_TAB_ABILITY, IID_TAB_BASICINFO,
    IID_TAB_UNION,
};

fn stats() -> BasicStats {
    BasicStats { strength: 15, dexterity: 16, intelligence: 17, concentration: 18, charm: 19, sense: 20 }
}

const TOOLTIP_50: &str = "Required Points: 50\nShift: Simulate 10 points\nAlt: Simulate 100 points";

#[test]
fn character_info_default_state() {
    let state: UiStateCharacterInfo<u32> = UiStateCharacterInfo::default();
    assert_eq!(state.current_tab, IID_TAB_BASICINFO);
    assert_eq!(state.simulated_ability_values, None);
    assert_eq!(state.simulate_amount, 1);
}

#[test]
fn simulate_amount_follows_modifiers() {
    assert_eq!(simulate_amount_for_modifiers(false, false), 1);
    assert_eq!(simulate_amount_for_modifiers(false, true), 10);
    assert_eq!(simulate_amount_for_modifiers(true, false), 100);
    assert_eq!(simulate_amount_for_modifiers(true, true), 100);
    let mut state: UiStateCharacterInfo<u32> = UiStateCharacterInfo::default();
    state.update_simulate_amount(false, true);
    assert_eq!(state.simulate_amount, 10);
    state.update_simulate_amount(true, true);
    assert_eq!(state.simulate_amount, 100);
}

#[test]
fn simulation_is_dropped_without_hover() {
    let mut state: UiStateCharacterInfo<u32> = UiStateCharacterInfo::default();
    assert_eq!(*shown_ability_values(&state.simulated_ability_values, &3), 3);
    state.set_simulated(7);
    assert_eq!(*shown_ability_values(&state.simulated_ability_values, &3), 7);
    state.end_stat_buttons(true);
    assert_eq!(state.simulated_ability_values, Some(7));
    state.end_stat_buttons(false);
    assert_eq!(state.simulated_ability_values, None);
}

#[test]
fn tabs() {
    assert!(character_info_tab(Some(IID_TAB_BASICINFO)) == CharacterInfoTab::BasicInfo);
    assert!(character_info_tab(Some(IID_TAB_ABILITY)) == CharacterInfoTab::Ability);
    assert!(character_info_tab(Some(IID_TAB_UNION)) == CharacterInfoTab::Union);
    assert!(character_info_tab(Some(99)) == CharacterInfoTab::Unknown);
    assert!(character_info_tab(None) == CharacterInfoTab::Unknown);
}

#[test]
fn close_button() {
    assert!(!window_open_after_close(true, true));
    assert!(window_open_after_close(true, false));
    assert!(!window_open_after_close(false, false));
}

#[test]
fn basic_stats_get_set() {
    let mut s = stats();
    assert_eq!(s.get(BasicStatType::Charm), 19);
    s.set(BasicStatType::Charm, 40);
    assert_eq!(s.get(BasicStatType::Charm), 40);
    assert_eq!(s.get(BasicStatType::Sense), 20);
}

#[test]
fn simulated_stats_raise_one_stat() {
    let s = simulated_basic_stats(&stats(), BasicStatType::Dexterity, 10);
    assert!(s == BasicStats { dexterity: 26, ..stats() });
}

#[test]
fn simulated_stat_values() {
    let (v, c) = get_simulated_stat_raw(12, 10);
    assert_eq!(v, 12);
    assert!(c == StatColor::Positive);
    let (v, c) = get_simulated_stat_raw(10, 10);
    assert_eq!(v, 10);
    assert!(c == StatColor::Normal);
    let (t, c) = get_simulated_stat(-5, 3);
    assert_eq!(t, "-5");
    assert!(c == StatColor::Positive);
    let (t, c) = get_simulated_stat(250, 250);
    assert_eq!(t, "250");
    assert!(c == StatColor::Normal);
}

#[test]
fn labels() {
    assert_eq!(fraction_label(120, 5000), "120 / 5000");
    assert_eq!(fraction_label(0, 0), "0 / 0");
    assert_eq!(stat_increase_tooltip(50), TOOLTIP_50);
}

#[test]
fn undrawn_button_does_nothing() {
    let o = stat_button_response(BasicStatType::Strength, None, &stats(), 1, Some(5), 100, true);
    assert!(o.simulate.is_none() && o.tooltip.is_none() && o.increase.is_none());
}

#[test]
fn hovered_button_simulates_and_explains() {
    let hover = ButtonState { hovered: true, clicked: false };
    let o = stat_button_response(BasicStatType::Sense, Some(hover), &stats(), 100, Some(50), 10, true);
    assert!(o.simulate == Some(BasicStats { sense: 120, ..stats() }));
    assert_eq!(o.tooltip.as_deref(), Some(TOOLTIP_50));
    assert!(o.increase.is_none());
}

#[test]
fn hovered_button_without_cost_simulates_only() {
    let hover = ButtonState { hovered: true, clicked: true };
    let o = stat_button_response(BasicStatType::Sense, Some(hover), &stats(), 1, None, 10, true);
    assert!(o.simulate.is_some());
    assert!(o.tooltip.is_none());
    assert!(o.increase.is_none());
}

#[test]
fn clicked_button_asks_for_increase_when_affordable() {
    let click = ButtonState { hovered: false, clicked: true };
    let o = stat_button_response(BasicStatType::Charm, Some(click), &stats(), 1, Some(5), 5, true);
    assert!(o.increase == Some(BasicStatType::Charm));
    assert!(o.simulate.is_none());
    let o = stat_button_response(BasicStatType::Charm, Some(click), &stats(), 1, Some(6), 5, true);
    assert!(o.increase.is_none());
    let o = stat_button_response(BasicStatType::Charm, Some(click), &stats(), 1, Some(5), 5, false);
    assert!(o.increase.is_none());
}
