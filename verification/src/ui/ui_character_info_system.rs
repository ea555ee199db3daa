//! The character information window: how much a stat button simulates, what
//! a stat button does when hovered or clicked, and the texts it shows.

use vstd::prelude::*;

use crate::text::{decimal, decimal_value, lemma_decimal_round_trip, push_decimal, signed_decimal, signed_decimal_string};

verus! {

pub const IID_BTN_CLOSE: i32 = 10;
pub const IID_TABBEDPANE: i32 = 20;
pub const IID_TAB_BASICINFO: i32 = 21;
pub const IID_GUAGE_STAMINA: i32 = 24;
pub const IID_TAB_ABILITY: i32 = 31;
pub const IID_BTN_UP_STR: i32 = 34;
pub const IID_BTN_UP_DEX: i32 = 35;
pub const IID_BTN_UP_INT: i32 = 36;
pub const IID_BTN_UP_CON: i32 = 37;
pub const IID_BTN_UP_CHARM: i32 = 38;
pub const IID_BTN_UP_SENSE: i32 = 39;
pub const IID_TAB_UNION: i32 = 41;

/// The state of the character information window. `A` is the type of the
/// ability values that are shown while a stat increase is simulated.
pub struct UiStateCharacterInfo<A> {
    pub current_tab: i32,
    pub simulated_ability_values: Option<A>,
    pub simulate_amount: i32,
}

/// The number of points a stat button simulates: 100 with Alt held, else 10
/// with Shift held, else 1.
pub open spec fn simulate_amount_spec(alt: bool, shift: bool) -> i32 {
    if alt {
        100
    } else if shift {
        10
    } else {
        1
    }
}

impl<A> UiStateCharacterInfo<A> {
    /// The simulated amount is one that the modifier keys can select.
    pub open spec fn wf(&self) -> bool {
        self.simulate_amount == 1 || self.simulate_amount == 10 || self.simulate_amount == 100
    }

    /// Sets the simulated amount from the modifier keys held this frame.
    pub fn update_simulate_amount(&mut self, alt: bool, shift: bool)
        ensures
            final(self).simulate_amount == simulate_amount_spec(alt, shift),
            final(self).current_tab == old(self).current_tab,
            final(self).simulated_ability_values == old(self).simulated_ability_values,
            final(self).wf(),
    {
        self.simulate_amount = simulate_amount_for_modifiers(alt, shift);
    }

    /// Shows `values` as the result of the simulated stat increase.
    pub fn set_simulated(&mut self, values: A)
        ensures
            final(self).simulated_ability_values == Some(values),
            final(self).current_tab == old(self).current_tab,
            final(self).simulate_amount == old(self).simulate_amount,
    {
        self.simulated_ability_values = Some(values);
    }

    /// After the stat buttons of a frame: the simulation is kept only while
    /// one of them is hovered.
    pub fn end_stat_buttons(&mut self, some_hovered: bool)
        ensures
            final(self).simulated_ability_values == (if some_hovered {
                old(self).simulated_ability_values
            } else {
                None
            }),
            final(self).current_tab == old(self).current_tab,
            final(self).simulate_amount == old(self).simulate_amount,
    {
        if !some_hovered {
            self.simulated_ability_values = None;
        }
    }
}

impl<A> Default for UiStateCharacterInfo<A> {
    fn default() -> (res: Self)
        ensures
            res.current_tab == IID_TAB_BASICINFO,
            res.simulated_ability_values is None,
            res.simulate_amount == 1,
            res.wf(),
    {
        UiStateCharacterInfo {
            current_tab: IID_TAB_BASICINFO,
            simulated_ability_values: None,
            simulate_amount: 1,
        }
    }
}

/// The ability values the window shows: the simulated ones while a
/// simulation is on, else the player's.
pub fn shown_ability_values<'a, A>(simulated: &'a Option<A>, player_values: &'a A) -> (res: &'a A)
    ensures
        *res == (match *simulated {
            Some(v) => v,
            None => *player_values,
        }),
{
    match simulated {
        Some(v) => v,
        None => player_values,
    }
}

/// The number of points a stat button simulates under the modifier keys.
pub fn simulate_amount_for_modifiers(alt: bool, shift: bool) -> (res: i32)
    ensures
        res == simulate_amount_spec(alt, shift),
{
    if alt {
        100
    } else if shift {
        10
    } else {
        1
    }
}

/// The pages of the window.
#[derive(PartialEq, Eq, Structural, Clone, Copy)]
pub enum CharacterInfoTab {
    BasicInfo,
    Ability,
    Union,
    Unknown,
}

/// The page that the tab pane's current tab shows.
pub fn character_info_tab(tab: Option<i32>) -> (res: CharacterInfoTab)
    ensures
        res == (match tab {
            Some(t) => if t == IID_TAB_BASICINFO {
                CharacterInfoTab::BasicInfo
            } else if t == IID_TAB_ABILITY {
                CharacterInfoTab::Ability
            } else if t == IID_TAB_UNION {
                CharacterInfoTab::Union
            } else {
                CharacterInfoTab::Unknown
            },
            None => CharacterInfoTab::Unknown,
        }),
{
    match tab {
        Some(t) => {
            if t == IID_TAB_BASICINFO {
                CharacterInfoTab::BasicInfo
            } else if t == IID_TAB_ABILITY {
                CharacterInfoTab::Ability
            } else if t == IID_TAB_UNION {
                CharacterInfoTab::Union
            } else {
                CharacterInfoTab::Unknown
            }
        },
        None => CharacterInfoTab::Unknown,
    }
}

/// Whether the window stays open after its close button was or was not clicked.
pub fn window_open_after_close(open: bool, close_clicked: bool) -> (res: bool)
    ensures
        res == (open && !close_clicked),
{
    if close_clicked {
        false
    } else {
        open
    }
}

/// The basic stats a player raises with stat points.
#[derive(PartialEq, Eq, Structural, Clone, Copy)]
pub enum BasicStatType {
    Strength,
    Dexterity,
    Intelligence,
    Concentration,
    Charm,
    Sense,
}

/// A player's basic stats.
#[derive(PartialEq, Eq, Structural, Clone, Copy)]
pub struct BasicStats {
    pub strength: i32,
    pub dexterity: i32,
    pub intelligence: i32,
    pub concentration: i32,
    pub charm: i32,
    pub sense: i32,
}

impl BasicStats {
    /// The value of one stat.
    pub open spec fn stat(self, stat_type: BasicStatType) -> i32 {
        match stat_type {
            BasicStatType::Strength => self.strength,
            BasicStatType::Dexterity => self.dexterity,
            BasicStatType::Intelligence => self.intelligence,
            BasicStatType::Concentration => self.concentration,
            BasicStatType::Charm => self.charm,
            BasicStatType::Sense => self.sense,
        }
    }

    /// The value of one stat.
    pub fn get(&self, stat_type: BasicStatType) -> (res: i32)
        ensures
            res == self.stat(stat_type),
            stat_type == BasicStatType::Strength ==> res == self.strength,
            stat_type == BasicStatType::Dexterity ==> res == self.dexterity,
            stat_type == BasicStatType::Intelligence ==> res == self.intelligence,
            stat_type == BasicStatType::Concentration ==> res == self.concentration,
            stat_type == BasicStatType::Charm ==> res == self.charm,
            stat_type == BasicStatType::Sense ==> res == self.sense,
    {
        match stat_type {
            BasicStatType::Strength => self.strength,
            BasicStatType::Dexterity => self.dexterity,
            BasicStatType::Intelligence => self.intelligence,
            BasicStatType::Concentration => self.concentration,
            BasicStatType::Charm => self.charm,
            BasicStatType::Sense => self.sense,
        }
    }

    /// Sets one stat; the others keep their values.
    pub fn set(&mut self, stat_type: BasicStatType, value: i32)
        ensures
            final(self).stat(stat_type) == value,
            forall|other: BasicStatType| other != stat_type ==> #[trigger] final(self).stat(other) == old(self).stat(other),
            final(self).strength == (if stat_type == BasicStatType::Strength { value } else { old(self).strength }),
            final(self).dexterity == (if stat_type == BasicStatType::Dexterity { value } else { old(self).dexterity }),
            final(self).intelligence == (if stat_type == BasicStatType::Intelligence { value } else { old(self).intelligence }),
            final(self).concentration == (if stat_type == BasicStatType::Concentration { value } else { old(self).concentration }),
            final(self).charm == (if stat_type == BasicStatType::Charm { value } else { old(self).charm }),
            final(self).sense == (if stat_type == BasicStatType::Sense { value } else { old(self).sense }),
    {
        match stat_type {
            BasicStatType::Strength => self.strength = value,
            BasicStatType::Dexterity => self.dexterity = value,
            BasicStatType::Intelligence => self.intelligence = value,
            BasicStatType::Concentration => self.concentration = value,
            BasicStatType::Charm => self.charm = value,
            BasicStatType::Sense => self.sense = value,
        }
    }
}

/// The basic stats whose ability values a hovered stat button shows: the
/// hovered stat raised by the simulated amount, the others as they are.
pub fn simulated_basic_stats(stats: &BasicStats, stat_type: BasicStatType, amount: i32) -> (res: BasicStats)
    requires
        i32::MIN <= stats.stat(stat_type) + amount <= i32::MAX,
    ensures
        res.stat(stat_type) == stats.stat(stat_type) + amount,
        forall|other: BasicStatType| other != stat_type ==> #[trigger] res.stat(other) == stats.stat(other),
        res.strength == stats.strength + (if stat_type == BasicStatType::Strength { amount } else { 0i32 }),
        res.dexterity == stats.dexterity + (if stat_type == BasicStatType::Dexterity { amount } else { 0i32 }),
        res.intelligence == stats.intelligence + (if stat_type == BasicStatType::Intelligence { amount } else { 0i32 }),
        res.concentration == stats.concentration + (if stat_type == BasicStatType::Concentration { amount } else { 0i32 }),
        res.charm == stats.charm + (if stat_type == BasicStatType::Charm { amount } else { 0i32 }),
        res.sense == stats.sense + (if stat_type == BasicStatType::Sense { amount } else { 0i32 }),
{
    let mut simulated = *stats;
    let raised: i32 = simulated.get(stat_type) + amount;
    simulated.set(stat_type, raised);
    simulated
}

/// How a stat value is shown: highlighted where the simulation changes it.
#[derive(PartialEq, Eq, Structural, Clone, Copy)]
pub enum StatColor {
    Positive,
    Normal,
}

/// The simulated value of a stat, highlighted where it differs from the
/// player's value.
pub fn get_simulated_stat_raw(simulated_value: i32, value: i32) -> (res: (i32, StatColor))
    ensures
        res.0 == simulated_value,
        res.1 == (if simulated_value != value { StatColor::Positive } else { StatColor::Normal }),
{
    let color = if simulated_value != value {
        StatColor::Positive
    } else {
        StatColor::Normal
    };
    (simulated_value, color)
}

/// The simulated value of a stat as text, highlighted where it differs from
/// the player's value.
pub fn get_simulated_stat(simulated_value: i32, value: i32) -> (res: (String, StatColor))
    ensures
        res.0@ == signed_decimal(simulated_value as int),
        res.1 == (if simulated_value != value { StatColor::Positive } else { StatColor::Normal }),
{
    let (raw_value, color): (i32, StatColor) = get_simulated_stat_raw(simulated_value, value);
    (signed_decimal_string(raw_value as i64), color)
}

/// The text "`numerator` / `denominator`".
pub fn fraction_label(numerator: u64, denominator: u64) -> (res: String)
    ensures
        res@ == decimal(numerator as nat) + seq![' ', '/', ' '] + decimal(denominator as nat),
{
    let mut text = String::new();
    push_decimal(&mut text, numerator);
    proof { reveal_strlit(" / "); }
    text.append(" / ");
    push_decimal(&mut text, denominator);
    text
}

/// The tooltip of a stat button.
pub open spec fn stat_increase_tooltip_spec(cost: u32) -> Seq<char> {
    "Required Points: "@ + decimal(cost as nat) + "\nShift: Simulate 10 points\nAlt: Simulate 100 points"@
}

/// The tooltip of a stat button: what raising the stat costs, and how to
/// simulate more points.
pub fn stat_increase_tooltip(cost: u32) -> (res: String)
    ensures
        res@ == stat_increase_tooltip_spec(cost),
{
    let mut text = String::from_str("Required Points: ");
    push_decimal(&mut text, cost as u64);
    text.append("\nShift: Simulate 10 points\nAlt: Simulate 100 points");
    text
}

/// What the pointer does to a stat button this frame.
#[derive(PartialEq, Eq, Structural, Clone, Copy)]
pub struct ButtonState {
    pub hovered: bool,
    pub clicked: bool,
}

/// What a stat button asks for this frame.
pub struct StatButtonOutcome {
    /// The basic stats whose ability values are to be simulated and shown.
    pub simulate: Option<BasicStats>,
    /// The tooltip to show by the button.
    pub tooltip: Option<String>,
    /// The stat that the server is to be asked to raise.
    pub increase: Option<BasicStatType>,
}

/// What a stat button does this frame. `button` is `None` where the button
/// was not drawn; `cost` is what raising the stat costs, `None` where it
/// cannot be raised; `connected` is whether there is a connection to the
/// game server.
pub fn stat_button_response(
    stat_type: BasicStatType,
    button: Option<ButtonState>,
    basic_stats: &BasicStats,
    simulate_amount: i32,
    cost: Option<u32>,
    stat_points: u32,
    connected: bool,
) -> (res: StatButtonOutcome)
    requires
        button matches Some(b) && b.hovered ==> i32::MIN <= basic_stats.stat(stat_type) + simulate_amount <= i32::MAX,
    ensures
        match button {
            None => res.simulate is None && res.tooltip is None && res.increase is None,
            Some(b) => {
                &&& (res.simulate is Some <==> b.hovered)
                &&& (res.simulate matches Some(s) ==> {
                    &&& s.stat(stat_type) == basic_stats.stat(stat_type) + simulate_amount
                    &&& forall|other: BasicStatType| other != stat_type ==> #[trigger] s.stat(other) == basic_stats.stat(other)
                })
                &&& (res.tooltip is Some <==> (b.hovered && cost is Some))
                &&& (res.tooltip matches Some(t) ==> t@ == stat_increase_tooltip_spec(cost->0))
                &&& (res.increase is Some <==> (b.clicked && cost is Some && cost->0 <= stat_points && connected))
                &&& (res.increase matches Some(t) ==> t == stat_type)
            },
        },
{
    let b = match button {
        Some(b) => b,
        None => {
            return StatButtonOutcome { simulate: None, tooltip: None, increase: None };
        },
    };
    let simulate = if b.hovered {
        Some(simulated_basic_stats(basic_stats, stat_type, simulate_amount))
    } else {
        None
    };
    let cost: u32 = match cost {
        Some(c) => c,
        None => {
            return StatButtonOutcome { simulate, tooltip: None, increase: None };
        },
    };
    let tooltip = if b.hovered {
        Some(stat_increase_tooltip(cost))
    } else {
        None
    };
    if !b.clicked || cost > stat_points || !connected {
        return StatButtonOutcome { simulate, tooltip, increase: None };
    }
    StatButtonOutcome { simulate, tooltip, increase: Some(stat_type) }
}

/// Each stat type reads the field of the same name.
pub proof fn law_stat_reads_its_field(stats: BasicStats)
    ensures
        stats.stat(BasicStatType::Strength) == stats.strength,
        stats.stat(BasicStatType::Dexterity) == stats.dexterity,
        stats.stat(BasicStatType::Intelligence) == stats.intelligence,
        stats.stat(BasicStatType::Concentration) == stats.concentration,
        stats.stat(BasicStatType::Charm) == stats.charm,
        stats.stat(BasicStatType::Sense) == stats.sense,
{
}

/// The modifier keys select one of three amounts, Alt before Shift.
pub proof fn law_simulate_amount(alt: bool, shift: bool)
    ensures
        alt ==> simulate_amount_spec(alt, shift) == 100,
        !alt && shift ==> simulate_amount_spec(alt, shift) == 10,
        !alt && !shift ==> simulate_amount_spec(alt, shift) == 1,
{
}

/// The tooltip names the cost, in decimal, between its fixed opening and its
/// fixed hints.
pub proof fn law_stat_increase_tooltip(cost: u32)
    ensures
        stat_increase_tooltip_spec(cost).take(17) == "Required Points: "@,
        stat_increase_tooltip_spec(cost).len() >= 17 + 1 + 51,
        stat_increase_tooltip_spec(cost).skip(stat_increase_tooltip_spec(cost).len() - 51)
            == "\nShift: Simulate 10 points\nAlt: Simulate 100 points"@,
        decimal_value(stat_increase_tooltip_spec(cost).subrange(17, stat_increase_tooltip_spec(cost).len() - 51)) == cost,
{
    reveal_strlit("Required Points: ");
    reveal_strlit("\nShift: Simulate 10 points\nAlt: Simulate 100 points");
    lemma_decimal_round_trip(cost as nat);
    let head = "Required Points: "@;
    let digits = decimal(cost as nat);
    let tail = "\nShift: Simulate 10 points\nAlt: Simulate 100 points"@;
    let m = stat_increase_tooltip_spec(cost);
    assert(m =~= head + digits + tail);
    assert(m.take(17) =~= head);
    assert(m.skip(m.len() - 51) =~= tail);
    assert(m.subrange(17, m.len() - 51) =~= digits);
}

} // verus!
