//! The skill list debug window: which ability types skills have, which skills
//! the filters let through, and which buttons a skill's row offers.

use vstd::prelude::*;

use crate::name_pattern::{
    compile_pattern, escape_literal, escaped, pattern_is_match, regex_compiles, regex_is_match,
};
use crate::text::{decimal, decimal_value, lemma_decimal_round_trip, push_decimal};

verus! {

/// What the skill list reads of a skill. Ability types and motions are given
/// by their numbers.
pub struct SkillSummary {
    pub id: u16,
    pub name: String,
    pub base_skill_id: Option<u16>,
    pub casting_motion_id: Option<u16>,
    pub casting_repeat_motion_id: Option<u16>,
    pub action_motion_id: Option<u16>,
    /// The ability type of each entry of the skill's use-ability list.
    pub use_ability: Vec<u32>,
    /// The ability type of each slot of the skill's add-ability list.
    pub add_ability: Vec<Option<u32>>,
}

/// The state of the skill list window.
pub struct UiStateDebugSkillList {
    pub ability_types: Vec<u32>,
    pub filter_name: String,
    pub filter_ability_type: Option<u32>,
    pub filter_castable: bool,
    pub filter_base: bool,
    pub filter_named: bool,
    pub filtered_skills: Vec<u16>,
}

impl Default for UiStateDebugSkillList {
    fn default() -> (res: Self)
        ensures
            res.ability_types@.len() == 0,
            res.filter_name@.len() == 0,
            res.filter_ability_type is None,
            !res.filter_castable,
            res.filter_base,
            res.filter_named,
            res.filtered_skills@.len() == 0,
    {
        UiStateDebugSkillList {
            ability_types: Vec::new(),
            filter_name: String::new(),
            filter_ability_type: None,
            filter_castable: false,
            filter_base: true,
            filter_named: true,
            filtered_skills: Vec::new(),
        }
    }
}

/// `acc` followed by the elements of `s` that are not already there, in the
/// order of their first occurrence.
pub open spec fn extend_distinct(acc: Seq<u32>, s: Seq<u32>) -> Seq<u32>
    decreases s.len(),
{
    if s.len() == 0 {
        acc
    } else {
        let prev = extend_distinct(acc, s.drop_last());
        if prev.contains(s.last()) {
            prev
        } else {
            prev.push(s.last())
        }
    }
}

/// The ability types of the filled slots, in slot order.
pub open spec fn present_types(slots: Seq<Option<u32>>) -> Seq<u32>
    decreases slots.len(),
{
    if slots.len() == 0 {
        Seq::empty()
    } else {
        let prev = present_types(slots.drop_last());
        match slots.last() {
            Some(t) => prev.push(t),
            None => prev,
        }
    }
}

/// The distinct ability types of a skill: those of its use-ability list,
/// then those of its add-ability slots, each once, in order of appearance.
pub open spec fn skill_ability_types(skill: SkillSummary) -> Seq<u32> {
    extend_distinct(extend_distinct(Seq::empty(), skill.use_ability@), present_types(skill.add_ability@))
}

/// The distinct ability types of all skills, in order of appearance.
pub open spec fn all_ability_types(skills: Seq<SkillSummary>) -> Seq<u32>
    decreases skills.len(),
{
    if skills.len() == 0 {
        Seq::empty()
    } else {
        extend_distinct(all_ability_types(skills.drop_last()), skill_ability_types(skills.last()))
    }
}

/// The pattern that the name filter compiles: case-insensitive, the filter
/// text taken literally.
pub open spec fn name_filter_pattern(filter_name: Seq<char>) -> Seq<char> {
    seq!['(', '?', 'i', ')'] + escaped(filter_name)
}

/// Whether a skill's name passes the name filter; an empty filter lets every
/// name through.
pub open spec fn name_passes(filter_name: Seq<char>, name: Seq<char>) -> bool {
    filter_name.len() == 0 || regex_is_match(name_filter_pattern(filter_name), name)
}

/// Whether a skill passes the filters other than the name filter.
pub open spec fn passes_other_filters(state: UiStateDebugSkillList, skill: SkillSummary) -> bool {
    &&& !(state.filter_castable && skill.casting_motion_id is None)
    &&& !(state.filter_base && skill.base_skill_id is Some && skill.base_skill_id->0 != skill.id)
    &&& !(state.filter_named && skill.name@.len() == 0)
    &&& (state.filter_ability_type matches Some(t) ==> skill_ability_types(skill).contains(t))
}

/// Whether a skill is listed under the window's filters.
pub open spec fn skill_selected(state: UiStateDebugSkillList, skill: SkillSummary) -> bool {
    passes_other_filters(state, skill) && name_passes(state.filter_name@, skill.name@)
}

/// The ids of the listed skills, in the order of `skills`.
pub open spec fn filtered_skill_ids(state: UiStateDebugSkillList, skills: Seq<SkillSummary>) -> Seq<u16>
    decreases skills.len(),
{
    if skills.len() == 0 {
        Seq::empty()
    } else {
        let prev = filtered_skill_ids(state, skills.drop_last());
        if skill_selected(state, skills.last()) {
            prev.push(skills.last().id)
        } else {
            prev
        }
    }
}


proof fn lemma_extend_distinct_contains(acc: Seq<u32>, s: Seq<u32>)
    ensures
        forall|x: u32| #[trigger] extend_distinct(acc, s).contains(x) <==> (acc.contains(x) || s.contains(x)),
    decreases s.len(),
{
    if s.len() > 0 {
        let init = s.drop_last();
        lemma_extend_distinct_contains(acc, init);
        let prev = extend_distinct(acc, init);
        assert forall|x: u32| #[trigger] extend_distinct(acc, s).contains(x) <==> (acc.contains(x) || s.contains(x)) by {
            if s.contains(x) && !init.contains(x) {
                let k = choose|k: int| 0 <= k < s.len() && s[k] == x;
                if k < s.len() - 1 {
                    assert(init[k] == x);
                }
                assert(x == s.last());
            }
            if init.contains(x) {
                let k = choose|k: int| 0 <= k < init.len() && init[k] == x;
                assert(s[k] == x);
            }
            if !prev.contains(s.last()) {
                assert(prev.push(s.last())[prev.len() as int] == s.last());
                if prev.push(s.last()).contains(x) {
                    let k = choose|k: int| 0 <= k < prev.len() + 1 && prev.push(s.last())[k] == x;
                    if k < prev.len() {
                        assert(prev[k] == x);
                    }
                }
                if prev.contains(x) {
                    let k = choose|k: int| 0 <= k < prev.len() && prev[k] == x;
                    assert(prev.push(s.last())[k] == x);
                }
            }
            assert(s[s.len() - 1] == s.last());
        }
    }
}

proof fn lemma_extend_distinct_no_duplicates(acc: Seq<u32>, s: Seq<u32>)
    requires
        acc.no_duplicates(),
    ensures
        extend_distinct(acc, s).no_duplicates(),
    decreases s.len(),
{
    if s.len() > 0 {
        lemma_extend_distinct_no_duplicates(acc, s.drop_last());
        let prev = extend_distinct(acc, s.drop_last());
        if !prev.contains(s.last()) {
            let next = prev.push(s.last());
            assert forall|i: int, j: int| 0 <= i < next.len() && 0 <= j < next.len() && i != j implies next[i] != next[j] by {
                if i == prev.len() && j < prev.len() {
                    assert(prev[j] == next[j]);
                } else if j == prev.len() && i < prev.len() {
                    assert(prev[i] == next[i]);
                }
            }
        }
    }
}

proof fn lemma_present_types_contains(slots: Seq<Option<u32>>)
    ensures
        forall|t: u32| #[trigger] present_types(slots).contains(t) <==> exists|i: int| 0 <= i < slots.len() && slots[i] == Some(t),
    decreases slots.len(),
{
    if slots.len() > 0 {
        let init = slots.drop_last();
        lemma_present_types_contains(init);
        let prev = present_types(init);
        assert forall|t: u32| #[trigger] present_types(slots).contains(t) <==> exists|i: int| 0 <= i < slots.len() && slots[i] == Some(t) by {
            if exists|i: int| 0 <= i < slots.len() && slots[i] == Some(t) {
                let i = choose|i: int| 0 <= i < slots.len() && slots[i] == Some(t);
                if i < slots.len() - 1 {
                    assert(init[i] == Some(t));
                    assert(prev.contains(t));
                    let k = choose|k: int| 0 <= k < prev.len() && prev[k] == t;
                    match slots.last() {
                        Some(u) => { assert(prev.push(u)[k] == t); },
                        None => {},
                    }
                } else {
                    assert(slots.last() == Some(t));
                    assert(prev.push(t)[prev.len() as int] == t);
                }
            }
            if present_types(slots).contains(t) {
                let k = choose|k: int| 0 <= k < present_types(slots).len() && present_types(slots)[k] == t;
                if k < prev.len() {
                    match slots.last() {
                        Some(u) => { assert(prev.push(u)[k] == prev[k]); },
                        None => {},
                    }
                    assert(prev.contains(t));
                    let i = choose|i: int| 0 <= i < init.len() && init[i] == Some(t);
                    assert(slots[i] == Some(t));
                } else {
                    assert(slots[slots.len() - 1] == Some(t));
                }
            }
        }
    }
}

/// A skill's ability types hold each type once, and they are exactly the
/// types of its use-ability list and of its filled add-ability slots.
pub proof fn law_skill_ability_types(skill: SkillSummary)
    ensures
        skill_ability_types(skill).no_duplicates(),
        forall|t: u32| #[trigger] skill_ability_types(skill).contains(t) <==> (skill.use_ability@.contains(t)
            || exists|i: int| 0 <= i < skill.add_ability@.len() && skill.add_ability@[i] == Some(t)),
{
    let first = extend_distinct(Seq::empty(), skill.use_ability@);
    lemma_extend_distinct_no_duplicates(Seq::empty(), skill.use_ability@);
    lemma_extend_distinct_no_duplicates(first, present_types(skill.add_ability@));
    lemma_extend_distinct_contains(Seq::empty(), skill.use_ability@);
    lemma_extend_distinct_contains(first, present_types(skill.add_ability@));
    lemma_present_types_contains(skill.add_ability@);
    assert forall|t: u32| #[trigger] skill_ability_types(skill).contains(t) <==> (skill.use_ability@.contains(t)
        || exists|i: int| 0 <= i < skill.add_ability@.len() && skill.add_ability@[i] == Some(t)) by {
        assert(!Seq::<u32>::empty().contains(t));
        assert(first.contains(t) <==> skill.use_ability@.contains(t));
        assert(present_types(skill.add_ability@).contains(t) <==> exists|i: int| 0 <= i < skill.add_ability@.len() && skill.add_ability@[i] == Some(t));
    }
}

/// The ability types offered by the effect filter hold each type once, and
/// they are exactly the types that some skill has.
pub proof fn law_all_ability_types(skills: Seq<SkillSummary>)
    ensures
        all_ability_types(skills).no_duplicates(),
        forall|t: u32| #[trigger] all_ability_types(skills).contains(t) <==> exists|i: int| 0 <= i < skills.len() && skill_ability_types(skills[i]).contains(t),
    decreases skills.len(),
{
    if skills.len() == 0 {
        assert forall|t: u32| #[trigger] all_ability_types(skills).contains(t) <==> exists|i: int| 0 <= i < skills.len() && skill_ability_types(skills[i]).contains(t) by {
            assert(!Seq::<u32>::empty().contains(t));
        }
    } else {
        let init = skills.drop_last();
        law_all_ability_types(init);
        let prev = all_ability_types(init);
        lemma_extend_distinct_no_duplicates(prev, skill_ability_types(skills.last()));
        lemma_extend_distinct_contains(prev, skill_ability_types(skills.last()));
        assert forall|t: u32| #[trigger] all_ability_types(skills).contains(t) <==> exists|i: int| 0 <= i < skills.len() && skill_ability_types(skills[i]).contains(t) by {
            if exists|i: int| 0 <= i < skills.len() && skill_ability_types(skills[i]).contains(t) {
                let i = choose|i: int| 0 <= i < skills.len() && skill_ability_types(skills[i]).contains(t);
                if i < skills.len() - 1 {
                    assert(init[i] == skills[i]);
                } else {
                    assert(skills.last() == skills[i]);
                }
            }
            if prev.contains(t) {
                let i = choose|i: int| 0 <= i < init.len() && skill_ability_types(init[i]).contains(t);
                assert(skills[i] == init[i]);
            }
            if skill_ability_types(skills.last()).contains(t) {
                assert(skills[skills.len() - 1] == skills.last());
            }
        }
    }
}

/// Whether `id` is the id of a skill in `skills` that passes the filters.
pub open spec fn id_of_selected_skill(state: UiStateDebugSkillList, skills: Seq<SkillSummary>, id: u16) -> bool {
    exists|i: int| 0 <= i < skills.len() && skills[i].id == id && skill_selected(state, #[trigger] skills[i])
}

/// The listed skills are, in the order given, exactly the skills that pass the
/// filters: each listed id belongs to a skill that passes, every skill that
/// passes is listed, and no more ids are listed than there are skills.
pub proof fn law_filtered_skills(state: UiStateDebugSkillList, skills: Seq<SkillSummary>)
    ensures
        filtered_skill_ids(state, skills).len() <= skills.len(),
        forall|k: int| 0 <= k < filtered_skill_ids(state, skills).len()
            ==> id_of_selected_skill(state, skills, #[trigger] filtered_skill_ids(state, skills)[k]),
        forall|i: int| 0 <= i < skills.len() && skill_selected(state, #[trigger] skills[i])
            ==> filtered_skill_ids(state, skills).contains(skills[i].id),
    decreases skills.len(),
{
    if skills.len() > 0 {
        let init = skills.drop_last();
        law_filtered_skills(state, init);
        let prev = filtered_skill_ids(state, init);
        let cur = filtered_skill_ids(state, skills);
        assert forall|k: int| 0 <= k < cur.len() implies id_of_selected_skill(state, skills, #[trigger] cur[k]) by {
            if k < prev.len() {
                assert(cur[k] == prev[k]);
                assert(id_of_selected_skill(state, init, prev[k]));
                let i = choose|i: int| 0 <= i < init.len() && init[i].id == prev[k] && skill_selected(state, #[trigger] init[i]);
                assert(skills[i] == init[i]);
            } else {
                let i: int = skills.len() - 1;
                assert(skills[i] == skills.last());
                assert(skills[i].id == cur[k] && skill_selected(state, skills[i]));
            }
        }
        assert forall|i: int| 0 <= i < skills.len() && skill_selected(state, #[trigger] skills[i])
            implies cur.contains(skills[i].id) by {
            if i < skills.len() - 1 {
                assert(init[i] == skills[i]);
                let k = choose|k: int| 0 <= k < prev.len() && prev[k] == init[i].id;
                assert(cur[k] == prev[k]);
            } else {
                assert(skills.last() == skills[i]);
                assert(cur[prev.len() as int] == skills[i].id);
            }
        }
    }
}

/// With every filter off, every skill is listed, in the order given.
pub proof fn law_no_filter_lists_all(state: UiStateDebugSkillList, skills: Seq<SkillSummary>)
    requires
        !state.filter_castable,
        !state.filter_base,
        !state.filter_named,
        state.filter_ability_type is None,
        state.filter_name@.len() == 0,
    ensures
        filtered_skill_ids(state, skills) == skills.map_values(|s: SkillSummary| s.id),
    decreases skills.len(),
{
    if skills.len() > 0 {
        law_no_filter_lists_all(state, skills.drop_last());
        assert(skills.map_values(|s: SkillSummary| s.id) =~= skills.drop_last().map_values(|s: SkillSummary| s.id).push(skills.last().id));
    } else {
        assert(skills.map_values(|s: SkillSummary| s.id) =~= Seq::<u16>::empty());
    }
}


/// The filters other than the name filter, stated over the skill's own
/// lists: castable skills only, base skills only, named skills only, and with
/// an effect chosen, only skills whose use-ability list or filled add-ability
/// slots have that ability type.
pub proof fn law_skill_filters(state: UiStateDebugSkillList, skill: SkillSummary)
    ensures
        passes_other_filters(state, skill) == (
            !(state.filter_castable && skill.casting_motion_id is None)
            && !(state.filter_castable && skill.casting_motion_id is None)
            && !(state.filter_base && skill.base_skill_id is Some && skill.base_skill_id->0 != skill.id)
            && !(state.filter_named && skill.name@.len() == 0)
            && (state.filter_ability_type matches Some(t) ==> (skill.use_ability@.contains(t)
                || exists|i: int| 0 <= i < skill.add_ability@.len() && skill.add_ability@[i] == Some(t)))),
{
    law_skill_ability_types(skill);
}

/// A skill without a casting motion never gets casting buttons; outside the
/// game and the model viewer there are none; the model viewer offers both of
/// its buttons; in the game the buttons follow the player's command.
pub proof fn law_row_cast_control(app_state: AppStateKind, castable: bool, player: Option<PlayerCommandKind>, skill_id: u16)
    ensures
        !castable ==> row_cast_control(app_state, castable, player, skill_id) is None,
        app_state == AppStateKind::Other ==> row_cast_control(app_state, castable, player, skill_id) is None,
        app_state == AppStateKind::ModelViewer && castable
            ==> row_cast_control(app_state, castable, player, skill_id) == Some(CastControl::ModelViewerCastAndAction),
        app_state == AppStateKind::Game && castable && player is None
            ==> row_cast_control(app_state, castable, player, skill_id) is None,
        app_state == AppStateKind::Game && castable && player == Some(PlayerCommandKind::Other)
            ==> row_cast_control(app_state, castable, player, skill_id) == Some(CastControl::Cast),
        app_state == AppStateKind::Game && castable
            && player == Some(PlayerCommandKind::CastSkill { skill_id, ready_action: false })
            ==> row_cast_control(app_state, castable, player, skill_id) == Some(CastControl::Action),
        forall|casting: u16, ready: bool| app_state == AppStateKind::Game && castable
            && player == Some(PlayerCommandKind::CastSkill { skill_id: casting, ready_action: ready })
            && (casting != skill_id || ready)
            ==> #[trigger] row_cast_control(app_state, castable, Some(PlayerCommandKind::CastSkill { skill_id: casting, ready_action: ready }), skill_id) == Some(CastControl::Stop),
{
}

/// An empty name filter lets every name through.
pub proof fn law_empty_name_filter(name: Seq<char>)
    ensures
        name_passes(Seq::empty(), name),
{
}


/// The listed ids are the ids of the skills that pass the filters, in the
/// order of the skills: the selection keeps their order.
pub proof fn law_filtered_skills_in_order(state: UiStateDebugSkillList, skills: Seq<SkillSummary>)
    ensures
        filtered_skill_ids(state, skills)
            == skills.filter(|s: SkillSummary| skill_selected(state, s)).map_values(|s: SkillSummary| s.id),
    decreases skills.len(),
{
    reveal(Seq::filter);
    let pred = |s: SkillSummary| skill_selected(state, s);
    if skills.len() == 0 {
        assert(skills.filter(pred) =~= Seq::<SkillSummary>::empty());
        assert(skills.filter(pred).map_values(|s: SkillSummary| s.id) =~= Seq::<u16>::empty());
    } else {
        law_filtered_skills_in_order(state, skills.drop_last());
        let sub = skills.drop_last().filter(pred);
        if pred(skills.last()) {
            assert(skills.filter(pred) == sub.push(skills.last()));
            assert(sub.push(skills.last()).map_values(|s: SkillSummary| s.id)
                =~= sub.map_values(|s: SkillSummary| s.id).push(skills.last().id));
        } else {
            assert(skills.filter(pred) == sub);
        }
    }
}

/// A skill is listed when it passes the other filters and its name passes
/// the name filter: any name under an empty filter, else a name that the
/// case-insensitive pattern of the literal filter text matches.
pub proof fn law_skill_selected(state: UiStateDebugSkillList, skill: SkillSummary)
    ensures
        skill_selected(state, skill) == (passes_other_filters(state, skill) && (state.filter_name@.len() == 0
            || regex_is_match("(?i)"@ + escaped(state.filter_name@), skill.name@))),
{
    reveal_strlit("(?i)");
    assert("(?i)"@ =~= seq!['(', '?', 'i', ')']);
}

/// The name filter's pattern is the case-insensitive flag followed by the
/// filter text escaped.
pub proof fn law_name_filter_pattern(filter_name: Seq<char>)
    ensures
        name_filter_pattern(filter_name).take(4) == "(?i)"@,
        name_filter_pattern(filter_name).skip(4) == escaped(filter_name),
{
    reveal_strlit("(?i)");
    assert(name_filter_pattern(filter_name).take(4) =~= "(?i)"@);
    assert(name_filter_pattern(filter_name).skip(4) =~= escaped(filter_name));
}

proof fn lemma_extend_distinct_prefix(acc: Seq<u32>, s: Seq<u32>)
    ensures
        acc.len() <= extend_distinct(acc, s).len(),
        extend_distinct(acc, s).take(acc.len() as int) == acc,
    decreases s.len(),
{
    if s.len() == 0 {
        assert(acc.take(acc.len() as int) =~= acc);
    } else {
        lemma_extend_distinct_prefix(acc, s.drop_last());
        let prev = extend_distinct(acc, s.drop_last());
        if !prev.contains(s.last()) {
            assert(prev.push(s.last()).take(acc.len() as int) =~= prev.take(acc.len() as int));
        }
    }
}

/// Ability types keep their order of appearance: a skill's use-ability types
/// come first, in their order, and the types gathered from the first skills
/// stay at the front as more skills are added.
pub proof fn law_ability_types_order(skill: SkillSummary, skills: Seq<SkillSummary>, k: int)
    requires
        0 <= k <= skills.len(),
    ensures
        skill_ability_types(skill).take(extend_distinct(Seq::empty(), skill.use_ability@).len() as int)
            == extend_distinct(Seq::empty(), skill.use_ability@),
        all_ability_types(skills.take(k)).len() <= all_ability_types(skills).len(),
        all_ability_types(skills).take(all_ability_types(skills.take(k)).len() as int)
            == all_ability_types(skills.take(k)),
    decreases skills.len() - k,
{
    lemma_extend_distinct_prefix(extend_distinct(Seq::empty(), skill.use_ability@), present_types(skill.add_ability@));
    if k < skills.len() {
        law_ability_types_order(skill, skills, k + 1);
        let small = all_ability_types(skills.take(k));
        let big = all_ability_types(skills.take(k + 1));
        assert(skills.take(k + 1).drop_last() =~= skills.take(k));
        lemma_extend_distinct_prefix(small, skill_ability_types(skills.take(k + 1).last()));
        assert(big == extend_distinct(small, skill_ability_types(skills.take(k + 1).last())));
        assert(small.len() <= big.len());
        let whole = all_ability_types(skills);
        assert(whole.take(small.len() as int) =~= whole.take(big.len() as int).take(small.len() as int));
    } else {
        assert(skills.take(k) =~= skills);
        assert(all_ability_types(skills).take(all_ability_types(skills).len() as int) =~= all_ability_types(skills));
    }
}

fn vec_contains(v: &Vec<u32>, x: u32) -> (res: bool)
    ensures
        res == v@.contains(x),
{
    let mut i: usize = 0;
    while i < v.len()
        invariant
            i <= v.len(),
            forall|j: int| 0 <= j < i ==> v@[j] != x,
        decreases v.len() - i,
    {
        if v[i] == x {
            assert(v@[i as int] == x);
            return true;
        }
        i += 1;
    }
    false
}

/// Appends `x` to `acc` unless it is there already.
fn push_distinct(acc: &mut Vec<u32>, x: u32)
    ensures
        final(acc)@ == (if old(acc)@.contains(x) { old(acc)@ } else { old(acc)@.push(x) }),
{
    if !vec_contains(acc, x) {
        acc.push(x);
    }
}

proof fn lemma_extend_distinct_push(acc: Seq<u32>, s: Seq<u32>, x: u32)
    ensures
        extend_distinct(acc, s.push(x)) == (if extend_distinct(acc, s).contains(x) {
            extend_distinct(acc, s)
        } else {
            extend_distinct(acc, s).push(x)
        }),
{
    assert(s.push(x).drop_last() =~= s);
}

/// The distinct ability types of a skill.
pub fn get_skill_ability_types(skill: &SkillSummary) -> (res: Vec<u32>)
    ensures
        res@ == skill_ability_types(*skill),
{
    let mut ability_types: Vec<u32> = Vec::new();
    let mut i: usize = 0;
    while i < skill.use_ability.len()
        invariant
            i <= skill.use_ability@.len(),
            ability_types@ == extend_distinct(Seq::empty(), skill.use_ability@.take(i as int)),
        decreases skill.use_ability@.len() - i,
    {
        proof {
            lemma_extend_distinct_push(Seq::empty(), skill.use_ability@.take(i as int), skill.use_ability@[i as int]);
            assert(skill.use_ability@.take(i + 1) =~= skill.use_ability@.take(i as int).push(skill.use_ability@[i as int]));
        }
        push_distinct(&mut ability_types, skill.use_ability[i]);
        i += 1;
    }
    assert(skill.use_ability@.take(i as int) =~= skill.use_ability@);
    let ghost base = ability_types@;
    let mut k: usize = 0;
    while k < skill.add_ability.len()
        invariant
            k <= skill.add_ability@.len(),
            base == extend_distinct(Seq::empty(), skill.use_ability@),
            ability_types@ == extend_distinct(base, present_types(skill.add_ability@.take(k as int))),
        decreases skill.add_ability@.len() - k,
    {
        let ghost prefix = skill.add_ability@.take(k as int);
        assert(skill.add_ability@.take(k + 1).drop_last() =~= prefix);
        match skill.add_ability[k] {
            Some(t) => {
                proof {
                    lemma_extend_distinct_push(base, present_types(prefix), t);
                }
                push_distinct(&mut ability_types, t);
            },
            None => {},
        }
        k += 1;
    }
    assert(skill.add_ability@.take(k as int) =~= skill.add_ability@);
    ability_types
}

/// The distinct ability types of all skills.
pub fn get_ability_types(skills: &Vec<SkillSummary>) -> (res: Vec<u32>)
    ensures
        res@ == all_ability_types(skills@),
{
    let mut ability_types: Vec<u32> = Vec::new();
    let mut i: usize = 0;
    while i < skills.len()
        invariant
            i <= skills@.len(),
            ability_types@ == all_ability_types(skills@.take(i as int)),
        decreases skills@.len() - i,
    {
        let skill_types = get_skill_ability_types(&skills[i]);
        let ghost start = ability_types@;
        let mut j: usize = 0;
        while j < skill_types.len()
            invariant
                j <= skill_types@.len(),
                ability_types@ == extend_distinct(start, skill_types@.take(j as int)),
            decreases skill_types@.len() - j,
        {
            proof {
                lemma_extend_distinct_push(start, skill_types@.take(j as int), skill_types@[j as int]);
                assert(skill_types@.take(j + 1) =~= skill_types@.take(j as int).push(skill_types@[j as int]));
            }
            push_distinct(&mut ability_types, skill_types[j]);
            j += 1;
        }
        proof {
            assert(skill_types@.take(j as int) =~= skill_types@);
            assert(skills@.take(i + 1).drop_last() =~= skills@.take(i as int));
            assert(skills@.take(i + 1).last() == skills@[i as int]);
        }
        i += 1;
    }
    assert(skills@.take(i as int) =~= skills@);
    ability_types
}

/// The list of ability types that the effect filter offers is computed once,
/// the first time the window is shown with it empty.
pub fn refresh_ability_types(state: &mut UiStateDebugSkillList, skills: &Vec<SkillSummary>)
    ensures
        final(state).ability_types@ == (if old(state).ability_types@.len() == 0 {
            all_ability_types(skills@)
        } else {
            old(state).ability_types@
        }),
        final(state).filter_name == old(state).filter_name,
        final(state).filter_ability_type == old(state).filter_ability_type,
        final(state).filter_castable == old(state).filter_castable,
        final(state).filter_base == old(state).filter_base,
        final(state).filter_named == old(state).filter_named,
        final(state).filtered_skills == old(state).filtered_skills,
{
    if state.ability_types.len() == 0 {
        state.ability_types = get_ability_types(skills);
    }
}

/// Whether the list must be filtered again after the controls were drawn: a
/// control changed, or the name filter is empty and nothing is listed.
pub fn controls_changed(state: &UiStateDebugSkillList, control_changed: bool) -> (res: bool)
    ensures
        res == (control_changed || (state.filter_name@.len() == 0 && state.filtered_skills@.len() == 0)),
{
    control_changed || (state.filter_name.as_str().is_empty() && state.filtered_skills.len() == 0)
}

/// Whether a skill is listed, given whether its name passed the name filter.
pub fn skill_passes_filter(state: &UiStateDebugSkillList, skill: &SkillSummary, name_passed: bool) -> (res: bool)
    ensures
        res == (passes_other_filters(*state, *skill) && name_passed),
        res == (name_passed
            && !(state.filter_castable && skill.casting_motion_id is None)
            && !(state.filter_base && skill.base_skill_id is Some && skill.base_skill_id->0 != skill.id)
            && !(state.filter_named && skill.name@.len() == 0)
            && (state.filter_ability_type matches Some(t) ==> (skill.use_ability@.contains(t)
                || exists|i: int| 0 <= i < skill.add_ability@.len() && skill.add_ability@[i] == Some(t)))),
{
    proof {
        law_skill_filters(*state, *skill);
    }
    if state.filter_castable && skill.casting_motion_id.is_none() {
        return false;
    }
    if !name_passed {
        return false;
    }
    if state.filter_base {
        match skill.base_skill_id {
            Some(base) => {
                if base != skill.id {
                    return false;
                }
            },
            None => {},
        }
    }
    if state.filter_named && skill.name.as_str().is_empty() {
        return false;
    }
    match state.filter_ability_type {
        Some(t) => {
            let types = get_skill_ability_types(skill);
            vec_contains(&types, t)
        },
        None => true,
    }
}

/// The name filter could not be compiled into a regular expression.
pub enum SkillFilterError {
    InvalidNameFilter,
}

/// The pattern of the name filter.
pub fn name_filter_pattern_string(filter_name: &str) -> (res: String)
    ensures
        res@ == name_filter_pattern(filter_name@),
{
    let mut pattern = String::from_str("(?i)");
    proof { reveal_strlit("(?i)"); }
    let escaped_name = escape_literal(filter_name);
    pattern.append(escaped_name.as_str());
    pattern
}

/// Lists the skills that pass the window's filters, in the order given. When
/// the name filter does not compile, the state is left as it was.
pub fn set_filtered_skills(state: &mut UiStateDebugSkillList, skills: &Vec<SkillSummary>) -> (res: Result<(), SkillFilterError>)
    ensures
        res is Ok <==> (old(state).filter_name@.len() == 0 || regex_compiles(name_filter_pattern(old(state).filter_name@))),
        res is Ok ==> final(state).filtered_skills@ == filtered_skill_ids(*old(state), skills@),
        res is Err ==> final(state).filtered_skills == old(state).filtered_skills,
        final(state).ability_types == old(state).ability_types,
        final(state).filter_name == old(state).filter_name,
        final(state).filter_ability_type == old(state).filter_ability_type,
        final(state).filter_castable == old(state).filter_castable,
        final(state).filter_base == old(state).filter_base,
        final(state).filter_named == old(state).filter_named,
{
    let compiled = if !state.filter_name.as_str().is_empty() {
        let pattern = name_filter_pattern_string(state.filter_name.as_str());
        match compile_pattern(pattern) {
            Ok(c) => Some(c),
            Err(_) => {
                return Err(SkillFilterError::InvalidNameFilter);
            },
        }
    } else {
        None
    };
    let ghost st = *state;
    let mut filtered: Vec<u16> = Vec::new();
    let mut i: usize = 0;
    while i < skills.len()
        invariant
            i <= skills@.len(),
            st == *state,
            compiled is None <==> st.filter_name@.len() == 0,
            compiled matches Some(c) ==> c.pattern() == name_filter_pattern(st.filter_name@),
            filtered@ == filtered_skill_ids(st, skills@.take(i as int)),
        decreases skills@.len() - i,
    {
        let skill = &skills[i];
        let name_passed = match &compiled {
            Some(c) => pattern_is_match(c, skill.name.as_str()),
            None => true,
        };
        if skill_passes_filter(state, skill, name_passed) {
            filtered.push(skill.id);
        }
        proof {
            assert(skills@.take(i + 1).drop_last() =~= skills@.take(i as int));
            assert(skills@.take(i + 1).last() == skills@[i as int]);
        }
        i += 1;
    }
    assert(skills@.take(i as int) =~= skills@);
    state.filtered_skills = filtered;
    Ok(())
}

/// The chat command that teaches the player a skill.
pub fn learn_skill_command(skill_id: u16) -> (res: String)
    ensures
        res@ == seq!['/', 's', 'k', 'i', 'l', 'l', ' ', 'a', 'd', 'd', ' '] + decimal(skill_id as nat),
        res@.len() > 11,
        decimal_value(res@.skip(11)) == skill_id,
{
    let mut text = String::from_str("/skill add ");
    proof { reveal_strlit("/skill add "); }
    push_decimal(&mut text, skill_id as u64);
    proof {
        lemma_decimal_round_trip(skill_id as nat);
        let head = seq!['/', 's', 'k', 'i', 'l', 'l', ' ', 'a', 'd', 'd', ' '];
        assert("/skill add "@ =~= head);
        assert(text@ =~= head + decimal(skill_id as nat));
        assert(text@.skip(11) =~= decimal(skill_id as nat));
    }
    text
}

/// The state the application is in, as far as the skill list cares.
#[derive(PartialEq, Eq, Structural, Clone, Copy)]
pub enum AppStateKind {
    Game,
    ModelViewer,
    Other,
}

/// The player's current command, as far as the skill list cares.
#[derive(PartialEq, Eq, Structural, Clone, Copy)]
pub enum PlayerCommandKind {
    CastSkill { skill_id: u16, ready_action: bool },
    Other,
}

/// The casting buttons of a skill's row.
#[derive(PartialEq, Eq, Structural, Clone, Copy)]
pub enum CastControl {
    /// The player casts this skill and waits: it can be told to act.
    Action,
    /// The player casts a skill: it can be stopped.
    Stop,
    /// The player casts nothing: it can start casting this skill.
    Cast,
    /// In the model viewer, every model can be shown casting and acting.
    ModelViewerCastAndAction,
}

/// The buttons of a skill's row.
pub struct SkillRowControls {
    pub learn: bool,
    pub cast: Option<CastControl>,
}

/// The cast control of a skill's row, by the application state, whether the
/// skill has a casting motion and the player's command (`None` where there
/// is no single player).
pub open spec fn row_cast_control(app_state: AppStateKind, castable: bool, player: Option<PlayerCommandKind>, skill_id: u16) -> Option<CastControl> {
    if !castable {
        None
    } else {
        match app_state {
            AppStateKind::Game => match player {
                None => None,
                Some(PlayerCommandKind::CastSkill { skill_id: casting, ready_action }) =>
                    if casting == skill_id && !ready_action { Some(CastControl::Action) } else { Some(CastControl::Stop) },
                Some(PlayerCommandKind::Other) => Some(CastControl::Cast),
            },
            AppStateKind::ModelViewer => Some(CastControl::ModelViewerCastAndAction),
            AppStateKind::Other => None,
        }
    }
}

/// Which buttons a skill's row shows: "Learn" in the game, and the casting
/// buttons for skills that have a casting motion.
pub fn skill_row_controls(app_state: AppStateKind, skill: &SkillSummary, player: Option<PlayerCommandKind>) -> (res: SkillRowControls)
    ensures
        res.learn == (app_state == AppStateKind::Game),
        res.cast == row_cast_control(app_state, skill.casting_motion_id is Some, player, skill.id),
        skill.casting_motion_id is None ==> res.cast is None,
        app_state == AppStateKind::Other ==> res.cast is None,
        app_state == AppStateKind::ModelViewer && skill.casting_motion_id is Some
            ==> res.cast == Some(CastControl::ModelViewerCastAndAction),
        app_state == AppStateKind::Game && skill.casting_motion_id is Some ==> res.cast == (match player {
            None => None,
            Some(PlayerCommandKind::CastSkill { skill_id, ready_action }) =>
                if skill_id == skill.id && !ready_action { Some(CastControl::Action) } else { Some(CastControl::Stop) },
            Some(PlayerCommandKind::Other) => Some(CastControl::Cast),
        }),
{
    let learn = match app_state {
        AppStateKind::Game => true,
        _ => false,
    };
    proof {
        law_row_cast_control(app_state, skill.casting_motion_id is Some, player, skill.id);
    }
    if skill.casting_motion_id.is_none() {
        return SkillRowControls { learn, cast: None };
    }
    let cast = match app_state {
        AppStateKind::Game => match player {
            None => None,
            Some(PlayerCommandKind::CastSkill { skill_id, ready_action }) => {
                if skill_id == skill.id && !ready_action {
                    Some(CastControl::Action)
                } else {
                    Some(CastControl::Stop)
                }
            },
            Some(PlayerCommandKind::Other) => Some(CastControl::Cast),
        },
        AppStateKind::ModelViewer => Some(CastControl::ModelViewerCastAndAction),
        AppStateKind::Other => None,
    };
    SkillRowControls { learn, cast }
}

/// A character model's gender.
#[derive(PartialEq, Eq, Structural, Clone, Copy)]
pub enum CharacterGender {
    Male,
    Female,
}

/// The gender index under which character motions are looked up.
pub fn weapon_motion_gender(gender: CharacterGender) -> (res: usize)
    ensures
        res == (if gender == CharacterGender::Male { 0usize } else { 1usize }),
{
    match gender {
        CharacterGender::Male => 0,
        CharacterGender::Female => 1,
    }
}

/// The weapon motion type under which character motions are looked up: that
/// of the equipped weapon, or 0 without one.
pub fn weapon_motion_type(weapon_motion: Option<usize>) -> (res: usize)
    ensures
        res == (match weapon_motion { Some(t) => t, None => 0usize }),
{
    match weapon_motion {
        Some(t) => t,
        None => 0,
    }
}

/// The phase in which the model viewer shows a skill.
#[derive(PartialEq, Eq, Structural, Clone, Copy)]
pub enum CastSkillPhase {
    Casting,
    Action,
}

/// The motion that shows a skill in a phase: its casting motion while
/// casting, its action motion in action.
pub fn phase_motion(skill: &SkillSummary, phase: CastSkillPhase) -> (res: Option<u16>)
    ensures
        res == (if phase == CastSkillPhase::Casting { skill.casting_motion_id } else { skill.action_motion_id }),
{
    match phase {
        CastSkillPhase::Casting => skill.casting_motion_id,
        CastSkillPhase::Action => skill.action_motion_id,
    }
}

/// The command that makes a model cast a skill, without a target, ready to act.
pub struct CastSkillCommand {
    pub skill_id: u16,
    pub action_motion_id: Option<u16>,
    pub cast_motion_id: Option<u16>,
    pub cast_repeat_motion_id: Option<u16>,
    pub cast_skill_state: CastSkillPhase,
    pub ready_action: bool,
}

/// The command that the model viewer gives every model to show a skill in a phase.
pub fn model_viewer_cast_command(skill: &SkillSummary, phase: CastSkillPhase) -> (res: CastSkillCommand)
    ensures
        res.skill_id == skill.id,
        res.action_motion_id == skill.action_motion_id,
        res.cast_motion_id == skill.casting_motion_id,
        res.cast_repeat_motion_id == skill.casting_repeat_motion_id,
        res.cast_skill_state == phase,
        res.ready_action,
{
    CastSkillCommand {
        skill_id: skill.id,
        action_motion_id: skill.action_motion_id,
        cast_motion_id: skill.casting_motion_id,
        cast_repeat_motion_id: skill.casting_repeat_motion_id,
        cast_skill_state: phase,
        ready_action: true,
    }
}

} // verus!
