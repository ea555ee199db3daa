//! What the client does when an entity dies or levels up: effects and chat
//! messages.

use vstd::prelude::*;

use crate::text::{decimal, decimal_value, lemma_decimal_round_trip, push_decimal};

verus! {

/// An event about an entity, which is given by its id.
#[derive(PartialEq, Eq, Structural, Clone, Copy)]
pub enum ClientEntityEvent {
    Die(u64),
    LevelUp(u64, Option<u32>),
}

/// The effect to spawn: an effect file by its id, or by its path.
pub enum SpawnEffectData {
    FileId(usize),
    Path(String),
}

/// An effect to spawn on an entity.
pub struct SpawnEffectOnEntity {
    pub entity: u64,
    pub effect: SpawnEffectData,
}

/// What the client does for an event: a system message in the chat box,
/// then an effect. Either may be missing.
pub struct ClientEntityEventActions {
    pub chat_message: Option<String>,
    pub spawn_effect: Option<SpawnEffectOnEntity>,
}

/// The path of the level-up effect.
pub open spec fn level_up_effect_path() -> Seq<char> {
    "3DDATA/EFFECT/LEVELUP_01.EFT"@
}

/// The chat message that congratulates the player on a new level.
pub open spec fn level_up_message(level: u32) -> Seq<char> {
    "Congratulations! You are now level "@ + decimal(level as nat) + "!"@
}

/// The chat message that congratulates the player on a new level.
pub fn level_up_message_string(level: u32) -> (res: String)
    ensures
        res@ == level_up_message(level),
        res@.len() >= 37,
        res@.take(35) == "Congratulations! You are now level "@,
        res@.last() == '!',
        decimal_value(res@.subrange(35, res@.len() - 1)) == level,
{
    proof {
        law_level_up_message(level);
    }
    let mut text = String::from_str("Congratulations! You are now level ");
    push_decimal(&mut text, level as u64);
    text.append("!");
    text
}

/// What the client does for an event. `is_player` is whether the entity is
/// the player's character; `die_effect_file_id` is the death effect of the
/// entity's NPC data, `None` where the entity is no NPC, its data is unknown
/// or it has no death effect.
pub fn client_entity_event_actions(event: ClientEntityEvent, is_player: bool, die_effect_file_id: Option<usize>) -> (res: ClientEntityEventActions)
    ensures
        match event {
            ClientEntityEvent::Die(entity) => {
                &&& res.chat_message is None
                &&& (res.spawn_effect is Some <==> die_effect_file_id is Some)
                &&& (res.spawn_effect matches Some(s) ==> (s.entity == entity
                    && (s.effect matches SpawnEffectData::FileId(id) && id == die_effect_file_id->0)))
            },
            ClientEntityEvent::LevelUp(entity, level) => {
                &&& (res.chat_message is Some <==> (is_player && level is Some))
                &&& (res.chat_message matches Some(m) ==> m@ == level_up_message(level->0))
                &&& (res.chat_message matches Some(m) ==> (m@.len() >= 37
                    && m@.take(35) == "Congratulations! You are now level "@
                    && decimal_value(m@.subrange(35, m@.len() - 1)) == level->0))
                &&& res.spawn_effect matches Some(s) && (s.entity == entity
                    && (s.effect matches SpawnEffectData::Path(p) && p@ == level_up_effect_path()
                        && p@ == "3DDATA/EFFECT/LEVELUP_01.EFT"@))
            },
        },
{
    if let ClientEntityEvent::LevelUp(_, Some(l)) = event {
        proof {
            law_level_up_message(l);
        }
    }
    match event {
        ClientEntityEvent::Die(entity) => {
            let spawn_effect = match die_effect_file_id {
                Some(id) => Some(SpawnEffectOnEntity { entity, effect: SpawnEffectData::FileId(id) }),
                None => None,
            };
            ClientEntityEventActions { chat_message: None, spawn_effect }
        },
        ClientEntityEvent::LevelUp(entity, level) => {
            let chat_message = if is_player {
                match level {
                    Some(l) => Some(level_up_message_string(l)),
                    None => None,
                }
            } else {
                None
            };
            let path = String::from_str("3DDATA/EFFECT/LEVELUP_01.EFT");
            ClientEntityEventActions {
                chat_message,
                spawn_effect: Some(SpawnEffectOnEntity { entity, effect: SpawnEffectData::Path(path) }),
            }
        },
    }
}

/// The congratulation names the new level: after its fixed opening come the
/// level's decimal digits, which read back as the level, then "!".
pub proof fn law_level_up_message(level: u32)
    ensures
        level_up_message(level).len() >= 37,
        level_up_message(level).take(35) == "Congratulations! You are now level "@,
        level_up_message(level).last() == '!',
        decimal_value(level_up_message(level).subrange(35, level_up_message(level).len() - 1)) == level,
        forall|i: int| 35 <= i < level_up_message(level).len() - 1
            ==> '0' <= #[trigger] level_up_message(level)[i] <= '9',
        level > 0 ==> level_up_message(level)[35] != '0',
{
    reveal_strlit("Congratulations! You are now level ");
    reveal_strlit("!");
    lemma_decimal_round_trip(level as nat);
    let head = "Congratulations! You are now level "@;
    let digits = decimal(level as nat);
    let m = level_up_message(level);
    assert(m =~= head + digits + seq!['!']);
    assert(m.take(35) =~= head);
    assert(m.subrange(35, m.len() - 1) =~= digits);
    assert forall|i: int| 35 <= i < m.len() - 1 implies '0' <= #[trigger] m[i] <= '9' by {
        assert(m[i] == digits[i - 35]);
    }
    if level > 0 {
        assert(m[35] == digits[0]);
    }
}

/// The level-up effect is the level-up effect file.
pub proof fn law_level_up_effect_path()
    ensures
        level_up_effect_path() == "3DDATA/EFFECT/LEVELUP_01.EFT"@,
{
}

} // verus!
