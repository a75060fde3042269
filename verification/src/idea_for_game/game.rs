//! The per-frame bookkeeping of a fighting game character in a match.

use vstd::prelude::*;
use super::character_stats::{self, CharacterStats};

verus! {

#[derive(Clone, Copy, Debug)]
pub struct GameRules {
    pub shield_regen: u32,
    pub num_lives: u32,
}

pub struct World {
    pub character_data: Vec<CharacterStats>,
    pub characters: Vec<Character>,
}

#[derive(Copy, Clone, Debug)]
pub enum Direction {
    Left,
    Right,
}

pub struct Input {}

pub type RemainingFrames = u32;

/// A character in a match.
pub struct Character {
    pub rules: GameRules,
    pub character_data_index: usize,
    pub remaining_shield: u32,
    pub remaining_lives: u32,
    pub damage: u32,
    pub remaining_jumps: u32,
    pub in_air: bool,
    pub facing: Direction,
    pub position: (i32, i32),
    pub velocity: (i32, i32),
    pub state_frame: u32,
    pub state_id: character_stats::StateId,
    pub remaining_helpless: RemainingFrames,
    pub remaining_stun: RemainingFrames,
    pub remaining_grounded: RemainingFrames,
    pub remaining_invincibility: RemainingFrames,
    pub remaining_recovery: RemainingFrames,
    pub remaining_blockstun: RemainingFrames,
}

/// One less, but not below zero.
pub open spec fn spec_checked_decrement(value: u32) -> u32 {
    if value == 0 {
        0
    } else {
        (value - 1) as u32
    }
}

/// The sum, capped at `max`.
pub open spec fn spec_add_with_max(value: u32, addition: u32, max: u32) -> u32 {
    if value + addition > max {
        max
    } else {
        (value + addition) as u32
    }
}

/// Whether a character is in a 'helpless' state and can't do anything: some helpless,
/// stun, grounded, recovery or blockstun frames remain.
pub open spec fn spec_helpless(c: Character) -> bool {
    c.remaining_helpless > 0 || c.remaining_stun > 0 || c.remaining_grounded > 0
        || c.remaining_recovery > 0 || c.remaining_blockstun > 0
}

/// Whether the shield regenerates in a frame from this (already counted down) character.
pub open spec fn shield_regenerates(c: Character, stats: &CharacterStats) -> bool {
    c.state_id != stats.required_states.ground.shielding && c.remaining_shield
        < stats.stats.shield_health
}

/// The shield after a tick: regenerated by the rules' amount, capped at the shield health.
pub open spec fn shield_after_tick(c: Character, stats: &CharacterStats) -> u32 {
    if shield_regenerates(c, stats) {
        spec_add_with_max(c.remaining_shield, c.rules.shield_regen, stats.stats.shield_health)
    } else {
        c.remaining_shield
    }
}

impl Character {
    /// Advances the character by one frame: every remaining-frames counter counts down by
    /// one (not below zero); the shield regenerates up to the character's shield health unless the character is
    /// shielding; and a grounded character that is not helpless gets its jumps back.
    pub fn tick(&mut self, character: &CharacterStats)
        requires
            ({
                let c = *old(self);
                shield_regenerates(c, character) ==> c.remaining_shield + c.rules.shield_regen
                    <= u32::MAX
            }),
        ensures
            final(self).remaining_helpless == spec_checked_decrement(old(self).remaining_helpless),
            final(self).remaining_stun == spec_checked_decrement(old(self).remaining_stun),
            final(self).remaining_grounded == spec_checked_decrement(old(self).remaining_grounded),
            final(self).remaining_invincibility == spec_checked_decrement(
                old(self).remaining_invincibility,
            ),
            final(self).remaining_recovery == spec_checked_decrement(old(self).remaining_recovery),
            final(self).remaining_blockstun == spec_checked_decrement(old(self).remaining_blockstun),
            final(self).remaining_shield == shield_after_tick(*old(self), character),
            final(self).remaining_jumps == if old(self).remaining_jumps < character.stats.num_jumps
                && !old(self).in_air && !spec_helpless(*final(self)) {
                character.stats.num_jumps
            } else {
                old(self).remaining_jumps
            },
            final(self).rules.shield_regen == old(self).rules.shield_regen,
            final(self).rules.num_lives == old(self).rules.num_lives,
            final(self).character_data_index == old(self).character_data_index,
            final(self).remaining_lives == old(self).remaining_lives,
            final(self).damage == old(self).damage,
            final(self).in_air == old(self).in_air,
            final(self).facing == old(self).facing,
            final(self).position == old(self).position,
            final(self).velocity == old(self).velocity,
            final(self).state_frame == old(self).state_frame,
            final(self).state_id == old(self).state_id,
    {
        // Decrease remaining frames
        self.remaining_helpless = checked_decrement(self.remaining_helpless);
        self.remaining_stun = checked_decrement(self.remaining_stun);
        self.remaining_grounded = checked_decrement(self.remaining_grounded);
        self.remaining_invincibility = checked_decrement(self.remaining_invincibility);
        self.remaining_recovery = checked_decrement(self.remaining_recovery);
        self.remaining_blockstun = checked_decrement(self.remaining_blockstun);

        // Try to increase shield health
        let shield_health = character.stats.shield_health;
        if self.state_id != character.required_states.ground.shielding && self.remaining_shield
            < shield_health {
            self.remaining_shield = add_with_max(
                self.remaining_shield,
                self.rules.shield_regen,
                shield_health,
            );
        }

        // Try to reset jumps
        let max_jumps = character.stats.num_jumps;
        if self.remaining_jumps < max_jumps && !self.in_air && !self.is_helpless_state(character) {
            self.remaining_jumps = max_jumps;
        }
    }

    /// Returns whether the character is in a 'helpless' state and can't do anything.
    pub fn is_helpless_state(&self, character: &CharacterStats) -> (helpless: bool)
        ensures
            helpless == spec_helpless(*self),
    {
        if self.remaining_helpless > 0 || self.remaining_stun > 0 || self.remaining_grounded > 0
            || self.remaining_recovery > 0 || self.remaining_blockstun > 0 {
            return true;
        }
        false
    }
}

/// One less, but not below zero.
pub fn checked_decrement(value: u32) -> (r: u32)
    ensures
        r == spec_checked_decrement(value),
{
    if let Some(value) = value.checked_sub(1) {
        value
    } else {
        0
    }
}

/// `value - sub`, except that a value at or below `min` gives `min`. The subtraction must
/// not go below zero.
pub fn sub_with_min(value: u32, sub: u32, min: u32) -> (r: u32)
    requires
        value > min ==> sub <= value,
    ensures
        r == if value <= min { min as int } else { value - sub },
{
    if value == min || value < min {
        min
    } else {
        value - sub
    }
}

/// The sum, capped at `max`. The sum must fit in `u32`.
pub fn add_with_max(value: u32, addition: u32, max: u32) -> (r: u32)
    requires
        value + addition <= u32::MAX,
    ensures
        r == spec_add_with_max(value, addition, max),
{
    let mut value = value + addition;
    if value > max {
        value = max;
    }
    value
}

/// A tick never raises the shield above the character's shield health, and never lowers it.
pub proof fn lemma_shield_regen_capped(before: Character, character: &CharacterStats)
    ensures
        before.remaining_shield <= character.stats.shield_health ==> shield_after_tick(
            before,
            character,
        ) <= character.stats.shield_health,
        shield_after_tick(before, character) >= before.remaining_shield,
{
}

/// A character with frames of helplessness, stun, grounding, recovery or blockstun left
/// is helpless; one with none of them left is not.
pub proof fn lemma_frames_left_make_helpless(c: Character)
    ensures
        c.remaining_helpless > 0 ==> spec_helpless(c),
        c.remaining_stun > 0 ==> spec_helpless(c),
        c.remaining_grounded > 0 ==> spec_helpless(c),
        c.remaining_recovery > 0 ==> spec_helpless(c),
        c.remaining_blockstun > 0 ==> spec_helpless(c),
        c.remaining_helpless == 0 && c.remaining_stun == 0 && c.remaining_grounded == 0
            && c.remaining_recovery == 0 && c.remaining_blockstun == 0 ==> !spec_helpless(c),
{
}

/// A stunned character does not get its jumps back: when a tick leaves stun frames (it
/// had more than one), the jumps stay as they were. A grounded character with nothing
/// left to wait for gets all its jumps back.
pub proof fn lemma_stun_keeps_jumps(before: Character, after: Character, character: &CharacterStats)
    requires
        after.remaining_helpless == spec_checked_decrement(before.remaining_helpless),
        after.remaining_stun == spec_checked_decrement(before.remaining_stun),
        after.remaining_grounded == spec_checked_decrement(before.remaining_grounded),
        after.remaining_recovery == spec_checked_decrement(before.remaining_recovery),
        after.remaining_blockstun == spec_checked_decrement(before.remaining_blockstun),
        after.remaining_jumps == if before.remaining_jumps < character.stats.num_jumps
            && !before.in_air && !spec_helpless(after) {
            character.stats.num_jumps
        } else {
            before.remaining_jumps
        },
    ensures
        before.remaining_stun > 1 ==> after.remaining_jumps == before.remaining_jumps,
        before.remaining_helpless <= 1 && before.remaining_stun <= 1 && before.remaining_grounded
            <= 1 && before.remaining_recovery <= 1 && before.remaining_blockstun <= 1
            && !before.in_air ==> after.remaining_jumps >= character.stats.num_jumps,
{
    lemma_frames_left_make_helpless(after);
}

} // verus!
