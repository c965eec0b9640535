//! Roles, factions, and the role-distribution tables used to build a game.
use vstd::prelude::*;

verus! {

/// The closed set of role types.
#[derive(Debug, Clone, Copy, PartialEq, Eq, Structural)]
pub enum RoleType {
    Werewolf,
    Villager,
    Seer,
    Witch,
    Hunter,
    Guard,
}

/// The hidden team a role belongs to.
#[derive(Debug, Clone, Copy, PartialEq, Eq, Structural)]
pub enum Faction {
    Werewolf,
    Villager,
}

/// A role: its type, fixed faction, and fixed capability flags.
#[derive(Debug, Clone, Copy, PartialEq, Eq, Structural)]
pub struct Role {
    pub role_type: RoleType,
    pub faction: Faction,
    pub can_vote: bool,
    pub has_night_action: bool,
}

/// The faction every role type belongs to: werewolves against everyone else.
pub open spec fn spec_faction_of(rt: RoleType) -> Faction {
    match rt {
        RoleType::Werewolf => Faction::Werewolf,
        _ => Faction::Villager,
    }
}

/// Capability flags by role type: (can_vote, has_night_action).
pub open spec fn spec_role_flags(rt: RoleType) -> (bool, bool) {
    match rt {
        RoleType::Werewolf => (true, true),
        RoleType::Villager => (true, false),
        RoleType::Seer => (true, true),
        RoleType::Witch => (true, true),
        RoleType::Hunter => (true, false),
        RoleType::Guard => (true, true),
    }
}

/// A role record is well formed when its faction and flags agree with its type.
pub open spec fn role_wf(r: Role) -> bool {
    &&& r.faction == spec_faction_of(r.role_type)
    &&& r.can_vote == spec_role_flags(r.role_type).0
    &&& r.has_night_action == spec_role_flags(r.role_type).1
}

/// The canonical role record for a role type.
pub open spec fn spec_create_role(rt: RoleType) -> Role {
    Role {
        role_type: rt,
        faction: spec_faction_of(rt),
        can_vote: spec_role_flags(rt).0,
        has_night_action: spec_role_flags(rt).1,
    }
}

impl Role {
    /// Build the role record for a role type.
    pub fn create(role_type: RoleType) -> (r: Role)
        ensures
            r == spec_create_role(role_type),
            r.role_type == role_type,
            role_wf(r),
    {
        let faction = match role_type {
            RoleType::Werewolf => Faction::Werewolf,
            _ => Faction::Villager,
        };
        let (can_vote, has_night_action) = match role_type {
            RoleType::Werewolf => (true, true),
            RoleType::Villager => (true, false),
            RoleType::Seer => (true, true),
            RoleType::Witch => (true, true),
            RoleType::Hunter => (true, false),
            RoleType::Guard => (true, true),
        };
        Role { role_type, faction, can_vote, has_night_action }
    }

    /// The faction this role belongs to.
    pub fn get_faction(&self) -> (f: &Faction)
        ensures
            f == &self.faction,
    {
        &self.faction
    }
}

/// How many players hold each role at the start of a game.
#[derive(Debug, Clone, Copy, PartialEq, Eq, Structural)]
pub struct RoleDistribution {
    pub werewolves: u8,
    pub villagers: u8,
    pub seers: u8,
    pub witches: u8,
    pub hunters: u8,
    pub guards: u8,
}

impl RoleDistribution {
    /// The count this distribution assigns to one role type.
    pub open spec fn spec_count(self, rt: RoleType) -> u8 {
        match rt {
            RoleType::Werewolf => self.werewolves,
            RoleType::Villager => self.villagers,
            RoleType::Seer => self.seers,
            RoleType::Witch => self.witches,
            RoleType::Hunter => self.hunters,
            RoleType::Guard => self.guards,
        }
    }

    /// The total number of players this distribution covers.
    pub open spec fn spec_total(self) -> int {
        self.werewolves + self.villagers + self.seers + self.witches + self.hunters
            + self.guards
    }

    /// The count this distribution assigns to one role type.
    pub fn count(&self, rt: RoleType) -> (n: u8)
        ensures
            n == self.spec_count(rt),
    {
        match rt {
            RoleType::Werewolf => self.werewolves,
            RoleType::Villager => self.villagers,
            RoleType::Seer => self.seers,
            RoleType::Witch => self.witches,
            RoleType::Hunter => self.hunters,
            RoleType::Guard => self.guards,
        }
    }
}

/// The role-distribution table: fixed rows for the known player counts,
/// degrading to two werewolves and the rest villagers for unknown counts.
pub open spec fn spec_role_distribution(total_players: u8) -> RoleDistribution {
    if total_players == 6 {
        RoleDistribution { werewolves: 2, villagers: 2, seers: 1, witches: 1, hunters: 0, guards: 0 }
    } else if total_players == 8 {
        RoleDistribution { werewolves: 3, villagers: 3, seers: 1, witches: 1, hunters: 0, guards: 0 }
    } else if total_players == 10 {
        RoleDistribution { werewolves: 3, villagers: 4, seers: 1, witches: 1, hunters: 1, guards: 0 }
    } else if total_players == 12 {
        RoleDistribution { werewolves: 4, villagers: 4, seers: 1, witches: 1, hunters: 1, guards: 1 }
    } else {
        RoleDistribution {
            werewolves: 2,
            villagers: if total_players >= 2 { (total_players - 2) as u8 } else { 0 },
            seers: 0,
            witches: 0,
            hunters: 0,
            guards: 0,
        }
    }
}

/// Build the role distribution for a player count, from the fixed table.
/// For every count in the table the distribution sums to the count; the
/// degraded fallback sums to the count whenever at least two players exist.
pub fn generate_role_distribution(total_players: u8) -> (d: RoleDistribution)
    ensures
        d == spec_role_distribution(total_players),
        total_players >= 2 ==> d.spec_total() == total_players,
{
    if total_players == 6 {
        RoleDistribution { werewolves: 2, villagers: 2, seers: 1, witches: 1, hunters: 0, guards: 0 }
    } else if total_players == 8 {
        RoleDistribution { werewolves: 3, villagers: 3, seers: 1, witches: 1, hunters: 0, guards: 0 }
    } else if total_players == 10 {
        RoleDistribution { werewolves: 3, villagers: 4, seers: 1, witches: 1, hunters: 1, guards: 0 }
    } else if total_players == 12 {
        RoleDistribution { werewolves: 4, villagers: 4, seers: 1, witches: 1, hunters: 1, guards: 1 }
    } else {
        let villagers: u8 = if total_players >= 2 { total_players - 2 } else { 0 };
        RoleDistribution { werewolves: 2, villagers, seers: 0, witches: 0, hunters: 0, guards: 0 }
    }
}

/// A short description of what a role does.
pub fn get_role_description(role_type: &RoleType) -> (r: &'static str)
    ensures
        match role_type {
            RoleType::Werewolf => r@ == "kills one player each night; wins when the village falls"@,
            RoleType::Villager => r@ == "has no power beyond reasoning and the daily vote"@,
            RoleType::Seer => r@ == "learns one player's true side each night"@,
            RoleType::Witch => r@ == "holds one potion to save and one to poison"@,
            RoleType::Hunter => r@ == "takes one player along when eliminated"@,
            RoleType::Guard => r@ == "shields one player from the night's attack"@,
        },
{
    match role_type {
        RoleType::Werewolf => "kills one player each night; wins when the village falls",
        RoleType::Villager => "has no power beyond reasoning and the daily vote",
        RoleType::Seer => "learns one player's true side each night",
        RoleType::Witch => "holds one potion to save and one to poison",
        RoleType::Hunter => "takes one player along when eliminated",
        RoleType::Guard => "shields one player from the night's attack",
    }
}

/// A short description of what a faction wants.
pub fn get_faction_description(faction: &Faction) -> (r: &'static str)
    ensures
        match faction {
            Faction::Werewolf => r@ == "the hidden pack: eliminate the village"@,
            Faction::Villager => r@ == "the village: find and banish every werewolf"@,
        },
{
    match faction {
        Faction::Werewolf => "the hidden pack: eliminate the village",
        Faction::Villager => "the village: find and banish every werewolf",
    }
}

/// How much of a threat a role poses to the werewolves, in thousandths.
/// Fixed per-role constants; fellow werewolves are never a target.
pub open spec fn spec_threat_level(rt: RoleType) -> u32 {
    match rt {
        RoleType::Seer => 900,
        RoleType::Witch => 800,
        RoleType::Hunter => 700,
        RoleType::Guard => 600,
        RoleType::Villager => 300,
        RoleType::Werewolf => 0,
    }
}

/// How much of a threat a role poses to the werewolves, in thousandths.
pub fn threat_level(rt: RoleType) -> (t: u32)
    ensures
        t == spec_threat_level(rt),
        t <= 1000,
{
    match rt {
        RoleType::Seer => 900,
        RoleType::Witch => 800,
        RoleType::Hunter => 700,
        RoleType::Guard => 600,
        RoleType::Villager => 300,
        RoleType::Werewolf => 0,
    }
}

} // verus!
