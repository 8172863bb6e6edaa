//! The data of carnage reports, players and analyses.
use vstd::prelude::*;

verus! {

/// The statistics of a participant or a weapon: each named once, with the whole-number part of
/// its value.
pub type StatTable = Vec<(String, StatValue)>;

/// A Bungie user's basic information: what identifies and queries the user.
#[derive(Debug)]
pub struct UserInfo {
    /// The membership ID.
    pub membership_id: String,
    /// The display name.
    pub display_name: String,
    /// The membership type (1 Xbox, 2 PlayStation, 3 Steam, 5 Stadia, 10 Battle.net, 254 Bungie).
    pub membership_type: i32,
}

impl Clone for UserInfo {
    fn clone(&self) -> (r: Self)
        ensures
            r == *self,
    {
        UserInfo {
            membership_id: self.membership_id.clone(),
            display_name: self.display_name.clone(),
            membership_type: self.membership_type,
        }
    }
}

/// The answer of the user search.
#[derive(Debug, Clone)]
pub struct UserSearchResponse {
    /// The users found.
    pub search_results: Vec<UserInfo>,
    /// How many users were found.
    pub total_results: i32,
    /// Whether more results are available.
    pub has_more: bool,
}

/// The kinds of Destiny 2 activities by which reports are filtered.
#[derive(Debug, Clone, Copy, PartialEq, Eq, Hash, Structural)]
pub enum ActivityType {
    /// Story missions and campaigns.
    Story,
    /// Strikes and nightfalls.
    Strike,
    /// Crucible PvP matches.
    Crucible,
    /// Gambit matches.
    Gambit,
    /// Raid encounters.
    Raid,
    /// Dungeon encounters.
    Dungeon,
    /// Public events and patrols.
    PublicEvent,
    /// All other activities.
    Other,
}

/// The kind of activity that an activity mode stands for: 2 story, 3 strike, 4 raid,
/// 5 crucible, 6 gambit, 7 dungeon; any other mode is some other activity.
pub open spec fn activity_type_for_mode(mode: i32) -> ActivityType {
    if mode == 2 {
        ActivityType::Story
    } else if mode == 3 {
        ActivityType::Strike
    } else if mode == 4 {
        ActivityType::Raid
    } else if mode == 5 {
        ActivityType::Crucible
    } else if mode == 6 {
        ActivityType::Gambit
    } else if mode == 7 {
        ActivityType::Dungeon
    } else {
        ActivityType::Other
    }
}

impl ActivityType {
    /// The kind of activity that an activity mode stands for.
    pub fn for_mode(mode: i32) -> (t: ActivityType)
        ensures
            t == activity_type_for_mode(mode),
    {
        match mode {
            2 => ActivityType::Story,
            3 => ActivityType::Strike,
            4 => ActivityType::Raid,
            5 => ActivityType::Crucible,
            6 => ActivityType::Gambit,
            7 => ActivityType::Dungeon,
            _ => ActivityType::Other,
        }
    }
}

/// Which kind of activity a mode is: modes 2 to 7 are Story, Strike, Raid, Crucible, Gambit and
/// Dungeon, each kind for its one mode, and every other mode is Other.
pub proof fn lemma_activity_type_by_mode(mode: i32)
    ensures
        (activity_type_for_mode(mode) == ActivityType::Story) <==> mode == 2,
        (activity_type_for_mode(mode) == ActivityType::Strike) <==> mode == 3,
        (activity_type_for_mode(mode) == ActivityType::Raid) <==> mode == 4,
        (activity_type_for_mode(mode) == ActivityType::Crucible) <==> mode == 5,
        (activity_type_for_mode(mode) == ActivityType::Gambit) <==> mode == 6,
        (activity_type_for_mode(mode) == ActivityType::Dungeon) <==> mode == 7,
        (activity_type_for_mode(mode) == ActivityType::Other) <==> !(2 <= mode <= 7),
{
}

/// A post-game carnage report: one completed activity and how each participant did.
#[derive(Debug, Clone)]
pub struct PostGameCarnageReport {
    /// What activity this was.
    pub activity_details: ActivityDetails,
    /// When the activity was completed.
    pub period: String,
    /// The participants.
    pub entries: Vec<ParticipantEntry>,
    /// The teams, in activities that have them.
    pub teams: Option<Vec<Team>>,
}

/// Which activity instance a report is about.
#[derive(Debug, Clone)]
pub struct ActivityDetails {
    /// The activity's reference ID.
    pub reference_id: u32,
    /// The director activity hash.
    pub director_activity_hash: u32,
    /// The activity instance's ID.
    pub instance_id: String,
    /// The activity mode.
    pub mode: i32,
    /// All modes of the activity.
    pub modes: Option<Vec<i32>>,
}

/// One participant of a report and how the participant did.
#[derive(Debug, Clone)]
pub struct ParticipantEntry {
    /// The participant's standing.
    pub standing: i32,
    /// The participant's score.
    pub score: Score,
    /// Who the participant is.
    pub player: PlayerInfo,
    /// The character that played.
    pub character_id: String,
    /// Further statistics and the weapons used.
    pub extended: ExtendedData,
    /// The main statistics (kills, deaths, assists, ...).
    pub values: StatTable,
}

/// The extended statistics of a participant.
#[derive(Debug, Clone)]
pub struct ExtendedData {
    /// Extended statistics such as grenade, melee and super kills.
    pub values: StatTable,
    /// The statistics of each weapon used.
    pub weapons: Vec<WeaponStats>,
    /// The scoreboard statistics, where there are any.
    pub scoreboard_values: Option<StatTable>,
}

/// The account and character of a participant.
#[derive(Debug)]
pub struct PlayerInfo {
    /// The account.
    pub destiny_user_info: UserInfo,
    /// The character's class.
    pub character_class: String,
    /// The character's level.
    pub character_level: i32,
    /// The character's light level.
    pub light_level: i32,
}

impl Clone for PlayerInfo {
    fn clone(&self) -> (r: Self)
        ensures
            r == *self,
    {
        PlayerInfo {
            destiny_user_info: self.destiny_user_info.clone(),
            character_class: self.character_class.clone(),
            character_level: self.character_level,
            light_level: self.light_level,
        }
    }
}

/// A participant's or a team's score.
#[derive(Debug, Clone)]
pub struct Score {
    /// The basic score.
    pub basic: ScoreValue,
    /// The precision score, where there is one.
    pub precision: Option<ScoreValue>,
}

/// One statistic.
#[derive(Debug, Clone)]
pub struct StatValue {
    /// Its value.
    pub basic: ScoreValue,
}

/// A statistic's value and how it is displayed.
#[derive(Debug, Clone)]
pub struct ScoreValue {
    /// The whole-number part of the value.
    pub value: i32,
    /// The value as it is displayed.
    pub display_value: String,
}

/// Extended statistics and the weapons used.
#[derive(Debug, Clone)]
pub struct ExtendedValues {
    /// The statistics.
    pub values: StatTable,
    /// The statistics of each weapon used.
    pub weapons: Vec<WeaponStats>,
}

/// The statistics of one weapon used in an activity.
#[derive(Debug, Clone)]
pub struct WeaponStats {
    /// The weapon's item hash.
    pub reference_id: u32,
    /// Its statistics (such as `uniqueWeaponKills`).
    pub values: StatTable,
}

/// A team, in activities with teams.
#[derive(Debug, Clone)]
pub struct Team {
    /// The team's ID.
    pub team_id: i32,
    /// The team's standing.
    pub standing: i32,
    /// The team's score.
    pub score: Score,
}

/// What a player had equipped during an activity.
#[derive(Debug, Clone)]
pub struct Equipment {
    /// The primary weapon.
    pub primary_weapon: Option<Weapon>,
    /// The secondary weapon.
    pub secondary_weapon: Option<Weapon>,
    /// The heavy weapon.
    pub heavy_weapon: Option<Weapon>,
    /// The helmet.
    pub helmet: Option<Armor>,
    /// The gauntlets.
    pub gauntlets: Option<Armor>,
    /// The chest armor.
    pub chest_armor: Option<Armor>,
    /// The leg armor.
    pub leg_armor: Option<Armor>,
    /// The class item.
    pub class_item: Option<Armor>,
    /// The ghost shell.
    pub ghost_shell: Option<GhostShell>,
    /// The vehicle (sparrow).
    pub vehicle: Option<Vehicle>,
}

/// A weapon.
#[derive(Debug)]
pub struct Weapon {
    /// The weapon's item hash.
    pub item_hash: u32,
    /// Its name.
    pub name: String,
    /// Its type (Auto Rifle, Hand Cannon, ...).
    pub weapon_type: String,
    /// Its damage type (Kinetic, Solar, Arc, Void, Stasis, Strand).
    pub damage_type: String,
    /// Its power level.
    pub power_level: i32,
}

impl Clone for Weapon {
    fn clone(&self) -> (r: Self)
        ensures
            r == *self,
    {
        Weapon {
            item_hash: self.item_hash,
            name: self.name.clone(),
            weapon_type: self.weapon_type.clone(),
            damage_type: self.damage_type.clone(),
            power_level: self.power_level,
        }
    }
}

/// An armor piece.
#[derive(Debug, Clone)]
pub struct Armor {
    /// The armor's item hash.
    pub item_hash: u32,
    /// Its name.
    pub name: String,
    /// Its slot (Helmet, Gauntlets, ...).
    pub slot: String,
    /// Its power level.
    pub power_level: i32,
    /// Its stats, each named once.
    pub stats: Vec<(String, i32)>,
}

/// A ghost shell.
#[derive(Debug, Clone)]
pub struct GhostShell {
    /// The ghost shell's item hash.
    pub item_hash: u32,
    /// Its name.
    pub name: String,
    /// Its power level.
    pub power_level: i32,
}

/// A vehicle (sparrow).
#[derive(Debug, Clone)]
pub struct Vehicle {
    /// The vehicle's item hash.
    pub item_hash: u32,
    /// Its name.
    pub name: String,
    /// Its power level.
    pub power_level: i32,
}

/// What a player's kills were made with.
#[derive(Debug, Clone)]
pub struct KillAttribution {
    /// All kills.
    pub total_kills: i32,
    /// Kills made with weapons.
    pub weapon_kills: i32,
    /// Kills made with abilities (grenades, melee, supers).
    pub ability_kills: i32,
    /// The other kills.
    pub environmental_kills: i32,
    /// Kills by weapon, each weapon named once.
    pub weapon_breakdown: Vec<(String, i32)>,
    /// Kills by ability, each ability named once.
    pub ability_breakdown: Vec<(String, i32)>,
}

/// The analysis of a whole fireteam in one report.
#[derive(Debug, Clone)]
pub struct FireteamAnalysis {
    /// The user asked about.
    pub primary_user: UserAnalysis,
    /// The other participants.
    pub fireteam_members: Vec<UserAnalysis>,
    /// The activity as a whole.
    pub activity_summary: ActivitySummary,
}

/// The analysis of one participant.
#[derive(Debug, Clone)]
pub struct UserAnalysis {
    /// The participant's account.
    pub user_info: UserInfo,
    /// The participant's character.
    pub character_info: PlayerInfo,
    /// What the participant had equipped.
    pub equipment: Equipment,
    /// What the participant's kills were made with.
    pub kill_attribution: KillAttribution,
    /// The participant's position among the report's entries.
    pub entry_index: usize,
}

/// The activity of a report as a whole.
#[derive(Debug, Clone)]
pub struct ActivitySummary {
    /// The kind of activity.
    pub activity_type: ActivityType,
    /// How long it took.
    pub duration: String,
    /// The kills of all participants.
    pub total_fireteam_kills: i32,
    /// The deaths of all participants.
    pub total_fireteam_deaths: i32,
    /// Whether it was completed flawlessly.
    pub completion_status: String,
}

} // verus!
