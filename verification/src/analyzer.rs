//! The analysis of carnage reports: equipment, kill attribution and activity summaries.
use std::collections::HashMap;
use vstd::prelude::*;
use crate::error::BungieError;
use crate::models::{
    activity_type_for_mode,
    ActivitySummary, ActivityType, Equipment, FireteamAnalysis, KillAttribution, ParticipantEntry,
    PostGameCarnageReport, StatValue, UserAnalysis, Weapon, WeaponStats,
};
use crate::text::{append_decimal, decimal, first_with_key, lookup_by_name, text_eq};

verus! {

broadcast use vstd::std_specs::hash::group_hash_axioms;

/// The name given to an item whose definition has not been fetched: `Unknown Item (<hash>)`.
pub open spec fn placeholder_name(item_hash: u32) -> Seq<char> {
    "Unknown Item ("@ + decimal(item_hash as nat) + ")"@
}

/// The weapon type that an item hash stands for.
pub open spec fn weapon_type_name(item_hash: u32) -> Seq<char> {
    let k = item_hash % 10;
    if k == 0 {
        "Auto Rifle"@
    } else if k == 1 {
        "Hand Cannon"@
    } else if k == 2 {
        "Pulse Rifle"@
    } else if k == 3 {
        "Scout Rifle"@
    } else if k == 4 {
        "Submachine Gun"@
    } else if k == 5 {
        "Shotgun"@
    } else if k == 6 {
        "Sniper Rifle"@
    } else if k == 7 {
        "Fusion Rifle"@
    } else if k == 8 {
        "Rocket Launcher"@
    } else {
        "Unknown Weapon"@
    }
}

/// The damage type that an item hash stands for.
pub open spec fn damage_type_name(item_hash: u32) -> Seq<char> {
    let k = item_hash % 6;
    if k == 0 {
        "Kinetic"@
    } else if k == 1 {
        "Solar"@
    } else if k == 2 {
        "Arc"@
    } else if k == 3 {
        "Void"@
    } else if k == 4 {
        "Stasis"@
    } else {
        "Strand"@
    }
}

/// `w` is the weapon that the analyzer makes of the item hash `item_hash`.
pub open spec fn weapon_describes(w: Weapon, item_hash: u32) -> bool {
    &&& w.item_hash == item_hash
    &&& w.name@ == placeholder_name(item_hash)
    &&& w.weapon_type@ == weapon_type_name(item_hash)
    &&& w.damage_type@ == damage_type_name(item_hash)
    &&& w.power_level == 0
}

/// The item hashes of the weapons in `weapons`.
pub open spec fn weapon_hashes(weapons: Seq<WeaponStats>) -> Set<u32>
    decreases weapons.len(),
{
    if weapons.len() == 0 {
        Set::empty()
    } else {
        weapon_hashes(weapons.drop_last()).insert(weapons.last().reference_id)
    }
}

/// The equipment slot `slot` holds the weapon made of the `i`th weapon used, or nothing where
/// fewer weapons were used.
pub open spec fn slot_holds(slot: Option<Weapon>, weapons: Seq<WeaponStats>, i: int) -> bool {
    if i < weapons.len() {
        slot matches Some(w) && weapon_describes(w, weapons[i].reference_id)
    } else {
        slot is None
    }
}

/// `e` is the equipment made of the weapons used, `weapons`: the first three in the weapon
/// slots, and no armor, ghost shell or vehicle.
pub open spec fn equipment_from(e: Equipment, weapons: Seq<WeaponStats>) -> bool {
    &&& slot_holds(e.primary_weapon, weapons, 0)
    &&& slot_holds(e.secondary_weapon, weapons, 1)
    &&& slot_holds(e.heavy_weapon, weapons, 2)
    &&& e.helmet is None
    &&& e.gauntlets is None
    &&& e.chest_armor is None
    &&& e.leg_armor is None
    &&& e.class_item is None
    &&& e.ghost_shell is None
    &&& e.vehicle is None
}


/// The whole-number value of the statistic `key` in `table`, or 0 where the table lacks it.
pub open spec fn stat_or_zero(table: Seq<(String, StatValue)>, key: Seq<char>) -> int {
    match first_with_key(table, key) {
        Some(s) => s.basic.value as int,
        None => 0,
    }
}

/// The kills made with one weapon.
pub open spec fn weapon_kill_count(w: WeaponStats) -> int {
    stat_or_zero(w.values@, "uniqueWeaponKills"@)
}

/// The kills made with all the weapons in `weapons`.
pub open spec fn weapon_kills_sum(weapons: Seq<WeaponStats>) -> int
    decreases weapons.len(),
{
    if weapons.len() == 0 {
        0
    } else {
        weapon_kills_sum(weapons.drop_last()) + weapon_kill_count(weapons.last())
    }
}

/// Whether `x` is an `i32`.
pub open spec fn fits_i32(x: int) -> bool {
    i32::MIN <= x <= i32::MAX
}

/// A participant's kills.
pub open spec fn total_kills_of(p: ParticipantEntry) -> int {
    stat_or_zero(p.values@, "kills"@)
}

/// A participant's deaths.
pub open spec fn total_deaths_of(p: ParticipantEntry) -> int {
    stat_or_zero(p.values@, "deaths"@)
}

/// A participant's grenade kills.
pub open spec fn grenade_kills_of(p: ParticipantEntry) -> int {
    stat_or_zero(p.extended.values@, "weaponKillsGrenade"@)
}

/// A participant's melee kills.
pub open spec fn melee_kills_of(p: ParticipantEntry) -> int {
    stat_or_zero(p.extended.values@, "weaponKillsMelee"@)
}

/// A participant's super kills.
pub open spec fn super_kills_of(p: ParticipantEntry) -> int {
    stat_or_zero(p.extended.values@, "weaponKillsSuper"@)
}

/// A participant's ability kills: grenade, melee and super kills.
pub open spec fn ability_kills_of(p: ParticipantEntry) -> int {
    grenade_kills_of(p) + melee_kills_of(p) + super_kills_of(p)
}

/// The kills made with the weapons of type `t` among `weapons`.
pub open spec fn type_kills(weapons: Seq<WeaponStats>, t: Seq<char>) -> int
    decreases weapons.len(),
{
    if weapons.len() == 0 {
        0
    } else {
        type_kills(weapons.drop_last(), t) + if weapon_type_name(weapons.last().reference_id) == t {
            weapon_kill_count(weapons.last())
        } else {
            0
        }
    }
}

/// The weapon types among `weapons`.
pub open spec fn weapon_types(weapons: Seq<WeaponStats>) -> Set<Seq<char>>
    decreases weapons.len(),
{
    if weapons.len() == 0 {
        Set::empty()
    } else {
        weapon_types(weapons.drop_last()).insert(weapon_type_name(weapons.last().reference_id))
    }
}

/// The kills by weapon type: each weapon type among `weapons`, and no other name, mapped to the
/// kills made with the weapons of that type.
pub open spec fn expected_weapon_breakdown(weapons: Seq<WeaponStats>) -> Map<Seq<char>, int> {
    Map::new(|t: Seq<char>| weapon_types(weapons).contains(t), |t: Seq<char>| type_kills(weapons, t))
}

/// After each weapon in turn, the kills counted so far for its weapon type are an `i32`.
pub open spec fn weapon_type_totals_fit(weapons: Seq<WeaponStats>) -> bool {
    forall|m: int|
        #![trigger weapons[m]]
        0 <= m < weapons.len() ==> fits_i32(
            type_kills(weapons.take(m + 1), weapon_type_name(weapons[m].reference_id)),
        )
}

/// Every sum that the kill attribution of `p` computes is an `i32`.
pub open spec fn attribution_fits(p: ParticipantEntry) -> bool {
    let ws = p.extended.weapons@;
    &&& forall|n: int| 0 <= n <= ws.len() ==> fits_i32(#[trigger] weapon_kills_sum(ws.take(n)))
    &&& weapon_type_totals_fit(ws)
    &&& fits_i32(grenade_kills_of(p) + melee_kills_of(p))
    &&& fits_i32(ability_kills_of(p))
    &&& fits_i32(total_kills_of(p) - weapon_kills_sum(ws))
    &&& fits_i32(total_kills_of(p) - weapon_kills_sum(ws) - ability_kills_of(p))
}

/// No two entries have the same name.
pub open spec fn names_distinct(entries: Seq<(String, i32)>) -> bool {
    forall|i: int, j: int| 0 <= i < j < entries.len() ==> entries[i].0@ != entries[j].0@
}

/// The entries as a map from name to count; a later entry wins over an earlier one of the same name.
pub open spec fn breakdown_map(entries: Seq<(String, i32)>) -> Map<Seq<char>, int>
    decreases entries.len(),
{
    if entries.len() == 0 {
        Map::empty()
    } else {
        breakdown_map(entries.drop_last()).insert(entries.last().0@, entries.last().1 as int)
    }
}

/// The counts of all entries added up.
pub open spec fn breakdown_total(entries: Seq<(String, i32)>) -> int
    decreases entries.len(),
{
    if entries.len() == 0 {
        0
    } else {
        breakdown_total(entries.drop_last()) + entries.last().1
    }
}

/// The count recorded under `name`, or 0 where there is none.
pub open spec fn count_or_zero(m: Map<Seq<char>, int>, name: Seq<char>) -> int {
    if m.contains_key(name) {
        m[name]
    } else {
        0
    }
}

/// `k` is the kill attribution of the participant `p`.
pub open spec fn attribution_of(k: KillAttribution, p: ParticipantEntry) -> bool {
    let ws = p.extended.weapons@;
    &&& k.total_kills == total_kills_of(p)
    &&& k.weapon_kills == weapon_kills_sum(ws)
    &&& k.ability_kills == ability_kills_of(p)
    &&& k.environmental_kills == total_kills_of(p) - weapon_kills_sum(ws) - ability_kills_of(p)
    &&& names_distinct(k.weapon_breakdown@)
    &&& breakdown_map(k.weapon_breakdown@) == expected_weapon_breakdown(ws)
    &&& breakdown_total(k.weapon_breakdown@) == weapon_kills_sum(ws)
    &&& k.ability_breakdown@.len() == 3
    &&& k.ability_breakdown@[0].0@ == "Grenade"@
    &&& k.ability_breakdown@[0].1 == grenade_kills_of(p)
    &&& k.ability_breakdown@[1].0@ == "Melee"@
    &&& k.ability_breakdown@[1].1 == melee_kills_of(p)
    &&& k.ability_breakdown@[2].0@ == "Super"@
    &&& k.ability_breakdown@[2].1 == super_kills_of(p)
}

proof fn lemma_type_kills_absent(weapons: Seq<WeaponStats>, t: Seq<char>)
    requires
        !weapon_types(weapons).contains(t),
    ensures
        type_kills(weapons, t) == 0,
    decreases weapons.len(),
{
    if weapons.len() > 0 {
        lemma_type_kills_absent(weapons.drop_last(), t);
    }
}

proof fn lemma_expected_push(weapons: Seq<WeaponStats>)
    requires
        weapons.len() > 0,
    ensures
        expected_weapon_breakdown(weapons) == expected_weapon_breakdown(weapons.drop_last()).insert(
            weapon_type_name(weapons.last().reference_id),
            type_kills(weapons, weapon_type_name(weapons.last().reference_id)),
        ),
{
    assert(expected_weapon_breakdown(weapons) =~= expected_weapon_breakdown(weapons.drop_last()).insert(
        weapon_type_name(weapons.last().reference_id),
        type_kills(weapons, weapon_type_name(weapons.last().reference_id)),
    ));
}

proof fn lemma_breakdown_at(entries: Seq<(String, i32)>, i: int)
    requires
        names_distinct(entries),
        0 <= i < entries.len(),
    ensures
        breakdown_map(entries).contains_key(entries[i].0@),
        breakdown_map(entries)[entries[i].0@] == entries[i].1,
    decreases entries.len(),
{
    if i < entries.len() - 1 {
        lemma_breakdown_at(entries.drop_last(), i);
        assert(entries.drop_last()[i] == entries[i]);
        assert(entries.last().0@ != entries[i].0@);
    }
}

proof fn lemma_breakdown_absent(entries: Seq<(String, i32)>, name: Seq<char>)
    requires
        forall|k: int| 0 <= k < entries.len() ==> (#[trigger] entries[k]).0@ != name,
    ensures
        !breakdown_map(entries).contains_key(name),
    decreases entries.len(),
{
    if entries.len() > 0 {
        let d = entries.drop_last();
        assert forall|k: int| 0 <= k < d.len() implies (#[trigger] d[k]).0@ != name by {
            assert(d[k] == entries[k]);
        }
        lemma_breakdown_absent(d, name);
        assert(entries[entries.len() - 1].0@ != name);
    }
}

proof fn lemma_breakdown_update(entries: Seq<(String, i32)>, i: int, e: (String, i32))
    requires
        names_distinct(entries),
        0 <= i < entries.len(),
        entries[i].0@ == e.0@,
    ensures
        breakdown_map(entries.update(i, e)) == breakdown_map(entries).insert(e.0@, e.1 as int),
        breakdown_total(entries.update(i, e)) == breakdown_total(entries) - entries[i].1 + e.1,
    decreases entries.len(),
{
    let u = entries.update(i, e);
    if i == entries.len() - 1 {
        assert(u.drop_last() =~= entries.drop_last());
        assert(breakdown_map(u) =~= breakdown_map(entries).insert(e.0@, e.1 as int));
    } else {
        assert(u.drop_last() =~= entries.drop_last().update(i, e));
        lemma_breakdown_update(entries.drop_last(), i, e);
        assert(entries.last().0@ != e.0@);
        assert(breakdown_map(u) =~= breakdown_map(entries).insert(e.0@, e.1 as int));
    }
}

/// Adds `kills` to the count recorded under `name`: the entry of that name gets the sum, or a
/// new entry is added at the end.
pub fn breakdown_add(entries: &mut Vec<(String, i32)>, name: String, kills: i32)
    requires
        names_distinct(old(entries)@),
        fits_i32(count_or_zero(breakdown_map(old(entries)@), name@) + kills),
    ensures
        names_distinct(final(entries)@),
        breakdown_map(final(entries)@) == breakdown_map(old(entries)@).insert(
            name@,
            count_or_zero(breakdown_map(old(entries)@), name@) + kills,
        ),
        breakdown_total(final(entries)@) == breakdown_total(old(entries)@) + kills,
{
    let n = entries.len();
    let mut i: usize = 0;
    while i < n
        invariant
            i <= n,
            n == entries@.len(),
            entries@ == old(entries)@,
            names_distinct(old(entries)@),
            fits_i32(count_or_zero(breakdown_map(old(entries)@), name@) + kills),
            forall|k: int| 0 <= k < i ==> (#[trigger] entries@[k]).0@ != name@,
        decreases n - i,
    {
        if entries[i].0 == name {
            let ghost before = entries@;
            proof {
                lemma_breakdown_at(before, i as int);
                assert(before[i as int].0@ == name@);
                assert(count_or_zero(breakdown_map(old(entries)@), name@) == before[i as int].1);
            }
            let sum = entries[i].1 + kills;
            proof {
                lemma_breakdown_update(before, i as int, (name, sum));
            }
            entries.set(i, (name, sum));
            assert(names_distinct(entries@)) by {
                assert forall|a: int, b: int| 0 <= a < b < entries@.len() implies entries@[a].0@
                    != entries@[b].0@ by {
                    assert(before[a].0@ != before[b].0@);
                }
            }
            return;
        }
        i = i + 1;
    }
    let ghost before = entries@;
    proof {
        lemma_breakdown_absent(before, name@);
    }
    entries.push((name, kills));
    assert(entries@.drop_last() =~= before);
}

/// The whole-number value of the statistic `key` in `table`, or 0 where the table lacks it.
pub fn stat_value(table: &Vec<(String, StatValue)>, key: &str) -> (v: i32)
    ensures
        v == stat_or_zero(table@, key@),
{
    match lookup_by_name(table, key) {
        Some(s) => s.basic.value,
        None => 0,
    }
}

/// Two item hashes have the same weapon type exactly where they end in the same decimal digit.
pub proof fn lemma_weapon_type_by_last_digit(a: u32, b: u32)
    ensures
        (weapon_type_name(a) == weapon_type_name(b)) <==> (a % 10 == b % 10),
{
    reveal_strlit("Auto Rifle");
    reveal_strlit("Hand Cannon");
    reveal_strlit("Pulse Rifle");
    reveal_strlit("Scout Rifle");
    reveal_strlit("Submachine Gun");
    reveal_strlit("Shotgun");
    reveal_strlit("Sniper Rifle");
    reveal_strlit("Fusion Rifle");
    reveal_strlit("Rocket Launcher");
    reveal_strlit("Unknown Weapon");
    let names = seq![
        "Auto Rifle"@,
        "Hand Cannon"@,
        "Pulse Rifle"@,
        "Scout Rifle"@,
        "Submachine Gun"@,
        "Shotgun"@,
        "Sniper Rifle"@,
        "Fusion Rifle"@,
        "Rocket Launcher"@,
        "Unknown Weapon"@,
    ];
    assert forall|i: int, j: int| 0 <= i < 10 && 0 <= j < 10 && i != j implies names[i] != names[j] by {
        if names[i].len() == names[j].len() {
            assert(names[i][0] != names[j][0]);
        }
    }
    assert forall|h: u32| #[trigger] weapon_type_name(h) == names[(h % 10) as int] by {
        assert(names[0] == "Auto Rifle"@);
        assert(names[1] == "Hand Cannon"@);
        assert(names[2] == "Pulse Rifle"@);
        assert(names[3] == "Scout Rifle"@);
        assert(names[4] == "Submachine Gun"@);
        assert(names[5] == "Shotgun"@);
        assert(names[6] == "Sniper Rifle"@);
        assert(names[7] == "Fusion Rifle"@);
        assert(names[8] == "Rocket Launcher"@);
        assert(names[9] == "Unknown Weapon"@);
    }
    assert(weapon_type_name(a) == names[(a % 10) as int]);
    assert(weapon_type_name(b) == names[(b % 10) as int]);
}

/// The kills of all participants in `entries`.
pub open spec fn kills_sum(entries: Seq<ParticipantEntry>) -> int
    decreases entries.len(),
{
    if entries.len() == 0 {
        0
    } else {
        kills_sum(entries.drop_last()) + total_kills_of(entries.last())
    }
}

/// The deaths of all participants in `entries`.
pub open spec fn deaths_sum(entries: Seq<ParticipantEntry>) -> int
    decreases entries.len(),
{
    if entries.len() == 0 {
        0
    } else {
        deaths_sum(entries.drop_last()) + total_deaths_of(entries.last())
    }
}

/// Every sum that the summary of `report` computes is an `i32`.
pub open spec fn summary_fits(report: PostGameCarnageReport) -> bool {
    forall|n: int|
        0 <= n <= report.entries@.len() ==> fits_i32(#[trigger] kills_sum(report.entries@.take(n)))
            && fits_i32(deaths_sum(report.entries@.take(n)))
}

/// `s` is the summary of `report`: its kind of activity by its mode, the kills and deaths of all
/// participants, "Flawless" where nobody died and "Completed" otherwise, and an unknown duration.
pub open spec fn summary_of(s: ActivitySummary, report: PostGameCarnageReport) -> bool {
    &&& s.activity_type == activity_type_for_mode(report.activity_details.mode)
    &&& s.duration@ == "Unknown"@
    &&& s.total_fireteam_kills == kills_sum(report.entries@)
    &&& s.total_fireteam_deaths == deaths_sum(report.entries@)
    &&& s.completion_status@ == (if deaths_sum(report.entries@) == 0 {
        "Flawless"@
    } else {
        "Completed"@
    })
}

/// `u` is the analysis of the participant `p`.
pub open spec fn analysis_of(u: UserAnalysis, p: ParticipantEntry) -> bool {
    &&& u.user_info == p.player.destiny_user_info
    &&& u.character_info == p.player
    &&& equipment_from(u.equipment, p.extended.weapons@)
    &&& attribution_of(u.kill_attribution, p)
}

/// A participant's membership ID.
pub open spec fn membership_id_of(p: ParticipantEntry) -> Seq<char> {
    p.player.destiny_user_info.membership_id@
}

/// Some participant in `entries` has the membership ID `id`.
pub open spec fn has_participant(entries: Seq<ParticipantEntry>, id: Seq<char>) -> bool {
    exists|i: int| 0 <= i < entries.len() && membership_id_of(#[trigger] entries[i]) == id
}

/// `i` is the first participant in `entries` with the membership ID `id`.
pub open spec fn is_first_with_id(entries: Seq<ParticipantEntry>, id: Seq<char>, i: int) -> bool {
    &&& 0 <= i < entries.len()
    &&& membership_id_of(entries[i]) == id
    &&& forall|j: int| 0 <= j < i ==> membership_id_of(#[trigger] entries[j]) != id
}

/// The position of the first participant in `entries` with the membership ID `id`.
pub open spec fn first_index_with_id(entries: Seq<ParticipantEntry>, id: Seq<char>) -> int {
    choose|i: int| is_first_with_id(entries, id, i)
}

/// The participants in `entries` whose membership ID is not `id`, in order.
pub open spec fn other_participants(entries: Seq<ParticipantEntry>, id: Seq<char>) -> Seq<ParticipantEntry>
    decreases entries.len(),
{
    if entries.len() == 0 {
        Seq::empty()
    } else {
        let rest = other_participants(entries.drop_last(), id);
        if membership_id_of(entries.last()) != id {
            rest.push(entries.last())
        } else {
            rest
        }
    }
}

/// The positions in `entries` of the participants whose membership ID is not `id`, in order.
pub open spec fn other_indices(entries: Seq<ParticipantEntry>, id: Seq<char>) -> Seq<int>
    decreases entries.len(),
{
    if entries.len() == 0 {
        Seq::empty()
    } else {
        let rest = other_indices(entries.drop_last(), id);
        if membership_id_of(entries.last()) != id {
            rest.push(entries.len() - 1)
        } else {
            rest
        }
    }
}

/// The other participants are the entries at the other positions.
pub proof fn lemma_other_indices(entries: Seq<ParticipantEntry>, id: Seq<char>)
    ensures
        other_indices(entries, id).len() == other_participants(entries, id).len(),
        forall|k: int|
            0 <= k < other_indices(entries, id).len() ==> 0 <= #[trigger] other_indices(entries, id)[k]
                < entries.len() && entries[other_indices(entries, id)[k]] == other_participants(entries, id)[k],
    decreases entries.len(),
{
    if entries.len() > 0 {
        let d = entries.drop_last();
        lemma_other_indices(d, id);
        let ri = other_indices(d, id);
        let rp = other_participants(d, id);
        assert forall|k: int| 0 <= k < other_indices(entries, id).len() implies 0 <= #[trigger] other_indices(entries, id)[k]
            < entries.len() && entries[other_indices(entries, id)[k]] == other_participants(entries, id)[k] by {
            if k < ri.len() {
                assert(other_indices(entries, id)[k] == ri[k]);
                assert(other_participants(entries, id)[k] == rp[k]);
                assert(entries[ri[k]] == d[ri[k]]);
            }
        }
    }
}

/// The item hashes of all weapons that the participants in `entries` used.
pub open spec fn entries_weapon_hashes(entries: Seq<ParticipantEntry>) -> Set<u32>
    decreases entries.len(),
{
    if entries.len() == 0 {
        Set::empty()
    } else {
        entries_weapon_hashes(entries.drop_last()).union(
            weapon_hashes(entries.last().extended.weapons@),
        )
    }
}

/// Every sum that the analysis of `report` for the user `id` computes is an `i32`: those of the
/// participants it analyzes (the first with that ID and all without it) and those of the summary.
pub open spec fn report_fits(report: PostGameCarnageReport, id: Seq<char>) -> bool {
    let es = report.entries@;
    &&& forall|i: int|
        0 <= i < es.len() && (membership_id_of(es[i]) != id || is_first_with_id(es, id, i))
            ==> attribution_fits(#[trigger] es[i])
    &&& summary_fits(report)
}

/// Finds the first participant with the membership ID `id`.
pub fn find_participant(entries: &Vec<ParticipantEntry>, id: &str) -> (r: Option<usize>)
    ensures
        match r {
            Some(i) => is_first_with_id(entries@, id@, i as int) && first_index_with_id(entries@, id@) == i,
            None => !has_participant(entries@, id@),
        },
{
    let n = entries.len();
    let mut i: usize = 0;
    while i < n
        invariant
            i <= n,
            n == entries@.len(),
            forall|j: int| 0 <= j < i ==> membership_id_of(#[trigger] entries@[j]) != id@,
        decreases n - i,
    {
        if text_eq(entries[i].player.destiny_user_info.membership_id.as_str(), id) {
            proof {
                assert(is_first_with_id(entries@, id@, i as int));
                let c = first_index_with_id(entries@, id@);
                assert(is_first_with_id(entries@, id@, c));
                if c < i {
                    assert(membership_id_of(entries@[c]) != id@);
                } else if c > i {
                    assert(membership_id_of(entries@[i as int]) != id@);
                }
            }
            return Some(i);
        }
        i = i + 1;
    }
    None
}


/// A participant's kills are exactly split into weapon, ability and environmental kills.
pub proof fn lemma_kills_partition(k: KillAttribution, p: ParticipantEntry)
    requires
        attribution_of(k, p),
    ensures
        k.total_kills == k.weapon_kills + k.ability_kills + k.environmental_kills,
{
}

/// The weapon breakdown adds up to the weapon kills.
pub proof fn lemma_weapon_breakdown_sums(k: KillAttribution, p: ParticipantEntry)
    requires
        attribution_of(k, p),
    ensures
        breakdown_total(k.weapon_breakdown@) == k.weapon_kills,
{
}

/// The ability breakdown adds up to the ability kills.
pub proof fn lemma_ability_breakdown_sums(k: KillAttribution, p: ParticipantEntry)
    requires
        attribution_of(k, p),
    ensures
        k.ability_breakdown@[0].1 + k.ability_breakdown@[1].1 + k.ability_breakdown@[2].1
            == k.ability_kills,
{
}

/// Once an item's name is remembered, asking for it again changes nothing the analyzer remembers.
pub proof fn lemma_item_name_remembered(a: CarnageReportAnalyzer, item_hash: u32)
    requires
        a.wf(),
        a.item_names().contains_key(item_hash),
    ensures
        a.item_names().insert(item_hash, placeholder_name(item_hash)) == a.item_names(),
{
    assert(a.item_names().insert(item_hash, placeholder_name(item_hash)) =~= a.item_names());
}

/// No participant among the others has the membership ID they are the others of.
pub proof fn lemma_others_exclude_id(entries: Seq<ParticipantEntry>, id: Seq<char>)
    ensures
        forall|k: int|
            0 <= k < other_participants(entries, id).len() ==> membership_id_of(
                #[trigger] other_participants(entries, id)[k],
            ) != id,
    decreases entries.len(),
{
    if entries.len() > 0 {
        lemma_others_exclude_id(entries.drop_last(), id);
        let rest = other_participants(entries.drop_last(), id);
        let all = other_participants(entries, id);
        assert forall|k: int| 0 <= k < all.len() implies membership_id_of(#[trigger] all[k]) != id by {
            if k < rest.len() {
                assert(all[k] == rest[k]);
            }
        }
    }
}

/// The analysis of a report has the user asked about as its primary user, and nobody with that
/// membership ID among the fireteam members.
pub proof fn lemma_primary_user_is_target(
    report: PostGameCarnageReport,
    target_user_id: Seq<char>,
    a: FireteamAnalysis,
)
    requires
        has_participant(report.entries@, target_user_id),
        analysis_of(a.primary_user, report.entries@[first_index_with_id(report.entries@, target_user_id)]),
        is_first_with_id(report.entries@, target_user_id, first_index_with_id(report.entries@, target_user_id)),
        a.fireteam_members@.len() == other_participants(report.entries@, target_user_id).len(),
        forall|k: int|
            0 <= k < a.fireteam_members@.len() ==> analysis_of(
                #[trigger] a.fireteam_members@[k],
                other_participants(report.entries@, target_user_id)[k],
            ),
    ensures
        a.primary_user.user_info.membership_id@ == target_user_id,
        forall|k: int|
            0 <= k < a.fireteam_members@.len() ==> (#[trigger] a.fireteam_members@[k]).user_info.membership_id@
                != target_user_id,
{
    lemma_others_exclude_id(report.entries@, target_user_id);
    assert forall|k: int| 0 <= k < a.fireteam_members@.len() implies (
    #[trigger] a.fireteam_members@[k]).user_info.membership_id@ != target_user_id by {
        assert(analysis_of(a.fireteam_members@[k], other_participants(report.entries@, target_user_id)[k]));
    }
}

/// The activity is flawless exactly where no participant died.
pub proof fn lemma_flawless_iff_no_deaths(s: ActivitySummary, report: PostGameCarnageReport)
    requires
        summary_of(s, report),
    ensures
        (s.completion_status@ == "Flawless"@) <==> s.total_fireteam_deaths == 0,
{
    reveal_strlit("Flawless");
    reveal_strlit("Completed");
    if s.total_fireteam_deaths != 0 {
        assert(s.completion_status@[0] != "Flawless"@[0]);
    }
}


/// `r` is what analyzing `report` for the user `id` gives: that user (the first participant with
/// the ID, and where it stands), every participant with another ID in order (and where each
/// stands), and the summary; or `UserNotFound` with the ID where no participant has it.
pub open spec fn analysis_result_of(
    r: Result<FireteamAnalysis, BungieError>,
    report: PostGameCarnageReport,
    id: Seq<char>,
) -> bool {
    match r {
        Ok(a) => {
            let es = report.entries@;
            let i = first_index_with_id(es, id);
            let others = other_participants(es, id);
            &&& has_participant(es, id)
            &&& is_first_with_id(es, id, i)
            &&& analysis_of(a.primary_user, es[i])
            &&& a.primary_user.entry_index == i
            &&& a.fireteam_members@.len() == others.len()
            &&& forall|k: int| 0 <= k < others.len() ==> analysis_of(#[trigger] a.fireteam_members@[k], others[k])
            &&& forall|k: int| 0 <= k < others.len() ==> (#[trigger] a.fireteam_members@[k]).entry_index
                == other_indices(es, id)[k]
            &&& summary_of(a.activity_summary, report)
        },
        Err(e) => {
            &&& !has_participant(report.entries@, id)
            &&& e matches BungieError::UserNotFound { bungie_id } && bungie_id@ == id
        },
    }
}

/// Two weapon slots hold weapons alike in every field, or are both empty.
pub open spec fn same_weapon(a: Option<Weapon>, b: Option<Weapon>) -> bool {
    match (a, b) {
        (Some(x), Some(y)) => {
            &&& x.item_hash == y.item_hash
            &&& x.name@ == y.name@
            &&& x.weapon_type@ == y.weapon_type@
            &&& x.damage_type@ == y.damage_type@
            &&& x.power_level == y.power_level
        },
        (None, None) => true,
        _ => false,
    }
}

/// Two analyses of participants are alike in every field (a weapon breakdown as a map from
/// weapon type to kills).
pub open spec fn same_user_analysis(a: UserAnalysis, b: UserAnalysis) -> bool {
    &&& a.user_info.membership_id@ == b.user_info.membership_id@
    &&& a.user_info.display_name@ == b.user_info.display_name@
    &&& a.user_info.membership_type == b.user_info.membership_type
    &&& a.character_info == b.character_info
    &&& same_weapon(a.equipment.primary_weapon, b.equipment.primary_weapon)
    &&& same_weapon(a.equipment.secondary_weapon, b.equipment.secondary_weapon)
    &&& same_weapon(a.equipment.heavy_weapon, b.equipment.heavy_weapon)
    &&& a.equipment.helmet == b.equipment.helmet
    &&& a.equipment.gauntlets == b.equipment.gauntlets
    &&& a.equipment.chest_armor == b.equipment.chest_armor
    &&& a.equipment.leg_armor == b.equipment.leg_armor
    &&& a.equipment.class_item == b.equipment.class_item
    &&& a.equipment.ghost_shell == b.equipment.ghost_shell
    &&& a.equipment.vehicle == b.equipment.vehicle
    &&& a.kill_attribution.total_kills == b.kill_attribution.total_kills
    &&& a.kill_attribution.weapon_kills == b.kill_attribution.weapon_kills
    &&& a.kill_attribution.ability_kills == b.kill_attribution.ability_kills
    &&& a.kill_attribution.environmental_kills == b.kill_attribution.environmental_kills
    &&& breakdown_map(a.kill_attribution.weapon_breakdown@) == breakdown_map(b.kill_attribution.weapon_breakdown@)
    &&& a.kill_attribution.ability_breakdown@.len() == b.kill_attribution.ability_breakdown@.len()
    &&& forall|k: int|
        0 <= k < a.kill_attribution.ability_breakdown@.len() ==> (#[trigger] a.kill_attribution.ability_breakdown@[k]).0@
            == b.kill_attribution.ability_breakdown@[k].0@ && a.kill_attribution.ability_breakdown@[k].1
            == b.kill_attribution.ability_breakdown@[k].1
    &&& a.entry_index == b.entry_index
}

/// Two fireteam analyses are alike in every field.
pub open spec fn same_fireteam_analysis(a: FireteamAnalysis, b: FireteamAnalysis) -> bool {
    &&& same_user_analysis(a.primary_user, b.primary_user)
    &&& a.fireteam_members@.len() == b.fireteam_members@.len()
    &&& forall|k: int|
        0 <= k < a.fireteam_members@.len() ==> same_user_analysis(
            #[trigger] a.fireteam_members@[k],
            b.fireteam_members@[k],
        )
    &&& a.activity_summary.activity_type == b.activity_summary.activity_type
    &&& a.activity_summary.duration@ == b.activity_summary.duration@
    &&& a.activity_summary.total_fireteam_kills == b.activity_summary.total_fireteam_kills
    &&& a.activity_summary.total_fireteam_deaths == b.activity_summary.total_fireteam_deaths
    &&& a.activity_summary.completion_status@ == b.activity_summary.completion_status@
}

proof fn lemma_same_analysis_of(a: UserAnalysis, b: UserAnalysis, p: ParticipantEntry)
    requires
        analysis_of(a, p),
        analysis_of(b, p),
        a.entry_index == b.entry_index,
    ensures
        same_user_analysis(a, b),
{
    let ka = a.kill_attribution;
    let kb = b.kill_attribution;
    assert forall|k: int| 0 <= k < ka.ability_breakdown@.len() implies (#[trigger] ka.ability_breakdown@[k]).0@
        == kb.ability_breakdown@[k].0@ && ka.ability_breakdown@[k].1 == kb.ability_breakdown@[k].1 by {
        assert(k == 0 || k == 1 || k == 2);
    }
}

/// Analyzing one report for one user gives the same result whatever names the analyzer has
/// remembered: any two results of `analyze_report` on the same report and membership ID are both
/// errors for the same ID, or analyses alike in every field.
pub proof fn lemma_analysis_independent_of_cache(
    report: PostGameCarnageReport,
    id: Seq<char>,
    r1: Result<FireteamAnalysis, BungieError>,
    r2: Result<FireteamAnalysis, BungieError>,
)
    requires
        analysis_result_of(r1, report, id),
        analysis_result_of(r2, report, id),
    ensures
        r1 is Ok <==> r2 is Ok,
        r1 is Ok ==> same_fireteam_analysis(r1->Ok_0, r2->Ok_0),
        r1 is Err ==> r1->Err_0 is UserNotFound && r2->Err_0 is UserNotFound
            && r1->Err_0->UserNotFound_bungie_id@ == r2->Err_0->UserNotFound_bungie_id@,
{
    if r1 is Ok && r2 is Ok {
        let a = r1->Ok_0;
        let b = r2->Ok_0;
        let es = report.entries@;
        let i = first_index_with_id(es, id);
        let others = other_participants(es, id);
        lemma_same_analysis_of(a.primary_user, b.primary_user, es[i]);
        assert forall|k: int| 0 <= k < a.fireteam_members@.len() implies same_user_analysis(
            #[trigger] a.fireteam_members@[k],
            b.fireteam_members@[k],
        ) by {
            lemma_same_analysis_of(a.fireteam_members@[k], b.fireteam_members@[k], others[k]);
        }
    }
}

/// Whether the participant `e` has a membership ID other than `id`.
pub open spec fn is_other_participant(e: ParticipantEntry, id: Seq<char>) -> bool {
    e.player.destiny_user_info.membership_id@ != id
}

proof fn lemma_other_indices_exact(es: Seq<ParticipantEntry>, id: Seq<char>)
    ensures
        forall|k: int|
            0 <= k < other_indices(es, id).len() ==> 0 <= #[trigger] other_indices(es, id)[k] < es.len()
                && is_other_participant(es[other_indices(es, id)[k]], id),
        forall|k1: int, k2: int|
            0 <= k1 < k2 < other_indices(es, id).len() ==> #[trigger] other_indices(es, id)[k1]
                < #[trigger] other_indices(es, id)[k2],
        forall|j: int|
            0 <= j < es.len() && is_other_participant(#[trigger] es[j], id) ==> exists|k: int|
                0 <= k < other_indices(es, id).len() && other_indices(es, id)[k] == j,
        other_indices(es, id).len() == es.filter(|e: ParticipantEntry| is_other_participant(e, id)).len(),
    decreases es.len(),
{
    reveal(Seq::filter);
    if es.len() > 0 {
        let d = es.drop_last();
        lemma_other_indices_exact(d, id);
        let ri = other_indices(d, id);
        let oi = other_indices(es, id);
        assert(es.filter(|e: ParticipantEntry| is_other_participant(e, id)) == (if is_other_participant(
            es.last(),
            id,
        ) {
            d.filter(|e: ParticipantEntry| is_other_participant(e, id)).push(es.last())
        } else {
            d.filter(|e: ParticipantEntry| is_other_participant(e, id))
        }));
        assert forall|k: int| 0 <= k < oi.len() implies 0 <= #[trigger] oi[k] < es.len()
            && is_other_participant(es[oi[k]], id) by {
            if k < ri.len() {
                assert(oi[k] == ri[k]);
                assert(es[ri[k]] == d[ri[k]]);
            }
        }
        assert forall|k1: int, k2: int| 0 <= k1 < k2 < oi.len() implies #[trigger] oi[k1] < #[trigger] oi[k2] by {
            assert(oi[k1] == ri[k1]);
            if k2 < ri.len() {
                assert(oi[k2] == ri[k2]);
            }
        }
        assert forall|j: int| 0 <= j < es.len() && is_other_participant(#[trigger] es[j], id) implies exists|k: int|
            0 <= k < oi.len() && oi[k] == j by {
            if j < d.len() {
                assert(d[j] == es[j]);
                let k = choose|k: int| 0 <= k < ri.len() && ri[k] == j;
                assert(oi[k] == ri[k]);
            } else {
                assert(oi[ri.len() as int] == j);
            }
        }
    }
}

/// The fireteam of an analysis is every participant whose membership ID is not the target's, each
/// once and in report order, whatever their statistics: every such entry is some member's entry,
/// every member is such an entry with that entry's player, and there are as many members as such
/// entries.
pub proof fn lemma_fireteam_is_every_other_participant(
    report: PostGameCarnageReport,
    id: Seq<char>,
    a: FireteamAnalysis,
)
    requires
        analysis_result_of(Ok(a), report, id),
    ensures
        forall|j: int|
            0 <= j < report.entries@.len() && is_other_participant(#[trigger] report.entries@[j], id)
                ==> exists|k: int|
                0 <= k < a.fireteam_members@.len() && a.fireteam_members@[k].entry_index == j,
        forall|k: int|
            0 <= k < a.fireteam_members@.len() ==> {
                let j = (#[trigger] a.fireteam_members@[k]).entry_index as int;
                &&& 0 <= j < report.entries@.len()
                &&& is_other_participant(report.entries@[j], id)
                &&& a.fireteam_members@[k].user_info == report.entries@[j].player.destiny_user_info
                &&& a.fireteam_members@[k].character_info == report.entries@[j].player
            },
        forall|k1: int, k2: int|
            0 <= k1 < k2 < a.fireteam_members@.len() ==> (#[trigger] a.fireteam_members@[k1]).entry_index
                < (#[trigger] a.fireteam_members@[k2]).entry_index,
        a.fireteam_members@.len() == report.entries@.filter(
            |e: ParticipantEntry| is_other_participant(e, id),
        ).len(),
{
    let es = report.entries@;
    let oi = other_indices(es, id);
    let others = other_participants(es, id);
    lemma_other_indices(es, id);
    lemma_other_indices_exact(es, id);
    let m = a.fireteam_members@;
    assert forall|j: int| 0 <= j < es.len() && is_other_participant(#[trigger] es[j], id) implies exists|k: int|
        0 <= k < m.len() && m[k].entry_index == j by {
        let k = choose|k: int| 0 <= k < oi.len() && oi[k] == j;
        assert(m[k].entry_index == oi[k]);
    }
    assert forall|k: int| 0 <= k < m.len() implies {
        let j = (#[trigger] m[k]).entry_index as int;
        &&& 0 <= j < es.len()
        &&& is_other_participant(es[j], id)
        &&& m[k].user_info == es[j].player.destiny_user_info
        &&& m[k].character_info == es[j].player
    } by {
        assert(m[k].entry_index == oi[k]);
        assert(analysis_of(m[k], others[k]));
        assert(es[oi[k]] == others[k]);
    }
    assert forall|k1: int, k2: int| 0 <= k1 < k2 < m.len() implies (#[trigger] m[k1]).entry_index
        < (#[trigger] m[k2]).entry_index by {
        assert(m[k1].entry_index == oi[k1]);
        assert(m[k2].entry_index == oi[k2]);
        assert(oi[k1] < oi[k2]);
    }
}

/// The primary user of an analysis is the first entry of the report with the target membership ID,
/// with that entry's player; and the analysis fails with that ID exactly where every entry has
/// another ID.
pub proof fn lemma_primary_user_is_first_with_id(
    report: PostGameCarnageReport,
    id: Seq<char>,
    r: Result<FireteamAnalysis, BungieError>,
)
    requires
        analysis_result_of(r, report, id),
    ensures
        r is Ok ==> {
            let a = r->Ok_0;
            let i = a.primary_user.entry_index as int;
            &&& 0 <= i < report.entries@.len()
            &&& !is_other_participant(report.entries@[i], id)
            &&& forall|j: int| 0 <= j < i ==> is_other_participant(#[trigger] report.entries@[j], id)
            &&& a.primary_user.user_info == report.entries@[i].player.destiny_user_info
            &&& a.primary_user.character_info == report.entries@[i].player
        },
        r is Err <==> forall|j: int|
            0 <= j < report.entries@.len() ==> is_other_participant(#[trigger] report.entries@[j], id),
        r is Err ==> r->Err_0 is UserNotFound && r->Err_0->UserNotFound_bungie_id@ == id,
{
    let es = report.entries@;
    if r is Ok {
        let i = first_index_with_id(es, id);
        assert(is_first_with_id(es, id, i));
        assert(membership_id_of(es[i]) == id);
    } else {
        assert forall|j: int| 0 <= j < es.len() implies is_other_participant(#[trigger] es[j], id) by {
            if !is_other_participant(es[j], id) {
                assert(membership_id_of(es[j]) == id);
            }
        }
    }
}

/// The value of the statistic `key` in `table` is `v`: that of the first entry named `key`, or 0
/// where no entry has that name.
pub open spec fn stat_reads(table: Seq<(String, StatValue)>, key: Seq<char>, v: int) -> bool {
    &&& forall|i: int|
        0 <= i < table.len() && (#[trigger] table[i]).0@ == key && (forall|j: int|
            0 <= j < i ==> (#[trigger] table[j]).0@ != key) ==> v == table[i].1.basic.value
    &&& (forall|i: int| 0 <= i < table.len() ==> (#[trigger] table[i]).0@ != key) ==> v == 0
}

proof fn lemma_first_with_key_at<V>(entries: Seq<(String, V)>, key: Seq<char>, i: int)
    requires
        0 <= i < entries.len(),
        entries[i].0@ == key,
        forall|j: int| 0 <= j < i ==> (#[trigger] entries[j]).0@ != key,
    ensures
        first_with_key(entries, key) == Some(entries[i].1),
    decreases i,
{
    if i > 0 {
        let d = entries.drop_first();
        assert(entries[0].0@ != key);
        assert forall|j: int| 0 <= j < i - 1 implies (#[trigger] d[j]).0@ != key by {
            assert(d[j] == entries[j + 1]);
        }
        lemma_first_with_key_at(d, key, i - 1);
    }
}

proof fn lemma_first_with_key_absent<V>(entries: Seq<(String, V)>, key: Seq<char>)
    requires
        forall|i: int| 0 <= i < entries.len() ==> (#[trigger] entries[i]).0@ != key,
    ensures
        first_with_key(entries, key) is None,
    decreases entries.len(),
{
    if entries.len() > 0 {
        let d = entries.drop_first();
        assert(entries[0].0@ != key);
        assert forall|i: int| 0 <= i < d.len() implies (#[trigger] d[i]).0@ != key by {
            assert(d[i] == entries[i + 1]);
        }
        lemma_first_with_key_absent(d, key);
    }
}

proof fn lemma_stat_or_zero_reads(table: Seq<(String, StatValue)>, key: Seq<char>)
    ensures
        stat_reads(table, key, stat_or_zero(table, key)),
{
    assert forall|i: int|
        0 <= i < table.len() && (#[trigger] table[i]).0@ == key && (forall|j: int|
            0 <= j < i ==> (#[trigger] table[j]).0@ != key) implies stat_or_zero(table, key)
        == table[i].1.basic.value by {
        lemma_first_with_key_at(table, key, i);
    }
    if forall|i: int| 0 <= i < table.len() ==> (#[trigger] table[i]).0@ != key {
        lemma_first_with_key_absent(table, key);
    }
}

/// The kill attribution reads the participant's statistics: the total kills are its `kills`, the
/// grenade, melee and super entries of the ability breakdown are its `weaponKillsGrenade`,
/// `weaponKillsMelee` and `weaponKillsSuper` (0 where absent), the ability kills are their sum,
/// and the environmental kills are what the weapons and abilities leave of the total.
pub proof fn lemma_attribution_reads_stats(k: KillAttribution, p: ParticipantEntry)
    requires
        attribution_of(k, p),
    ensures
        stat_reads(p.values@, "kills"@, k.total_kills as int),
        k.ability_breakdown@.len() == 3,
        stat_reads(p.extended.values@, "weaponKillsGrenade"@, k.ability_breakdown@[0].1 as int),
        stat_reads(p.extended.values@, "weaponKillsMelee"@, k.ability_breakdown@[1].1 as int),
        stat_reads(p.extended.values@, "weaponKillsSuper"@, k.ability_breakdown@[2].1 as int),
        k.ability_kills == k.ability_breakdown@[0].1 + k.ability_breakdown@[1].1 + k.ability_breakdown@[2].1,
        k.environmental_kills == k.total_kills - k.weapon_kills - k.ability_kills,
{
    lemma_stat_or_zero_reads(p.values@, "kills"@);
    lemma_stat_or_zero_reads(p.extended.values@, "weaponKillsGrenade"@);
    lemma_stat_or_zero_reads(p.extended.values@, "weaponKillsMelee"@);
    lemma_stat_or_zero_reads(p.extended.values@, "weaponKillsSuper"@);
}

/// The fireteam's kill and death totals add up over the participants: those of two runs of
/// participants together are the sums of those of each run, and none are counted for no
/// participant.
pub proof fn lemma_fireteam_totals_add_up(a: Seq<ParticipantEntry>, b: Seq<ParticipantEntry>)
    ensures
        kills_sum(a + b) == kills_sum(a) + kills_sum(b),
        deaths_sum(a + b) == deaths_sum(a) + deaths_sum(b),
        kills_sum(Seq::<ParticipantEntry>::empty()) == 0,
        deaths_sum(Seq::<ParticipantEntry>::empty()) == 0,
    decreases b.len(),
{
    if b.len() > 0 {
        lemma_fireteam_totals_add_up(a, b.drop_last());
        assert((a + b).drop_last() =~= a + b.drop_last());
        assert((a + b).last() == b.last());
    } else {
        assert(a + b =~= a);
    }
}

/// One participant counts for the fireteam totals with its own `kills` and `deaths` statistics
/// (0 where absent).
pub proof fn lemma_fireteam_totals_of_one(e: ParticipantEntry)
    ensures
        stat_reads(e.values@, "kills"@, kills_sum(seq![e])),
        stat_reads(e.values@, "deaths"@, deaths_sum(seq![e])),
{
    assert(seq![e].drop_last() =~= Seq::<ParticipantEntry>::empty());
    assert(seq![e].last() == e);
    assert(kills_sum(seq![e].drop_last()) == 0);
    assert(deaths_sum(seq![e].drop_last()) == 0);
    lemma_stat_or_zero_reads(e.values@, "kills"@);
    lemma_stat_or_zero_reads(e.values@, "deaths"@);
}

/// Weapon kills add up over the weapons: those of two runs of weapons together are the sums of
/// those of each run, none are counted for no weapon, and one weapon counts with its own
/// `uniqueWeaponKills` statistic (0 where absent).
pub proof fn lemma_weapon_kills_add_up(a: Seq<WeaponStats>, b: Seq<WeaponStats>, w: WeaponStats)
    ensures
        weapon_kills_sum(a + b) == weapon_kills_sum(a) + weapon_kills_sum(b),
        weapon_kills_sum(Seq::<WeaponStats>::empty()) == 0,
        stat_reads(w.values@, "uniqueWeaponKills"@, weapon_kills_sum(seq![w])),
    decreases b.len(),
{
    if b.len() > 0 {
        lemma_weapon_kills_add_up(a, b.drop_last(), w);
        assert((a + b).drop_last() =~= a + b.drop_last());
        assert((a + b).last() == b.last());
    } else {
        assert(a + b =~= a);
    }
    assert(seq![w].drop_last() =~= Seq::<WeaponStats>::empty());
    assert(seq![w].last() == w);
    assert(weapon_kills_sum(seq![w].drop_last()) == 0);
    lemma_stat_or_zero_reads(w.values@, "uniqueWeaponKills"@);
}

/// The damage type of an item hash is, by the hash's remainder by 6, Kinetic, Solar, Arc, Void,
/// Stasis or Strand.
pub proof fn lemma_damage_type_by_remainder(item_hash: u32)
    ensures
        item_hash % 6 == 0 ==> damage_type_name(item_hash) == "Kinetic"@,
        item_hash % 6 == 1 ==> damage_type_name(item_hash) == "Solar"@,
        item_hash % 6 == 2 ==> damage_type_name(item_hash) == "Arc"@,
        item_hash % 6 == 3 ==> damage_type_name(item_hash) == "Void"@,
        item_hash % 6 == 4 ==> damage_type_name(item_hash) == "Stasis"@,
        item_hash % 6 == 5 ==> damage_type_name(item_hash) == "Strand"@,
{
}

/// Item hashes with the same remainder by 6 have the same damage type.
pub proof fn lemma_damage_type_by_congruence(a: u32, b: u32)
    requires
        a % 6 == b % 6,
    ensures
        damage_type_name(a) == damage_type_name(b),
{
}

/// The weapon type of an item hash is, by its last decimal digit, Auto Rifle, Hand Cannon, Pulse
/// Rifle, Scout Rifle, Submachine Gun, Shotgun, Sniper Rifle, Fusion Rifle, Rocket Launcher, or
/// Unknown Weapon for 9.
pub proof fn lemma_weapon_type_by_digit(item_hash: u32)
    ensures
        item_hash % 10 == 0 ==> weapon_type_name(item_hash) == "Auto Rifle"@,
        item_hash % 10 == 1 ==> weapon_type_name(item_hash) == "Hand Cannon"@,
        item_hash % 10 == 2 ==> weapon_type_name(item_hash) == "Pulse Rifle"@,
        item_hash % 10 == 3 ==> weapon_type_name(item_hash) == "Scout Rifle"@,
        item_hash % 10 == 4 ==> weapon_type_name(item_hash) == "Submachine Gun"@,
        item_hash % 10 == 5 ==> weapon_type_name(item_hash) == "Shotgun"@,
        item_hash % 10 == 6 ==> weapon_type_name(item_hash) == "Sniper Rifle"@,
        item_hash % 10 == 7 ==> weapon_type_name(item_hash) == "Fusion Rifle"@,
        item_hash % 10 == 8 ==> weapon_type_name(item_hash) == "Rocket Launcher"@,
        item_hash % 10 == 9 ==> weapon_type_name(item_hash) == "Unknown Weapon"@,
{
}

/// Whether every sum that the kill attribution of `p` computes is an `i32`.
pub fn attribution_fits_check(p: &ParticipantEntry) -> (b: bool)
    ensures
        b == attribution_fits(*p),
{
    let weapons = &p.extended.weapons;
    let n = weapons.len();
    let mut sum: i64 = 0;
    let mut i: usize = 0;
    assert(weapons@.take(0) =~= Seq::<WeaponStats>::empty());
    while i < n
        invariant
            i <= n,
            n == weapons@.len(),
            weapons == p.extended.weapons,
            sum == weapon_kills_sum(weapons@.take(i as int)),
            forall|k: int| 0 <= k <= i ==> fits_i32(#[trigger] weapon_kills_sum(weapons@.take(k))),
        decreases n - i,
    {
        assert(weapons@.take(i + 1).drop_last() =~= weapons@.take(i as int));
        sum = sum + stat_value(&weapons[i].values, "uniqueWeaponKills") as i64;
        if sum < -2147483648 || sum > 2147483647 {
            assert(!fits_i32(weapon_kills_sum(weapons@.take(i + 1))));
            return false;
        }
        i = i + 1;
    }
    assert(weapons@.take(n as int) =~= weapons@);
    let mut m: usize = 0;
    while m < n
        invariant
            m <= n,
            n == weapons@.len(),
            weapons == p.extended.weapons,
            forall|j: int|
                #![trigger weapons@[j]]
                0 <= j < m ==> fits_i32(
                    type_kills(weapons@.take(j + 1), weapon_type_name(weapons@[j].reference_id)),
                ),
        decreases n - m,
    {
        let ghost t = weapon_type_name(weapons@[m as int].reference_id);
        let digit = weapons[m].reference_id % 10;
        let mut acc: i64 = 0;
        let mut k: usize = 0;
        assert(weapons@.take(0) =~= Seq::<WeaponStats>::empty());
        while k < m
            invariant
                k <= m,
                m < n,
                n == weapons@.len(),
                weapons == p.extended.weapons,
                digit == weapons@[m as int].reference_id % 10,
                t == weapon_type_name(weapons@[m as int].reference_id),
                forall|j: int|
                    #![trigger weapons@[j]]
                    0 <= j < m ==> fits_i32(
                        type_kills(weapons@.take(j + 1), weapon_type_name(weapons@[j].reference_id)),
                    ),
                acc == type_kills(weapons@.take(k as int), t),
                fits_i32(acc as int),
            decreases m - k,
        {
            let ghost upto = weapons@.take(k + 1);
            assert(upto.drop_last() =~= weapons@.take(k as int));
            assert(upto.last() == weapons@[k as int]);
            proof {
                lemma_weapon_type_by_last_digit(weapons@[k as int].reference_id, weapons@[m as int].reference_id);
            }
            if weapons[k].reference_id % 10 == digit {
                assert(weapons@[k as int] == weapons@[k as int]);
                acc = acc + stat_value(&weapons[k].values, "uniqueWeaponKills") as i64;
            }
            k = k + 1;
        }
        let ghost upto = weapons@.take(m + 1);
        assert(upto.drop_last() =~= weapons@.take(m as int));
        assert(upto.last() == weapons@[m as int]);
        acc = acc + stat_value(&weapons[m].values, "uniqueWeaponKills") as i64;
        if acc < -2147483648 || acc > 2147483647 {
            assert(!fits_i32(type_kills(weapons@.take(m + 1), weapon_type_name(weapons@[m as int].reference_id))));
            assert(!weapon_type_totals_fit(weapons@));
            return false;
        }
        m = m + 1;
    }
    let total = stat_value(&p.values, "kills") as i64;
    let grenade = stat_value(&p.extended.values, "weaponKillsGrenade") as i64;
    let melee = stat_value(&p.extended.values, "weaponKillsMelee") as i64;
    let super_kills = stat_value(&p.extended.values, "weaponKillsSuper") as i64;
    let two = grenade + melee;
    let ability = two + super_kills;
    let rest = total - sum;
    let environmental = rest - ability;
    -2147483648 <= two && two <= 2147483647 && -2147483648 <= ability && ability <= 2147483647
        && -2147483648 <= rest && rest <= 2147483647 && -2147483648 <= environmental
        && environmental <= 2147483647
}

/// Whether every sum that the summary of `report` computes is an `i32`.
pub fn summary_fits_check(report: &PostGameCarnageReport) -> (b: bool)
    ensures
        b == summary_fits(*report),
{
    let entries = &report.entries;
    let n = entries.len();
    let mut kills: i64 = 0;
    let mut deaths: i64 = 0;
    let mut i: usize = 0;
    assert(entries@.take(0) =~= Seq::<ParticipantEntry>::empty());
    while i < n
        invariant
            i <= n,
            n == entries@.len(),
            entries == report.entries,
            kills == kills_sum(entries@.take(i as int)),
            deaths == deaths_sum(entries@.take(i as int)),
            forall|k: int|
                0 <= k <= i ==> fits_i32(#[trigger] kills_sum(entries@.take(k))) && fits_i32(
                    deaths_sum(entries@.take(k)),
                ),
        decreases n - i,
    {
        assert(entries@.take(i + 1).drop_last() =~= entries@.take(i as int));
        kills = kills + stat_value(&entries[i].values, "kills") as i64;
        deaths = deaths + stat_value(&entries[i].values, "deaths") as i64;
        assert(entries@.take(i + 1).last() == entries@[i as int]);
        assert(kills == kills_sum(entries@.take(i + 1)));
        assert(deaths == deaths_sum(entries@.take(i + 1)));
        if kills < -2147483648 || kills > 2147483647 || deaths < -2147483648 || deaths > 2147483647 {
            assert(!(fits_i32(kills_sum(report.entries@.take(i + 1))) && fits_i32(
                deaths_sum(report.entries@.take(i + 1)),
            )));
            assert(!summary_fits(*report));
            return false;
        }
        assert(fits_i32(kills_sum(entries@.take(i + 1))) && fits_i32(deaths_sum(entries@.take(i + 1))));
        i = i + 1;
    }
    assert(entries@.take(n as int) =~= entries@);
    true
}

/// Whether the analysis of `report` for the user `target_user_id` stays within `i32` in every sum
/// it computes (where the user is not in the report, nothing is computed).
pub fn analysis_fits(report: &PostGameCarnageReport, target_user_id: &str) -> (b: bool)
    ensures
        b == (has_participant(report.entries@, target_user_id@) ==> report_fits(*report, target_user_id@)),
{
    let entries = &report.entries;
    let idx = match find_participant(entries, target_user_id) {
        Some(i) => i,
        None => {
            return true;
        },
    };
    let ghost id = target_user_id@;
    let ghost es = entries@;
    let n = entries.len();
    let mut i: usize = 0;
    while i < n
        invariant
            i <= n,
            n == es.len(),
            es == entries@,
            entries == report.entries,
            id == target_user_id@,
            is_first_with_id(es, id, idx as int),
            forall|j: int|
                0 <= j < i && (membership_id_of(es[j]) != id || is_first_with_id(es, id, j))
                    ==> attribution_fits(#[trigger] es[j]),
        decreases n - i,
    {
        let analyzed = i == idx || !text_eq(entries[i].player.destiny_user_info.membership_id.as_str(), target_user_id);
        proof {
            if is_first_with_id(es, id, i as int) && i != idx {
                if i < idx {
                    assert(membership_id_of(es[i as int]) != id);
                } else {
                    assert(membership_id_of(es[idx as int]) != id);
                }
            }
        }
        if analyzed && !attribution_fits_check(&entries[i]) {
            return false;
        }
        i = i + 1;
    }
    summary_fits_check(report)
}

/// The analyzer of carnage reports. It remembers the names it has given to item hashes.
pub struct CarnageReportAnalyzer {
    item_definitions: HashMap<u32, String>,
}

impl CarnageReportAnalyzer {
    /// The names the analyzer remembers, by item hash.
    pub closed spec fn item_names(&self) -> Map<u32, Seq<char>> {
        self.item_definitions@.map_values(|s: String| s@)
    }

    /// Every name the analyzer remembers is the placeholder name of its item hash.
    pub open spec fn wf(&self) -> bool {
        forall|h: u32| #[trigger] self.item_names().contains_key(h) ==> self.item_names()[h]
            == placeholder_name(h)
    }

    /// Creates an analyzer that remembers no names.
    pub fn new() -> (r: Self)
        ensures
            r.wf(),
            r.item_names() == Map::<u32, Seq<char>>::empty(),
    {
        let r = CarnageReportAnalyzer { item_definitions: HashMap::new() };
        assert(r.item_names() =~= Map::<u32, Seq<char>>::empty());
        r
    }

    /// The name of an item: the one remembered, or else its placeholder name, which is then
    /// remembered.
    pub fn get_item_name(&mut self, item_hash: u32) -> (name: String)
        requires
            old(self).wf(),
        ensures
            final(self).wf(),
            name@ == placeholder_name(item_hash),
            final(self).item_names() == old(self).item_names().insert(
                item_hash,
                placeholder_name(item_hash),
            ),
    {
        match self.item_definitions.get(&item_hash) {
            Some(name) => {
                assert(self.item_names().contains_key(item_hash));
                let r = name.clone();
                assert(self.item_names() =~= self.item_names().insert(
                    item_hash,
                    placeholder_name(item_hash),
                ));
                r
            },
            None => {
                let mut placeholder = String::new();
                proof {
                    reveal_strlit("Unknown Item (");
                    reveal_strlit(")");
                }
                placeholder.append("Unknown Item (");
                append_decimal(&mut placeholder, item_hash as u64);
                placeholder.append(")");
                let ghost before = self.item_names();
                self.item_definitions.insert(item_hash, placeholder.clone());
                assert(self.item_names() =~= before.insert(item_hash, placeholder_name(item_hash)));
                placeholder
            },
        }
    }

    /// The weapon type of an item hash.
    pub fn determine_weapon_type(&self, item_hash: u32) -> (r: String)
        ensures
            r@ == weapon_type_name(item_hash),
    {
        let k = item_hash % 10;
        if k == 0 {
            "Auto Rifle".to_owned()
        } else if k == 1 {
            "Hand Cannon".to_owned()
        } else if k == 2 {
            "Pulse Rifle".to_owned()
        } else if k == 3 {
            "Scout Rifle".to_owned()
        } else if k == 4 {
            "Submachine Gun".to_owned()
        } else if k == 5 {
            "Shotgun".to_owned()
        } else if k == 6 {
            "Sniper Rifle".to_owned()
        } else if k == 7 {
            "Fusion Rifle".to_owned()
        } else if k == 8 {
            "Rocket Launcher".to_owned()
        } else {
            "Unknown Weapon".to_owned()
        }
    }

    /// The damage type of an item hash.
    pub fn determine_damage_type(&self, item_hash: u32) -> (r: String)
        ensures
            r@ == damage_type_name(item_hash),
    {
        let k = item_hash % 6;
        if k == 0 {
            "Kinetic".to_owned()
        } else if k == 1 {
            "Solar".to_owned()
        } else if k == 2 {
            "Arc".to_owned()
        } else if k == 3 {
            "Void".to_owned()
        } else if k == 4 {
            "Stasis".to_owned()
        } else {
            "Strand".to_owned()
        }
    }

    /// The weapon made of a weapon's statistics: its item hash, its (placeholder) name, its
    /// weapon and damage types, and power level 0.
    pub fn create_weapon_from_stats(&mut self, weapon_stats: &WeaponStats) -> (w: Weapon)
        requires
            old(self).wf(),
        ensures
            final(self).wf(),
            weapon_describes(w, weapon_stats.reference_id),
            final(self).item_names() == old(self).item_names().insert(
                weapon_stats.reference_id,
                placeholder_name(weapon_stats.reference_id),
            ),
    {
        let name = self.get_item_name(weapon_stats.reference_id);
        let weapon_type = self.determine_weapon_type(weapon_stats.reference_id);
        let damage_type = self.determine_damage_type(weapon_stats.reference_id);
        Weapon {
            item_hash: weapon_stats.reference_id,
            name,
            weapon_type,
            damage_type,
            power_level: 0,
        }
    }

    /// The equipment of a participant, made of the weapons the participant used.
    pub fn extract_equipment(&mut self, participant: &ParticipantEntry) -> (e: Equipment)
        requires
            old(self).wf(),
        ensures
            final(self).wf(),
            equipment_from(e, participant.extended.weapons@),
            final(self).item_names().dom() == old(self).item_names().dom().union(
                weapon_hashes(participant.extended.weapons@),
            ),
    {
        let used = &participant.extended.weapons;
        let n = used.len();
        let mut weapons: Vec<Weapon> = Vec::new();
        let mut i: usize = 0;
        assert(used@.take(0) =~= Seq::<WeaponStats>::empty());
        assert(old(self).item_names().dom().union(weapon_hashes(used@.take(0)))
            =~= old(self).item_names().dom());
        while i < n
            invariant
                i <= n,
                n == used@.len(),
                self.wf(),
                weapons@.len() == i,
                forall|k: int| 0 <= k < i ==> weapon_describes(#[trigger] weapons@[k], used@[k].reference_id),
                self.item_names().dom() == old(self).item_names().dom().union(
                    weapon_hashes(used@.take(i as int)),
                ),
            decreases n - i,
        {
            let w = self.create_weapon_from_stats(&used[i]);
            weapons.push(w);
            assert(used@.take(i + 1).drop_last() =~= used@.take(i as int));
            assert(self.item_names().dom() =~= old(self).item_names().dom().union(
                weapon_hashes(used@.take(i + 1)),
            ));
            i = i + 1;
        }
        assert(used@.take(n as int) =~= used@);
        let primary_weapon = if n > 0 {
            Some(weapons[0].clone())
        } else {
            None
        };
        let secondary_weapon = if n > 1 {
            Some(weapons[1].clone())
        } else {
            None
        };
        let heavy_weapon = if n > 2 {
            Some(weapons[2].clone())
        } else {
            None
        };
        Equipment {
            primary_weapon,
            secondary_weapon,
            heavy_weapon,
            helmet: None,
            gauntlets: None,
            chest_armor: None,
            leg_armor: None,
            class_item: None,
            ghost_shell: None,
            vehicle: None,
        }
    }

    /// What a participant's kills were made with: weapons (by `uniqueWeaponKills` of each weapon),
    /// abilities (grenade, melee and super kills) and the rest.
    pub fn analyze_kill_attribution(&self, participant: &ParticipantEntry) -> (k: KillAttribution)
        requires
            attribution_fits(*participant),
        ensures
            attribution_of(k, *participant),
    {
        let values = &participant.values;
        let extended_values = &participant.extended.values;
        let total_kills = stat_value(values, "kills");
        let grenade_kills = stat_value(extended_values, "weaponKillsGrenade");
        let melee_kills = stat_value(extended_values, "weaponKillsMelee");
        let super_kills = stat_value(extended_values, "weaponKillsSuper");
        let weapons = &participant.extended.weapons;
        let n = weapons.len();
        let mut weapon_kills: i32 = 0;
        let mut weapon_breakdown: Vec<(String, i32)> = Vec::new();
        let mut i: usize = 0;
        assert(weapons@.take(0) =~= Seq::<WeaponStats>::empty());
        while i < n
            invariant
                i <= n,
                n == weapons@.len(),
                attribution_fits(*participant),
                weapons == participant.extended.weapons,
                weapon_kills == weapon_kills_sum(weapons@.take(i as int)),
                names_distinct(weapon_breakdown@),
                breakdown_map(weapon_breakdown@) == expected_weapon_breakdown(weapons@.take(i as int)),
                breakdown_total(weapon_breakdown@) == weapon_kills_sum(weapons@.take(i as int)),
            decreases n - i,
        {
            let count = stat_value(&weapons[i].values, "uniqueWeaponKills");
            let ghost before_weapons = weapons@.take(i as int);
            let ghost upto = weapons@.take(i + 1);
            assert(upto.drop_last() =~= before_weapons);
            assert(upto.last() == weapons@[i as int]);
            assert(fits_i32(weapon_kills_sum(upto)));
            weapon_kills = weapon_kills + count;
            let weapon_type = self.determine_weapon_type(weapons[i].reference_id);
            let ghost t = weapon_type@;
            proof {
                assert(fits_i32(type_kills(upto, t)));
                if !weapon_types(before_weapons).contains(t) {
                    lemma_type_kills_absent(before_weapons, t);
                }
                assert(count_or_zero(breakdown_map(weapon_breakdown@), t) == type_kills(before_weapons, t));
                lemma_expected_push(upto);
            }
            breakdown_add(&mut weapon_breakdown, weapon_type, count);
            i = i + 1;
        }
        assert(weapons@.take(n as int) =~= weapons@);
        let ability_kills = grenade_kills + melee_kills + super_kills;
        let mut ability_breakdown: Vec<(String, i32)> = Vec::new();
        ability_breakdown.push(("Grenade".to_owned(), grenade_kills));
        ability_breakdown.push(("Melee".to_owned(), melee_kills));
        ability_breakdown.push(("Super".to_owned(), super_kills));
        let environmental_kills = total_kills - weapon_kills - ability_kills;
        KillAttribution {
            total_kills,
            weapon_kills,
            ability_kills,
            environmental_kills,
            weapon_breakdown,
            ability_breakdown,
        }
    }

    /// The summary of a report's activity.
    pub fn create_activity_summary(&self, report: &PostGameCarnageReport) -> (s: ActivitySummary)
        requires
            summary_fits(*report),
        ensures
            summary_of(s, *report),
    {
        let activity_type = ActivityType::for_mode(report.activity_details.mode);
        let entries = &report.entries;
        let n = entries.len();
        let mut total_kills: i32 = 0;
        let mut total_deaths: i32 = 0;
        let mut i: usize = 0;
        assert(entries@.take(0) =~= Seq::<ParticipantEntry>::empty());
        while i < n
            invariant
                i <= n,
                n == entries@.len(),
                entries == report.entries,
                summary_fits(*report),
                total_kills == kills_sum(entries@.take(i as int)),
                total_deaths == deaths_sum(entries@.take(i as int)),
            decreases n - i,
        {
            assert(entries@.take(i + 1).drop_last() =~= entries@.take(i as int));
            assert(fits_i32(kills_sum(entries@.take(i + 1))));
            total_kills = total_kills + stat_value(&entries[i].values, "kills");
            total_deaths = total_deaths + stat_value(&entries[i].values, "deaths");
            i = i + 1;
        }
        assert(entries@.take(n as int) =~= entries@);
        let completion_status = if total_deaths == 0 {
            "Flawless".to_owned()
        } else {
            "Completed".to_owned()
        };
        ActivitySummary {
            activity_type,
            duration: "Unknown".to_owned(),
            total_fireteam_kills: total_kills,
            total_fireteam_deaths: total_deaths,
            completion_status,
        }
    }

    /// The analysis of one participant: account, character, equipment and kill attribution.
    pub fn analyze_user(&mut self, participant: &ParticipantEntry, entry_index: usize) -> (u: UserAnalysis)
        requires
            old(self).wf(),
            attribution_fits(*participant),
        ensures
            final(self).wf(),
            analysis_of(u, *participant),
            u.entry_index == entry_index,
            final(self).item_names().dom() == old(self).item_names().dom().union(
                weapon_hashes(participant.extended.weapons@),
            ),
    {
        let equipment = self.extract_equipment(participant);
        let kill_attribution = self.analyze_kill_attribution(participant);
        UserAnalysis {
            user_info: participant.player.destiny_user_info.clone(),
            character_info: participant.player.clone(),
            equipment,
            kill_attribution,
            entry_index,
        }
    }

    /// Analyzes a report for the user with the membership ID `target_user_id`: that user (the
    /// first participant with that ID), every participant with another ID in order, and the
    /// activity as a whole. Fails with `UserNotFound` where no participant has that ID.
    pub fn analyze_report(&mut self, report: &PostGameCarnageReport, target_user_id: &str) -> (r:
        Result<FireteamAnalysis, BungieError>)
        requires
            old(self).wf(),
            has_participant(report.entries@, target_user_id@) ==> report_fits(*report, target_user_id@),
        ensures
            final(self).wf(),
            analysis_result_of(r, *report, target_user_id@),
            r is Ok ==> final(self).item_names().dom() == old(self).item_names().dom().union(
                weapon_hashes(
                    report.entries@[first_index_with_id(report.entries@, target_user_id@)].extended.weapons@,
                ),
            ).union(entries_weapon_hashes(other_participants(report.entries@, target_user_id@))),
            r is Err ==> final(self).item_names() == old(self).item_names(),
    {
        let entries = &report.entries;
        let idx = match find_participant(entries, target_user_id) {
            Some(i) => i,
            None => {
                return Err(BungieError::UserNotFound { bungie_id: target_user_id.to_owned() });
            },
        };
        let ghost id = target_user_id@;
        assert(is_first_with_id(entries@, id, idx as int));
        let primary_user = self.analyze_user(&entries[idx], idx);
        let ghost after_primary = self.item_names().dom();
        let n = entries.len();
        let mut fireteam_members: Vec<UserAnalysis> = Vec::new();
        let mut i: usize = 0;
        assert(entries@.take(0) =~= Seq::<ParticipantEntry>::empty());
        assert(after_primary.union(entries_weapon_hashes(other_participants(entries@.take(0), id)))
            =~= after_primary);
        while i < n
            invariant
                i <= n,
                n == entries@.len(),
                entries == report.entries,
                id == target_user_id@,
                self.wf(),
                forall|j: int|
                    0 <= j < n && membership_id_of(entries@[j]) != id ==> attribution_fits(
                        #[trigger] entries@[j],
                    ),
                fireteam_members@.len() == other_participants(entries@.take(i as int), id).len(),
                forall|k: int|
                    0 <= k < fireteam_members@.len() ==> analysis_of(
                        #[trigger] fireteam_members@[k],
                        other_participants(entries@.take(i as int), id)[k],
                    ),
                other_indices(entries@.take(i as int), id).len() == fireteam_members@.len(),
                forall|k: int|
                    0 <= k < fireteam_members@.len() ==> (#[trigger] fireteam_members@[k]).entry_index
                        == other_indices(entries@.take(i as int), id)[k],
                self.item_names().dom() == after_primary.union(
                    entries_weapon_hashes(other_participants(entries@.take(i as int), id)),
                ),
            decreases n - i,
        {
            let ghost before = self.item_names().dom();
            assert(entries@.take(i + 1).drop_last() =~= entries@.take(i as int));
            assert(entries@.take(i + 1).last() == entries@[i as int]);
            if !text_eq(entries[i].player.destiny_user_info.membership_id.as_str(), target_user_id) {
                let analysis = self.analyze_user(&entries[i], i);
                fireteam_members.push(analysis);
                let ghost others = other_participants(entries@.take(i + 1), id);
                assert(others.drop_last() =~= other_participants(entries@.take(i as int), id));
                assert(other_indices(entries@.take(i + 1), id) =~= other_indices(entries@.take(i as int), id).push(i as int));
                assert(self.item_names().dom() =~= after_primary.union(entries_weapon_hashes(others)));
            }
            i = i + 1;
        }
        assert(entries@.take(n as int) =~= entries@);
        let activity_summary = self.create_activity_summary(report);
        Ok(FireteamAnalysis { primary_user, fireteam_members, activity_summary })
    }
}

impl Default for CarnageReportAnalyzer {
    /// An analyzer that remembers no names.
    fn default() -> (r: Self)
        ensures
            r.wf(),
            r.item_names() == Map::<u32, Seq<char>>::empty(),
    {
        CarnageReportAnalyzer::new()
    }
}

} // verus!
