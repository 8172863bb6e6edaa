use bungie_pgcr_analyzer::analyzer::{analysis_fits, attribution_fits_check, summary_fits_check, CarnageReportAnalyzer};
use bungie_pgcr_analyzer::api_client::filter_reports_by_activity_type;
use bungie_pgcr_analyzer::models::{
    ActivityDetails, ActivityType, ExtendedData, ParticipantEntry, PlayerInfo, PostGameCarnageReport,
    Score, ScoreValue, StatValue, UserInfo, WeaponStats,
};
use bungie_pgcr_analyzer::BungieError;

fn stat(name: &str, value: i32) -> (String, StatValue) {
    (
        name.to_string(),
        StatValue { basic: ScoreValue { value, display_value: value.to_string() } },
    )
}

fn weapon(reference_id: u32, kills: i32) -> WeaponStats {
    WeaponStats { reference_id, values: vec![stat("uniqueWeaponKills", kills)] }
}

fn participant(
    id: &str,
    name: &str,
    kills: i32,
    deaths: i32,
    abilities: (i32, i32, i32),
    weapons: Vec<WeaponStats>,
) -> ParticipantEntry {
    ParticipantEntry {
        standing: 0,
        score: Score { basic: ScoreValue { value: 100, display_value: "100".to_string() }, precision: None },
        player: PlayerInfo {
            destiny_user_info: UserInfo {
                membership_id: id.to_string(),
                display_name: name.to_string(),
                membership_type: 3,
            },
            character_class: "Warlock".to_string(),
            character_level: 50,
            light_level: 1810,
        },
        character_id: format!("c{id}"),
        extended: ExtendedData {
            values: vec![
                stat("weaponKillsGrenade", abilities.0),
                stat("weaponKillsMelee", abilities.1),
                stat("weaponKillsSuper", abilities.2),
            ],
            weapons,
            scoreboard_values: None,
        },
        values: vec![stat("kills", kills), stat("deaths", deaths), stat("assists", 2)],
    }
}

fn report(mode: i32, entries: Vec<ParticipantEntry>) -> PostGameCarnageReport {
    PostGameCarnageReport {
        activity_details: ActivityDetails {
            reference_id: 1,
            director_activity_hash: 2,
            instance_id: format!("instance-{mode}"),
            mode,
            modes: None,
        },
        period: "2024-01-01T00:00:00Z".to_string(),
        entries,
        teams: None,
    }
}

#[test]
fn new_analyzer_and_default() {
    let mut a = CarnageReportAnalyzer::new();
    assert_eq!(a.get_item_name(5), "Unknown Item (5)");
    let mut d = CarnageReportAnalyzer::default();
    assert_eq!(d.get_item_name(0), "Unknown Item (0)");
}

#[test]
fn item_name_is_remembered() {
    let mut a = CarnageReportAnalyzer::new();
    let first = a.get_item_name(1234567);
    let second = a.get_item_name(1234567);
    assert_eq!(first, "Unknown Item (1234567)");
    assert_eq!(first, second);
}

#[test]
fn weapon_and_damage_types_by_hash() {
    let a = CarnageReportAnalyzer::new();
    let expected = [
        "Auto Rifle", "Hand Cannon", "Pulse Rifle", "Scout Rifle", "Submachine Gun", "Shotgun",
        "Sniper Rifle", "Fusion Rifle", "Rocket Launcher", "Unknown Weapon",
    ];
    for (k, name) in expected.iter().enumerate() {
        assert_eq!(a.determine_weapon_type(100 + k as u32), *name);
    }
    let damage = ["Kinetic", "Solar", "Arc", "Void", "Stasis", "Strand"];
    for (k, name) in damage.iter().enumerate() {
        assert_eq!(a.determine_damage_type(600 + k as u32), *name);
    }
    assert_eq!(a.determine_weapon_type(u32::MAX), "Shotgun");
    assert_eq!(a.determine_weapon_type(9), "Unknown Weapon");
    assert_eq!(a.determine_damage_type(u32::MAX), "Void");
}

#[test]
fn weapon_made_of_stats() {
    let mut a = CarnageReportAnalyzer::new();
    let w = a.create_weapon_from_stats(&weapon(31, 4));
    assert_eq!(w.item_hash, 31);
    assert_eq!(w.name, "Unknown Item (31)");
    assert_eq!(w.weapon_type, "Hand Cannon");
    assert_eq!(w.damage_type, "Solar");
    assert_eq!(w.power_level, 0);
}

#[test]
fn equipment_takes_first_three_weapons() {
    let mut a = CarnageReportAnalyzer::new();
    let p = participant("1", "A", 0, 0, (0, 0, 0), vec![weapon(10, 1), weapon(21, 1), weapon(32, 1), weapon(43, 1)]);
    let e = a.extract_equipment(&p);
    assert_eq!(e.primary_weapon.unwrap().item_hash, 10);
    assert_eq!(e.secondary_weapon.unwrap().weapon_type, "Hand Cannon");
    assert_eq!(e.heavy_weapon.unwrap().name, "Unknown Item (32)");
    assert!(e.helmet.is_none() && e.vehicle.is_none() && e.ghost_shell.is_none());
    let p = participant("1", "A", 0, 0, (0, 0, 0), vec![weapon(10, 1)]);
    let e = a.extract_equipment(&p);
    assert!(e.primary_weapon.is_some());
    assert!(e.secondary_weapon.is_none());
    assert!(e.heavy_weapon.is_none());
}

#[test]
fn kill_attribution_splits_kills() {
    let a = CarnageReportAnalyzer::new();
    let p = participant("1", "A", 15, 3, (2, 1, 0), vec![weapon(11, 8), weapon(27, 4)]);
    let k = a.analyze_kill_attribution(&p);
    assert_eq!(k.total_kills, 15);
    assert_eq!(k.weapon_kills, 12);
    assert_eq!(k.ability_kills, 3);
    assert_eq!(k.environmental_kills, 0);
    assert_eq!(k.weapon_breakdown, vec![("Hand Cannon".to_string(), 8), ("Fusion Rifle".to_string(), 4)]);
    assert_eq!(
        k.ability_breakdown,
        vec![("Grenade".to_string(), 2), ("Melee".to_string(), 1), ("Super".to_string(), 0)]
    );
    assert_eq!(k.total_kills, k.weapon_kills + k.ability_kills + k.environmental_kills);
}

#[test]
fn kill_attribution_adds_up_kills_by_weapon_type() {
    let a = CarnageReportAnalyzer::new();
    let p = participant("1", "A", 10, 0, (0, 0, 0), vec![weapon(5, 3), weapon(6, 1), weapon(5, 2), weapon(15, 1)]);
    let k = a.analyze_kill_attribution(&p);
    assert_eq!(k.weapon_kills, 7);
    assert_eq!(k.weapon_breakdown, vec![("Shotgun".to_string(), 6), ("Sniper Rifle".to_string(), 1)]);
    let total: i32 = k.weapon_breakdown.iter().map(|(_, c)| c).sum();
    assert_eq!(total, k.weapon_kills);
    assert_eq!(k.environmental_kills, 3);
}

#[test]
fn kill_attribution_with_missing_stats_counts_zero() {
    let a = CarnageReportAnalyzer::new();
    let mut p = participant("1", "A", 0, 0, (0, 0, 0), vec![WeaponStats { reference_id: 9, values: vec![] }]);
    p.values.clear();
    p.extended.values.clear();
    let k = a.analyze_kill_attribution(&p);
    assert_eq!(k.total_kills, 0);
    assert_eq!(k.weapon_kills, 0);
    assert_eq!(k.ability_kills, 0);
    assert_eq!(k.environmental_kills, 0);
    assert_eq!(k.weapon_breakdown, vec![("Unknown Weapon".to_string(), 0)]);
}

#[test]
fn summary_counts_and_status() {
    let a = CarnageReportAnalyzer::new();
    let r = report(5, vec![participant("1", "A", 10, 0, (0, 0, 0), vec![]), participant("2", "B", 7, 0, (0, 0, 0), vec![])]);
    let s = a.create_activity_summary(&r);
    assert_eq!(s.activity_type, ActivityType::Crucible);
    assert_eq!(s.total_fireteam_kills, 17);
    assert_eq!(s.total_fireteam_deaths, 0);
    assert_eq!(s.completion_status, "Flawless");
    assert_eq!(s.duration, "Unknown");
    let r = report(99, vec![participant("1", "A", 10, 2, (0, 0, 0), vec![]), participant("2", "B", 7, 3, (0, 0, 0), vec![])]);
    let s = a.create_activity_summary(&r);
    assert_eq!(s.activity_type, ActivityType::Other);
    assert_eq!(s.total_fireteam_deaths, 5);
    assert_eq!(s.completion_status, "Completed");
}

#[test]
fn activity_type_by_mode() {
    let modes = [
        (2, ActivityType::Story),
        (3, ActivityType::Strike),
        (4, ActivityType::Raid),
        (5, ActivityType::Crucible),
        (6, ActivityType::Gambit),
        (7, ActivityType::Dungeon),
        (0, ActivityType::Other),
        (84, ActivityType::Other),
    ];
    for (mode, t) in modes {
        assert_eq!(ActivityType::for_mode(mode), t);
    }
}

#[test]
fn analyze_report_for_a_user() {
    let mut a = CarnageReportAnalyzer::new();
    let r = report(
        4,
        vec![
            participant("2", "Teammate", 5, 1, (1, 0, 0), vec![weapon(41, 4)]),
            participant("1", "Guardian123", 15, 2, (2, 1, 0), vec![weapon(11, 8), weapon(27, 4)]),
            participant("3", "Other", 1, 1, (0, 0, 0), vec![]),
            participant("1", "Duplicate", 1, 0, (0, 0, 0), vec![]),
        ],
    );
    let analysis = a.analyze_report(&r, "1").unwrap();
    assert_eq!(analysis.primary_user.user_info.display_name, "Guardian123");
    assert_eq!(analysis.primary_user.character_info.character_class, "Warlock");
    assert_eq!(analysis.primary_user.kill_attribution.weapon_kills, 12);
    let names: Vec<&str> = analysis.fireteam_members.iter().map(|m| m.user_info.display_name.as_str()).collect();
    assert_eq!(names, vec!["Teammate", "Other"]);
    assert_eq!(analysis.activity_summary.activity_type, ActivityType::Raid);
    assert_eq!(analysis.activity_summary.total_fireteam_kills, 22);
    assert_eq!(analysis.activity_summary.total_fireteam_deaths, 4);
    assert_eq!(analysis.activity_summary.completion_status, "Completed");
}

#[test]
fn analyze_report_without_the_user_fails() {
    let mut a = CarnageReportAnalyzer::new();
    let r = report(4, vec![participant("2", "Teammate", 5, 1, (1, 0, 0), vec![])]);
    match a.analyze_report(&r, "42") {
        Err(BungieError::UserNotFound { bungie_id }) => assert_eq!(bungie_id, "42"),
        other => panic!("unexpected {other:?}"),
    }
}

#[test]
fn filter_keeps_reports_of_the_kind_in_order() {
    let reports = vec![report(5, vec![]), report(4, vec![]), report(5, vec![]), report(42, vec![])];
    let kept = filter_reports_by_activity_type(reports, ActivityType::Crucible);
    assert_eq!(kept.len(), 2);
    assert!(kept.iter().all(|r| r.activity_details.mode == 5));
    let reports = vec![report(5, vec![]), report(4, vec![]), report(42, vec![]), report(1, vec![])];
    let kept = filter_reports_by_activity_type(reports, ActivityType::Other);
    let modes: Vec<i32> = kept.iter().map(|r| r.activity_details.mode).collect();
    assert_eq!(modes, vec![42, 1]);
    let kept = filter_reports_by_activity_type(vec![report(2, vec![])], ActivityType::PublicEvent);
    assert!(kept.is_empty());
}

#[test]
fn sums_that_leave_i32_are_detected() {
    let fine = participant("1", "A", 10, 1, (1, 1, 1), vec![weapon(1, 5)]);
    assert!(attribution_fits_check(&fine));
    let big = participant("1", "A", 0, 0, (0, 0, 0), vec![weapon(1, i32::MAX), weapon(2, 1)]);
    assert!(!attribution_fits_check(&big));
    let back = participant("1", "A", 0, 0, (0, 0, 0), vec![weapon(1, i32::MAX), weapon(2, -5)]);
    assert!(attribution_fits_check(&back));
    let low = participant("1", "A", 0, 0, (0, 0, 0), vec![weapon(1, -5), weapon(2, i32::MIN)]);
    assert!(!attribution_fits_check(&low));
    let one_type = participant("1", "A", 0, 0, (0, 0, 0), vec![weapon(1, i32::MAX), weapon(2, -10), weapon(11, 1)]);
    assert!(!attribution_fits_check(&one_type));
    let two_types = participant("1", "A", 0, 0, (0, 0, 0), vec![weapon(1, i32::MAX), weapon(2, -10), weapon(12, 1)]);
    assert!(attribution_fits_check(&two_types));
    let abilities = participant("1", "A", 0, 0, (i32::MAX, 1, 0), vec![]);
    assert!(!attribution_fits_check(&abilities));
    let env = participant("1", "A", i32::MIN, 0, (0, 0, 1), vec![]);
    assert!(!attribution_fits_check(&env));
    let r = report(5, vec![participant("1", "A", i32::MAX, 0, (0, 0, 0), vec![]), participant("2", "B", 1, 0, (0, 0, 0), vec![])]);
    assert!(!summary_fits_check(&r));
    assert!(!analysis_fits(&r, "1"));
    assert!(analysis_fits(&r, "3"));
    let r = report(5, vec![participant("1", "A", 10, 1, (1, 1, 1), vec![weapon(1, 5)]), participant("2", "B", 1, 0, (0, 0, 0), vec![])]);
    assert!(analysis_fits(&r, "1"));
    let r = report(5, vec![participant("1", "A", 1, 0, (0, 0, 0), vec![]), big]);
    assert!(analysis_fits(&r, "1"));
    let other_big = participant("2", "B", 0, 0, (0, 0, 0), vec![weapon(1, i32::MAX), weapon(2, 1)]);
    let r = report(5, vec![participant("1", "A", 1, 0, (0, 0, 0), vec![]), other_big]);
    assert!(!analysis_fits(&r, "1"));
}

#[test]
fn filtering_twice_keeps_what_filtering_once_keeps() {
    let reports = vec![report(5, vec![]), report(4, vec![]), report(5, vec![]), report(6, vec![])];
    let once = filter_reports_by_activity_type(reports, ActivityType::Crucible);
    let once_ids: Vec<String> = once.iter().map(|r| r.activity_details.instance_id.clone()).collect();
    let twice = filter_reports_by_activity_type(once, ActivityType::Crucible);
    let twice_ids: Vec<String> = twice.iter().map(|r| r.activity_details.instance_id.clone()).collect();
    assert_eq!(once_ids, twice_ids);
    assert_eq!(twice_ids.len(), 2);
}

#[test]
fn analysis_does_not_depend_on_remembered_names() {
    let r = report(
        4,
        vec![
            participant("2", "Teammate", 5, 1, (1, 0, 0), vec![weapon(41, 4)]),
            participant("1", "Guardian123", 15, 2, (2, 1, 0), vec![weapon(11, 8), weapon(27, 4), weapon(21, 1)]),
        ],
    );
    let mut fresh = CarnageReportAnalyzer::new();
    let first = fresh.analyze_report(&r, "1").unwrap();
    let again = fresh.analyze_report(&r, "1").unwrap();
    let mut used = CarnageReportAnalyzer::new();
    used.get_item_name(11);
    used.get_item_name(99);
    let other = used.analyze_report(&report(2, vec![participant("1", "X", 0, 0, (0, 0, 0), vec![weapon(8, 1)])]), "1");
    assert!(other.is_ok());
    let later = used.analyze_report(&r, "1").unwrap();
    assert_eq!(format!("{first:?}"), format!("{again:?}"));
    assert_eq!(format!("{first:?}"), format!("{later:?}"));
    assert_eq!(
        first.primary_user.kill_attribution.weapon_breakdown,
        vec![("Hand Cannon".to_string(), 9), ("Fusion Rifle".to_string(), 4)]
    );
    match (fresh.analyze_report(&r, "5"), used.analyze_report(&r, "5")) {
        (Err(BungieError::UserNotFound { bungie_id: x }), Err(BungieError::UserNotFound { bungie_id: y })) => {
            assert_eq!(x, y)
        }
        other => panic!("unexpected {other:?}"),
    }
}
