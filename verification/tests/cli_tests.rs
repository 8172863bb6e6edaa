use bungie_pgcr_analyzer::analyzer::CarnageReportAnalyzer;
use bungie_pgcr_analyzer::cli::{output_format, OutputFormat, 
    activity_type_from_lowercase, activity_type_label, analyze_command_step, detailed_summary_lines,
    get_membership_type_name, parse_activity_type_filter, report_heading, search_result_lines,
    table_summary_lines, user_attribution_lines, user_identity_lines, AnalyzeAction, AnalyzeEvent,
};
use bungie_pgcr_analyzer::models::{
    ActivityDetails, ActivitySummary, ExtendedData, ParticipantEntry, PlayerInfo, PostGameCarnageReport,
    Score, ScoreValue, StatValue, UserInfo, UserSearchResponse, WeaponStats,
};
use bungie_pgcr_analyzer::{ActivityType, BungieError};
use std::str::FromStr;

#[test]
fn activity_types_by_name() {
    assert_eq!(ActivityType::from_str("crucible"), Ok(ActivityType::Crucible));
    assert_eq!(ActivityType::from_str("CRUCIBLE"), Ok(ActivityType::Crucible));
    assert_eq!(ActivityType::from_str("Raid"), Ok(ActivityType::Raid));
    assert_eq!(ActivityType::from_str("public"), Ok(ActivityType::PublicEvent));
    assert_eq!(ActivityType::from_str("Public_Event"), Ok(ActivityType::PublicEvent));
    assert_eq!(ActivityType::from_str("other"), Ok(ActivityType::Other));
    assert_eq!(ActivityType::from_str("nightfall"), Err("Invalid activity type: nightfall".to_string()));
    assert_eq!(activity_type_from_lowercase("Story"), None);
    assert_eq!(activity_type_from_lowercase("story"), Some(ActivityType::Story));
    for t in [
        ActivityType::Story,
        ActivityType::Strike,
        ActivityType::Crucible,
        ActivityType::Gambit,
        ActivityType::Raid,
        ActivityType::Dungeon,
        ActivityType::PublicEvent,
        ActivityType::Other,
    ] {
        let shown = activity_type_label(t);
        assert_eq!(shown, format!("{t:?}"));
    }
}

#[test]
fn activity_type_filter_from_the_command_line() {
    assert_eq!(parse_activity_type_filter(None).unwrap(), None);
    assert_eq!(parse_activity_type_filter(Some("Gambit".to_string())).unwrap(), Some(ActivityType::Gambit));
    match parse_activity_type_filter(Some("Patrol".to_string())) {
        Err(BungieError::InvalidActivityType { activity_type }) => assert_eq!(activity_type, "Patrol"),
        other => panic!("unexpected {other:?}"),
    }
}

#[test]
fn membership_type_names() {
    assert_eq!(get_membership_type_name(1), "Xbox");
    assert_eq!(get_membership_type_name(2), "PlayStation");
    assert_eq!(get_membership_type_name(3), "Steam");
    assert_eq!(get_membership_type_name(5), "Stadia");
    assert_eq!(get_membership_type_name(10), "Battle.net");
    assert_eq!(get_membership_type_name(254), "Bungie");
    assert_eq!(get_membership_type_name(4), "Unknown (4)");
    assert_eq!(get_membership_type_name(-7), "Unknown (-7)");
}

#[test]
fn search_results_as_shown() {
    let empty = UserSearchResponse { search_results: vec![], total_results: 0, has_more: false };
    assert_eq!(search_result_lines("Nobody", &empty), vec!["No users found with display name: Nobody".to_string()]);
    let found = UserSearchResponse {
        search_results: vec![UserInfo {
            membership_id: "4611686018".to_string(),
            display_name: "Guardian123".to_string(),
            membership_type: 3,
        }],
        total_results: 1,
        has_more: false,
    };
    let lines = search_result_lines("Guardian123", &found);
    assert_eq!(lines[0], "Found 1 user(s):");
    assert_eq!(lines[1], format!("{:<20} {:<15} {:<10}", "Display Name", "Membership ID", "Type"));
    assert_eq!(lines[2], "-".repeat(50));
    assert_eq!(lines[3], format!("{:<20} {:<15} {}", "Guardian123", "4611686018", "Steam"));
    assert_eq!(lines.len(), 4);
}

fn summary(deaths: i32) -> ActivitySummary {
    ActivitySummary {
        activity_type: ActivityType::Crucible,
        duration: "Unknown".to_string(),
        total_fireteam_kills: 45,
        total_fireteam_deaths: deaths,
        completion_status: if deaths == 0 { "Flawless" } else { "Completed" }.to_string(),
    }
}

#[test]
fn summary_lines_as_shown() {
    assert_eq!(
        table_summary_lines(&summary(32)),
        vec![
            "\n=== FIRETEAM ANALYSIS ===",
            "Activity Type: Crucible",
            "Completion Status: Completed",
            "Total Fireteam Kills: 45",
            "Total Fireteam Deaths: 32",
        ]
    );
    assert_eq!(
        detailed_summary_lines(&summary(0)),
        vec![
            "\n=== DETAILED FIRETEAM ANALYSIS ===",
            "\nACTIVITY SUMMARY:",
            "  Type: Crucible",
            "  Duration: Unknown",
            "  Status: Flawless",
            "  Total Kills: 45",
            "  Total Deaths: 0",
        ]
    );
}

fn stat(name: &str, value: i32) -> (String, StatValue) {
    (name.to_string(), StatValue { basic: ScoreValue { value, display_value: value.to_string() } })
}

#[test]
fn user_lines_as_shown() {
    let entry = ParticipantEntry {
        standing: 0,
        score: Score { basic: ScoreValue { value: 2850, display_value: "2850".to_string() }, precision: None },
        player: PlayerInfo {
            destiny_user_info: UserInfo {
                membership_id: "1".to_string(),
                display_name: "Guardian123".to_string(),
                membership_type: 3,
            },
            character_class: "Warlock".to_string(),
            character_level: 40,
            light_level: 1810,
        },
        character_id: "c".to_string(),
        extended: ExtendedData {
            values: vec![stat("weaponKillsGrenade", 2), stat("weaponKillsMelee", 1)],
            weapons: vec![
                WeaponStats { reference_id: 11, values: vec![stat("uniqueWeaponKills", 8)] },
                WeaponStats { reference_id: 27, values: vec![stat("uniqueWeaponKills", 4)] },
            ],
            scoreboard_values: None,
        },
        values: vec![stat("kills", 15)],
    };
    let report = PostGameCarnageReport {
        activity_details: ActivityDetails {
            reference_id: 0,
            director_activity_hash: 0,
            instance_id: "1".to_string(),
            mode: 5,
            modes: Some(vec![5]),
        },
        period: "p".to_string(),
        entries: vec![entry],
        teams: None,
    };
    let mut analyzer = CarnageReportAnalyzer::new();
    let analysis = analyzer.analyze_report(&report, "1").unwrap();
    let user = &analysis.primary_user;
    assert_eq!(
        user_identity_lines(user),
        vec!["    Name: Guardian123", "    Class: Warlock", "    Level: 40", "    Light Level: 1810"]
    );
    assert_eq!(
        user_attribution_lines(user),
        vec![
            "    KILL ATTRIBUTION:",
            "      Total Kills: 15",
            "      Weapon Kills: 12",
            "      Ability Kills: 3",
            "      Environmental Kills: 0",
            "      Weapon Breakdown:",
            "        Hand Cannon: 8",
            "        Fusion Rifle: 4",
            "      Ability Breakdown:",
            "        Grenade: 2",
            "        Melee: 1",
            "        Super: 0",
            "    EQUIPMENT:",
            "      Primary: Unknown Item (11) (Hand Cannon)",
            "      Secondary: Unknown Item (27) (Fusion Rifle)",
        ]
    );
}

#[test]
fn analyze_command_steps() {
    assert!(matches!(analyze_command_step(AnalyzeEvent::Started), AnalyzeAction::FetchCharacters));
    match analyze_command_step(AnalyzeEvent::CharactersFetched(vec![])) {
        AnalyzeAction::Finish { message } => assert_eq!(message, "No characters found for this user."),
        other => panic!("unexpected {other:?}"),
    }
    match analyze_command_step(AnalyzeEvent::CharactersFetched(vec!["9".to_string(), "8".to_string()])) {
        AnalyzeAction::FetchReports { character_id } => assert_eq!(character_id, "9"),
        other => panic!("unexpected {other:?}"),
    }
    match analyze_command_step(AnalyzeEvent::ReportsFetched(0)) {
        AnalyzeAction::Finish { message } => {
            assert_eq!(message, "No post-game carnage reports found for the specified criteria.")
        }
        other => panic!("unexpected {other:?}"),
    }
    match analyze_command_step(AnalyzeEvent::ReportsFetched(3)) {
        AnalyzeAction::AnalyzeReports { message } => assert_eq!(message, "Found 3 post-game carnage report(s)"),
        other => panic!("unexpected {other:?}"),
    }
    assert_eq!(report_heading(0), "\n--- Report 1 ---");
    assert_eq!(report_heading(9), "\n--- Report 10 ---");
    assert_eq!(report_heading(usize::MAX - 1), format!("\n--- Report {} ---", usize::MAX));
}

#[test]
fn each_activity_type_name_reads_back() {
    let names = [
        ("story", ActivityType::Story),
        ("strike", ActivityType::Strike),
        ("crucible", ActivityType::Crucible),
        ("gambit", ActivityType::Gambit),
        ("raid", ActivityType::Raid),
        ("dungeon", ActivityType::Dungeon),
        ("public_event", ActivityType::PublicEvent),
        ("other", ActivityType::Other),
    ];
    for (name, t) in names {
        assert_eq!(activity_type_from_lowercase(name), Some(t));
        assert_eq!(ActivityType::from_str(&name.to_uppercase()), Ok(t));
    }
}

#[test]
fn output_formats_by_name() {
    assert_eq!(output_format("json"), Some(OutputFormat::Json));
    assert_eq!(output_format("TABLE"), Some(OutputFormat::Table));
    assert_eq!(output_format("Detailed"), Some(OutputFormat::Detailed));
    assert_eq!(output_format("yaml"), None);
}
