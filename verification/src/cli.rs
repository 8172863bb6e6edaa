//! What the command line reads and names: activity types and membership types.
use vstd::prelude::*;
use crate::error::BungieError;
use crate::models::{ActivitySummary, ActivityType, UserAnalysis, UserInfo, UserSearchResponse, Weapon};
use crate::text::{
    append_decimal, append_padded, append_signed_decimal, decimal, labeled, labeled_number, padded, signed_decimal, text_eq,
    texts_of,
};

verus! {

/// The lower-case text of `text` by Unicode's case mapping.
pub uninterp spec fn lowercase(text: Seq<char>) -> Seq<char>;

/// `str::to_lowercase`: the lower-case equivalent of the text, by Unicode's case mapping.
#[verifier::external_body]
fn to_lowercase(text: &str) -> (r: String)
    ensures
        r@ == lowercase(text@),
{
    text.to_lowercase()
}

/// The activity type that a lower-case name stands for: `story`, `strike`, `crucible`,
/// `gambit`, `raid`, `dungeon`, `public_event` or `public`, and `other`.
pub open spec fn activity_type_named(name: Seq<char>) -> Option<ActivityType> {
    if name == "story"@ {
        Some(ActivityType::Story)
    } else if name == "strike"@ {
        Some(ActivityType::Strike)
    } else if name == "crucible"@ {
        Some(ActivityType::Crucible)
    } else if name == "gambit"@ {
        Some(ActivityType::Gambit)
    } else if name == "raid"@ {
        Some(ActivityType::Raid)
    } else if name == "dungeon"@ {
        Some(ActivityType::Dungeon)
    } else if name == "public_event"@ || name == "public"@ {
        Some(ActivityType::PublicEvent)
    } else if name == "other"@ {
        Some(ActivityType::Other)
    } else {
        None
    }
}

/// The activity type that a lower-case name stands for.
pub fn activity_type_from_lowercase(name: &str) -> (r: Option<ActivityType>)
    ensures
        r == activity_type_named(name@),
{
    if text_eq(name, "story") {
        Some(ActivityType::Story)
    } else if text_eq(name, "strike") {
        Some(ActivityType::Strike)
    } else if text_eq(name, "crucible") {
        Some(ActivityType::Crucible)
    } else if text_eq(name, "gambit") {
        Some(ActivityType::Gambit)
    } else if text_eq(name, "raid") {
        Some(ActivityType::Raid)
    } else if text_eq(name, "dungeon") {
        Some(ActivityType::Dungeon)
    } else if text_eq(name, "public_event") || text_eq(name, "public") {
        Some(ActivityType::PublicEvent)
    } else if text_eq(name, "other") {
        Some(ActivityType::Other)
    } else {
        None
    }
}

/// What reading `text` as an activity type gives: the type its lower-case text names, or the
/// message `Invalid activity type: <text>`.
pub open spec fn activity_type_reading(text: Seq<char>) -> Result<ActivityType, Seq<char>> {
    match activity_type_named(lowercase(text)) {
        Some(t) => Ok(t),
        None => Err("Invalid activity type: "@ + text),
    }
}

impl ActivityType {
    /// Reads an activity type by name, whatever its case.
    pub fn parse_name(text: &str) -> (r: Result<ActivityType, String>)
        ensures
            match activity_type_reading(text@) {
                Ok(t) => r == Ok::<ActivityType, String>(t),
                Err(m) => (r matches Err(e) && e@ == m),
            },
    {
        let lower = to_lowercase(text);
        match activity_type_from_lowercase(lower.as_str()) {
            Some(t) => Ok(t),
            None => {
                let mut message = "Invalid activity type: ".to_owned();
                message.append(text);
                Err(message)
            },
        }
    }
}

impl std::str::FromStr for ActivityType {
    type Err = String;

    fn from_str(s: &str) -> (r: Result<Self, Self::Err>)
        ensures
            match activity_type_reading(s@) {
                Ok(t) => r == Ok::<ActivityType, String>(t),
                Err(m) => (r matches Err(e) && e@ == m),
            },
    {
        ActivityType::parse_name(s)
    }
}

/// Reads the activity type filter given on the command line: none where none is given; else the
/// type that the text, made lower-case, names; else an `InvalidActivityType` error with the text.
pub fn parse_activity_type_filter(activity_type: Option<String>) -> (r: Result<
    Option<ActivityType>,
    BungieError,
>)
    ensures
        match activity_type {
            None => r == Ok::<Option<ActivityType>, BungieError>(None),
            Some(text) => match activity_type_reading(lowercase(text@)) {
                Ok(t) => r == Ok::<Option<ActivityType>, BungieError>(Some(t)),
                Err(_) => (r matches Err(BungieError::InvalidActivityType { activity_type: given })
                    && given == text),
            },
        },
{
    match activity_type {
        None => Ok(None),
        Some(text) => {
            let lower = to_lowercase(text.as_str());
            match ActivityType::parse_name(lower.as_str()) {
                Ok(t) => Ok(Some(t)),
                Err(_) => Err(BungieError::InvalidActivityType { activity_type: text }),
            }
        },
    }
}

/// The name of a membership type: 1 Xbox, 2 PlayStation, 3 Steam, 5 Stadia, 10 Battle.net,
/// 254 Bungie, and `Unknown (<n>)` for any other.
pub open spec fn membership_type_label(membership_type: i32) -> Seq<char> {
    if membership_type == 1 {
        "Xbox"@
    } else if membership_type == 2 {
        "PlayStation"@
    } else if membership_type == 3 {
        "Steam"@
    } else if membership_type == 5 {
        "Stadia"@
    } else if membership_type == 10 {
        "Battle.net"@
    } else if membership_type == 254 {
        "Bungie"@
    } else {
        "Unknown ("@ + signed_decimal(membership_type as int) + ")"@
    }
}

/// The name of a membership type.
pub fn get_membership_type_name(membership_type: i32) -> (r: String)
    ensures
        r@ == membership_type_label(membership_type),
{
    match membership_type {
        1 => "Xbox".to_owned(),
        2 => "PlayStation".to_owned(),
        3 => "Steam".to_owned(),
        5 => "Stadia".to_owned(),
        10 => "Battle.net".to_owned(),
        254 => "Bungie".to_owned(),
        _ => {
            let mut r = "Unknown (".to_owned();
            append_signed_decimal(&mut r, membership_type as i64);
            r.append(")");
            r
        },
    }
}


/// The name under which an activity type is shown (its variant's name).
pub open spec fn activity_type_shown(t: ActivityType) -> Seq<char> {
    match t {
        ActivityType::Story => "Story"@,
        ActivityType::Strike => "Strike"@,
        ActivityType::Crucible => "Crucible"@,
        ActivityType::Gambit => "Gambit"@,
        ActivityType::Raid => "Raid"@,
        ActivityType::Dungeon => "Dungeon"@,
        ActivityType::PublicEvent => "PublicEvent"@,
        ActivityType::Other => "Other"@,
    }
}

/// The name under which an activity type is shown.
pub fn activity_type_label(t: ActivityType) -> (r: String)
    ensures
        r@ == activity_type_shown(t),
{
    match t {
        ActivityType::Story => "Story".to_owned(),
        ActivityType::Strike => "Strike".to_owned(),
        ActivityType::Crucible => "Crucible".to_owned(),
        ActivityType::Gambit => "Gambit".to_owned(),
        ActivityType::Raid => "Raid".to_owned(),
        ActivityType::Dungeon => "Dungeon".to_owned(),
        ActivityType::PublicEvent => "PublicEvent".to_owned(),
        ActivityType::Other => "Other".to_owned(),
    }
}

/// The head of the table view of an analysis: the activity summary.
pub open spec fn table_summary_text(s: ActivitySummary) -> Seq<Seq<char>> {
    seq![
        "\n=== FIRETEAM ANALYSIS ==="@,
        "Activity Type: "@ + activity_type_shown(s.activity_type),
        "Completion Status: "@ + s.completion_status@,
        "Total Fireteam Kills: "@ + signed_decimal(s.total_fireteam_kills as int),
        "Total Fireteam Deaths: "@ + signed_decimal(s.total_fireteam_deaths as int),
    ]
}

/// The lines that head the table view of an analysis.
pub fn table_summary_lines(s: &ActivitySummary) -> (r: Vec<String>)
    ensures
        texts_of(r@) == table_summary_text(*s),
{
    let mut r: Vec<String> = Vec::new();
    r.push("\n=== FIRETEAM ANALYSIS ===".to_owned());
    let t = activity_type_label(s.activity_type);
    r.push(labeled("Activity Type: ", t.as_str()));
    r.push(labeled("Completion Status: ", s.completion_status.as_str()));
    r.push(labeled_number("Total Fireteam Kills: ", s.total_fireteam_kills as i64));
    r.push(labeled_number("Total Fireteam Deaths: ", s.total_fireteam_deaths as i64));
    assert(texts_of(r@) =~= table_summary_text(*s));
    r
}

/// The head of the detailed view of an analysis: the activity summary.
pub open spec fn detailed_summary_text(s: ActivitySummary) -> Seq<Seq<char>> {
    seq![
        "\n=== DETAILED FIRETEAM ANALYSIS ==="@,
        "\nACTIVITY SUMMARY:"@,
        "  Type: "@ + activity_type_shown(s.activity_type),
        "  Duration: "@ + s.duration@,
        "  Status: "@ + s.completion_status@,
        "  Total Kills: "@ + signed_decimal(s.total_fireteam_kills as int),
        "  Total Deaths: "@ + signed_decimal(s.total_fireteam_deaths as int),
    ]
}

/// The lines that head the detailed view of an analysis.
pub fn detailed_summary_lines(s: &ActivitySummary) -> (r: Vec<String>)
    ensures
        texts_of(r@) == detailed_summary_text(*s),
{
    let mut r: Vec<String> = Vec::new();
    r.push("\n=== DETAILED FIRETEAM ANALYSIS ===".to_owned());
    r.push("\nACTIVITY SUMMARY:".to_owned());
    let t = activity_type_label(s.activity_type);
    r.push(labeled("  Type: ", t.as_str()));
    r.push(labeled("  Duration: ", s.duration.as_str()));
    r.push(labeled("  Status: ", s.completion_status.as_str()));
    r.push(labeled_number("  Total Kills: ", s.total_fireteam_kills as i64));
    r.push(labeled_number("  Total Deaths: ", s.total_fireteam_deaths as i64));
    assert(texts_of(r@) =~= detailed_summary_text(*s));
    r
}

/// Who a participant is, in the detailed view.
pub open spec fn user_identity_text(u: UserAnalysis) -> Seq<Seq<char>> {
    seq![
        "    Name: "@ + u.user_info.display_name@,
        "    Class: "@ + u.character_info.character_class@,
        "    Level: "@ + signed_decimal(u.character_info.character_level as int),
        "    Light Level: "@ + signed_decimal(u.character_info.light_level as int),
    ]
}

/// The lines that say who a participant is, in the detailed view.
pub fn user_identity_lines(u: &UserAnalysis) -> (r: Vec<String>)
    ensures
        texts_of(r@) == user_identity_text(*u),
{
    let mut r: Vec<String> = Vec::new();
    r.push(labeled("    Name: ", u.user_info.display_name.as_str()));
    r.push(labeled("    Class: ", u.character_info.character_class.as_str()));
    r.push(labeled_number("    Level: ", u.character_info.character_level as i64));
    r.push(labeled_number("    Light Level: ", u.character_info.light_level as i64));
    assert(texts_of(r@) =~= user_identity_text(*u));
    r
}

/// One line of a kill breakdown.
pub open spec fn breakdown_line(e: (String, i32)) -> Seq<char> {
    "        "@ + e.0@ + ": "@ + signed_decimal(e.1 as int)
}

/// A kill breakdown under its heading, or nothing where it is empty.
pub open spec fn breakdown_text(heading: Seq<char>, entries: Seq<(String, i32)>) -> Seq<Seq<char>> {
    if entries.len() == 0 {
        Seq::empty()
    } else {
        seq![heading] + entries.map_values(|e: (String, i32)| breakdown_line(e))
    }
}

/// The line of an equipped weapon: its name and weapon type; nothing where the slot is empty.
pub open spec fn weapon_text(prefix: Seq<char>, slot: Option<Weapon>) -> Seq<Seq<char>> {
    match slot {
        Some(w) => seq![prefix + w.name@ + " ("@ + w.weapon_type@ + ")"@],
        None => Seq::empty(),
    }
}

/// A participant's kill attribution and equipment, in the detailed view.
pub open spec fn user_attribution_text(u: UserAnalysis) -> Seq<Seq<char>> {
    let k = u.kill_attribution;
    seq![
        "    KILL ATTRIBUTION:"@,
        "      Total Kills: "@ + signed_decimal(k.total_kills as int),
        "      Weapon Kills: "@ + signed_decimal(k.weapon_kills as int),
        "      Ability Kills: "@ + signed_decimal(k.ability_kills as int),
        "      Environmental Kills: "@ + signed_decimal(k.environmental_kills as int),
    ] + breakdown_text("      Weapon Breakdown:"@, k.weapon_breakdown@) + breakdown_text(
        "      Ability Breakdown:"@,
        k.ability_breakdown@,
    ) + seq!["    EQUIPMENT:"@] + weapon_text("      Primary: "@, u.equipment.primary_weapon)
        + weapon_text("      Secondary: "@, u.equipment.secondary_weapon) + weapon_text(
        "      Heavy: "@,
        u.equipment.heavy_weapon,
    )
}

fn push_breakdown(r: &mut Vec<String>, heading: &str, entries: &Vec<(String, i32)>)
    ensures
        texts_of(final(r)@) == texts_of(old(r)@) + breakdown_text(heading@, entries@),
{
    if entries.len() == 0 {
        assert(texts_of(final(r)@) =~= texts_of(old(r)@) + breakdown_text(heading@, entries@));
        return;
    }
    r.push(heading.to_owned());
    let ghost start = texts_of(r@);
    let n = entries.len();
    let mut i: usize = 0;
    while i < n
        invariant
            i <= n,
            n == entries@.len(),
            texts_of(r@) == start + entries@.take(i as int).map_values(|e: (String, i32)| breakdown_line(e)),
        decreases n - i,
    {
        let mut line = "        ".to_owned();
        line.append(entries[i].0.as_str());
        line.append(": ");
        crate::text::append_signed_decimal(&mut line, entries[i].1 as i64);
        let ghost before = texts_of(r@);
        r.push(line);
        assert(entries@.take(i + 1) =~= entries@.take(i as int).push(entries@[i as int]));
        assert(texts_of(r@) =~= before.push(breakdown_line(entries@[i as int])));
        assert(texts_of(r@) =~= start + entries@.take(i + 1).map_values(|e: (String, i32)| breakdown_line(e)));
        i = i + 1;
    }
    assert(entries@.take(n as int) =~= entries@);
    assert(texts_of(final(r)@) =~= texts_of(old(r)@) + breakdown_text(heading@, entries@));
}

fn push_weapon(r: &mut Vec<String>, prefix: &str, slot: &Option<Weapon>)
    ensures
        texts_of(final(r)@) == texts_of(old(r)@) + weapon_text(prefix@, *slot),
{
    let ghost before = texts_of(r@);
    if let Some(w) = slot {
        let mut line = prefix.to_owned();
        line.append(w.name.as_str());
        line.append(" (");
        line.append(w.weapon_type.as_str());
        line.append(")");
        r.push(line);
    }
    assert(texts_of(final(r)@) =~= before + weapon_text(prefix@, *slot));
}

/// The lines of a participant's kill attribution and equipment, in the detailed view.
pub fn user_attribution_lines(u: &UserAnalysis) -> (r: Vec<String>)
    ensures
        texts_of(r@) == user_attribution_text(*u),
{
    let k = &u.kill_attribution;
    let mut r: Vec<String> = Vec::new();
    r.push("    KILL ATTRIBUTION:".to_owned());
    r.push(labeled_number("      Total Kills: ", k.total_kills as i64));
    r.push(labeled_number("      Weapon Kills: ", k.weapon_kills as i64));
    r.push(labeled_number("      Ability Kills: ", k.ability_kills as i64));
    r.push(labeled_number("      Environmental Kills: ", k.environmental_kills as i64));
    let ghost head = texts_of(r@);
    push_breakdown(&mut r, "      Weapon Breakdown:", &k.weapon_breakdown);
    push_breakdown(&mut r, "      Ability Breakdown:", &k.ability_breakdown);
    let ghost before_equipment = texts_of(r@);
    r.push("    EQUIPMENT:".to_owned());
    assert(texts_of(r@) =~= before_equipment + seq!["    EQUIPMENT:"@]);
    push_weapon(&mut r, "      Primary: ", &u.equipment.primary_weapon);
    push_weapon(&mut r, "      Secondary: ", &u.equipment.secondary_weapon);
    push_weapon(&mut r, "      Heavy: ", &u.equipment.heavy_weapon);
    assert(head =~= seq![
        "    KILL ATTRIBUTION:"@,
        "      Total Kills: "@ + signed_decimal(k.total_kills as int),
        "      Weapon Kills: "@ + signed_decimal(k.weapon_kills as int),
        "      Ability Kills: "@ + signed_decimal(k.ability_kills as int),
        "      Environmental Kills: "@ + signed_decimal(k.environmental_kills as int),
    ]);
    assert(texts_of(r@) =~= user_attribution_text(*u));
    r
}

/// The rule under the heading of the search results: fifty dashes.
pub open spec fn dash_rule() -> Seq<char> {
    Seq::new(50, |i: int| '-')
}

/// The line of one user found: display name, membership ID and membership type name, in columns.
pub open spec fn found_user_line(u: UserInfo) -> Seq<char> {
    padded(u.display_name@, 20) + " "@ + padded(u.membership_id@, 15) + " "@ + membership_type_label(
        u.membership_type,
    )
}

/// What the search command shows of its answer: that nobody was found, or how many were, a
/// heading, a rule and a line per user.
pub open spec fn search_result_text(display_name: Seq<char>, response: UserSearchResponse) -> Seq<Seq<char>> {
    if response.search_results@.len() == 0 {
        seq!["No users found with display name: "@ + display_name]
    } else {
        seq![
            "Found "@ + signed_decimal(response.total_results as int) + " user(s):"@,
            padded("Display Name"@, 20) + " "@ + padded("Membership ID"@, 15) + " "@ + padded("Type"@, 10),
            dash_rule(),
        ] + response.search_results@.map_values(|u: UserInfo| found_user_line(u))
    }
}

/// The lines that the search command shows of its answer.
pub fn search_result_lines(display_name: &str, response: &UserSearchResponse) -> (r: Vec<String>)
    ensures
        texts_of(r@) == search_result_text(display_name@, *response),
{
    let mut r: Vec<String> = Vec::new();
    let users = &response.search_results;
    if users.len() == 0 {
        r.push(labeled("No users found with display name: ", display_name));
        assert(texts_of(r@) =~= search_result_text(display_name@, *response));
        return r;
    }
    let mut found = labeled_number("Found ", response.total_results as i64);
    found.append(" user(s):");
    r.push(found);
    let mut heading = String::new();
    append_padded(&mut heading, "Display Name", 20);
    heading.append(" ");
    append_padded(&mut heading, "Membership ID", 15);
    heading.append(" ");
    append_padded(&mut heading, "Type", 10);
    r.push(heading);
    proof {
        reveal_strlit("--------------------------------------------------");
    }
    r.push("--------------------------------------------------".to_owned());
    assert("--------------------------------------------------"@ =~= dash_rule());
    let ghost start = texts_of(r@);
    let n = users.len();
    let mut i: usize = 0;
    while i < n
        invariant
            i <= n,
            n == users@.len(),
            texts_of(r@) == start + users@.take(i as int).map_values(|u: UserInfo| found_user_line(u)),
        decreases n - i,
    {
        let u = &users[i];
        let mut line = String::new();
        append_padded(&mut line, u.display_name.as_str(), 20);
        line.append(" ");
        append_padded(&mut line, u.membership_id.as_str(), 15);
        line.append(" ");
        let membership_name = get_membership_type_name(u.membership_type);
        line.append(membership_name.as_str());
        let ghost before = texts_of(r@);
        r.push(line);
        assert(users@.take(i + 1) =~= users@.take(i as int).push(users@[i as int]));
        assert(texts_of(r@) =~= before.push(found_user_line(users@[i as int])));
        assert(texts_of(r@) =~= start + users@.take(i + 1).map_values(|u: UserInfo| found_user_line(u)));
        i = i + 1;
    }
    assert(users@.take(n as int) =~= users@);
    assert(texts_of(r@) =~= search_result_text(display_name@, *response));
    r
}

/// The command line: the command to run.
pub struct Cli {
    /// The command to execute.
    pub command: Commands,
}

/// The commands of the command line.
pub enum Commands {
    /// Search for users by their Bungie display name.
    Search {
        /// The display name to search for.
        name: String,
    },
    /// Analyze the post-game carnage reports of a user.
    Analyze {
        /// The Bungie membership ID of the user to analyze.
        user_id: String,
        /// The membership type (1 Xbox, 2 PlayStation, 3 Steam, 5 Stadia, 10 Battle.net, 254 Bungie).
        membership_type: i32,
        /// The activity type to filter by (story, strike, crucible, gambit, raid, dungeon, other).
        activity_type: Option<String>,
        /// How many recent activities to analyze (at most 250).
        count: u32,
        /// The output format (json, table, detailed).
        format: String,
    },
    /// Analyze one activity.
    Activity {
        /// The activity instance ID to analyze.
        activity_id: String,
        /// The Bungie membership ID of the user to focus on.
        user_id: String,
        /// The output format (json, table, detailed).
        format: String,
    },
}

/// How an analysis is shown.
#[derive(Debug, Clone, Copy, PartialEq, Eq, Structural)]
pub enum OutputFormat {
    /// As JSON.
    Json,
    /// As a table.
    Table,
    /// In detail.
    Detailed,
}

/// The output format that a lower-case name stands for: `json`, `table` or `detailed`.
pub open spec fn output_format_named(name: Seq<char>) -> Option<OutputFormat> {
    if name == "json"@ {
        Some(OutputFormat::Json)
    } else if name == "table"@ {
        Some(OutputFormat::Table)
    } else if name == "detailed"@ {
        Some(OutputFormat::Detailed)
    } else {
        None
    }
}

/// The output format that `format` names, whatever its case; `None` for an unknown name (which
/// is shown in detail, after a warning).
pub fn output_format(format: &str) -> (r: Option<OutputFormat>)
    ensures
        r == output_format_named(lowercase(format@)),
{
    let lower = to_lowercase(format);
    let name = lower.as_str();
    if text_eq(name, "json") {
        Some(OutputFormat::Json)
    } else if text_eq(name, "table") {
        Some(OutputFormat::Table)
    } else if text_eq(name, "detailed") {
        Some(OutputFormat::Detailed)
    } else {
        None
    }
}

/// What the analyze command has learned so far.
pub enum AnalyzeEvent {
    /// The command has started.
    Started,
    /// The user's character IDs have been fetched.
    CharactersFetched(Vec<String>),
    /// This many carnage reports have been fetched.
    ReportsFetched(usize),
}

/// What the analyze command does next.
#[derive(Debug)]
pub enum AnalyzeAction {
    /// Fetch the user's character IDs.
    FetchCharacters,
    /// Fetch the reports of this character.
    FetchReports {
        /// The character whose reports are fetched.
        character_id: String,
    },
    /// Show this message and stop.
    Finish {
        /// What to show.
        message: String,
    },
    /// Show this message, then analyze and show each report.
    AnalyzeReports {
        /// What to show first.
        message: String,
    },
}

/// The analyze command's next step: fetch the characters first; with none, stop; else fetch the
/// reports of the first character; with none, stop; else say how many there are and analyze them.
pub open spec fn analyze_command_next(event: AnalyzeEvent, action: AnalyzeAction) -> bool {
    match event {
        AnalyzeEvent::Started => action is FetchCharacters,
        AnalyzeEvent::CharactersFetched(ids) => if ids@.len() == 0 {
            action matches AnalyzeAction::Finish { message } && message@
                == "No characters found for this user."@
        } else {
            action matches AnalyzeAction::FetchReports { character_id } && character_id@ == ids@[0]@
        },
        AnalyzeEvent::ReportsFetched(n) => if n == 0 {
            action matches AnalyzeAction::Finish { message } && message@
                == "No post-game carnage reports found for the specified criteria."@
        } else {
            action matches AnalyzeAction::AnalyzeReports { message } && message@ == "Found "@
                + decimal(n as nat) + " post-game carnage report(s)"@
        },
    }
}

/// The analyze command's next step after `event`.
pub fn analyze_command_step(event: AnalyzeEvent) -> (action: AnalyzeAction)
    ensures
        analyze_command_next(event, action),
{
    match event {
        AnalyzeEvent::Started => AnalyzeAction::FetchCharacters,
        AnalyzeEvent::CharactersFetched(ids) => {
            if ids.len() == 0 {
                AnalyzeAction::Finish { message: "No characters found for this user.".to_owned() }
            } else {
                AnalyzeAction::FetchReports { character_id: ids[0].clone() }
            }
        },
        AnalyzeEvent::ReportsFetched(n) => {
            if n == 0 {
                AnalyzeAction::Finish {
                    message: "No post-game carnage reports found for the specified criteria.".to_owned(),
                }
            } else {
                let mut message = "Found ".to_owned();
                append_decimal(&mut message, n as u64);
                message.append(" post-game carnage report(s)");
                AnalyzeAction::AnalyzeReports { message }
            }
        },
    }
}

/// The heading shown before the report at position `index` (counted from 0): `--- Report <index + 1> ---`
/// after an empty line.
pub fn report_heading(index: usize) -> (r: String)
    requires
        index < usize::MAX,
    ensures
        r@ == "\n--- Report "@ + decimal((index + 1) as nat) + " ---"@,
{
    let mut r = "\n--- Report ".to_owned();
    append_decimal(&mut r, (index + 1) as u64);
    r.append(" ---");
    r
}

/// The name of each activity type.
pub open spec fn activity_type_name(t: ActivityType) -> Seq<char> {
    match t {
        ActivityType::Story => "story"@,
        ActivityType::Strike => "strike"@,
        ActivityType::Crucible => "crucible"@,
        ActivityType::Gambit => "gambit"@,
        ActivityType::Raid => "raid"@,
        ActivityType::Dungeon => "dungeon"@,
        ActivityType::PublicEvent => "public_event"@,
        ActivityType::Other => "other"@,
    }
}

/// Each activity type's name is read back as that type.
pub proof fn lemma_activity_type_names_read_back(t: ActivityType)
    ensures
        activity_type_named(activity_type_name(t)) == Some(t),
{
    reveal_strlit("story");
    reveal_strlit("strike");
    reveal_strlit("crucible");
    reveal_strlit("gambit");
    reveal_strlit("raid");
    reveal_strlit("dungeon");
    reveal_strlit("public_event");
    reveal_strlit("public");
    reveal_strlit("other");
    let names = seq![
        "story"@,
        "strike"@,
        "crucible"@,
        "gambit"@,
        "raid"@,
        "dungeon"@,
        "public_event"@,
        "public"@,
        "other"@,
    ];
    assert forall|i: int, j: int| 0 <= i < j < 9 implies names[i] != names[j] by {
        if names[i].len() == names[j].len() {
            assert(names[i][0] != names[j][0]);
        }
    }
    assert(names[0] == "story"@);
    assert(names[1] == "strike"@);
    assert(names[2] == "crucible"@);
    assert(names[3] == "gambit"@);
    assert(names[4] == "raid"@);
    assert(names[5] == "dungeon"@);
    assert(names[6] == "public_event"@);
    assert(names[7] == "public"@);
    assert(names[8] == "other"@);
}

} // verus!
