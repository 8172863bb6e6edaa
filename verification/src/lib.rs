//! Analysis of Destiny 2 post-game carnage reports, as the Bungie API gives them.
//!
//! The library finds players in a search answer, reads the activity history and the carnage
//! reports, and analyzes a report for one player: that player's and each fireteam member's
//! equipment and kill attribution (weapon, ability and environmental kills), and a summary of
//! the activity. It also builds the API's request URLs and reads its error and rate-limit
//! answers. The application around it makes the requests and prints the results.
pub mod analyzer;
pub mod api_client;
pub mod cli;
pub mod error;
pub mod json;
pub mod models;
pub mod text;

pub use analyzer::CarnageReportAnalyzer;
pub use api_client::{BungieApiClient, BungieApiConfig};
pub use error::BungieError;
pub use models::{ActivityType, FireteamAnalysis, PostGameCarnageReport, UserInfo, UserSearchResponse};
