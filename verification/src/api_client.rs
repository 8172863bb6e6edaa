//! The Bungie API client: its configuration, the URLs it requests, and what it makes of the
//! answers. The requests themselves are made by the application around this library.
use vstd::prelude::*;
use vstd::string::StringSliceAdditionalSpecFns;
use crate::error::BungieError;
use crate::json::{json_of_text, parse_json, JsonValue};
use crate::analyzer::summary_of;
use crate::models::{activity_type_for_mode, lemma_activity_type_by_mode, ActivitySummary, ActivityType, PostGameCarnageReport, UserInfo, UserSearchResponse};
use crate::text::{append_decimal, append_signed_decimal, decimal, digit_char, parsed_u64, parse_u64, signed_decimal, text_eq};

verus! {

/// The HTTP client.
#[verifier::external_type_specification]
#[verifier::external_body]
pub struct ExHttpClient(reqwest::Client);

/// The duration of `secs` seconds.
pub uninterp spec fn duration_of_secs(secs: u64) -> core::time::Duration;

/// `Duration::from_secs` gives the duration of that many seconds; it never fails.
pub assume_specification[ core::time::Duration::from_secs ](secs: u64) -> (d: core::time::Duration)
    ensures
        d == duration_of_secs(secs),
;

/// Cloning a duration copies it (`Duration` is `Copy`).
pub assume_specification[ <core::time::Duration as Clone>::clone ](d: &core::time::Duration) -> (r: core::time::Duration)
    ensures
        r == *d,
;

/// Cloning the HTTP client gives a handle to the same connection pool; nothing is stated of it.
pub assume_specification[ <reqwest::Client as Clone>::clone ](c: &reqwest::Client) -> reqwest::Client;

/// The base URL of the Bungie API.
pub open spec fn default_base_url() -> Seq<char> {
    "https://www.bungie.net/Platform"@
}

/// Configuration of the Bungie API client: endpoint, key, timeout and the delay between requests.
#[derive(Debug, Clone)]
pub struct BungieApiConfig {
    /// The base URL of the Bungie API.
    pub base_url: String,
    /// The API key, which every request needs.
    pub api_key: String,
    /// How long a request may take.
    pub timeout: core::time::Duration,
    /// The delay before each request, in milliseconds.
    pub rate_limit_delay: u64,
}

impl Default for BungieApiConfig {
    /// The production endpoint, no API key, a 30 second timeout and 100 ms between requests.
    fn default() -> (c: Self)
        ensures
            c.base_url@ == default_base_url(),
            c.api_key@ == Seq::<char>::empty(),
            c.timeout == duration_of_secs(30),
            c.rate_limit_delay == 100,
    {
        BungieApiConfig {
            base_url: "https://www.bungie.net/Platform".to_owned(),
            api_key: String::new(),
            timeout: core::time::Duration::from_secs(30),
            rate_limit_delay: 100,
        }
    }
}

/// Text that the URL encoder leaves as it is: ASCII letters and digits, `-`, `.`, `_` and `~`.
pub open spec fn is_unreserved_byte(b: u8) -> bool {
    (48 <= b <= 57) || (65 <= b <= 90) || (97 <= b <= 122) || b == 45 || b == 46 || b == 95
        || b == 126
}

/// The upper-case hexadecimal digit of `d` (below 16).
pub open spec fn hex_digit(d: int) -> char {
    if d < 10 {
        digit_char(d)
    } else if d == 10 {
        'A'
    } else if d == 11 {
        'B'
    } else if d == 12 {
        'C'
    } else if d == 13 {
        'D'
    } else if d == 14 {
        'E'
    } else {
        'F'
    }
}

/// How the URL encoder writes one byte: itself where unreserved, else `%` and two hex digits.
pub open spec fn encoded_byte(b: u8) -> Seq<char> {
    if is_unreserved_byte(b) {
        seq![b as char]
    } else {
        seq!['%', hex_digit(b as int / 16), hex_digit(b as int % 16)]
    }
}

/// The percent-encoding of the bytes `bytes`.
pub open spec fn percent_encoded(bytes: Seq<u8>) -> Seq<char>
    decreases bytes.len(),
{
    if bytes.len() == 0 {
        Seq::empty()
    } else {
        percent_encoded(bytes.drop_last()) + encoded_byte(bytes.last())
    }
}

/// `urlencoding::encode`: percent-encodes each byte of the UTF-8 text except ASCII letters,
/// digits, `-`, `.`, `_` and `~`, with upper-case hexadecimal digits.
#[verifier::external_body]
fn url_encode(text: &str) -> (r: String)
    ensures
        r@ == percent_encoded(text.spec_bytes()),
{
    urlencoding::encode(text).into_owned()
}

/// What an HTTP client was built with: its total request timeout and its default `User-Agent`
/// header.
pub uninterp spec fn http_client_settings_of(client: reqwest::Client) -> (core::time::Duration, Seq<char>);

/// `reqwest::Client::builder().timeout(timeout).user_agent(user_agent).build()`. Where it gives a
/// client, that client's total request timeout is `timeout` and its default `User-Agent` header is
/// `user_agent` (the builder stores both, and `build` hands them to the client). Whether it gives
/// a client or an error (a user agent that is no header value, a TLS backend or the system's
/// resolver configuration that cannot be loaded) depends on the machine, so nothing is stated of
/// that.
#[verifier::external_body]
fn build_http_client(timeout: core::time::Duration, user_agent: &str) -> (r: Result<reqwest::Client, reqwest::Error>)
    ensures
        r matches Ok(c) ==> http_client_settings_of(c) == (timeout, user_agent@),
{
    reqwest::Client::builder().timeout(timeout).user_agent(user_agent).build()
}

/// The `Display` text of an HTTP client error. Nothing is stated of it.
#[verifier::external_body]
fn http_error_text(error: &reqwest::Error) -> String {
    error.to_string()
}

/// The user agent that the client sends.
pub open spec fn user_agent() -> Seq<char> {
    "bungie-pgcr-analyzer/0.1.0"@
}

/// What the HTTP client of a configuration is built with: the configured timeout and this
/// library's user agent.
pub fn http_client_settings(config: &BungieApiConfig) -> (r: (core::time::Duration, String))
    ensures
        r.0 == config.timeout,
        r.1@ == user_agent(),
{
    (config.timeout, "bungie-pgcr-analyzer/0.1.0".to_owned())
}

impl BungieApiConfig {
    /// The default configuration with the API key `api_key`.
    pub fn with_api_key(api_key: String) -> (c: Self)
        ensures
            c.base_url@ == default_base_url(),
            c.api_key == api_key,
            c.timeout == duration_of_secs(30),
            c.rate_limit_delay == 100,
    {
        let d = BungieApiConfig::default();
        BungieApiConfig { api_key, ..d }
    }
}

/// The client of the Bungie API.
#[derive(Debug, Clone)]
pub struct BungieApiClient {
    client: reqwest::Client,
    config: BungieApiConfig,
}

/// What the client is, given what building the HTTP client gave: `Ok` with the client and the
/// configuration, or a configuration error that says the HTTP client could not be made.
pub fn client_from_build(config: BungieApiConfig, built: Result<reqwest::Client, String>) -> (r: Result<
    BungieApiClient,
    BungieError,
>)
    ensures
        match built {
            Ok(client) => (r matches Ok(c) && c.spec_config() == config && c.spec_http_client()
                == client),
            Err(detail) => (r matches Err(BungieError::ConfigError { message }) && message@
                == "Failed to create HTTP client: "@ + detail@),
        },
{
    match built {
        Ok(client) => Ok(BungieApiClient { client, config }),
        Err(detail) => {
            let mut message = "Failed to create HTTP client: ".to_owned();
            message.append(detail.as_str());
            Err(BungieError::ConfigError { message })
        },
    }
}

impl BungieApiClient {
    /// The configuration.
    pub closed spec fn spec_config(&self) -> BungieApiConfig {
        self.config
    }

    /// The HTTP client.
    pub closed spec fn spec_http_client(&self) -> reqwest::Client {
        self.client
    }

    /// Creates a client. Fails with a configuration error where the API key is empty, or where
    /// the HTTP client (with the configured timeout and this library's user agent) cannot be made.
    pub fn new(config: BungieApiConfig) -> (r: Result<Self, BungieError>)
        ensures
            config.api_key@.len() == 0 ==> (r matches Err(BungieError::ConfigError { message })
                && message@ == "API key is required"@),
            config.api_key@.len() > 0 ==> match r {
                Ok(c) => c.spec_config() == config && http_client_settings_of(c.spec_http_client())
                    == (config.timeout, user_agent()),
                Err(e) => (e matches BungieError::ConfigError { message } && message@.len() >= 30
                    && message@.take(30) == "Failed to create HTTP client: "@),
            },
    {
        if config.api_key.as_str().is_empty() {
            return Err(BungieError::ConfigError { message: "API key is required".to_owned() });
        }
        let (timeout, agent) = http_client_settings(&config);
        let built = match build_http_client(timeout, agent.as_str()) {
            Ok(client) => Ok(client),
            Err(e) => Err(http_error_text(&e)),
        };
        let r = client_from_build(config, built);
        let ghost rg = r;
        proof {
            reveal_strlit("Failed to create HTTP client: ");
            if built is Err {
                let m = rg->Err_0->ConfigError_message;
                assert(m@.take(30) =~= "Failed to create HTTP client: "@);
            }
        }
        r
    }

    /// The configuration.
    pub fn config(&self) -> (c: &BungieApiConfig)
        ensures
            *c == self.spec_config(),
    {
        &self.config
    }

    /// The HTTP client.
    pub fn http_client(&self) -> (c: &reqwest::Client)
        ensures
            *c == self.spec_http_client(),
    {
        &self.client
    }
}


impl BungieApiConfig {
    /// The URL that searches players by display name (percent-encoded).
    pub fn search_users_url(&self, display_name: &str) -> (u: String)
        ensures
            u@ == self.base_url@ + "/Destiny2/SearchDestinyPlayer/-1/"@ + percent_encoded(
                display_name.spec_bytes(),
            ) + "/"@,
    {
        let mut u = self.base_url.clone();
        u.append("/Destiny2/SearchDestinyPlayer/-1/");
        let encoded = url_encode(display_name);
        u.append(encoded.as_str());
        u.append("/");
        u
    }

    /// The URL of a character's recent activities.
    pub fn activities_url(
        &self,
        membership_type: i32,
        membership_id: &str,
        character_id: &str,
        count: u32,
    ) -> (u: String)
        ensures
            u@ == self.base_url@ + "/Destiny2/"@ + signed_decimal(membership_type as int)
                + "/Account/"@ + membership_id@ + "/Character/"@ + character_id@
                + "/Stats/Activities/?count="@ + decimal(count as nat),
    {
        let mut u = self.base_url.clone();
        u.append("/Destiny2/");
        append_signed_decimal(&mut u, membership_type as i64);
        u.append("/Account/");
        u.append(membership_id);
        u.append("/Character/");
        u.append(character_id);
        u.append("/Stats/Activities/?count=");
        append_decimal(&mut u, count as u64);
        u
    }

    /// The URL of the carnage report of an activity instance.
    pub fn carnage_report_url(&self, activity_id: &str) -> (u: String)
        ensures
            u@ == self.base_url@ + "/Destiny2/Stats/PostGameCarnageReport/"@ + activity_id@ + "/"@,
    {
        let mut u = self.base_url.clone();
        u.append("/Destiny2/Stats/PostGameCarnageReport/");
        u.append(activity_id);
        u.append("/");
        u
    }

    /// The URL of a profile's characters.
    pub fn profile_url(&self, membership_type: i32, membership_id: &str) -> (u: String)
        ensures
            u@ == self.base_url@ + "/Destiny2/"@ + signed_decimal(membership_type as int)
                + "/Profile/"@ + membership_id@ + "/?components=200"@,
    {
        let mut u = self.base_url.clone();
        u.append("/Destiny2/");
        append_signed_decimal(&mut u, membership_type as i64);
        u.append("/Profile/");
        u.append(membership_id);
        u.append("/?components=200");
        u
    }
}

/// How many reports to ask for: the count asked for (25 where none is), at most 250.
pub fn report_count(count: Option<u32>) -> (r: u32)
    ensures
        r == (match count {
            Some(c) => if c <= 250 {
                c
            } else {
                250
            },
            None => 25,
        }),
{
    let c = match count {
        Some(c) => c,
        None => 25,
    };
    if c <= 250 {
        c
    } else {
        250
    }
}

/// The seconds to wait that the rate-limit headers announce: where no request remains
/// (`X-RateLimit-Remaining` is `0`) and `X-RateLimit-Reset` is a number of seconds.
pub open spec fn rate_limit_retry(remaining: Option<&str>, reset: Option<&str>) -> Option<u64> {
    match remaining {
        Some(left) => if left@ == "0"@ {
            match reset {
                Some(secs) => parsed_u64(secs.spec_bytes()),
                None => None,
            }
        } else {
            None
        },
        None => None,
    }
}

/// Refuses a response whose rate-limit headers say that the limit is used up, with the seconds
/// to wait. The headers are given as text, where they are present and visible ASCII.
pub fn check_rate_limit(remaining: Option<&str>, reset: Option<&str>) -> (r: Result<(), BungieError>)
    ensures
        match rate_limit_retry(remaining, reset) {
            Some(secs) => (r matches Err(BungieError::RateLimitExceeded { retry_after })
                && retry_after == secs),
            None => r is Ok,
        },
{
    if let Some(left) = remaining {
        if text_eq(left, "0") {
            if let Some(secs) = reset {
                if let Some(retry_after) = parse_u64(secs) {
                    return Err(BungieError::RateLimitExceeded { retry_after });
                }
            }
        }
    }
    Ok(())
}

/// The text of the member `key` of an object, or the empty text where it has no such text member.
pub open spec fn member_text(item: JsonValue, key: Seq<char>) -> Seq<char> {
    match item.spec_get(key) {
        Some(v) => match v.spec_as_str() {
            Some(t) => t,
            None => Seq::empty(),
        },
        None => Seq::empty(),
    }
}

/// The integer member `key` of an object, or 0 where it has no such `i64` member.
pub open spec fn member_i64_or_zero(item: JsonValue, key: Seq<char>) -> i64 {
    match item.spec_get(key) {
        Some(v) => match v.spec_as_i64() {
            Some(n) => n,
            None => 0,
        },
        None => 0,
    }
}

fn member_text_of(item: &JsonValue, key: &str) -> (r: String)
    ensures
        r@ == member_text(*item, key@),
{
    match item.get(key) {
        Some(v) => match v.as_str() {
            Some(t) => t.to_owned(),
            None => String::new(),
        },
        None => String::new(),
    }
}

fn member_i64_of(item: &JsonValue, key: &str) -> (r: i64)
    ensures
        r == member_i64_or_zero(*item, key@),
{
    match item.get(key) {
        Some(v) => match v.as_i64() {
            Some(n) => n,
            None => 0,
        },
        None => 0,
    }
}

/// The message of an API error response: its `Message` text, or "Unknown API error".
pub open spec fn api_error_message(json: JsonValue) -> Seq<char> {
    match json.spec_get("Message"@) {
        Some(v) => match v.spec_as_str() {
            Some(t) => t,
            None => "Unknown API error"@,
        },
        None => "Unknown API error"@,
    }
}

/// Refuses a response whose status is not a success, with the message and error code
/// (`ErrorCode`, cut to 32 bits, or 0) that its JSON gives.
pub fn check_api_response(success: bool, json: &JsonValue) -> (r: Result<(), BungieError>)
    ensures
        success ==> r is Ok,
        !success ==> (r matches Err(BungieError::ApiError { message, error_code })
            && message@ == api_error_message(*json)
            && error_code == member_i64_or_zero(*json, "ErrorCode"@) as i32),
{
    if success {
        return Ok(());
    }
    let message = match json.get("Message") {
        Some(v) => match v.as_str() {
            Some(t) => t.to_owned(),
            None => "Unknown API error".to_owned(),
        },
        None => "Unknown API error".to_owned(),
    };
    let code = member_i64_of(json, "ErrorCode");
    Err(BungieError::ApiError { message, error_code: code as i32 })
}

/// Reads an answer of the API: refused where the rate-limit headers say the limit is used up,
/// then where the body is not JSON, then where the status is not a success (with the message and
/// code the JSON gives); otherwise the JSON value of the body.
pub fn read_api_response(
    remaining: Option<&str>,
    reset: Option<&str>,
    success: bool,
    body: &str,
) -> (r: Result<JsonValue, BungieError>)
    ensures
        match rate_limit_retry(remaining, reset) {
            Some(secs) => (r matches Err(BungieError::RateLimitExceeded { retry_after })
                && retry_after == secs),
            None => match json_of_text(body@) {
                None => r matches Err(BungieError::JsonError(_)),
                Some(v) => if success {
                    r matches Ok(w) && w == v
                } else {
                    (r matches Err(BungieError::ApiError { message, error_code })
                        && message@ == api_error_message(v)
                        && error_code == member_i64_or_zero(v, "ErrorCode"@) as i32)
                },
            },
        },
{
    check_rate_limit(remaining, reset)?;
    let json = match parse_json(body) {
        Ok(v) => v,
        Err(e) => {
            return Err(BungieError::JsonError(e));
        },
    };
    check_api_response(success, &json)?;
    Ok(json)
}

/// The user that a search result item describes: membership ID, display name and membership type.
pub open spec fn searched_user(item: JsonValue) -> (Seq<char>, Seq<char>, i32) {
    (
        member_text(item, "membershipId"@),
        member_text(item, "displayName"@),
        member_i64_or_zero(item, "membershipType"@) as i32,
    )
}

/// A searched user is kept where it has a membership ID, a display name and a membership type.
pub open spec fn is_complete_user(u: (Seq<char>, Seq<char>, i32)) -> bool {
    u.0.len() > 0 && u.1.len() > 0 && u.2 != 0
}

/// The complete users that the search result items describe, in order.
pub open spec fn searched_users(items: Seq<JsonValue>) -> Seq<(Seq<char>, Seq<char>, i32)>
    decreases items.len(),
{
    if items.len() == 0 {
        Seq::empty()
    } else {
        let rest = searched_users(items.drop_last());
        let u = searched_user(items.last());
        if is_complete_user(u) {
            rest.push(u)
        } else {
            rest
        }
    }
}

/// The search result item `item` is an object whose `membershipId` is the string `id`, whose
/// `displayName` is the string `name` and whose `membershipType` is the integer `t`.
pub open spec fn item_names_user(item: JsonValue, id: Seq<char>, name: Seq<char>, t: i64) -> bool {
    &&& (match item.spec_get("membershipId"@) {
        Some(v) => v.spec_as_str() == Some(id),
        None => false,
    })
    &&& (match item.spec_get("displayName"@) {
        Some(v) => v.spec_as_str() == Some(name),
        None => false,
    })
    &&& (match item.spec_get("membershipType"@) {
        Some(v) => v.spec_as_i64() == Some(t),
        None => false,
    })
}

/// Every search result item with a non-empty membership ID, a non-empty display name and a
/// non-zero membership type (any platform, 1 and 2 among them) is among the users found, with
/// those values; every user found has a non-empty ID and name and a non-zero type; and no more
/// users are found than there are items.
pub proof fn lemma_search_keeps_every_complete_user(items: Seq<JsonValue>)
    ensures
        forall|i: int, id: Seq<char>, name: Seq<char>, t: i64|
            0 <= i < items.len() && #[trigger] item_names_user(items[i], id, name, t) && id.len() > 0
                && name.len() > 0 && t != 0 && i32::MIN <= t <= i32::MAX ==> searched_users(items).contains(
                (id, name, t as i32),
            ),
        forall|k: int|
            0 <= k < searched_users(items).len() ==> (#[trigger] searched_users(items)[k]).0.len() > 0
                && searched_users(items)[k].1.len() > 0 && searched_users(items)[k].2 != 0,
        searched_users(items).len() <= items.len(),
    decreases items.len(),
{
    if items.len() > 0 {
        let d = items.drop_last();
        lemma_search_keeps_every_complete_user(d);
        let rest = searched_users(d);
        let all = searched_users(items);
        assert forall|i: int, id: Seq<char>, name: Seq<char>, t: i64|
            0 <= i < items.len() && #[trigger] item_names_user(items[i], id, name, t) && id.len() > 0
                && name.len() > 0 && t != 0 && i32::MIN <= t <= i32::MAX implies all.contains(
            (id, name, t as i32),
        ) by {
            if i < d.len() {
                assert(d[i] == items[i]);
                assert(item_names_user(d[i], id, name, t));
                let w = choose|w: int| 0 <= w < rest.len() && rest[w] == (id, name, t as i32);
                assert(all[w] == rest[w]);
            } else {
                assert(searched_user(items.last()) == (id, name, t as i32));
                assert(all[rest.len() as int] == (id, name, t as i32));
            }
        }
        assert forall|k: int| 0 <= k < all.len() implies (#[trigger] all[k]).0.len() > 0 && all[k].1.len() > 0
            && all[k].2 != 0 by {
            if k < rest.len() {
                assert(all[k] == rest[k]);
            }
        }
    }
}

/// A user's membership ID, display name and membership type.
pub open spec fn user_info_view(u: UserInfo) -> (Seq<char>, Seq<char>, i32) {
    (u.membership_id@, u.display_name@, u.membership_type)
}

/// Reads the answer of the user search. Its `Response` must be an array; each item with a
/// membership ID, a display name and a membership type is a user found.
pub fn parse_user_search_response(json: &JsonValue) -> (r: Result<UserSearchResponse, BungieError>)
    ensures
        match json.spec_get("Response"@) {
            Some(JsonValue::Array(items)) => (r matches Ok(resp)
                && resp.search_results@.map_values(|u: UserInfo| user_info_view(u)) == searched_users(items@)
                && resp.total_results == searched_users(items@).len() as i32
                && !resp.has_more),
            _ => (r matches Err(BungieError::ValidationError { field, message })
                && field@ == "Response"@
                && message@ == "Expected Response to be an array in user search response"@),
        },
{
    let items = match json.get("Response") {
        Some(v) => match v.as_array() {
            Some(a) => a,
            None => {
                return Err(BungieError::ValidationError {
                    field: "Response".to_owned(),
                    message: "Expected Response to be an array in user search response".to_owned(),
                });
            },
        },
        None => {
            return Err(BungieError::ValidationError {
                field: "Response".to_owned(),
                message: "Expected Response to be an array in user search response".to_owned(),
            });
        },
    };
    let n = items.len();
    let mut users: Vec<UserInfo> = Vec::new();
    let mut i: usize = 0;
    assert(items@.take(0) =~= Seq::<JsonValue>::empty());
    while i < n
        invariant
            i <= n,
            n == items@.len(),
            users@.map_values(|u: UserInfo| user_info_view(u)) == searched_users(items@.take(i as int)),
        decreases n - i,
    {
        let item = &items[i];
        let membership_id = member_text_of(item, "membershipId");
        let display_name = member_text_of(item, "displayName");
        let membership_type = member_i64_of(item, "membershipType") as i32;
        assert(items@.take(i + 1).drop_last() =~= items@.take(i as int));
        let ghost before = users@;
        if !membership_id.as_str().is_empty() && !display_name.as_str().is_empty() && membership_type != 0 {
            users.push(UserInfo { membership_id, display_name, membership_type });
            assert(users@.map_values(|u: UserInfo| user_info_view(u)) =~= before.map_values(
                |u: UserInfo| user_info_view(u),
            ).push(searched_user(items@[i as int])));
        }
        i = i + 1;
    }
    assert(items@.take(n as int) =~= items@);
    let total_results = users.len() as i32;
    Ok(UserSearchResponse { search_results: users, total_results, has_more: false })
}

/// The instance ID of an activity: its `activityDetails.instanceId` text.
pub open spec fn instance_id_of(activity: JsonValue) -> Option<Seq<char>> {
    match activity.spec_get("activityDetails"@) {
        Some(details) => match details.spec_get("instanceId"@) {
            Some(v) => v.spec_as_str(),
            None => None,
        },
        None => None,
    }
}

/// The instance IDs of the activities that have one, in order.
pub open spec fn instance_ids(activities: Seq<JsonValue>) -> Seq<Seq<char>>
    decreases activities.len(),
{
    if activities.len() == 0 {
        Seq::empty()
    } else {
        let rest = instance_ids(activities.drop_last());
        match instance_id_of(activities.last()) {
            Some(id) => rest.push(id),
            None => rest,
        }
    }
}

/// Reads the answer of the activity history: the instance IDs of the activities whose carnage
/// reports are to be fetched. `Response` and its `activities` must be there; activities that are
/// not an array give no IDs.
pub fn activity_instance_ids(json: &JsonValue) -> (r: Result<Vec<String>, BungieError>)
    ensures
        match json.spec_get("Response"@) {
            None => (r matches Err(BungieError::ValidationError { field, message })
                && field@ == "Response"@
                && message@ == "Missing Response field in activities response"@),
            Some(response) => match response.spec_get("activities"@) {
                None => (r matches Err(BungieError::ValidationError { field, message })
                    && field@ == "activities"@
                    && message@ == "Missing activities field in activities response"@),
                Some(JsonValue::Array(activities)) => (r matches Ok(ids)
                    && ids@.map_values(|s: String| s@) == instance_ids(activities@)),
                Some(_) => (r matches Ok(ids) && ids@.len() == 0),
            },
        },
{
    let response = match json.get("Response") {
        Some(v) => v,
        None => {
            return Err(BungieError::ValidationError {
                field: "Response".to_owned(),
                message: "Missing Response field in activities response".to_owned(),
            });
        },
    };
    let activities = match response.get("activities") {
        Some(v) => v,
        None => {
            return Err(BungieError::ValidationError {
                field: "activities".to_owned(),
                message: "Missing activities field in activities response".to_owned(),
            });
        },
    };
    let mut ids: Vec<String> = Vec::new();
    if let Some(items) = activities.as_array() {
        let n = items.len();
        let mut i: usize = 0;
        assert(items@.take(0) =~= Seq::<JsonValue>::empty());
        while i < n
            invariant
                i <= n,
                n == items@.len(),
                ids@.map_values(|s: String| s@) == instance_ids(items@.take(i as int)),
            decreases n - i,
        {
            assert(items@.take(i + 1).drop_last() =~= items@.take(i as int));
            let ghost before = ids@;
            if let Some(details) = items[i].get("activityDetails") {
                if let Some(v) = details.get("instanceId") {
                    if let Some(id) = v.as_str() {
                        ids.push(id.to_owned());
                        assert(ids@.map_values(|s: String| s@) =~= before.map_values(|s: String| s@).push(id@));
                    }
                }
            }
            i = i + 1;
        }
        assert(items@.take(n as int) =~= items@);
    }
    Ok(ids)
}

/// The carnage report in the answer of the carnage report request: its `Response`.
pub fn carnage_report_payload(json: &JsonValue) -> (r: Result<&JsonValue, BungieError>)
    ensures
        match json.spec_get("Response"@) {
            Some(v) => r == Ok::<&JsonValue, BungieError>(&v),
            None => (r matches Err(BungieError::ValidationError { field, message })
                && field@ == "Response"@
                && message@ == "Missing Response field in carnage report response"@),
        },
{
    match json.get("Response") {
        Some(v) => Ok(v),
        None => Err(BungieError::ValidationError {
            field: "Response".to_owned(),
            message: "Missing Response field in carnage report response".to_owned(),
        }),
    }
}

/// The error for a carnage report that does not have the expected shape, with the reader's
/// description of what is wrong.
pub fn carnage_report_parse_error(detail: &str) -> (e: BungieError)
    ensures
        e matches BungieError::ValidationError { field, message } && field@ == "PostGameCarnageReport"@
            && message@ == "Failed to parse carnage report: "@ + detail@,
{
    let mut message = "Failed to parse carnage report: ".to_owned();
    message.append(detail);
    BungieError::ValidationError { field: "PostGameCarnageReport".to_owned(), message }
}

/// The `Response.characters.data` member of a profile answer.
pub open spec fn characters_data(json: JsonValue) -> Option<JsonValue> {
    match json.spec_get("Response"@) {
        Some(response) => match response.spec_get("characters"@) {
            Some(characters) => characters.spec_get("data"@),
            None => None,
        },
        None => None,
    }
}

/// Reads the character IDs of a profile answer: the names of the members of
/// `Response.characters.data`, in order; none where that is not an object.
pub fn character_ids(json: &JsonValue) -> (r: Vec<String>)
    ensures
        match characters_data(*json) {
            Some(JsonValue::Object(members)) => r@.map_values(|s: String| s@) == members@.map_values(
                |m: (String, JsonValue)| m.0@,
            ),
            _ => r@.len() == 0,
        },
{
    let mut ids: Vec<String> = Vec::new();
    let data = match json.get("Response") {
        Some(response) => match response.get("characters") {
            Some(characters) => characters.get("data"),
            None => None,
        },
        None => None,
    };
    if let Some(d) = data {
        if let Some(members) = d.as_object() {
            let n = members.len();
            let mut i: usize = 0;
            while i < n
                invariant
                    i <= n,
                    n == members@.len(),
                    ids@.len() == i,
                    forall|k: int| 0 <= k < i ==> #[trigger] ids@[k]@ == members@[k].0@,
                decreases n - i,
            {
                ids.push(members[i].0.clone());
                i = i + 1;
            }
            assert(ids@.map_values(|s: String| s@) =~= members@.map_values(
                |m: (String, JsonValue)| m.0@,
            ));
        }
    }
    ids
}

/// The reports among `reports` of the kind `activity_type`, in order.
pub open spec fn reports_of_type(reports: Seq<PostGameCarnageReport>, activity_type: ActivityType) -> Seq<
    PostGameCarnageReport,
>
    decreases reports.len(),
{
    if reports.len() == 0 {
        Seq::empty()
    } else {
        let rest = reports_of_type(reports.drop_last(), activity_type);
        if activity_type_for_mode(reports.last().activity_details.mode) == activity_type {
            rest.push(reports.last())
        } else {
            rest
        }
    }
}

/// Keeps the reports whose activity mode stands for `activity_type`, in order.
pub fn filter_reports_by_activity_type(
    reports: Vec<PostGameCarnageReport>,
    activity_type: ActivityType,
) -> (r: Vec<PostGameCarnageReport>)
    ensures
        r@ == reports_of_type(reports@, activity_type),
{
    let ghost all = reports@;
    let mut rest = reports;
    let mut kept_rev: Vec<PostGameCarnageReport> = Vec::new();
    let mut remaining: usize = rest.len();
    while remaining > 0
        invariant
            remaining == rest@.len(),
            rest@ == all.take(remaining as int),
            remaining <= all.len(),
            reports_of_type(all, activity_type) == reports_of_type(rest@, activity_type) + kept_rev@.reverse(),
        decreases remaining,
    {
        let ghost before = rest@;
        let ghost kept_before = kept_rev@;
        let report = rest.pop().unwrap();
        remaining = remaining - 1;
        assert(before.drop_last() =~= rest@);
        assert(rest@ =~= all.take(remaining as int));
        if ActivityType::for_mode(report.activity_details.mode) == activity_type {
            kept_rev.push(report);
            assert(kept_rev@.reverse() =~= seq![before.last()] + kept_before.reverse());
            assert(reports_of_type(before, activity_type) =~= reports_of_type(rest@, activity_type).push(before.last()));
            assert(reports_of_type(all, activity_type) =~= reports_of_type(rest@, activity_type) + kept_rev@.reverse());
        }
    }
    assert(reports_of_type(rest@, activity_type) =~= Seq::<PostGameCarnageReport>::empty());
    let mut kept: Vec<PostGameCarnageReport> = Vec::new();
    let ghost target = kept_rev@.reverse();
    while kept_rev.len() > 0
        invariant
            target == kept@ + kept_rev@.reverse(),
        decreases kept_rev@.len(),
    {
        let ghost before = kept_rev@;
        let report = kept_rev.pop().unwrap();
        assert(before.drop_last() =~= kept_rev@);
        kept.push(report);
        assert(target =~= kept@ + kept_rev@.reverse());
    }
    assert(kept@ =~= target);
    kept
}


/// Every report that the filter keeps is of the kind filtered for.
pub proof fn lemma_filter_keeps_only_type(reports: Seq<PostGameCarnageReport>, activity_type: ActivityType)
    ensures
        forall|k: int|
            0 <= k < reports_of_type(reports, activity_type).len() ==> activity_type_for_mode(
                (#[trigger] reports_of_type(reports, activity_type)[k]).activity_details.mode,
            ) == activity_type,
    decreases reports.len(),
{
    if reports.len() > 0 {
        lemma_filter_keeps_only_type(reports.drop_last(), activity_type);
    }
}

/// A report that the filter keeps for a kind of activity is summarized as that kind.
pub proof fn lemma_kept_reports_summarize_as_type(
    reports: Seq<PostGameCarnageReport>,
    activity_type: ActivityType,
    k: int,
    summary: ActivitySummary,
)
    requires
        0 <= k < reports_of_type(reports, activity_type).len(),
        summary_of(summary, reports_of_type(reports, activity_type)[k]),
    ensures
        summary.activity_type == activity_type,
{
    lemma_filter_keeps_only_type(reports, activity_type);
}

proof fn lemma_reports_of_type_filter(
    reports: Seq<PostGameCarnageReport>,
    activity_type: ActivityType,
    pred: spec_fn(PostGameCarnageReport) -> bool,
)
    requires
        forall|r: PostGameCarnageReport|
            #[trigger] pred(r) <==> activity_type_for_mode(r.activity_details.mode) == activity_type,
    ensures
        reports_of_type(reports, activity_type) == reports.filter(pred),
    decreases reports.len(),
{
    reveal(Seq::filter);
    if reports.len() > 0 {
        lemma_reports_of_type_filter(reports.drop_last(), activity_type, pred);
        assert(pred(reports.last()) <==> activity_type_for_mode(reports.last().activity_details.mode)
            == activity_type);
    }
}

/// Filtering reports by a kind of activity keeps, in order, exactly the reports whose mode is that
/// kind's mode (2 to 7 for Story, Strike, Raid, Crucible, Gambit and Dungeon), or any mode outside
/// 2 to 7 for Other.
pub proof fn lemma_filter_by_mode(reports: Seq<PostGameCarnageReport>)
    ensures
        reports_of_type(reports, ActivityType::Story) == reports.filter(
            |r: PostGameCarnageReport| r.activity_details.mode == 2,
        ),
        reports_of_type(reports, ActivityType::Strike) == reports.filter(
            |r: PostGameCarnageReport| r.activity_details.mode == 3,
        ),
        reports_of_type(reports, ActivityType::Raid) == reports.filter(
            |r: PostGameCarnageReport| r.activity_details.mode == 4,
        ),
        reports_of_type(reports, ActivityType::Crucible) == reports.filter(
            |r: PostGameCarnageReport| r.activity_details.mode == 5,
        ),
        reports_of_type(reports, ActivityType::Gambit) == reports.filter(
            |r: PostGameCarnageReport| r.activity_details.mode == 6,
        ),
        reports_of_type(reports, ActivityType::Dungeon) == reports.filter(
            |r: PostGameCarnageReport| r.activity_details.mode == 7,
        ),
        reports_of_type(reports, ActivityType::Other) == reports.filter(
            |r: PostGameCarnageReport| !(2 <= r.activity_details.mode <= 7),
        ),
{
    let p2 = |r: PostGameCarnageReport| r.activity_details.mode == 2;
    let p3 = |r: PostGameCarnageReport| r.activity_details.mode == 3;
    let p4 = |r: PostGameCarnageReport| r.activity_details.mode == 4;
    let p5 = |r: PostGameCarnageReport| r.activity_details.mode == 5;
    let p6 = |r: PostGameCarnageReport| r.activity_details.mode == 6;
    let p7 = |r: PostGameCarnageReport| r.activity_details.mode == 7;
    let po = |r: PostGameCarnageReport| !(2 <= r.activity_details.mode <= 7);
    assert forall|r: PostGameCarnageReport| #[trigger] p2(r) <==> activity_type_for_mode(r.activity_details.mode)
        == ActivityType::Story by {
        lemma_activity_type_by_mode(r.activity_details.mode);
    }
    assert forall|r: PostGameCarnageReport| #[trigger] p3(r) <==> activity_type_for_mode(r.activity_details.mode)
        == ActivityType::Strike by {
        lemma_activity_type_by_mode(r.activity_details.mode);
    }
    assert forall|r: PostGameCarnageReport| #[trigger] p4(r) <==> activity_type_for_mode(r.activity_details.mode)
        == ActivityType::Raid by {
        lemma_activity_type_by_mode(r.activity_details.mode);
    }
    assert forall|r: PostGameCarnageReport| #[trigger] p5(r) <==> activity_type_for_mode(r.activity_details.mode)
        == ActivityType::Crucible by {
        lemma_activity_type_by_mode(r.activity_details.mode);
    }
    assert forall|r: PostGameCarnageReport| #[trigger] p6(r) <==> activity_type_for_mode(r.activity_details.mode)
        == ActivityType::Gambit by {
        lemma_activity_type_by_mode(r.activity_details.mode);
    }
    assert forall|r: PostGameCarnageReport| #[trigger] p7(r) <==> activity_type_for_mode(r.activity_details.mode)
        == ActivityType::Dungeon by {
        lemma_activity_type_by_mode(r.activity_details.mode);
    }
    assert forall|r: PostGameCarnageReport| #[trigger] po(r) <==> activity_type_for_mode(r.activity_details.mode)
        == ActivityType::Other by {
        lemma_activity_type_by_mode(r.activity_details.mode);
    }
    lemma_reports_of_type_filter(reports, ActivityType::Story, p2);
    lemma_reports_of_type_filter(reports, ActivityType::Strike, p3);
    lemma_reports_of_type_filter(reports, ActivityType::Raid, p4);
    lemma_reports_of_type_filter(reports, ActivityType::Crucible, p5);
    lemma_reports_of_type_filter(reports, ActivityType::Gambit, p6);
    lemma_reports_of_type_filter(reports, ActivityType::Dungeon, p7);
    lemma_reports_of_type_filter(reports, ActivityType::Other, po);
}

/// Filtering reports twice by the same kind keeps what filtering once keeps.
pub proof fn lemma_filter_idempotent(reports: Seq<PostGameCarnageReport>, activity_type: ActivityType)
    ensures
        reports_of_type(reports_of_type(reports, activity_type), activity_type) == reports_of_type(
            reports,
            activity_type,
        ),
    decreases reports.len(),
{
    if reports.len() > 0 {
        lemma_filter_idempotent(reports.drop_last(), activity_type);
        let rest = reports_of_type(reports.drop_last(), activity_type);
        if activity_type_for_mode(reports.last().activity_details.mode) == activity_type {
            let kept = rest.push(reports.last());
            assert(kept.drop_last() =~= rest);
        }
    }
}

/// Filtering keeps a report of the kind filtered for exactly where it is among the reports.
pub proof fn lemma_filter_keeps_every_match(reports: Seq<PostGameCarnageReport>, activity_type: ActivityType, r: PostGameCarnageReport)
    requires
        activity_type_for_mode(r.activity_details.mode) == activity_type,
    ensures
        reports.contains(r) <==> reports_of_type(reports, activity_type).contains(r),
    decreases reports.len(),
{
    if reports.len() > 0 {
        lemma_filter_keeps_every_match(reports.drop_last(), activity_type, r);
        let rest = reports_of_type(reports.drop_last(), activity_type);
        if reports.contains(r) && !reports.drop_last().contains(r) {
            let i = choose|i: int| 0 <= i < reports.len() && reports[i] == r;
            if i < reports.len() - 1 {
                assert(reports.drop_last()[i] == r);
            }
            assert(reports_of_type(reports, activity_type) == rest.push(reports.last()));
            assert(rest.push(reports.last())[rest.len() as int] == r);
        }
        if reports.drop_last().contains(r) {
            let i = choose|i: int| 0 <= i < reports.drop_last().len() && reports.drop_last()[i] == r;
            assert(reports[i] == r);
        }
        if reports_of_type(reports, activity_type).contains(r) && !rest.contains(r) {
            let kept = reports_of_type(reports, activity_type);
            let i = choose|i: int| 0 <= i < kept.len() && kept[i] == r;
            if activity_type_for_mode(reports.last().activity_details.mode) == activity_type {
                if i < rest.len() {
                    assert(rest[i] == r);
                }
                assert(reports[reports.len() - 1] == r);
            }
        }
        if rest.contains(r) && activity_type_for_mode(reports.last().activity_details.mode) == activity_type {
            let i = choose|i: int| 0 <= i < rest.len() && rest[i] == r;
            assert(rest.push(reports.last())[i] == r);
        }
    }
}

/// Every user that the search answer gives has a membership ID, a display name and a membership type.
pub proof fn lemma_searched_users_complete(items: Seq<JsonValue>)
    ensures
        forall|k: int| 0 <= k < searched_users(items).len() ==> is_complete_user(#[trigger] searched_users(items)[k]),
    decreases items.len(),
{
    if items.len() > 0 {
        lemma_searched_users_complete(items.drop_last());
        let rest = searched_users(items.drop_last());
        let all = searched_users(items);
        assert forall|k: int| 0 <= k < all.len() implies is_complete_user(#[trigger] all[k]) by {
            if k < rest.len() {
                assert(all[k] == rest[k]);
            }
        }
    }
}

} // verus!
