//! Which operation a request is for, read from its method and path.

use crate::ids::PlayerId;
use crate::numbers::{parse_u32, parsed_u32};
use crate::text::{
    begins_with, contains, ends_with, finishes_with, holds, matches_at, starts_with, to_chars,
};
use vstd::prelude::*;

verus! {

/// The operations that a request can be for.
#[derive(Debug, Clone, Copy, PartialEq, Eq, Structural)]
pub enum Route {
    /// `GET /available_teams`
    AvailableTeams,
    /// `GET /npc_opponents`
    NpcOpponents,
    /// `POST /battles`
    CreateBattle,
    /// `POST /battles/{id}/action`
    SubmitAction,
    /// `GET /battles/{id}/state`
    BattleState,
    /// `GET /battles/{id}/valid_actions`
    ValidActions,
    /// `GET /battles/{id}/team_info`
    TeamInfo,
    /// `GET /battles/{id}/events`
    BattleEvents,
    /// `GET /health`
    Health,
    /// Anything else.
    NotFound,
}

/// The operation that a method and a path stand for. The rules are tried
/// in the order in which they are written; the first that fits decides.
pub open spec fn route_of(method: Seq<char>, path: Seq<char>) -> Route {
    let get = method == "GET"@;
    let post = method == "POST"@;
    let battle = begins_with(path, "/battles/"@);
    if get && path == "/available_teams"@ {
        Route::AvailableTeams
    } else if get && path == "/npc_opponents"@ {
        Route::NpcOpponents
    } else if post && path == "/battles"@ {
        Route::CreateBattle
    } else if post && battle && finishes_with(path, "/action"@) {
        Route::SubmitAction
    } else if get && battle && holds(path, "/state"@) {
        Route::BattleState
    } else if get && battle && holds(path, "/valid_actions"@) {
        Route::ValidActions
    } else if get && battle && holds(path, "/team_info"@) {
        Route::TeamInfo
    } else if get && battle && holds(path, "/events"@) {
        Route::BattleEvents
    } else if get && path == "/health"@ {
        Route::Health
    } else {
        Route::NotFound
    }
}

/// Whether two texts are the same.
fn same(text: &Vec<char>, other: &Vec<char>) -> (r: bool)
    ensures
        r == (text@ == other@),
{
    if text.len() != other.len() {
        return false;
    }
    let r = matches_at(text, other, 0);
    assert(text@.subrange(0, text@.len() as int) =~= text@);
    r
}

/// Finds the operation that a request is for.
pub fn route(method: &str, path: &str) -> (r: Route)
    ensures
        r == route_of(method@, path@),
{
    let method = to_chars(method);
    let path = to_chars(path);
    let get = same(&method, &to_chars("GET"));
    let post = same(&method, &to_chars("POST"));
    let battle = starts_with(&path, &to_chars("/battles/"));
    if get && same(&path, &to_chars("/available_teams")) {
        Route::AvailableTeams
    } else if get && same(&path, &to_chars("/npc_opponents")) {
        Route::NpcOpponents
    } else if post && same(&path, &to_chars("/battles")) {
        Route::CreateBattle
    } else if post && battle && ends_with(&path, &to_chars("/action")) {
        Route::SubmitAction
    } else if get && battle && contains(&path, &to_chars("/state")) {
        Route::BattleState
    } else if get && battle && contains(&path, &to_chars("/valid_actions")) {
        Route::ValidActions
    } else if get && battle && contains(&path, &to_chars("/team_info")) {
        Route::TeamInfo
    } else if get && battle && contains(&path, &to_chars("/events")) {
        Route::BattleEvents
    } else if get && same(&path, &to_chars("/health")) {
        Route::Health
    } else {
        Route::NotFound
    }
}

/// What is left of `text` once `prefix` is taken from its front, if it
/// begins with `prefix`.
pub open spec fn without_prefix(text: Seq<char>, prefix: Seq<char>) -> Option<Seq<char>> {
    if begins_with(text, prefix) {
        Some(text.subrange(prefix.len() as int, text.len() as int))
    } else {
        None
    }
}

/// What is left of `text` once `suffix` is taken from its end, if it ends
/// with `suffix`.
pub open spec fn without_suffix(text: Seq<char>, suffix: Seq<char>) -> Option<Seq<char>> {
    if finishes_with(text, suffix) {
        Some(text.subrange(0, text.len() - suffix.len()))
    } else {
        None
    }
}

/// Takes `prefix` from the front of `text`.
pub fn strip_prefix<'a>(text: &'a str, prefix: &str) -> (r: Option<&'a str>)
    ensures
        match r {
            Some(rest) => Some(rest@),
            None => None,
        } == without_prefix(text@, prefix@),
{
    let chars = to_chars(text);
    let pattern = to_chars(prefix);
    if starts_with(&chars, &pattern) {
        Some(text.substring_char(pattern.len(), chars.len()))
    } else {
        None
    }
}

/// Takes `suffix` from the end of `text`.
pub fn strip_suffix<'a>(text: &'a str, suffix: &str) -> (r: Option<&'a str>)
    ensures
        match r {
            Some(rest) => Some(rest@),
            None => None,
        } == without_suffix(text@, suffix@),
{
    let chars = to_chars(text);
    let pattern = to_chars(suffix);
    if ends_with(&chars, &pattern) {
        Some(text.substring_char(0, chars.len() - pattern.len()))
    } else {
        None
    }
}

/// The path without the deployment stage `/prod` in front, if it is there.
pub open spec fn stage_path_of(raw_path: Seq<char>) -> Seq<char> {
    match without_prefix(raw_path, "/prod"@) {
        Some(rest) => rest,
        None => raw_path,
    }
}

/// The path of a request without the deployment stage in front.
pub fn stage_path<'a>(raw_path: &'a str) -> (path: &'a str)
    ensures
        path@ == stage_path_of(raw_path@),
{
    match strip_prefix(raw_path, "/prod") {
        Some(rest) => rest,
        None => raw_path,
    }
}

/// Whether `segment` is what `text` holds before its first `/`, or all of
/// it where it holds none.
pub open spec fn is_first_segment(text: Seq<char>, segment: Seq<char>) -> bool {
    &&& segment.len() <= text.len()
    &&& segment == text.subrange(0, segment.len() as int)
    &&& forall|i: int| 0 <= i < segment.len() ==> segment[i] != '/'
    &&& segment.len() == text.len() || text[segment.len() as int] == '/'
}

/// What `text` holds before its first `/`.
pub fn first_segment<'a>(text: &'a str) -> (segment: &'a str)
    ensures
        is_first_segment(text@, segment@),
{
    let chars = to_chars(text);
    let mut end: usize = 0;
    while end < chars.len() && chars[end] != '/'
        invariant
            end <= chars.len(),
            forall|i: int| 0 <= i < end ==> chars[i] != '/',
        decreases chars.len() - end,
    {
        end += 1;
    }
    text.substring_char(0, end)
}

/// The identifier in the path of a submission, `/battles/{id}/action`: what
/// stands between `/battles/` and `/action`.
pub open spec fn action_battle_id_of(path: Seq<char>) -> Option<Seq<char>> {
    match without_prefix(path, "/battles/"@) {
        Some(rest) => without_suffix(rest, "/action"@),
        None => None,
    }
}

/// The identifier in the path of a submission.
pub fn action_battle_id<'a>(path: &'a str) -> (r: Option<&'a str>)
    ensures
        match r {
            Some(id) => Some(id@),
            None => None,
        } == action_battle_id_of(path@),
{
    match strip_prefix(path, "/battles/") {
        Some(rest) => strip_suffix(rest, "/action"),
        None => None,
    }
}

/// The identifier in the path of a query, `/battles/{id}/...`: what follows
/// `/battles/`, up to the next `/`.
pub fn battle_id_segment<'a>(path: &'a str) -> (r: Option<&'a str>)
    ensures
        match without_prefix(path@, "/battles/"@) {
            Some(rest) => r matches Some(id) && is_first_segment(rest, id@),
            None => r is None,
        },
{
    match strip_prefix(path, "/battles/") {
        Some(rest) => Some(first_segment(rest)),
        None => None,
    }
}

/// The participant that a query is made for: the one that the request
/// names, or `player_1` where it names none.
pub fn player_or_default(player_id: Option<&str>) -> (r: PlayerId)
    ensures
        r@ == match player_id {
            Some(id) => id@,
            None => "player_1"@,
        },
{
    match player_id {
        Some(id) => PlayerId(String::from_str(id)),
        None => PlayerId(String::from_str("player_1")),
    }
}

/// How many of the last turns a request for events asks for: the number
/// that the parameter writes, or all turns where there is no parameter or
/// it writes no number.
pub fn last_turns_of(parameter: Option<&str>) -> (r: Option<u32>)
    ensures
        r == match parameter {
            Some(text) => parsed_u32(text@),
            None => None,
        },
{
    match parameter {
        Some(text) => parse_u32(text),
        None => None,
    }
}

} // verus!
