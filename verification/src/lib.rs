//! Verified request-handling logic of the tournament portal API: identifier
//! and header parsing, pagination, the game-server console and agent
//! protocols, MatchZy uploads, match statistics, evidence validation, map
//! catalogues, PUG lobbies, result orientation, refresh-token rotation and
//! the other decisions the HTTP handlers make around their service calls.

pub mod api_error;
pub mod text;
pub mod clock;
pub mod request;
pub mod ids;
pub mod players;
pub mod agent;
pub mod json;
pub mod evidence;
pub mod console;
pub mod console_flow;
pub mod matchzy;
pub mod internal;
pub mod auth;
pub mod games;
pub mod pug_socket;
pub mod pugs;
pub mod match_server;
pub mod substitutions;
pub mod results;
pub mod leagues;
pub mod league_teams;
pub mod awards;
pub mod evidence_flow;
pub mod demos;
pub mod player_game_profiles;
pub mod server_admin;
pub mod dispute;
pub mod bans;
pub mod progression;
pub mod forfeit;
pub mod platform_stats;
