//! A Discord music quiz: the rules of the game, its scoring and
//! leaderboard, the checks on its configuration and inputs, and the decisions
//! that drive the talks with the music services.
pub mod text;
pub mod links;
pub mod games;
pub mod config;
pub mod commands;
pub mod app;
pub mod services;
pub mod events;
