pub mod commands;
pub mod dao;
pub mod leaderboard;
pub mod models;
