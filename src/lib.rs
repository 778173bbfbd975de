//! Core of a desktop HUD assistant: the always-on-top HUD window and its
//! auxiliary windows (panel, response, input, context).
//!
//! The library decides; the host application carries the decisions out.
//! It covers window layout below the HUD, docking, the stealth flag and the
//! capture settings that follow it, the registry that creates each window
//! once, the checks that guard every command (rate limits and input
//! validation), the content security policy, and the chat exchange with the
//! completion backend.
pub mod chat;
pub mod commands;
pub mod csp;
pub mod dock;
pub mod errors;
pub mod geometry;
pub mod layout;
pub mod logging;
pub mod media;
pub mod placement;
pub mod ratelimit;
pub mod stealth;
pub mod text;
pub mod validation;
pub mod window;
