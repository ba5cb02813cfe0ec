//! The cleanup rules. Each rule names what it cleans; the paths it proposes
//! and how it reads tool output are stated next to it.

pub mod agent_cache;
pub mod app_leftovers;
pub mod brew;
pub mod cargo;
pub mod codex;
pub mod configured;
pub mod dart;
pub mod docker;
pub mod docker_desktop;
pub mod gradle;
pub mod kiro;
pub mod macos_installers;
pub mod macos_system;
pub mod maven;
pub mod npm;
pub mod ollama;
pub mod personal;
pub mod pip;
pub mod pnpm;
pub mod simulator;
pub mod trash;
pub mod uv;
pub mod windows_system;
pub mod xcode;
pub mod yarn;
