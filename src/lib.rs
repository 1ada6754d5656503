//! Start-up logic of an editor plugin that launches the `elixir-ls` language
//! server for Elixir documents.
pub mod json;
pub mod laws;
pub mod plugin;
pub mod uri;
