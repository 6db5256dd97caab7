//! A registry mechanism for toggleable inspection panels behind a
//! text-command prompt.
//!
//! Each inspector family keeps an ordered list of display names beside a
//! parallel list of visibility flags. Items are registered through a fluent
//! builder and turned into attachment requests in one finalize step; at
//! runtime a single toggle command per family opens a completion prompt over
//! the names and flips the chosen flag. A per-item activation condition
//! combines that flag with the global prompt visibility, so a panel never
//! outlives the command surface it was opened from.
//!
//! The host application owns the scheduler, the prompt engine and the panel
//! renderers; this crate owns the bookkeeping and the decisions, and states
//! them as contracts.

pub mod activation;
pub mod asset_inspector;
pub mod command;
pub mod filter_query_inspector;
pub mod registry;
pub mod resource_inspector;
pub mod state_inspector;
pub mod world_inspector;
