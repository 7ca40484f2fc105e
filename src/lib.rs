//! Themed SVG tiles (statistics, languages, external contributions) built from
//! a GitHub account snapshot.
//!
//! - [`github`]: the snapshot's types, the GraphQL queries, and the decisions
//!   taken while gathering it page by page (cursors, errors, assembly).
//! - [`tiles`]: the three views drawn from a snapshot, and their documents.
//! - [`ranking`]: the stable "largest first" ranking both histograms use.
//! - [`svg`]: decimal text and abbreviated counters.
//! - [`theme`], [`icons`]: palettes and glyphs.

pub mod github;
pub mod icons;
pub mod ranking;
pub mod svg;
pub mod theme;
pub mod tiles;
