//! Trustworthiness scoring of hosted open-source packages.
//!
//! Each metric maps facts about a repository to a score in `[0, 1]`, held as
//! an integer count of millionths. The scores of a package are combined into
//! a weighted net score, and a batch of scored packages is ranked by it.
pub mod text;
pub mod identifier;
pub mod pagination;
pub mod metrics;
pub mod aggregate;
pub mod ranking;
pub mod laws;
