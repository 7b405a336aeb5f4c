//! Searching the changed lines of a version-control diff for a pattern,
//! leaving out lines that were only moved.
//!
//! The library decides and computes; it reads no repository and prints
//! nothing. A program around it asks the repository what [`resolve`] wants to
//! know until the base commit is chosen, hands the lines of the diff against
//! that commit to a [`scan::Scan`], and prints what [`dedup::dedup`] leaves
//! of the matching lines, each as [`line::Line::render`] writes it.
//!
//! - [`resolve`]: the choice of the base commit, one question at a time;
//!   [`history`]: what that choice comes to for a repository that answers
//!   truthfully.
//! - [`classify`]: from a raw line of a diff to a changed line of text, and
//!   from there to a line that matches the pattern.
//! - [`pattern`]: the search pattern.
//! - [`scan`]: a diff gone through line by line, and a whole diff searched.
//! - [`dedup`] and [`multiset`]: cancelling added lines against removed ones.
//! - [`line`]: a matching line and its printed form.
//! - [`options`]: the colour option and the settings of the diff.
//! - [`text`]: decoding, trimming, cutting and numerals.

pub mod classify;
pub mod dedup;
pub mod history;
pub mod line;
pub mod multiset;
pub mod options;
pub mod pattern;
pub mod resolve;
pub mod scan;
pub mod text;
