//! A small trivia quiz: questions with multiple-choice or free-text answers,
//! a per-session store of the answers given, a completion check that gates a
//! secret, and the reversible character mask that keeps the secret unreadable
//! in source form.

/// The answers given in one session.
pub mod answers;
/// Comparison rules for free-text answers.
pub mod grading;
/// The fixed-key character mask.
pub mod obf;
/// Questions, their consistency rule and the grading of one answer.
pub mod question;
/// The checked question set and the completion check.
pub mod quiz;
