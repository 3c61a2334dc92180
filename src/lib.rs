//! Online reinforcement learning with linear value functions, eligibility
//! traces and decaying hyperparameters.
//!
//! All quantities are fixed-point numbers: the `i64` value `x` stands for the
//! real number `x / num::ONE`. States are points of a box cut into a regular
//! grid (`partitions`), whose one-hot cell features feed linear action-value
//! and state-value functions. The learners (`td_zero`, `q_lambda`,
//! `greedy_gq`, `gradient_mc`) own their value functions, parameters and
//! traces; randomness for exploration is drawn by the caller and passed in.
pub mod capability;
pub mod domain;
pub mod error;
pub mod gradient_mc;
pub mod greedy_gq;
pub mod num;
pub mod parameter;
pub mod partitions;
pub mod policy;
pub mod q_lambda;
pub mod td_zero;
pub mod trace;
pub mod vector;
