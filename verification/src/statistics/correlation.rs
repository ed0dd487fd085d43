//! Correlation coefficients: Pearson (linear) and Spearman (rank-based).

pub mod pearson;
pub mod spearman;
