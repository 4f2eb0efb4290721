//! Recognition of mathematical formulas in images with the help of a
//! generative model.
//!
//! One recognition asks the model three times: for the formula, for an
//! analysis of it, and for a verification of the formula against the image.
//! This library holds everything about that which is decided rather than
//! sent or stored: the prompts, the requests, the meaning of a reply, the
//! retry policy, the order and the failure policy of the three stages, the
//! confidence score, and the history with its cache. Network and files are
//! the caller's part.

pub mod data_models;
pub mod history;
pub mod llm_api;
pub mod prompts;
pub mod recognition;
pub mod response;
pub mod retry;
pub mod scoring;
pub mod storage;
pub mod text;
