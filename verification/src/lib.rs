//! Classification of inbound chat messages and the decisions of a file
//! download: which attachment a message carries, under which safe local name
//! it is stored, and what is reported back for each outcome.

pub mod media;
pub mod pipeline;
pub mod sanitize;
