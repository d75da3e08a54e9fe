//! Runtime helpers of the script mode: list, slice and text extensions,
//! truthiness and a deterministic pseudo-random generator; the plan of the
//! items that script mode injects, down to the tokens of its helper macros;
//! and the decisions that script mode makes about its input, the external
//! crates it provides, and the type hash of an exported function's signature.
pub mod crates;
pub mod inject;
pub mod lists;
pub mod numbers;
pub mod order;
pub mod script;
pub mod signature_hash;
pub mod sources;
pub mod strings;
pub mod text;
pub mod tokens;
pub mod truthy;
