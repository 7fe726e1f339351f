/// Line comments and how they are stripped.
pub mod comments;
/// The expansion engine.
pub mod engine;
/// Groups between braces, and how the engine reads them.
pub mod groups;
/// What holds of every expansion.
pub mod laws;
/// The engine as a mathematical state machine.
pub mod machine;
/// Runs of several moves.
pub mod runs;
/// Macro bindings, substitution and diagnostics.
pub mod table;
/// Scalars, names and conversions.
pub mod text;
