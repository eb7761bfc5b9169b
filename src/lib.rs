/// The XOR cipher that masks the body of an asset.
pub mod decrypter;
/// The hexadecimal key of the manifest, decoded into the cipher's mask.
pub mod encryption_key;
/// What is said of each error.
pub mod messages;
/// Path operations that the planner relies on.
pub mod paths;
/// A run over a game's tree, as a machine driven by the filesystem's outcomes.
pub mod pipeline;
/// Which files are decrypted, and where their decrypted form goes.
pub mod plan;
/// The game's manifest, `System.json`.
pub mod system_json;
/// Decimal and character text.
pub mod text;
