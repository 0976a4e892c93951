//! A message-authentication and digital-signature engine.
//!
//! Given a byte stream and a key, the engine produces or verifies an
//! integrity token, and it can generate fresh key material for either of two
//! algorithm families: a symmetric keyed hash and an asymmetric signature
//! scheme. Tokens travel as URL-safe, padding-free base64 text; keys are raw
//! bytes on disk. All reading and writing of files belongs to the caller: the
//! functions here take the bytes that were read and hand back the bytes to
//! write.

pub mod cli;
pub mod codec;
pub mod crypto;
pub mod error;
pub mod opts;
pub mod process;
pub mod rng;
pub mod strutil;

pub use cli::Base64DecodeOpts;
pub use cli::Base64EncodeOpts;
pub use cli::Base64Format;
pub use cli::Base64SubCommand;
pub use cli::CsvOpts;
pub use cli::GenPassOpts;
pub use cli::HttpServeOpts;
pub use cli::HttpSubCommand;
pub use cli::Opts;
pub use cli::OutputFormat;
pub use cli::SubCommand;
pub use cli::TextGenOpts;
pub use cli::TextSignFormat;
pub use cli::TextSignOpts;
pub use cli::TextSubCommand;
pub use cli::TextVerifyOpts;
pub use error::Error;
pub use process::b64::process_decode;
pub use process::b64::process_encode;
pub use process::gen_pass::process_genpass;
pub use process::text::Blake3;
pub use process::text::Ed25519Signer;
pub use process::text::Ed25519Verifier;
pub use process::text::KeyGenerator;
pub use process::text::KeyLoader;
pub use process::text::process_text_generate;
pub use process::text::process_text_sign;
pub use process::text::process_text_verify;
pub use process::text::TextSign;
pub use process::text::TextVerify;
