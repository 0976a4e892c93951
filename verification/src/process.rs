//! The operations behind each command: base64 transcoding, password
//! generation, and text signing with its key handling.

pub mod b64;
pub mod gen_pass;
pub mod text;
