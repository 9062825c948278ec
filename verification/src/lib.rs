//! Text signing and authenticated encryption for the `rcli` tool.
//!
//! The core of the crate is a small cryptographic layer: detached signatures
//! over byte streams under interchangeable algorithms (a blake3 keyed hash and
//! ed25519), authenticated symmetric encryption under chacha20-poly1305, key
//! generation, and the url-safe base64 framing that makes the outputs portable
//! as flat files.  Every operation takes fully materialised byte sequences and
//! returns a value or a typed error; reading files, standard input and the
//! terminal is left to the calling binary.

pub mod ascii;
pub mod b64;
pub mod cli;
pub mod csv;
pub mod errors;
pub mod gen_pass;
pub mod jwt;
pub mod text;
pub mod text_chacha20;

pub use b64::{decode, encode, Format};
pub use cli::{
    Base64Opts, Base64Subcommand, CsvOpts, DecodeOpts, DecryptOpts, EncodeOpts, EncryptKeyOpts,
    EncryptOpts, FileFormat, GenPassOpts, GenerateKeyOpts, HttpServeOpts, HttpSubCommand,
    JwtSignOpts, JwtSubCommand, JwtVerifyOpts, Opts, SignOpts, Subcommand, TextOpts,
    TextSubcommand, VerifyOpts,
};
pub use csv::Player;
pub use errors::CryptError;
pub use gen_pass::gen_pass;
pub use jwt::Claims;
pub use text::{
    generate_key, sign, verify, Blake3, Ed25519Sign, Ed25519Verify, TextSign, TextSignFormat,
    TextVerify,
};
pub use text_chacha20::{
    decrypt_message, encrypt_message, generate_encrypt_key, get_decrypt_key, TextEncryptFormat,
};
