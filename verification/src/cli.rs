//! The command surface, as plain data.
//!
//! Each subcommand's options are held in an ordinary struct of plain values.
//! The calling binary owns the argument parser and the terminal; it fills
//! these structs and hands them, together with resolved input bytes, to the
//! library's operations.

use vstd::prelude::*;
use vstd::string::StringSliceAdditionalSpecFns;

verus! {

/// The top-level options: one subcommand per tool.
#[derive(Debug, Clone)]
pub struct Opts {
    pub cmd: Subcommand,
}

/// The closed set of tools.
#[derive(Debug, Clone)]
pub enum Subcommand {
    Csv(CsvOpts),
    GenPass(GenPassOpts),
    Base64(Base64Opts),
    Text(TextOpts),
    Http(HttpSubCommand),
}

/// The closed set of CSV output formats.
#[derive(Debug, Clone, Copy, PartialEq, Eq, Structural)]
pub enum FileFormat {
    Json,
    Yaml,
}

/// The byte sequence `"json"`.
pub open spec fn json_name() -> Seq<u8> {
    seq![106u8, 115u8, 111u8, 110u8]
}

/// The byte sequence `"yaml"`.
pub open spec fn yaml_name() -> Seq<u8> {
    seq![121u8, 97u8, 109u8, 108u8]
}

/// The byte sequence `"yml"`.
pub open spec fn yml_name() -> Seq<u8> {
    seq![121u8, 109u8, 108u8]
}

/// Parses a CSV output-format name, ignoring ASCII case; `"yml"` is accepted
/// as a synonym of `"yaml"`.
pub fn parse_file_format(s: &str) -> (r: Result<FileFormat, &'static str>)
    ensures
        crate::ascii::lower_bytes(s.spec_bytes()) == json_name() ==> r == Ok::<
            FileFormat,
            &'static str,
        >(FileFormat::Json),
        crate::ascii::lower_bytes(s.spec_bytes()) == yaml_name() || crate::ascii::lower_bytes(
            s.spec_bytes(),
        ) == yml_name() ==> r == Ok::<FileFormat, &'static str>(FileFormat::Yaml),
        crate::ascii::lower_bytes(s.spec_bytes()) != json_name() && crate::ascii::lower_bytes(
            s.spec_bytes(),
        ) != yaml_name() && crate::ascii::lower_bytes(s.spec_bytes()) != yml_name()
            ==> r matches Err(_),
{
    let b = s.as_bytes();
    let json_text: Vec<u8> = vec![106u8, 115u8, 111u8, 110u8];
    let yaml_text: Vec<u8> = vec![121u8, 97u8, 109u8, 108u8];
    let yml_text: Vec<u8> = vec![121u8, 109u8, 108u8];
    proof {
        assert(json_text@ =~= json_name());
        assert(yaml_text@ =~= yaml_name());
        assert(yml_text@ =~= yml_name());
        assert(crate::ascii::lower_bytes(json_name()) =~= json_name());
        assert(crate::ascii::lower_bytes(yaml_name()) =~= yaml_name());
        assert(crate::ascii::lower_bytes(yml_name()) =~= yml_name());
    }
    if crate::ascii::eq_ignore_ascii_case(b, json_text.as_slice()) {
        Ok(FileFormat::Json)
    } else if crate::ascii::eq_ignore_ascii_case(b, yaml_text.as_slice()) {
        Ok(FileFormat::Yaml)
    } else if crate::ascii::eq_ignore_ascii_case(b, yml_text.as_slice()) {
        Ok(FileFormat::Yaml)
    } else {
        Err("Invalid file format")
    }
}

/// Options of the CSV conversion command.
#[derive(Debug, Clone)]
pub struct CsvOpts {
    pub input: String,
    pub output: Option<String>,
    pub format: FileFormat,
    pub delimiter: char,
    pub header: bool,
}

/// Options of the password generation command.
#[derive(Debug, Clone)]
pub struct GenPassOpts {
    pub length: u8,
    pub no_number: bool,
    pub no_upper: bool,
    pub no_lower: bool,
    pub no_symbol: bool,
}

/// Options of the base64 command.
#[derive(Debug, Clone)]
pub struct Base64Opts {
    pub cmd: Base64Subcommand,
}

/// The two directions of the base64 command.
#[derive(Debug, Clone)]
pub enum Base64Subcommand {
    Encode(EncodeOpts),
    Decode(DecodeOpts),
}

/// Options of base64 encoding.
#[derive(Debug, Clone)]
pub struct EncodeOpts {
    pub input: String,
    pub format: crate::b64::Format,
}

/// Options of base64 decoding.
#[derive(Debug, Clone)]
pub struct DecodeOpts {
    pub input: String,
    pub format: crate::b64::Format,
}

/// Options of the text command.
#[derive(Debug, Clone)]
pub struct TextOpts {
    pub cmd: TextSubcommand,
}

/// The closed set of text operations.
#[derive(Debug, Clone)]
pub enum TextSubcommand {
    GenerateKey(GenerateKeyOpts),
    Sign(SignOpts),
    Verify(VerifyOpts),
    Encrypt(EncryptOpts),
    Decrypt(DecryptOpts),
    EncryptKey(EncryptKeyOpts),
}

/// Options of text signing.
#[derive(Debug, Clone)]
pub struct SignOpts {
    pub input: String,
    pub key: String,
    pub format: crate::text::TextSignFormat,
}

/// Options of signature checking.
#[derive(Debug, Clone)]
pub struct VerifyOpts {
    pub input: String,
    pub key: String,
    pub format: crate::text::TextSignFormat,
    pub signature: String,
}

/// Options of signing-key generation.
#[derive(Debug, Clone)]
pub struct GenerateKeyOpts {
    pub output: String,
    pub format: crate::text::TextSignFormat,
}

/// Options of text encryption.
#[derive(Debug, Clone)]
pub struct EncryptOpts {
    pub input: String,
    pub key: String,
    pub output: String,
    pub format: crate::text_chacha20::TextEncryptFormat,
}

/// Options of text decryption.
#[derive(Debug, Clone)]
pub struct DecryptOpts {
    pub input: String,
    pub key: String,
    pub format: crate::text_chacha20::TextEncryptFormat,
    pub output: String,
    pub print: bool,
}

/// Options of encryption-key generation.
#[derive(Debug, Clone)]
pub struct EncryptKeyOpts {
    pub output: String,
    pub format: crate::text_chacha20::TextEncryptFormat,
}

/// The HTTP tool's subcommands.
#[derive(Debug, Clone)]
pub enum HttpSubCommand {
    Serve(HttpServeOpts),
}

/// Options of the static-file server.
#[derive(Debug, Clone)]
pub struct HttpServeOpts {
    pub port: u16,
    pub dir: String,
}

/// The JSON-web-token tool's subcommands.
#[derive(Debug, Clone)]
pub enum JwtSubCommand {
    Sign(JwtSignOpts),
    Verify(JwtVerifyOpts),
}

/// Options of token signing.
#[derive(Debug, Clone)]
pub struct JwtSignOpts {
    pub sub: String,
    pub aud: String,
    pub exp: String,
}

/// Options of token checking.
#[derive(Debug, Clone)]
pub struct JwtVerifyOpts {
    pub token: String,
}

} // verus!
