use rcli::{
    Base64Opts, Base64Subcommand, CsvOpts, DecodeOpts, DecryptOpts, EncryptKeyOpts, FileFormat,
    Format, GenPassOpts, HttpServeOpts, HttpSubCommand, JwtSignOpts, JwtSubCommand, Opts, SignOpts,
    Subcommand, TextEncryptFormat, TextOpts, TextSignFormat, TextSubcommand,
};

#[test]
fn parse_file_format_names() {
    assert_eq!(rcli::cli::parse_file_format("json").unwrap(), FileFormat::Json);
    assert_eq!(rcli::cli::parse_file_format("YAML").unwrap(), FileFormat::Yaml);
    assert_eq!(rcli::cli::parse_file_format("yml").unwrap(), FileFormat::Yaml);
    assert!(rcli::cli::parse_file_format("toml").is_err());
}

#[test]
fn command_surface_holds_plain_data() {
    let opts = Opts {
        cmd: Subcommand::Csv(CsvOpts {
            input: "players.csv".to_string(),
            output: None,
            format: FileFormat::Json,
            delimiter: ',',
            header: true,
        }),
    };
    match opts.cmd {
        Subcommand::Csv(c) => {
            assert_eq!(c.input, "players.csv");
            assert!(c.header);
        }
        _ => unreachable!(),
    }

    let text = TextOpts {
        cmd: TextSubcommand::Sign(SignOpts {
            input: "-".to_string(),
            key: "key.txt".to_string(),
            format: TextSignFormat::Blake3,
        }),
    };
    assert!(matches!(text.cmd, TextSubcommand::Sign(_)));

    let b64 = Base64Opts {
        cmd: Base64Subcommand::Decode(DecodeOpts {
            input: "-".to_string(),
            format: Format::UrlSafe,
        }),
    };
    assert!(matches!(b64.cmd, Base64Subcommand::Decode(_)));

    let enc = TextSubcommand::Decrypt(DecryptOpts {
        input: "in".to_string(),
        key: "key".to_string(),
        format: TextEncryptFormat::ChaCha20Poly1305,
        output: "out".to_string(),
        print: false,
    });
    assert!(matches!(enc, TextSubcommand::Decrypt(_)));

    let keygen = EncryptKeyOpts {
        output: "key".to_string(),
        format: TextEncryptFormat::ChaCha20Poly1305,
    };
    assert_eq!(keygen.format, TextEncryptFormat::ChaCha20Poly1305);

    let http = HttpSubCommand::Serve(HttpServeOpts { port: 8080, dir: ".".to_string() });
    match http {
        HttpSubCommand::Serve(s) => assert_eq!(s.port, 8080),
    }

    let jwt = JwtSubCommand::Sign(JwtSignOpts {
        sub: "sub".to_string(),
        aud: "aud".to_string(),
        exp: "1d".to_string(),
    });
    assert!(matches!(jwt, JwtSubCommand::Sign(_)));

    let gp = GenPassOpts {
        length: 16,
        no_number: false,
        no_upper: false,
        no_lower: false,
        no_symbol: false,
    };
    assert_eq!(gp.length, 16);
}
