use clarity_db::cli::{finish_decode, parse_cli_args, run_encode, usage, CliCommand};

fn args(v: &[&str]) -> Vec<String> {
    v.iter().map(|s| s.to_string()).collect()
}

#[test]
fn commands_from_arguments() {
    match parse_cli_args(&args(&["tool", "encode", "22", "hello"])) {
        CliCommand::Encode(v, p) => {
            assert_eq!(v, "22");
            assert_eq!(p, "hello");
        },
        _ => panic!("expected encode"),
    }
    match parse_cli_args(&args(&["tool", "decode", "SP000"])) {
        CliCommand::Decode(p) => assert_eq!(p, "SP000"),
        _ => panic!("expected decode"),
    }
    for bad in [vec!["tool"], vec!["tool", "encode", "1"], vec!["tool", "decode"], vec!["tool", "other", "a", "b"]] {
        match parse_cli_args(&args(&bad)) {
            CliCommand::Usage(prog) => assert_eq!(prog, "tool"),
            _ => panic!("expected usage"),
        }
    }
}

#[test]
fn usage_message() {
    let out = usage("tool");
    assert!(out.stdout.is_empty());
    assert_eq!(out.stderr, vec!["Usage: tool {encode VERSION STRING | decode PAYLOAD}".to_string()]);
    assert_eq!(out.exit_code, 1);
}

#[test]
fn encode_prints_the_address() {
    let out = run_encode("26", "\0\0\0\0\0\0\0\0\0\0\0\0\0\0\0\0\0\0\0\0");
    assert_eq!(out.stdout, vec!["ST000000000000000000002AMW42H".to_string()]);
    assert!(out.stderr.is_empty());
    assert_eq!(out.exit_code, 0);
}

#[test]
fn encode_rejects_a_bad_version() {
    for version in ["x", "", "256", "-1"] {
        let out = run_encode(version, "hello");
        assert!(out.stdout.is_empty());
        assert_eq!(out.stderr.len(), 1);
        assert!(out.stderr[0].starts_with("Error: "));
        assert_eq!(out.exit_code, 1);
    }
    let out = run_encode("32", "hello");
    assert!(out.stdout.is_empty());
    assert!(out.stderr[0].starts_with("Error: "));
    assert_eq!(out.exit_code, 1);
    let out = run_encode("+22", "hello");
    assert_eq!(out.exit_code, 0);
}

#[test]
fn decode_prints_version_and_text() {
    let out = finish_decode(Ok((22, b"hello".to_vec())));
    assert_eq!(out.stdout, vec!["version: 22".to_string(), "decoded: hello".to_string()]);
    assert!(out.stderr.is_empty());
    assert_eq!(out.exit_code, 0);
}

#[test]
fn decode_errors() {
    let out = finish_decode(Err("bad checksum".to_string()));
    assert_eq!(out.stderr, vec!["Error: bad checksum".to_string()]);
    assert_eq!(out.exit_code, 1);
    let out = finish_decode(Ok((1, vec![0xff, 0xfe])));
    assert!(out.stdout.is_empty());
    assert!(out.stderr[0].starts_with("Error: "));
    assert_eq!(out.exit_code, 1);
}

#[test]
fn decoding_an_encoded_address_gives_back_version_and_bytes() {
    for (version, payload) in [(22u8, "hello"), (26, "\0\0abc"), (0, "x"), (31, "a longer payload of bytes")] {
        let out = run_encode(&version.to_string(), payload);
        assert_eq!(out.exit_code, 0);
        let (bytes, v) = c32::decode_check_prefixed(&out.stdout[0], 'S').unwrap();
        assert_eq!(v, version);
        assert_eq!(bytes, payload.as_bytes());
        let again = run_encode(&v.to_string(), std::str::from_utf8(&bytes).unwrap());
        assert_eq!(again.stdout, out.stdout);
    }
}

#[test]
fn decode_an_address() {
    let out = clarity_db::cli::run_decode("ST000000000000000000002AMW42H");
    assert_eq!(out.stdout, vec!["version: 26".to_string(), format!("decoded: {}", "\0".repeat(20))]);
    assert_eq!(out.exit_code, 0);
}

#[test]
fn decode_refuses_what_the_decoder_cannot_answer() {
    let out = clarity_db::cli::run_decode("S00");
    assert_eq!(out.stderr, vec!["Error: address payload too short to decode".to_string()]);
    assert_eq!(out.exit_code, 1);
    let out = clarity_db::cli::run_decode("S0A");
    assert_eq!(out.stderr, vec!["Error: address payload too short to decode".to_string()]);
    let out = clarity_db::cli::run_decode("SPOOO1");
    assert_eq!(out.stderr, vec!["Error: address payload too short to decode".to_string()]);
    let out = clarity_db::cli::run_decode("SPO0000000");
    assert_eq!(out.stderr, vec!["Error: address payload too short to decode".to_string()]);
    let out = clarity_db::cli::run_decode("X123");
    assert!(out.stderr[0].starts_with("Error: "));
    assert_eq!(out.exit_code, 1);
    let out = clarity_db::cli::run_decode("S1");
    assert!(out.stderr[0].starts_with("Error: "));
    let out = clarity_db::cli::run_decode("ST000000000000000000002AMW42J");
    assert!(out.stderr[0].starts_with("Error: "));
    assert_eq!(out.exit_code, 1);
}

#[test]
fn decoder_agrees_with_the_crate_where_it_answers() {
    for s in [
        "ST000000000000000000002AMW42H", "st000000000000000000002amw42h", "STOOOOOOOOOOOOOOOOOOOO2AMW42H",
        "SP2J6ZY48GV1EZ5V2V5RB9MP66SW86PYKKNRV9EJ7", "X123", "S1", "SP0000000", "SPZZZZZZZ",
        "SP00000O00", "SP0000", "SPU0000000", "SP\u{e9}00", "SPZZZZZZ",
    ] {
        let ours = clarity_db::c32::c32_address_decode(s);
        let theirs = c32::decode_check_prefixed(s, 'S').map(|(b, v)| (v, b)).map_err(|e| e.to_string());
        assert_eq!(ours, theirs);
    }
}
