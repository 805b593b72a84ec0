use gitrs_server::bisect::{verify_repo_path, BisectError};
use gitrs_server::config::{validate_port, Config};
use gitrs_server::error::{DeserializationError, Error, JsonCategory, SubhandlerError};
use gitrs_server::git::{child_path_env, verify_string_is_sha};
use gitrs_server::parse_util::parse_u32;
use gitrs_server::transport::{decode_frame_length, encode_frame};

#[test]
fn sha_validator_accepts_forty_hex_characters() {
    assert!(verify_string_is_sha(&"a".repeat(40)));
    assert!(verify_string_is_sha(&"A".repeat(40)));
    assert!(verify_string_is_sha("0123456789abcdefABCDEF0123456789abcdef01"));
}

#[test]
fn sha_validator_rejects_everything_else() {
    assert!(!verify_string_is_sha(""));
    assert!(!verify_string_is_sha(&"a".repeat(39)));
    assert!(!verify_string_is_sha(&"a".repeat(41)));
    assert!(!verify_string_is_sha(&"g".repeat(40)));
    let mut almost = "b".repeat(39);
    almost.push('!');
    assert!(!verify_string_is_sha(&almost));
    let mut wide = "c".repeat(39);
    wide.push('\u{00e9}');
    assert!(!verify_string_is_sha(&wide));
}

#[test]
fn parse_u32_reads_decimal_and_octal() {
    assert_eq!(parse_u32("675", 10), 675);
    assert_eq!(parse_u32("0", 10), 0);
    assert_eq!(parse_u32("100644", 8), 0o100644);
    assert_eq!(parse_u32("7", 8), 7);
}

#[test]
fn frame_length_round_trips() {
    let payload: Vec<u8> = vec![1, 2, 3, 4, 5];
    let frame = encode_frame(&payload);
    assert_eq!(frame.len(), 9);
    assert_eq!(&frame[..4], &[0, 0, 0, 5]);
    assert_eq!(&frame[4..], &payload[..]);
    let header: Vec<u8> = frame[..4].to_vec();
    assert_eq!(decode_frame_length(&header), 5);

    let big: Vec<u8> = vec![0; 70000];
    let frame = encode_frame(&big);
    let header: Vec<u8> = frame[..4].to_vec();
    assert_eq!(decode_frame_length(&header), 70000);
    assert_eq!(&header, &[0, 1, 0x11, 0x70]);
}

#[test]
fn json_categories_map_onto_deserialization_errors() {
    assert_eq!(
        Error::from(JsonCategory::Io),
        Error::Deserialization(DeserializationError::Io)
    );
    assert_eq!(
        Error::from(JsonCategory::Syntax),
        Error::Deserialization(DeserializationError::Syntax)
    );
    assert_eq!(
        Error::from(JsonCategory::Data),
        Error::Deserialization(DeserializationError::Data)
    );
    assert_eq!(
        Error::from(JsonCategory::Eof),
        Error::Deserialization(DeserializationError::Eof)
    );
}

#[test]
fn child_path_env_prepends_the_configured_directory() {
    let git_path = Some("/opt/git/bin".to_string());
    let inherited = Some("/usr/bin:/bin".to_string());
    let combined = child_path_env(&git_path, &inherited, ":");
    assert_eq!(combined.as_deref(), Some("/opt/git/bin:/usr/bin:/bin"));
    assert!(child_path_env(&None, &inherited, ":").is_none());
    assert!(child_path_env(&git_path, &None, ":").is_none());
}

#[test]
fn default_config_matches_the_command_line_defaults() {
    let config = Config::default();
    assert!(!config.debug);
    assert!(config.git_path.is_none());
    assert!(config.exec_path.is_none());
    assert_eq!(config.port, 5134);
}

#[test]
fn port_range_is_enforced() {
    assert!(validate_port(5134));
    assert!(validate_port(1024));
    assert!(validate_port(49151));
    assert!(!validate_port(1023));
    assert!(!validate_port(49152));
}

#[test]
fn verify_repo_path_requires_an_opened_working_copy() {
    assert_eq!(verify_repo_path(Some("/repo".to_string())), Ok("/repo".to_string()));
    assert_eq!(
        verify_repo_path(None),
        Err(SubhandlerError::Subhandler(BisectError::RepoPathNotSet))
    );
}
