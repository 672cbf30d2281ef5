use libbuf::cli::{
    block_size_setting, elevation_args, is_confirmed, required_paths, BlockSizeError, Options,
    UsageError,
};

fn options() -> Options {
    Options {
        source: Some("/img/os.iso".to_string()),
        target: Some("/dev/sdb".to_string()),
        list: false,
        block_size: "32MiB".to_string(),
        offset: 0,
        force: false,
        dry_run: false,
        no_logging: false,
        verbose: false,
    }
}

#[test]
fn confirmation_takes_only_y() {
    assert!(is_confirmed("y\n"));
    assert!(is_confirmed("  Y \r\n"));
    assert!(!is_confirmed("yes\n"));
    assert!(!is_confirmed("n\n"));
    assert!(!is_confirmed(""));
    assert!(!is_confirmed("\n"));
}

#[test]
fn source_is_required_before_target() {
    let mut o = options();
    o.source = None;
    o.target = None;
    assert!(matches!(required_paths(&o), Err(UsageError::MissingSource)));
    o.source = Some("a.img".to_string());
    assert!(matches!(required_paths(&o), Err(UsageError::MissingTarget)));
    assert_eq!(
        UsageError::MissingSource.message(),
        "--source/-s is required. Use --help for usage."
    );
    let (s, t) = required_paths(&options()).unwrap();
    assert_eq!((s.as_str(), t.as_str()), ("/img/os.iso", "/dev/sdb"));
}

#[test]
fn block_size_must_be_positive() {
    assert_eq!(block_size_setting("32MiB").unwrap(), 32 * 1024 * 1024);
    assert!(matches!(block_size_setting("0"), Err(BlockSizeError::Zero)));
    assert!(matches!(block_size_setting("0K"), Err(BlockSizeError::Zero)));
    assert_eq!(
        block_size_setting("0").unwrap_err().message(),
        "Block size must be greater than zero"
    );
    assert_eq!(
        block_size_setting("1TiB").unwrap_err().message(),
        "Invalid --block-size '1TiB': Unknown size suffix: 'TIB'"
    );
}

#[test]
fn elevation_keeps_defaults_out() {
    let args = elevation_args(&options(), "/img/os.iso", "/dev/sdb");
    assert_eq!(args, vec!["--source", "/img/os.iso", "--target", "/dev/sdb"]);
}

#[test]
fn elevation_passes_every_changed_option() {
    let mut o = options();
    o.block_size = "4M".to_string();
    o.offset = 512;
    o.force = true;
    o.dry_run = true;
    o.no_logging = true;
    o.verbose = true;
    let args = elevation_args(&o, "/abs/os.iso", "/dev/sdc");
    assert_eq!(
        args,
        vec![
            "--source", "/abs/os.iso", "--target", "/dev/sdc", "--block-size", "4M", "--offset",
            "512", "--force", "--dry-run", "--no-logging", "--verbose",
        ]
    );
}
