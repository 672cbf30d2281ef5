use libbuf::gui::{human_bytes, parse_offset, parse_size, BufApp, FlashEvent, Phase};
use libbuf::list::UsbDevice;

fn device(path: &str) -> UsbDevice {
    UsbDevice {
        path: path.to_string(),
        size_human: "14.9 GiB".to_string(),
        model: "SanDisk".to_string(),
    }
}

fn ready_app() -> BufApp {
    let mut app = BufApp::new();
    app.source = Some("/img/os.iso".to_string());
    app.refresh_devices(Ok(vec![device("/dev/sdb"), device("/dev/sdc")]));
    app.selected = Some(1);
    app
}

#[test]
fn form_block_size_messages() {
    assert_eq!(parse_size("32MiB"), Ok(32 * 1024 * 1024));
    assert_eq!(parse_size("x"), Err("No numeric value in 'x'".to_string()));
    assert_eq!(
        parse_size("99999999999999999999"),
        Err("Cannot parse '99999999999999999999'".to_string())
    );
    assert_eq!(parse_size("1tib"), Err("Unknown suffix 'TIB'".to_string()));
    assert_eq!(
        parse_size("18446744073709551615G"),
        Err("Size overflows: 18446744073709551615G".to_string())
    );
}

#[test]
fn offsets_read_like_u64_from_str() {
    assert_eq!(parse_offset("0"), Some(0));
    assert_eq!(parse_offset(" 512 "), Some(512));
    assert_eq!(parse_offset("+12"), Some(12));
    assert_eq!(parse_offset("18446744073709551615"), Some(u64::MAX));
    assert_eq!(parse_offset("18446744073709551616"), None);
    assert_eq!(parse_offset("-1"), None);
    assert_eq!(parse_offset("+"), None);
    assert_eq!(parse_offset(""), None);
    assert_eq!(parse_offset("1K"), None);
    for s in ["0", " 512 ", "+12", "-1", "+", "", "1K", "007"] {
        assert_eq!(parse_offset(s), s.trim().parse::<u64>().ok());
    }
}

#[test]
fn a_new_window_is_idle_with_defaults() {
    let app = BufApp::new();
    assert_eq!(app.phase, Phase::Idle);
    assert_eq!(app.block_size, "32MiB");
    assert_eq!(app.offset, "0");
    assert!(!app.can_flash());
}

#[test]
fn flash_button_needs_a_complete_form() {
    let mut app = ready_app();
    assert!(app.can_flash());
    app.offset = "abc".to_string();
    assert!(!app.can_flash());
    app.start_confirm();
    assert_eq!(app.phase, Phase::Idle);
    app.offset = "0".to_string();
    app.start_confirm();
    assert_eq!(app.phase, Phase::Confirming);
    app.cancel();
    assert_eq!(app.phase, Phase::Idle);
}

#[test]
fn a_flash_runs_to_done() {
    let mut app = ready_app();
    app.start_confirm();
    let params = app.do_flash().unwrap();
    assert_eq!(params.source, "/img/os.iso");
    assert_eq!(params.target, "/dev/sdc");
    assert_eq!(params.block_size, 32 * 1024 * 1024);
    assert_eq!(params.offset, 0);
    assert_eq!(app.phase, Phase::Flashing);
    assert_eq!(app.status_msg, "Validating...");
    app.flash_started();
    assert_eq!(app.status_msg, "Writing...");
    assert!(app.poll(FlashEvent::Update(10, 40)));
    assert_eq!(app.progress, (10, 40));
    assert!(app.poll(FlashEvent::Update(5, 0)));
    assert_eq!(app.progress, (10, 40));
    assert!(app.poll(FlashEvent::Update(50, 40)));
    assert_eq!(app.progress, (40, 40));
    assert!(!app.poll(FlashEvent::Empty));
    assert!(!app.poll(FlashEvent::Done("40 B written".to_string())));
    assert_eq!(app.phase, Phase::Done);
    assert_eq!(app.progress, (1, 1));
    assert_eq!(app.result_msg, "40 B written");
    assert!(!app.poll(FlashEvent::Error("late".to_string())));
    assert_eq!(app.phase, Phase::Done);
    app.flash_another();
    assert_eq!(app.phase, Phase::Idle);
    assert_eq!(app.result_msg, "");
    assert_eq!(app.progress, (0, 0));
}

#[test]
fn failures_show_their_reason() {
    let mut app = ready_app();
    app.block_size = "1TiB".to_string();
    app.phase = Phase::Confirming;
    assert!(app.do_flash().is_none());
    assert_eq!(app.phase, Phase::Failed);
    assert_eq!(app.error_msg, "Unknown suffix 'TIB'");
    app.back();
    assert_eq!(app.phase, Phase::Idle);
    assert_eq!(app.error_msg, "");

    app.block_size = "4M".to_string();
    app.offset = "-3".to_string();
    app.phase = Phase::Confirming;
    assert!(app.do_flash().is_none());
    assert_eq!(app.error_msg, "Offset must be a plain integer in bytes");

    app.back();
    app.offset = "0".to_string();
    app.start_confirm();
    assert!(app.do_flash().is_some());
    assert!(!app.poll(FlashEvent::Disconnected));
    assert_eq!(app.phase, Phase::Failed);
    assert_eq!(app.error_msg, "Flash thread disconnected unexpectedly");

    app.back();
    app.start_confirm();
    assert!(app.do_flash().is_some());
    app.validation_failed("not a block device".to_string());
    assert_eq!(app.phase, Phase::Failed);
    assert_eq!(app.error_msg, "not a block device");
}

#[test]
fn nothing_happens_without_an_image_or_a_device() {
    let mut app = BufApp::new();
    app.phase = Phase::Confirming;
    assert!(app.do_flash().is_none());
    assert_eq!(app.phase, Phase::Confirming);
    let mut app = ready_app();
    app.refresh_devices(Err("no permission".to_string()));
    assert!(app.devices.is_empty());
    assert_eq!(app.selected, Some(1));
    assert!(app.selected_device().is_none());
    app.phase = Phase::Confirming;
    assert!(app.do_flash().is_none());
    assert_eq!(app.phase, Phase::Confirming);
    app.refresh_devices(Ok(vec![device("/dev/sdd")]));
    assert_eq!(app.selected, None);
    assert_eq!(app.device_load_err, "");
}

#[test]
fn choosing_a_device() {
    let mut app = ready_app();
    app.select(0);
    assert_eq!(app.selected_device().unwrap().path, "/dev/sdb");
    app.select(7);
    assert!(app.selected_device().is_none());
    assert!(app.can_flash());
    app.start_confirm();
    assert!(app.do_flash().is_none());
    assert_eq!(app.phase, Phase::Confirming);
}

#[test]
fn flash_it_behaves_alike_in_every_phase() {
    let mut app = ready_app();
    assert_eq!(app.phase, Phase::Idle);
    let params = app.do_flash().unwrap();
    assert_eq!(params.target, "/dev/sdc");
    assert_eq!(app.phase, Phase::Flashing);
}

#[test]
fn window_and_prompt_show_the_same_byte_counts() {
    for b in [0u64, 1023, 1024, 1536, 1792, 32 << 20, u64::MAX] {
        assert_eq!(human_bytes(b), libbuf::list::human_bytes(b));
    }
    assert_eq!(human_bytes(1536), "1.5 KiB");
}
