use libbuf::privilege::{
    choose_elevator, search_path_entries, windows_relaunch_parameters, Elevator,
};

#[test]
fn path_is_split_at_colons() {
    assert_eq!(search_path_entries("/usr/bin:/bin"), vec!["/usr/bin", "/bin"]);
    assert_eq!(search_path_entries(""), vec![""]);
    assert_eq!(search_path_entries("a::b:"), vec!["a", "", "b", ""]);
    let p = "/usr/local/sbin:/usr/local/bin:/usr/sbin";
    assert_eq!(search_path_entries(p), p.split(':').collect::<Vec<_>>());
}

#[test]
fn sudo_is_preferred_over_pkexec() {
    assert_eq!(choose_elevator(true, true), Some(Elevator::Sudo));
    assert_eq!(choose_elevator(false, true), Some(Elevator::Pkexec));
    assert_eq!(choose_elevator(false, false), None);
    assert_eq!(Elevator::Pkexec.command(), "pkexec");
    assert_eq!(Elevator::Sudo.command(), "sudo");
}

#[test]
fn uac_parameters_quote_the_program() {
    let args = vec!["--source".to_string(), "C:\\a.iso".to_string(), "--force".to_string()];
    assert_eq!(
        windows_relaunch_parameters("C:\\buf.exe", &args),
        "/k \"C:\\buf.exe\" --source C:\\a.iso --force"
    );
    assert_eq!(windows_relaunch_parameters("buf.exe", &Vec::new()), "/k \"buf.exe\" ");
}
