use windows_release::mode::OutputMode;

fn command_line(words: &[&str]) -> Vec<String> {
    words.iter().map(|word| word.to_string()).collect()
}

#[test]
fn short_flags_select_their_modes() {
    assert_eq!(OutputMode::from_flag("-a"), OutputMode::All);
    assert_eq!(OutputMode::from_flag("-s"), OutputMode::Short);
    assert_eq!(OutputMode::from_flag("-d"), OutputMode::Description);
    assert_eq!(OutputMode::from_flag("-r"), OutputMode::Release);
    assert_eq!(OutputMode::from_flag("-c"), OutputMode::Codename);
    assert_eq!(OutputMode::from_flag("-i"), OutputMode::DistributorId);
}

#[test]
fn long_flags_select_their_modes() {
    assert_eq!(OutputMode::from_flag("--all"), OutputMode::All);
    assert_eq!(OutputMode::from_flag("--short"), OutputMode::Short);
    assert_eq!(OutputMode::from_flag("--description"), OutputMode::Description);
    assert_eq!(OutputMode::from_flag("--release"), OutputMode::Release);
    assert_eq!(OutputMode::from_flag("--codename"), OutputMode::Codename);
    assert_eq!(OutputMode::from_flag("--distributor-id"), OutputMode::DistributorId);
}

#[test]
fn unknown_flag_is_carried_as_given() {
    assert_eq!(
        OutputMode::from_flag("--bogus"),
        OutputMode::Unrecognized("--bogus".to_string())
    );
}

#[test]
fn flags_are_case_sensitive() {
    assert_eq!(OutputMode::from_flag("-A"), OutputMode::Unrecognized("-A".to_string()));
    assert_eq!(OutputMode::from_flag("--ALL"), OutputMode::Unrecognized("--ALL".to_string()));
    assert_eq!(OutputMode::from_flag("-S"), OutputMode::Unrecognized("-S".to_string()));
}

#[test]
fn near_misses_are_unknown() {
    for flag in ["", "-", "--", "a", "all", "-al", "--al", "--alll", "-a ", " -a", "-as", "--release=1", "--distributor_id", "-x"] {
        assert_eq!(OutputMode::from_flag(flag), OutputMode::Unrecognized(flag.to_string()));
    }
}

#[test]
fn flag_outside_ascii_is_unknown() {
    assert_eq!(OutputMode::from_flag("-é"), OutputMode::Unrecognized("-é".to_string()));
    assert_eq!(OutputMode::from_flag("‐a"), OutputMode::Unrecognized("‐a".to_string()));
}

#[test]
fn no_argument_selects_all() {
    assert_eq!(OutputMode::from_args(&command_line(&["windows_release"])), OutputMode::All);
}

#[test]
fn empty_command_line_selects_all() {
    assert_eq!(OutputMode::from_args(&Vec::new()), OutputMode::All);
}

#[test]
fn first_argument_selects_the_mode() {
    assert_eq!(
        OutputMode::from_args(&command_line(&["windows_release", "-c"])),
        OutputMode::Codename
    );
    assert_eq!(
        OutputMode::from_args(&command_line(&["windows_release", "--nope"])),
        OutputMode::Unrecognized("--nope".to_string())
    );
}

#[test]
fn program_name_is_never_read_as_a_flag() {
    assert_eq!(OutputMode::from_args(&command_line(&["-s"])), OutputMode::All);
    assert_eq!(OutputMode::from_args(&command_line(&["-s", "-r"])), OutputMode::Release);
}

#[test]
fn later_arguments_are_ignored() {
    assert_eq!(
        OutputMode::from_args(&command_line(&["windows_release", "-s", "-a", "--bogus"])),
        OutputMode::Short
    );
    assert_eq!(
        OutputMode::from_args(&command_line(&["windows_release", "--bogus", "-a"])),
        OutputMode::Unrecognized("--bogus".to_string())
    );
}
