use windows_release::identity::{RegistryValues, WindowsInfo};
use windows_release::render::{print_all, print_line, print_short, print_usage};

fn values(name: &str, display_version: &str, build: &str, release_id: &str) -> RegistryValues {
    RegistryValues {
        product_name: name.to_string(),
        display_version: display_version.to_string(),
        current_build: build.to_string(),
        release_id: release_id.to_string(),
    }
}

fn windows_11() -> WindowsInfo {
    WindowsInfo::new(values("Windows 11 Pro", "23H2", "22631", "23H2"))
}

#[test]
fn record_holds_the_four_fields() {
    let info = windows_11();
    assert_eq!(info.distributor_id(), "Microsoft");
    assert_eq!(info.description(), "Windows 11 Pro");
    assert_eq!(info.release(), "23H2.22631");
    assert_eq!(info.codename(), "23H2");
}

#[test]
fn release_joins_version_and_build_with_a_dot() {
    let info = WindowsInfo::new(values("Windows 10 Home", "22H2", "19045", "2009"));
    assert_eq!(info.release(), "22H2.19045");
    assert_eq!(info.codename(), "2009");
}

#[test]
fn empty_values_leave_the_dot_alone() {
    let info = WindowsInfo::new(values("", "", "", ""));
    assert_eq!(info.distributor_id(), "Microsoft");
    assert_eq!(info.description(), "");
    assert_eq!(info.release(), ".");
    assert_eq!(info.codename(), "");
}

#[test]
fn records_of_equal_values_are_equal() {
    assert_eq!(windows_11(), windows_11());
    assert_ne!(windows_11(), WindowsInfo::new(values("Windows 11 Pro", "23H2", "22632", "23H2")));
}

#[test]
fn all_report_has_four_labelled_lines() {
    assert_eq!(
        print_all(&windows_11()),
        "Distributor ID:\tMicrosoft\nDescription:\tWindows 11 Pro\nRelease:\t23H2.22631\nCodename:\t23H2\n"
    );
}

#[test]
fn short_report_has_four_coded_lines() {
    assert_eq!(
        print_short(&windows_11()),
        "d\tMicrosoft\np\tWindows 11 Pro\nr\t23H2.22631\nc\t23H2\n"
    );
}

#[test]
fn reports_keep_text_outside_ascii() {
    let info = WindowsInfo::new(values("Windows 11 Édition Famille", "23H2", "22631", "二三"));
    assert_eq!(
        print_all(&info),
        "Distributor ID:\tMicrosoft\nDescription:\tWindows 11 Édition Famille\nRelease:\t23H2.22631\nCodename:\t二三\n"
    );
    assert_eq!(
        print_short(&info),
        "d\tMicrosoft\np\tWindows 11 Édition Famille\nr\t23H2.22631\nc\t二三\n"
    );
}

#[test]
fn reports_on_empty_values() {
    let info = WindowsInfo::new(values("", "", "", ""));
    assert_eq!(
        print_all(&info),
        "Distributor ID:\tMicrosoft\nDescription:\t\nRelease:\t.\nCodename:\t\n"
    );
    assert_eq!(print_short(&info), "d\tMicrosoft\np\t\nr\t.\nc\t\n");
}

#[test]
fn plain_line_is_the_value_and_a_line_break() {
    assert_eq!(print_line("23H2.22631"), "23H2.22631\n");
    assert_eq!(print_line(""), "\n");
    assert_eq!(print_line("Édition"), "Édition\n");
}

#[test]
fn usage_text_is_verbatim() {
    assert_eq!(
        print_usage(),
        "Usage: windows_release [options]\n\
         Options:\n\
         \x20 -a, --all\t\tshow all information\n\
         \x20 -s, --short\t\tshow information in short format\n\
         \x20 -d, --description\tshow description only\n\
         \x20 -r, --release\t\tshow release only\n\
         \x20 -c, --codename\t\tshow codename only\n\
         \x20 -i, --distributor-id\tshow distributor ID only\n"
    );
}

#[test]
fn usage_text_has_eight_lines() {
    let usage = print_usage();
    assert_eq!(usage.lines().count(), 8);
    assert!(usage.ends_with('\n'));
    assert_eq!(usage.lines().next(), Some("Usage: windows_release [options]"));
    assert_eq!(usage.lines().nth(1), Some("Options:"));
}
