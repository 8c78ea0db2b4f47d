use windows_release::identity::RegistryValues;
use windows_release::retrieve::{
    get_windows_info, RetrievalError, CURRENT_BUILD, CURRENT_VERSION_KEY, DISPLAY_VERSION,
    PRODUCT_NAME, RELEASE_ID,
};

fn windows_11() -> RegistryValues {
    RegistryValues {
        product_name: "Windows 11 Pro".to_string(),
        display_version: "23H2".to_string(),
        current_build: "22631".to_string(),
        release_id: "23H2".to_string(),
    }
}

#[test]
fn registry_location_and_value_names() {
    assert_eq!(CURRENT_VERSION_KEY, "SOFTWARE\\Microsoft\\Windows NT\\CurrentVersion");
    assert_eq!(PRODUCT_NAME, "ProductName");
    assert_eq!(DISPLAY_VERSION, "DisplayVersion");
    assert_eq!(CURRENT_BUILD, "CurrentBuild");
    assert_eq!(RELEASE_ID, "ReleaseId");
}

#[test]
fn fetched_values_become_the_record() {
    let info = get_windows_info(Ok(windows_11())).unwrap();
    assert_eq!(info.distributor_id(), "Microsoft");
    assert_eq!(info.description(), "Windows 11 Pro");
    assert_eq!(info.release(), "23H2.22631");
    assert_eq!(info.codename(), "23H2");
}

#[test]
fn failed_fetch_gives_no_record() {
    let error = RetrievalError { cause: "The system cannot find the file specified. (os error 2)".to_string() };
    let result = get_windows_info(Err(error));
    assert_eq!(
        result.unwrap_err().cause,
        "The system cannot find the file specified. (os error 2)"
    );
}

#[test]
fn error_report_is_one_prefixed_line() {
    let error = RetrievalError { cause: "Access is denied. (os error 5)".to_string() };
    assert_eq!(error.report(), "Error: Access is denied. (os error 5)\n");
}

#[test]
fn error_report_with_empty_cause() {
    let error = RetrievalError { cause: String::new() };
    assert_eq!(error.report(), "Error: \n");
}
