use mau::{fatal_error_message, fatal_error_title};

#[test]
fn title_names_the_app() {
    assert_eq!(fatal_error_title("NetCanv").as_str(), "NetCanv - Fatal Error");
}

#[test]
fn title_keeps_a_name_whose_suffix_does_not_fit() {
    let name = "n".repeat(60);
    assert_eq!(fatal_error_title(&name).as_str(), name);
}

#[test]
fn title_of_a_name_too_long_is_empty() {
    let name = "n".repeat(65);
    assert_eq!(fatal_error_title(&name).as_str(), "");
    let name = "n".repeat(50);
    assert_eq!(fatal_error_title(&name).as_str(), format!("{} - Fatal Error", name));
}

#[test]
fn message_without_issue_tracker() {
    assert_eq!(
        fatal_error_message("panicked at 'oops'", None).as_str(),
        "Oh no! A fatal error occured.\npanicked at 'oops'"
    );
}

#[test]
fn message_with_issue_tracker() {
    assert_eq!(
        fatal_error_message("boom", Some("https://example.com/issues")).as_str(),
        "Oh no! A fatal error occured.\nboom\n\nThis is most definitely a bug, so please file an issue at https://example.com/issues"
    );
}

#[test]
fn message_drops_a_fault_that_does_not_fit() {
    let fault = "f".repeat(5000);
    assert_eq!(
        fatal_error_message(&fault, Some("x")).as_str(),
        "Oh no! A fatal error occured.\n\n\nThis is most definitely a bug, so please file an issue at x"
    );
}
