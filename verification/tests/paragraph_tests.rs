use commons::build_output::paragraph::{Detail, ErrorBuilder, Url};
use commons::fmt::strip_control_codes;

#[test]
fn test_error_output_with_url_and_detailsvisual() {
    let actual = ErrorBuilder::new()
        .header("Error installing Ruby")
        .body(
            "Could not install the detected Ruby version. Ensure that you're using a supported\nruby version and try again.\n",
        )
        .url(Url::MoreInfo(
            "https://devcenter.heroku.com/articles/ruby-support#ruby-versions".to_string(),
        ))
        .debug_details(
            "Could not create file: You do not have sufficient permissions to access this file: /path/to/file",
        )
        .render();

    let expected = "! ERROR: Error installing Ruby\n\
                    !\n\
                    ! Could not install the detected Ruby version. Ensure that you're using a supported\n\
                    ! ruby version and try again.\n\
                    !\n\
                    ! For more information, refer to the following documentation:\n\
                    ! https://devcenter.heroku.com/articles/ruby-support#ruby-versions\n\
                    \n\
                    Debug information:\n\
                    \n\
                    Could not create file: You do not have sufficient permissions to access this file: /path/to/file\n";

    assert_eq!(expected, strip_control_codes(&actual));
}

#[test]
fn labelled_detail_renders_under_its_heading() {
    let actual = ErrorBuilder::new()
        .header("Failed to compile assets")
        .body("oops")
        .detail(Detail::Label {
            label: "Command failed".to_string(),
            details: "exit status: 1".to_string(),
        })
        .render();

    let expected = "! ERROR: Failed to compile assets\n\
                    !\n\
                    ! oops\n\
                    \n\
                    Command failed:\n\
                    \n\
                    exit status: 1\n";

    assert_eq!(expected, strip_control_codes(&actual));
}

#[test]
fn labelled_url_renders_inline() {
    let actual = ErrorBuilder::new()
        .body("see the docs")
        .url(Url::Label {
            label: "Docs".to_string(),
            url: "https://example.com".to_string(),
        })
        .render();

    let expected = "! see the docs\n\
                    !\n\
                    ! Docs: https://example.com\n";

    assert_eq!(expected, strip_control_codes(&actual));
}
