use brew_tui::commands::{validate_package_name, NameError};

#[test]
fn validation_tests_test_placeholder() {
    assert!(true);
}

#[test]
fn ordinary_names_pass() {
    for name in ["wget", "python@3.12", "homebrew/core/git", "lib_foo-bar.2", "café"] {
        assert!(validate_package_name(name).is_ok(), "{name}");
    }
}

#[test]
fn empty_name_is_refused() {
    assert!(matches!(validate_package_name(""), Err(NameError::Empty)));
    assert_eq!(NameError::Empty.message(), "Package name cannot be empty");
}

#[test]
fn control_characters_are_refused() {
    assert!(matches!(validate_package_name("git\n"), Err(NameError::ControlCharacters)));
    assert!(matches!(validate_package_name("a\0b"), Err(NameError::ControlCharacters)));
    assert_eq!(
        NameError::ControlCharacters.message(),
        "Invalid characters in package name"
    );
}

#[test]
fn shell_syntax_is_refused() {
    for name in ["rm -rf;", "a b", "x|y", "$(ls)", "a&b", "q'"] {
        match validate_package_name(name) {
            Err(NameError::InvalidCharacters(n)) => {
                assert_eq!(n, name);
                assert_eq!(
                    NameError::InvalidCharacters(n).message(),
                    format!("Package name contains invalid characters: {name}")
                );
            }
            other => panic!("{name}: {other:?}"),
        }
    }
}
