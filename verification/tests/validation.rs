use marketplace_core::validation::{
    plugin_id_verdict, sanitize_filename, validate_plugin_id, validate_plugin_id_regex,
    validate_script_file, validate_tags, validate_username_regex, validate_version,
    validate_version_regex, version_verdict,
};

#[test]
fn test_validate_plugin_id() {
    assert!(validate_plugin_id("my-plugin").is_ok());
    assert!(validate_plugin_id("my_plugin_123").is_ok());
    assert!(validate_plugin_id("ab").is_err()); // too short
    assert!(validate_plugin_id("My-Plugin").is_err()); // uppercase
    assert!(validate_plugin_id("my plugin").is_err()); // space
}

#[test]
fn test_validate_version() {
    assert!(validate_version("1.0.0").is_ok());
    assert!(validate_version("1.0.0-beta").is_ok());
    assert!(validate_version("1.0").is_err()); // incomplete
    assert!(validate_version("v1.0.0").is_err()); // prefix
}

#[test]
fn test_validate_tags() {
    assert!(validate_tags(&["tag1".to_string(), "tag2".to_string()]).is_ok());
    assert!(validate_tags(&[]).is_err()); // empty
    assert!(validate_tags(&["tag1".to_string(), "tag1".to_string()]).is_err()); // duplicate
}

#[test]
fn test_validate_script_file() {
    assert!(validate_script_file("script.sh").is_ok());
    assert!(validate_script_file("script.py").is_ok());
    assert!(validate_script_file("script.txt").is_err()); // invalid extension
    assert!(validate_script_file("../script.sh").is_err()); // path traversal
}

#[test]
fn plugin_id_errors_say_what_is_wrong() {
    assert_eq!(
        validate_plugin_id("ab"),
        Err("Plugin ID must be between 3 and 50 characters".to_string())
    );
    let long = "a".repeat(51);
    assert_eq!(
        validate_plugin_id(&long),
        Err("Plugin ID must be between 3 and 50 characters".to_string())
    );
    assert!(validate_plugin_id(&"a".repeat(50)).is_ok());
    assert!(validate_plugin_id("abc").is_ok());
    assert_eq!(
        validate_plugin_id("My-Plugin"),
        Err(
            "Plugin ID can only contain lowercase letters, numbers, underscores, and hyphens"
                .to_string()
        )
    );
}

#[test]
fn plugin_id_length_is_judged_before_the_pattern() {
    assert_eq!(
        plugin_id_verdict(2, false),
        Err("Plugin ID must be between 3 and 50 characters".to_string())
    );
    assert_eq!(
        plugin_id_verdict(3, false),
        Err(
            "Plugin ID can only contain lowercase letters, numbers, underscores, and hyphens"
                .to_string()
        )
    );
    assert_eq!(plugin_id_verdict(3, true), Ok(()));
    assert_eq!(plugin_id_verdict(50, true), Ok(()));
    assert!(plugin_id_verdict(51, true).is_err());
}

#[test]
fn plugin_id_length_counts_bytes() {
    // two characters of two bytes each: four bytes, so long enough, but no match
    assert_eq!(
        validate_plugin_id("éé"),
        Err(
            "Plugin ID can only contain lowercase letters, numbers, underscores, and hyphens"
                .to_string()
        )
    );
}

#[test]
fn version_error_says_what_is_wrong() {
    assert_eq!(
        validate_version("1.0"),
        Err("Version must follow semantic versioning (e.g., 1.0.0 or 1.0.0-beta)".to_string())
    );
    assert_eq!(version_verdict(true), Ok(()));
    assert_eq!(
        version_verdict(false),
        Err("Version must follow semantic versioning (e.g., 1.0.0 or 1.0.0-beta)".to_string())
    );
}

#[test]
fn patterns_match_whole_texts_only() {
    assert!(validate_plugin_id_regex("abc_1-2"));
    assert!(!validate_plugin_id_regex(""));
    assert!(!validate_plugin_id_regex("abc def"));
    assert!(!validate_plugin_id_regex("ABC"));
    assert!(validate_username_regex("Some_User-1"));
    assert!(!validate_username_regex("some user"));
    assert!(!validate_username_regex(""));
    assert!(validate_version_regex("10.20.30"));
    assert!(validate_version_regex("1.2.3-rc1"));
    assert!(!validate_version_regex("1.2.3-"));
    assert!(!validate_version_regex("1.2.3 "));
    assert!(!validate_version_regex("1.2"));
}

#[test]
fn tags_are_counted() {
    assert_eq!(validate_tags(&[]), Err("At least one tag is required".to_string()));
    let ten: Vec<String> = (0..10).map(|i| format!("tag{}", i)).collect();
    assert_eq!(validate_tags(&ten), Ok(()));
    let eleven: Vec<String> = (0..11).map(|i| format!("tag{}", i)).collect();
    assert_eq!(validate_tags(&eleven), Err("Maximum 10 tags allowed".to_string()));
}

#[test]
fn tags_are_compared_in_lower_case() {
    assert_eq!(
        validate_tags(&["Tag1".to_string(), "tag2".to_string(), "TAG1".to_string()]),
        Err("Duplicate tag: TAG1".to_string())
    );
    assert_eq!(validate_tags(&["Tag1".to_string(), "tag2".to_string()]), Ok(()));
}

#[test]
fn tags_have_a_longest_length() {
    assert_eq!(validate_tags(&["a".repeat(50)]), Ok(()));
    assert_eq!(
        validate_tags(&["a".repeat(51)]),
        Err("Tag length cannot exceed 50 characters".to_string())
    );
    // the first faulty tag decides
    assert_eq!(
        validate_tags(&["x".to_string(), "x".to_string(), "a".repeat(51)]),
        Err("Duplicate tag: x".to_string())
    );
    assert_eq!(
        validate_tags(&["x".to_string(), "a".repeat(51), "x".to_string()]),
        Err("Tag length cannot exceed 50 characters".to_string())
    );
}

#[test]
fn script_file_errors_say_what_is_wrong() {
    assert_eq!(validate_script_file(""), Err("Script filename cannot be empty".to_string()));
    assert_eq!(
        validate_script_file("script.txt"),
        Err(
            "Script file must have one of these extensions: .sh, .py, .js, .rb, .pl, .php"
                .to_string()
        )
    );
    assert_eq!(
        validate_script_file("../script.sh"),
        Err("Script filename contains invalid characters".to_string())
    );
    assert_eq!(
        validate_script_file("./script.sh"),
        Err("Script filename contains invalid characters".to_string())
    );
    assert_eq!(
        validate_script_file("~script.sh"),
        Err("Script filename contains invalid characters".to_string())
    );
    assert_eq!(
        validate_script_file("a\\script.sh"),
        Err("Script filename contains invalid characters".to_string())
    );
    for name in ["a.sh", "a.py", "a.js", "a.rb", "a.pl", "a.php"] {
        assert_eq!(validate_script_file(name), Ok(()));
    }
    assert!(validate_script_file("sh").is_err());
}

#[test]
fn sanitize_filename_keeps_letters_digits_and_three_marks() {
    assert_eq!(sanitize_filename("my file (1).tar.gz"), "myfile1.tar.gz");
    assert_eq!(sanitize_filename("a-b_c.d"), "a-b_c.d");
    assert_eq!(sanitize_filename("../../etc/passwd"), "....etcpasswd");
    assert_eq!(sanitize_filename("naïve ü.txt"), "naïveü.txt");
    assert_eq!(sanitize_filename(""), "");
    assert_eq!(sanitize_filename("!@#$%"), "");
}
