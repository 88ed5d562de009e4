use portfolio_arcade::validation::parse_u16;
use portfolio_arcade::validation::sanitize_filename;
use portfolio_arcade::validation::validate_email;
use portfolio_arcade::validation::validate_port;
use portfolio_arcade::validation::validate_project_name;
use portfolio_arcade::validation::validate_url;

#[test]
fn test_validate_project_name() {
    assert!(validate_project_name("my-portfolio").is_ok());
    assert!(validate_project_name("portfolio_2024").is_ok());
    assert!(validate_project_name("MyPortfolio123").is_ok());

    assert!(validate_project_name("").is_err());
    assert!(validate_project_name("-invalid").is_err());
    assert!(validate_project_name("invalid!").is_err());
}

#[test]
fn test_validate_port() {
    assert!(validate_port("3000").is_ok());
    assert!(validate_port("8080").is_ok());

    assert!(validate_port("80").is_err()); // too low
    assert!(validate_port("invalid").is_err());
}

#[test]
fn test_sanitize_filename() {
    assert_eq!(sanitize_filename("My Project!"), "my-project_");
    assert_eq!(sanitize_filename("Hello World 2024"), "hello-world-2024");
}

#[test]
fn test_project_name_error_messages() {
    assert_eq!(
        validate_project_name("").unwrap_err(),
        "project name cannot be empty"
    );
    let long = "a".repeat(51);
    assert_eq!(
        validate_project_name(long.as_str()).unwrap_err(),
        "project name is too long (max 50 characters)"
    );
    assert_eq!(
        validate_project_name("has space").unwrap_err(),
        "project name can only contain letters, numbers, hyphens, and underscores"
    );
    assert_eq!(
        validate_project_name("-lead").unwrap_err(),
        "project name cannot start with a hyphen"
    );
}

#[test]
fn test_port_error_messages_and_parse() {
    assert_eq!(validate_port("80").unwrap_err(), "port must be 1024 or higher");
    assert_eq!(validate_port("abc").unwrap_err(), "port must be a valid number");
    assert_eq!(validate_port("1024").unwrap(), 1024);
    assert_eq!(validate_port("65535").unwrap(), 65535);
    assert!(validate_port("65536").is_err());

    assert_eq!(parse_u16("+3000"), Some(3000));
    assert_eq!(parse_u16("01024"), Some(1024));
    assert_eq!(parse_u16(""), None);
    assert_eq!(parse_u16("+"), None);
    assert_eq!(parse_u16("12a"), None);
    assert_eq!(parse_u16("999999999999999999999"), None);
}

#[test]
fn test_validate_email() {
    assert!(validate_email("").is_ok()); // empty email is allowed
    assert!(validate_email("   ").is_ok());
    assert!(validate_email("hello@example.com").is_ok());
    assert!(validate_email("first.last+tag@sub.domain.org").is_ok());

    assert_eq!(validate_email("plain").unwrap_err(), "invalid email format");
    assert!(validate_email("missing@tld").is_err());
    assert!(validate_email("@nouser.com").is_err());
    assert!(validate_email("one@two@three.com").is_err());
    assert!(validate_email("short@domain.c").is_err());
    assert!(validate_email("digits@domain.c9").is_err());
}

#[test]
fn test_validate_url() {
    assert!(validate_url("").is_ok()); // empty url is allowed
    assert!(validate_url("https://example.com").is_ok());
    assert!(validate_url("http://ab").is_ok());

    assert_eq!(
        validate_url("ftp://example.com").unwrap_err(),
        "invalid url format (must start with http:// or https://)"
    );
    assert!(validate_url("http://a").is_err()); // body too short
    assert!(validate_url("http:///path").is_err()); // slash right after scheme
    assert!(validate_url("https://exa mple.com").is_err()); // whitespace inside
}
