use portfolio_arcade::errors::PortfolioError;
use portfolio_arcade::files::format_file_size;
use portfolio_arcade::files::is_valid_directory_name;
use portfolio_arcade::github::GitHubLanguages;
use portfolio_arcade::github::GitHubRepo;
use portfolio_arcade::github::build_github_project;
use portfolio_arcade::github::create_placeholder_project;
use portfolio_arcade::github::parse_github_url;
use portfolio_arcade::github::process_languages;
use portfolio_arcade::models::ExtraValue;

#[test]
fn test_parse_github_url() {
    assert_eq!(
        parse_github_url("https://github.com/owner/repo").unwrap(),
        ("owner".to_string(), "repo".to_string())
    );
    assert_eq!(
        parse_github_url("https://github.com/owner/repo.git/").unwrap(),
        ("owner".to_string(), "repo".to_string())
    );
    assert_eq!(
        parse_github_url("github.com/a/b/extra").unwrap(),
        ("a".to_string(), "b".to_string())
    );
    assert_eq!(
        parse_github_url("nope").unwrap_err(),
        "Invalid GitHub URL format: nope"
    );
    assert!(parse_github_url("https://github.com/only-owner").is_err());
    assert!(parse_github_url("https://github.com//repo").is_err());
}

#[test]
fn test_process_languages() {
    let langs = GitHubLanguages {
        languages: vec![("Rust".to_string(), 900), ("C".to_string(), 100)],
    };
    assert_eq!(process_languages(&langs), vec!["Rust".to_string(), "C".to_string()]);

    // sorted by byte count, largest first; the insignificant one drops out
    let langs = GitHubLanguages {
        languages: vec![
            ("A".to_string(), 1),
            ("B".to_string(), 30),
            ("C".to_string(), 1000),
        ],
    };
    assert_eq!(process_languages(&langs), vec!["C".to_string()]);

    // nothing significant: the top three stay, input order among equals
    let mut many: Vec<(String, u32)> = Vec::new();
    for i in 0..30 {
        many.push((format!("L{}", i), 4));
    }
    let langs = GitHubLanguages { languages: many };
    assert_eq!(
        process_languages(&langs),
        vec!["L0".to_string(), "L1".to_string(), "L2".to_string()]
    );

    // no bytes at all
    let langs = GitHubLanguages { languages: vec![] };
    assert_eq!(process_languages(&langs), vec!["Unknown".to_string()]);
}

#[test]
fn test_format_file_size() {
    assert_eq!(format_file_size(0), "0 B");
    assert_eq!(format_file_size(512), "512 B");
    assert_eq!(format_file_size(1024), "1.0 KB");
    assert_eq!(format_file_size(1536), "1.5 KB");
    assert_eq!(format_file_size(1048576), "1.0 MB");
    assert_eq!(format_file_size(10 * 1024 * 1024), "10.0 MB");
    assert_eq!(format_file_size(3 * 1024 * 1024 * 1024), "3.0 GB");
    assert_eq!(format_file_size(2 * 1024 * 1024 * 1024 * 1024), "2.0 TB");
}

#[test]
fn test_is_valid_directory_name() {
    assert!(is_valid_directory_name("my-dir"));
    assert!(is_valid_directory_name("Projects 2024"));

    assert!(!is_valid_directory_name(""));
    assert!(!is_valid_directory_name("   "));
    assert!(!is_valid_directory_name("CON"));
    assert!(!is_valid_directory_name("con"));
    assert!(!is_valid_directory_name("Com1"));
    assert!(!is_valid_directory_name("lpt9"));
    assert!(!is_valid_directory_name("bad<name"));
    assert!(!is_valid_directory_name("what?"));
}

#[test]
fn test_error_codes_and_messages() {
    let err = PortfolioError::PortInUse { port: 8080 };
    assert_eq!(err.error_code(), "E003");
    assert_eq!(err.message(), "port 8080 is already in use");
    let suggestion = err.suggestion();
    assert!(suggestion.contains("--port 8081"));
    assert!(suggestion.contains("lsof -ti:8080"));
    let shown = err.display_with_suggestion();
    assert!(shown.starts_with("error E003: port 8080 is already in use"));
    assert!(shown.contains("suggestion:"));

    let err = PortfolioError::TemplateNotFound { theme: "n64".to_string() };
    assert_eq!(err.error_code(), "E001");
    assert_eq!(err.message(), "template 'n64' not found");
    assert!(err.suggestion().contains("ps3, ps5, wii"));

    let err = PortfolioError::PackageManagerNotFound { manager: "pnpm".to_string() };
    assert_eq!(err.suggestion(), "install pnpm: npm install -g pnpm");
    assert_eq!(PortfolioError::NodeNotInstalled.error_code(), "E002");
    assert_eq!(
        PortfolioError::ConfigurationError { reason: "x".to_string() }.error_code(),
        "E011"
    );
}

#[test]
fn test_create_placeholder_project() {
    let p = create_placeholder_project("https://github.com/u/my-repo.git", 0);
    assert_eq!(p.id, "project-1");
    assert_eq!(p.title, "my repo");
    assert_eq!(p.description, "Project hosted at https://github.com/u/my-repo.git");
    assert_eq!(p.category, "Development");
    assert!(p.featured);
    assert_eq!(p.links.github.as_deref(), Some("https://github.com/u/my-repo.git"));
    assert!(p.links.live.is_none());
    assert_eq!(p.tech_stack, vec!["GitHub".to_string()]);
    assert_eq!(p.date, "2024-01-01");

    let later = create_placeholder_project("u/r", 3);
    assert_eq!(later.id, "project-4");
    assert!(!later.featured);
}

#[test]
fn test_build_github_project() {
    let repo = GitHubRepo {
        id: 7,
        name: "cool-app_two".to_string(),
        full_name: "u/cool-app_two".to_string(),
        description: None,
        html_url: "https://github.com/u/cool-app_two".to_string(),
        homepage: Some("https://cool.example".to_string()),
        language: Some("Rust".to_string()),
        stargazers_count: 15,
        forks_count: 2,
        topics: vec!["cli".to_string(), "tools".to_string()],
        created_at: "2023-05-17T12:00:00Z".to_string(),
        updated_at: "2024-01-01T00:00:00Z".to_string(),
        pushed_at: "2024-01-01T00:00:00Z".to_string(),
        default_branch: "main".to_string(),
    };
    let tech = vec!["Rust".to_string()];
    let p = build_github_project(
        "https://github.com/u/cool-app_two",
        1,
        &repo,
        tech,
        None,
    );
    assert_eq!(p.id, "project-2");
    assert_eq!(p.title, "cool app two");
    assert_eq!(p.description, "A Rust project");
    assert_eq!(p.full_description, "");
    assert_eq!(p.date, "2023-05-17");
    assert!(p.featured, "more than ten stars keeps later entries featured");
    assert_eq!(p.links.live.as_deref(), Some("https://cool.example"));
    assert!(p
        .extra
        .iter()
        .any(|(k, v)| k == "stars" && matches!(v, ExtraValue::UInt(15))));
    assert!(p
        .extra
        .iter()
        .any(|(k, v)| k == "forks" && matches!(v, ExtraValue::UInt(2))));
    assert!(p
        .extra
        .iter()
        .any(|(k, v)| k == "topics" && matches!(v, ExtraValue::Str(s) if s == "cli, tools")));

    let with_readme = build_github_project(
        "https://github.com/u/cool-app_two",
        0,
        &repo,
        vec!["Rust".to_string()],
        Some("from the readme".to_string()),
    );
    assert_eq!(with_readme.full_description, "from the readme");
    assert_eq!(with_readme.id, "project-1");
}

#[test]
fn test_layout_update() {
    let config = portfolio_arcade::models::PortfolioConfig::default();
    let theme = portfolio_arcade::theme::Theme::find_by_id("ps5").unwrap();
    let content = "<title>MilxOS | Developer Portfolio</title>\n\
                   <meta content=\"a ps5-inspired developer portfolio showcasing projects and skills\">";
    let updated = theme.update_layout_content(content, &config);
    assert!(updated.contains("your name | Developer Portfolio"));
    assert!(updated.contains("passionate about creating amazing digital experiences"));
    assert!(!updated.contains("MilxOS"));

    // an unknown theme id leaves content unchanged
    let other = portfolio_arcade::theme::Theme {
        id: "n64".to_string(),
        display_name: "n64".to_string(),
        description: "".to_string(),
        template_dir: "".to_string(),
    };
    assert_eq!(other.update_layout_content(content, &config), content);
}
