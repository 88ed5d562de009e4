use portfolio_arcade::codec::config_to_doc;
use portfolio_arcade::codec::doc_to_config;
use portfolio_arcade::doc::Doc;
use portfolio_arcade::models::CmsType;
use portfolio_arcade::models::ExtraValue;
use portfolio_arcade::models::PortfolioConfig;
use portfolio_arcade::models::Project;
use portfolio_arcade::models::ProjectLinks;
use portfolio_arcade::models::SocialLinks;
use portfolio_arcade::models::UserInfo;

#[test]
fn default_config_round_trips() {
    let config = PortfolioConfig::default();
    let doc = config_to_doc(&config);
    let back = doc_to_config(&doc).expect("a serialized record must parse back");
    assert_eq!(back, config);
}

#[test]
fn rich_config_round_trips() {
    let config = PortfolioConfig {
        user: UserInfo {
            name: "Ada".to_string(),
            title: "Engineer".to_string(),
            bio: "makes things".to_string(),
            avatar: "/a.png".to_string(),
            social: SocialLinks {
                github: Some("https://github.com/ada".to_string()),
                linkedin: None,
                email: Some("ada@example.com".to_string()),
                website: None,
                twitter: None,
            },
        },
        projects: vec![Project {
            id: "project-1".to_string(),
            title: "engine".to_string(),
            description: "d".to_string(),
            full_description: "fd".to_string(),
            tech_stack: vec!["Rust".to_string(), "C".to_string()],
            category: "Development".to_string(),
            featured: true,
            links: ProjectLinks {
                github: Some("https://github.com/ada/engine".to_string()),
                live: None,
                demo: Some("https://v.example".to_string()),
            },
            date: "2024-03-01".to_string(),
            thumbnail: "".to_string(),
            screenshots: vec!["/s1.png".to_string()],
            extra: vec![
                ("stars".to_string(), ExtraValue::UInt(42)),
                ("archived".to_string(), ExtraValue::Bool(false)),
                ("topics".to_string(), ExtraValue::Str("cli".to_string())),
            ],
        }],
        theme: "wii".to_string(),
        cms: CmsType::NoCms,
        dev_port: 8080,
    };
    let doc = config_to_doc(&config);
    let back = doc_to_config(&doc).expect("a serialized record must parse back");
    assert_eq!(back, config);
}

#[test]
fn schema_field_names_are_stable() {
    let config = PortfolioConfig::default();
    match config_to_doc(&config) {
        Doc::Obj(fields) => {
            let keys: Vec<&str> = fields.iter().map(|(k, _)| k.as_str()).collect();
            assert_eq!(keys, vec!["user", "projects", "theme", "cms", "dev_port"]);
            assert!(matches!(&fields[2].1, Doc::Str(s) if s == "ps5"));
            assert!(matches!(&fields[3].1, Doc::Str(s) if s == "decap"));
            assert!(matches!(&fields[4].1, Doc::UInt(3000)));
        },
        _ => panic!("expected an object"),
    }
}

#[test]
fn malformed_documents_are_rejected() {
    assert!(doc_to_config(&Doc::Null).is_none());
    assert!(doc_to_config(&Doc::Obj(vec![])).is_none());
    assert!(doc_to_config(&Doc::Obj(vec![(
        "user".to_string(),
        Doc::Null
    )])).is_none());
}
