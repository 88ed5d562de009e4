use portfolio_arcade::doc::Doc;
use portfolio_arcade::models::ExtraValue;
use portfolio_arcade::models::Project;
use portfolio_arcade::models::ProjectLinks;
use portfolio_arcade::theme::Theme;

fn sample_entry() -> Project {
    Project {
        id: "p1".to_string(),
        title: "demo".to_string(),
        description: "short".to_string(),
        full_description: "long text".to_string(),
        tech_stack: vec!["a".to_string(), "b".to_string(), "c".to_string(), "d".to_string()],
        category: "Web Development".to_string(),
        featured: true,
        links: ProjectLinks {
            github: Some("https://github.com/u/demo".to_string()),
            live: Some("https://x".to_string()),
            demo: None,
        },
        date: "2024-01".to_string(),
        thumbnail: "".to_string(),
        screenshots: vec![],
        extra: vec![("stars".to_string(), ExtraValue::UInt(15))],
    }
}

fn bare_entry() -> Project {
    Project {
        id: "p2".to_string(),
        title: "plain".to_string(),
        description: "".to_string(),
        full_description: "".to_string(),
        tech_stack: vec![],
        category: "Misc".to_string(),
        featured: false,
        links: ProjectLinks { github: None, live: None, demo: None },
        date: "2024-02".to_string(),
        thumbnail: "".to_string(),
        screenshots: vec![],
        extra: vec![],
    }
}

fn obj_get<'a>(d: &'a Doc, key: &str) -> Option<&'a Doc> {
    match d {
        Doc::Obj(fields) => fields.iter().find(|(k, _)| k == key).map(|(_, v)| v),
        _ => None,
    }
}

fn as_uint(d: &Doc) -> u64 {
    match d {
        Doc::UInt(n) => *n,
        _ => panic!("expected a number"),
    }
}

fn as_str_list(d: &Doc) -> Vec<String> {
    match d {
        Doc::Arr(items) => items
            .iter()
            .map(|it| match it {
                Doc::Str(s) => s.clone(),
                _ => panic!("expected a string"),
            })
            .collect(),
        _ => panic!("expected an array"),
    }
}

fn adapt_one(theme_id: &str, p: Project) -> Doc {
    let theme = Theme::find_by_id(theme_id).unwrap();
    let adapted = theme.adapt_projects(&vec![p]);
    match adapted {
        Doc::Arr(mut items) => items.remove(0),
        _ => panic!("expected an array"),
    }
}

#[test]
fn featured_starred_entry_ranks_first_everywhere() {
    // position 0, live demo, 15 stars, 4 tags, featured
    let entry = adapt_one("ps5", sample_entry());
    let prio = obj_get(&entry, "priority").unwrap();
    assert_eq!(as_uint(obj_get(prio, "recruiter").unwrap()), 1);
    assert_eq!(as_uint(obj_get(prio, "engineer").unwrap()), 1);
    assert_eq!(as_uint(obj_get(prio, "stranger").unwrap()), 1);
    let achievements = as_uint(obj_get(&entry, "achievements").unwrap());
    assert!(achievements >= 11);
    assert_eq!(as_uint(obj_get(&entry, "totalAchievements").unwrap()), 14);

    let wii_entry = adapt_one("wii", sample_entry());
    let cats = as_str_list(obj_get(&wii_entry, "category").unwrap());
    for expected in ["recruiter", "engineer", "creative", "web-apps"] {
        assert!(cats.iter().any(|c| c == expected), "missing category {}", expected);
    }
    assert_eq!(cats[0], "web-development");
    assert!(cats.iter().any(|c| c == "open-source"));
}

#[test]
fn completeness_score_and_progress_bounds() {
    // a bare entry earns exactly the base score
    let entry = adapt_one("ps5", bare_entry());
    assert_eq!(as_uint(obj_get(&entry, "achievements").unwrap()), 5);
    assert_eq!(as_uint(obj_get(&entry, "progress").unwrap()), 36);

    // a full entry reaches the maximum
    let mut p = sample_entry();
    p.extra = vec![("stars".to_string(), ExtraValue::UInt(15))];
    let entry = adapt_one("ps5", p);
    assert_eq!(as_uint(obj_get(&entry, "achievements").unwrap()), 14);
    assert_eq!(as_uint(obj_get(&entry, "progress").unwrap()), 100);
}

#[test]
fn bare_entry_gets_default_profile_priority() {
    // no live link with more than ten stars, three or fewer tags, not featured
    let entry = adapt_one("ps3", bare_entry());
    let tags = as_str_list(obj_get(&entry, "profilePriority").unwrap());
    assert_eq!(tags, vec!["recruiter", "engineer", "stranger"]);
}

#[test]
fn earned_profile_priority_lists_only_earned_tags() {
    let entry = adapt_one("ps3", sample_entry());
    let tags = as_str_list(obj_get(&entry, "profilePriority").unwrap());
    assert_eq!(tags, vec!["recruiter", "engineer", "stranger"]);

    let mut p = sample_entry();
    p.featured = false;
    p.tech_stack = vec!["a".to_string()];
    let entry = adapt_one("ps3", p);
    let tags = as_str_list(obj_get(&entry, "profilePriority").unwrap());
    assert_eq!(tags, vec!["recruiter"]);
}

#[test]
fn ps3_links_carry_labels() {
    let entry = adapt_one("ps3", sample_entry());
    match obj_get(&entry, "links").unwrap() {
        Doc::Arr(items) => {
            assert_eq!(items.len(), 2);
            match (&items[0], &items[1]) {
                (Doc::Obj(a), Doc::Obj(b)) => {
                    assert_eq!(a[0].0, "label");
                    assert!(matches!(&a[0].1, Doc::Str(s) if s == "GitHub"));
                    assert!(matches!(&b[0].1, Doc::Str(s) if s == "Live Demo"));
                },
                _ => panic!("expected link objects"),
            }
        },
        _ => panic!("expected a links array"),
    }
}

#[test]
fn adaptation_preserves_length_and_order_for_every_theme() {
    let projects = vec![sample_entry(), bare_entry()];
    for theme_id in ["ps5", "wii", "ps3"] {
        let theme = Theme::find_by_id(theme_id).unwrap();
        match theme.adapt_projects(&projects) {
            Doc::Arr(items) => {
                assert_eq!(items.len(), 2);
                // first output comes from the first input
                let first_id = match theme_id {
                    "ps5" | "wii" => obj_get(&items[0], "id"),
                    _ => obj_get(&items[0], "id"),
                };
                assert!(matches!(first_id, Some(Doc::Str(s)) if s == "p1"));
            },
            _ => panic!("expected an array"),
        }
    }
}

#[test]
fn unknown_theme_passes_entries_through() {
    let theme = Theme {
        id: "gamecube".to_string(),
        display_name: "cube".to_string(),
        description: "".to_string(),
        template_dir: "".to_string(),
    };
    let projects = vec![bare_entry()];
    match theme.adapt_projects(&projects) {
        Doc::Arr(items) => {
            assert_eq!(items.len(), 1);
            assert!(matches!(obj_get(&items[0], "full_description"), Some(Doc::Str(s)) if s == ""));
            assert!(matches!(obj_get(&items[0], "category"), Some(Doc::Str(s)) if s == "Misc"));
            assert!(matches!(obj_get(&items[0], "featured"), Some(Doc::Bool(false))));
        },
        _ => panic!("expected an array"),
    }
}

#[test]
fn empty_project_list_adapts_to_empty_array() {
    let theme = Theme::find_by_id("wii").unwrap();
    match theme.adapt_projects(&Vec::new()) {
        Doc::Arr(items) => assert_eq!(items.len(), 0),
        _ => panic!("expected an array"),
    }
}

#[test]
fn placeholder_images_are_seeded_by_position() {
    let projects = vec![bare_entry(), bare_entry()];
    let theme = Theme::find_by_id("ps5").unwrap();
    match theme.adapt_projects(&projects) {
        Doc::Arr(items) => {
            let c0 = match obj_get(&items[0], "coverImage").unwrap() {
                Doc::Str(s) => s.clone(),
                _ => panic!("expected a string"),
            };
            let c1 = match obj_get(&items[1], "coverImage").unwrap() {
                Doc::Str(s) => s.clone(),
                _ => panic!("expected a string"),
            };
            assert!(c0.ends_with("seed=0"));
            assert!(c1.ends_with("seed=1"));
            assert_ne!(c0, c1);
        },
        _ => panic!("expected an array"),
    }
}

#[test]
fn extra_lookups_read_the_first_occurrence() {
    // entries built by this crate keep their extra keys distinct, as a map
    // source guarantees; a repeated key would shadow the later value
    let mut p = bare_entry();
    p.extra = vec![
        ("stars".to_string(), ExtraValue::UInt(20)),
        ("stars".to_string(), ExtraValue::UInt(1)),
    ];
    p.links.live = Some("https://x".to_string());
    let entry = adapt_one("ps3", p);
    let tags = as_str_list(obj_get(&entry, "profilePriority").unwrap());
    assert_eq!(tags, vec!["recruiter"]);
}

#[test]
fn extra_metadata_merges_without_touching_fixed_fields() {
    let mut p = sample_entry();
    p.extra = vec![
        ("stars".to_string(), ExtraValue::UInt(15)),
        ("forks".to_string(), ExtraValue::UInt(3)),
        ("topics".to_string(), ExtraValue::Str("cli".to_string())),
        ("title".to_string(), ExtraValue::Str("evil".to_string())),
    ];
    let entry = adapt_one("ps5", p);
    // fixed fields win on a key collision
    assert!(matches!(obj_get(&entry, "title"), Some(Doc::Str(s)) if s == "demo"));
    assert!(matches!(obj_get(&entry, "stars"), Some(Doc::UInt(15))));
    assert!(matches!(obj_get(&entry, "forks"), Some(Doc::UInt(3))));
    assert!(matches!(obj_get(&entry, "topics"), Some(Doc::Str(s)) if s == "cli"));
}
