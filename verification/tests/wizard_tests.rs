use portfolio_arcade::models::CmsType;
use portfolio_arcade::wizard::App;
use portfolio_arcade::wizard::EventHandler;
use portfolio_arcade::wizard::KeyInput;
use portfolio_arcade::wizard::Screen;
use portfolio_arcade::wizard::WizardAction;

#[test]
fn new_wizard_starts_on_theme_selection() {
    let app = App::new(None);
    assert_eq!(app.current_screen, Screen::ThemeSelection);
    assert_eq!(app.selected_theme_idx, 1);
    assert_eq!(app.input_fields.project_name, "my-portfolio");
    assert!(!app.should_quit);

    let named = App::new(Some("my-site".to_string()));
    assert_eq!(named.input_fields.project_name, "my-site");
}

#[test]
fn theme_selection_clamps_at_both_ends() {
    let mut app = App::new(None);
    // two themes below the default selection: down, down, then one extra
    assert_eq!(app.handle_input(KeyInput::Down), WizardAction::Stay);
    assert_eq!(app.selected_theme_idx, 2);
    app.handle_input(KeyInput::Down);
    assert_eq!(app.selected_theme_idx, 2, "moving past the last index is a no-op");

    app.handle_input(KeyInput::Up);
    app.handle_input(KeyInput::Up);
    assert_eq!(app.selected_theme_idx, 0);
    app.handle_input(KeyInput::Up);
    assert_eq!(app.selected_theme_idx, 0, "moving above index zero clamps to zero");
}

#[test]
fn enter_commits_selected_theme() {
    let mut app = App::new(None);
    app.handle_input(KeyInput::Down); // wii
    app.handle_input(KeyInput::Enter);
    assert_eq!(app.current_screen, Screen::ProjectDetails);
    assert_eq!(app.config.theme, "wii");
    assert_eq!(app.selected_theme().id, "wii");
}

#[test]
fn text_editing_appends_and_deletes() {
    let mut app = App::new(None);
    app.handle_input(KeyInput::Enter); // to project details
    assert_eq!(app.current_screen, Screen::ProjectDetails);
    app.handle_input(KeyInput::Char('x'));
    app.handle_input(KeyInput::Char('q')); // q is a plain character while editing
    assert_eq!(app.input_fields.project_name, "my-portfolioxq");
    assert!(!app.should_quit);
    app.handle_input(KeyInput::Backspace);
    assert_eq!(app.input_fields.project_name, "my-portfoliox");

    // tab moves focus to the author field
    app.handle_input(KeyInput::Tab);
    app.handle_input(KeyInput::Char('!'));
    assert_eq!(app.input_fields.author_name, "your name!");
}

#[test]
fn validation_gates_the_forward_transition() {
    let mut app = App::new(None);
    app.handle_input(KeyInput::Enter); // theme chosen
    // blank out the project name
    for _ in 0.."my-portfolio".len() {
        app.handle_input(KeyInput::Backspace);
    }
    assert_eq!(app.input_fields.project_name, "");
    app.handle_input(KeyInput::Enter);
    assert_eq!(
        app.current_screen,
        Screen::ProjectDetails,
        "a failing validator must not advance the screen"
    );
    // the failed gate surfaces a non-fatal inline message and keeps the input
    assert_eq!(
        app.error_message.as_deref(),
        Some("project name, your name and professional title are all required")
    );
    app.handle_input(KeyInput::Char('z'));
    assert_eq!(app.input_fields.project_name, "z");
    app.handle_input(KeyInput::Enter);
    assert_eq!(app.current_screen, Screen::GitHubProjects);
    assert!(app.error_message.is_none(), "a passing gate clears the message");
}

#[test]
fn url_collection_appends_and_advances() {
    let mut app = App::new(None);
    app.handle_input(KeyInput::Enter);
    app.handle_input(KeyInput::Enter); // defaults pass validation
    assert_eq!(app.current_screen, Screen::GitHubProjects);

    // committing with both the buffer and the list empty is a no-op
    assert_eq!(app.handle_input(KeyInput::Enter), WizardAction::Stay);
    assert_eq!(app.current_screen, Screen::GitHubProjects);

    for c in "https://github.com/u/r".chars() {
        app.handle_input(KeyInput::Char(c));
    }
    assert_eq!(app.handle_input(KeyInput::Enter), WizardAction::Stay);
    assert_eq!(app.input_fields.github_projects.len(), 1);
    assert_eq!(app.input_fields.current_github_url, "");

    // committing with an empty buffer and a non-empty list asks for the fetch
    assert_eq!(app.handle_input(KeyInput::Enter), WizardAction::FetchProjects);
}

#[test]
fn fetched_projects_freeze_the_record() {
    let mut app = App::new(None);
    app.handle_input(KeyInput::Enter);
    app.handle_input(KeyInput::Enter);
    for c in "https://github.com/u/r".chars() {
        app.handle_input(KeyInput::Char(c));
    }
    app.handle_input(KeyInput::Enter);
    app.handle_input(KeyInput::Enter);
    let urls = app.input_fields.github_projects.clone();
    let projects = portfolio_arcade::github::create_placeholder_projects(&urls);
    app.apply_fetched_projects(projects);
    assert_eq!(app.current_screen, Screen::Confirmation);
    assert_eq!(app.config.cms, CmsType::NoCms);
    assert_eq!(app.config.projects.len(), 1);
    assert_eq!(app.config.user.name, "your name");

    // confirmation commits and asks for generation
    assert_eq!(app.handle_input(KeyInput::Enter), WizardAction::Generate);
    assert_eq!(app.current_screen, Screen::Progress);

    // progress accepts no navigation input
    assert_eq!(app.handle_input(KeyInput::Esc), WizardAction::Stay);
    assert_eq!(app.current_screen, Screen::Progress);

    app.finish_generation(None);
    assert_eq!(app.current_screen, Screen::Complete);
    assert_eq!(app.progress_message, "project generated successfully!");
    assert!(app.error_message.is_none());

    // any key exits from the complete screen
    assert_eq!(app.handle_input(KeyInput::Char('a')), WizardAction::Quit);
    assert!(app.should_quit);
}

#[test]
fn generation_errors_still_reach_complete() {
    let mut app = App::new(None);
    app.finish_generation(Some("node.js is not installed or not found in PATH".to_string()));
    assert_eq!(app.current_screen, Screen::Complete);
    assert_eq!(
        app.error_message.as_deref(),
        Some("node.js is not installed or not found in PATH")
    );
}

#[test]
fn backward_transitions_keep_buffers() {
    let mut app = App::new(None);
    app.handle_input(KeyInput::Enter);
    app.handle_input(KeyInput::Char('x'));
    app.handle_input(KeyInput::Enter); // to url collection
    for c in "abc".chars() {
        app.handle_input(KeyInput::Char(c));
    }
    app.handle_input(KeyInput::Esc); // back one screen
    assert_eq!(app.current_screen, Screen::ProjectDetails);
    assert_eq!(app.input_fields.project_name, "my-portfoliox");
    assert_eq!(app.input_fields.current_github_url, "abc");
    app.handle_input(KeyInput::Esc); // back to theme selection
    assert_eq!(app.current_screen, Screen::ThemeSelection);
    assert_eq!(app.input_fields.project_name, "my-portfoliox");
}

#[test]
fn quit_keys_terminate() {
    let mut app = App::new(None);
    assert_eq!(app.handle_input(KeyInput::Char('q')), WizardAction::Quit);
    assert!(app.should_quit);

    // the global quit key works even while a text field has focus
    let mut editing = App::new(None);
    editing.handle_input(KeyInput::Enter);
    assert_eq!(editing.handle_input(KeyInput::ForceQuit), WizardAction::Quit);
    assert!(editing.should_quit);
}

#[test]
fn event_handler_keeps_its_timeout() {
    let handler = EventHandler::new(100);
    assert_eq!(handler.timeout_ms, 100);
}
