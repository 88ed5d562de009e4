//! Wizard state machine.
//!
//! The interactive flow is a finite state machine: a screen, a focused input
//! field, transient input buffers, and a frozen-on-confirm configuration
//! record.  Every transition is a pure function of the current state and the
//! pressed key (`wizard_step`); the surrounding application only polls keys,
//! renders, and performs the returned action (fetching project data or
//! running generation), handing the outcome back through `apply_fetched_projects`
//! and `finish_generation`.

use vstd::prelude::*;

use crate::models::CmsType;
use crate::models::PortfolioConfig;
use crate::models::PortfolioConfigV;
use crate::models::Project;
use crate::strutil::blank;
use crate::strutil::is_blank;
use crate::strutil::pop_char;
use crate::strutil::push_char;
use crate::theme::Theme;
use crate::theme::ThemeV;
use crate::theme::theme_catalog;

verus! {

/// The wizard's screens.
#[derive(Clone, Copy, Debug, PartialEq, Eq, Structural)]
pub enum Screen {
    ThemeSelection,
    ProjectDetails,
    GitHubProjects,
    Confirmation,
    Progress,
    Complete,
}

/// The text field holding focus on the project-details screen.
#[derive(Clone, Copy, Debug, PartialEq, Eq, Structural)]
pub enum InputField {
    ProjectName,
    AuthorName,
    Title,
    GitHubUrl,
}

/// A key press, as the wizard understands it.  `ForceQuit` is the global quit
/// key (control-c): it terminates from any interactive state, even while a
/// text field has focus.
#[derive(Clone, Copy, Debug)]
pub enum KeyInput {
    Up,
    Down,
    Tab,
    BackTab,
    Enter,
    Backspace,
    Delete,
    Esc,
    Char(char),
    ForceQuit,
    Other,
}

/// What the surrounding application must do after a key was handled.
#[derive(Clone, Copy, Debug, PartialEq, Eq, Structural)]
pub enum WizardAction {
    /// Nothing: keep polling and rendering.
    Stay,
    /// The user quit; leave the loop without generating anything.
    Quit,
    /// Fetch project data for the collected repository URLs, then hand the
    /// result to `apply_fetched_projects`.
    FetchProjects,
    /// Run the generation pipeline, then hand the outcome to
    /// `finish_generation`.
    Generate,
}

/// The transient input buffers.
#[derive(Clone, Debug)]
pub struct InputFields {
    pub project_name: String,
    pub author_name: String,
    pub title: String,
    pub github_projects: Vec<String>,
    pub current_github_url: String,
}

/// Model of the input buffers.
pub ghost struct InputFieldsV {
    pub project_name: Seq<char>,
    pub author_name: Seq<char>,
    pub title: Seq<char>,
    pub github_projects: Seq<Seq<char>>,
    pub current_github_url: Seq<char>,
}

impl View for InputFields {
    type V = InputFieldsV;

    open spec fn view(&self) -> InputFieldsV {
        InputFieldsV {
            project_name: self.project_name@,
            author_name: self.author_name@,
            title: self.title@,
            github_projects: self.github_projects.deep_view(),
            current_github_url: self.current_github_url@,
        }
    }
}

/// The wizard's whole state.
pub struct App {
    pub current_screen: Screen,
    pub config: PortfolioConfig,
    pub themes: Vec<Theme>,
    pub selected_theme_idx: usize,
    pub input_fields: InputFields,
    pub current_input: InputField,
    pub should_quit: bool,
    pub error_message: Option<String>,
    pub progress_message: String,
}

/// Model of the wizard state.
pub ghost struct AppV {
    pub current_screen: Screen,
    pub config: PortfolioConfigV,
    pub themes: Seq<ThemeV>,
    pub selected_theme_idx: int,
    pub input_fields: InputFieldsV,
    pub current_input: InputField,
    pub should_quit: bool,
    pub error_message: Option<Seq<char>>,
    pub progress_message: Seq<char>,
}

impl View for App {
    type V = AppV;

    open spec fn view(&self) -> AppV {
        AppV {
            current_screen: self.current_screen,
            config: self.config@,
            themes: self.themes.deep_view(),
            selected_theme_idx: self.selected_theme_idx as int,
            input_fields: self.input_fields@,
            current_input: self.current_input,
            should_quit: self.should_quit,
            error_message: self.error_message.deep_view(),
            progress_message: self.progress_message@,
        }
    }
}

impl AppV {
    /// Well-formedness: the selection index stays inside the theme list.
    pub open spec fn wf(self) -> bool {
        0 <= self.selected_theme_idx < self.themes.len()
    }
}

/// Whether a screen is a text-entry screen, where printable characters belong
/// to the focused buffer rather than to navigation.
pub open spec fn is_text_screen(s: Screen) -> bool {
    s == Screen::ProjectDetails || s == Screen::GitHubProjects
}

/// The state marked as quit.
pub open spec fn quit_state(s: AppV) -> AppV {
    AppV { should_quit: true, ..s }
}

/// The focus reached from a field by the tab key (also the down arrow).
pub open spec fn tab_next(f: InputField) -> InputField {
    match f {
        InputField::ProjectName => InputField::AuthorName,
        InputField::AuthorName => InputField::Title,
        InputField::Title => InputField::ProjectName,
        InputField::GitHubUrl => InputField::ProjectName,
    }
}

/// The focus reached from a field by shift-tab (also the up arrow).
pub open spec fn back_tab_next(f: InputField) -> InputField {
    match f {
        InputField::ProjectName => InputField::Title,
        InputField::AuthorName => InputField::ProjectName,
        InputField::Title => InputField::AuthorName,
        InputField::GitHubUrl => InputField::Title,
    }
}

/// The input buffers with one character appended to the focused field.
pub open spec fn buffers_with_char(s: InputFieldsV, f: InputField, c: char) -> InputFieldsV {
    match f {
        InputField::ProjectName => InputFieldsV { project_name: s.project_name.push(c), ..s },
        InputField::AuthorName => InputFieldsV { author_name: s.author_name.push(c), ..s },
        InputField::Title => InputFieldsV { title: s.title.push(c), ..s },
        InputField::GitHubUrl => InputFieldsV {
            current_github_url: s.current_github_url.push(c),
            ..s
        },
    }
}

/// A buffer with its last character removed; an empty buffer stays empty.
pub open spec fn chopped(s: Seq<char>) -> Seq<char> {
    if s.len() > 0 {
        s.drop_last()
    } else {
        s
    }
}

/// The input buffers with the last character of the focused field removed.
pub open spec fn buffers_with_delete(s: InputFieldsV, f: InputField) -> InputFieldsV {
    match f {
        InputField::ProjectName => InputFieldsV { project_name: chopped(s.project_name), ..s },
        InputField::AuthorName => InputFieldsV { author_name: chopped(s.author_name), ..s },
        InputField::Title => InputFieldsV { title: chopped(s.title), ..s },
        InputField::GitHubUrl => InputFieldsV {
            current_github_url: chopped(s.current_github_url),
            ..s
        },
    }
}

/// Whether the required project-details fields all pass validation: none of
/// the name, author and title buffers may be blank.
pub open spec fn basic_inputs_ok(s: InputFieldsV) -> bool {
    !blank(s.project_name) && !blank(s.author_name) && !blank(s.title)
}

/// The theme-selection transition: up and down move the selection and clamp
/// at the ends, enter commits the selected theme id and advances.
pub open spec fn theme_selection_step(s: AppV, key: KeyInput) -> AppV {
    match key {
        KeyInput::Up => {
            if s.selected_theme_idx > 0 {
                AppV { selected_theme_idx: s.selected_theme_idx - 1, ..s }
            } else {
                s
            }
        },
        KeyInput::Down => {
            if s.selected_theme_idx + 1 < s.themes.len() {
                AppV { selected_theme_idx: s.selected_theme_idx + 1, ..s }
            } else {
                s
            }
        },
        KeyInput::Enter => AppV {
            current_screen: Screen::ProjectDetails,
            config: PortfolioConfigV {
                theme: s.themes[s.selected_theme_idx].id,
                ..s.config
            },
            ..s
        },
        _ => s,
    }
}

/// The inline message shown when the project-details gate fails.
pub open spec fn details_gate_message() -> Seq<char> {
    "project name, your name and professional title are all required"@
}

/// The project-details transition: tab, shift-tab and the arrows move focus,
/// characters and deletions edit the focused buffer, escape goes back one
/// screen.  Enter is gated: it advances (and clears any inline message) only
/// when validation passes; a failing gate keeps the screen and every buffer
/// and surfaces a non-fatal inline message instead.
pub open spec fn project_details_step(s: AppV, key: KeyInput) -> AppV {
    match key {
        KeyInput::Tab => AppV { current_input: tab_next(s.current_input), ..s },
        KeyInput::Down => AppV { current_input: tab_next(s.current_input), ..s },
        KeyInput::Up => AppV { current_input: back_tab_next(s.current_input), ..s },
        KeyInput::BackTab => AppV { current_input: back_tab_next(s.current_input), ..s },
        KeyInput::Enter => {
            if basic_inputs_ok(s.input_fields) {
                AppV { current_screen: Screen::GitHubProjects, error_message: None, ..s }
            } else {
                AppV { error_message: Some(details_gate_message()), ..s }
            }
        },
        KeyInput::Char(c) => AppV {
            input_fields: buffers_with_char(s.input_fields, s.current_input, c),
            ..s
        },
        KeyInput::Backspace => AppV {
            input_fields: buffers_with_delete(s.input_fields, s.current_input),
            ..s
        },
        KeyInput::Delete => AppV {
            input_fields: buffers_with_delete(s.input_fields, s.current_input),
            ..s
        },
        KeyInput::Esc => AppV { current_screen: Screen::ThemeSelection, ..s },
        _ => s,
    }
}

/// The repository-collection transition.  Enter with a non-empty buffer
/// appends the URL to the list and clears the buffer; enter with an empty
/// buffer advances when at least one URL was collected (the second component
/// asks the application to fetch); characters and deletions edit the buffer;
/// escape goes back one screen.
pub open spec fn github_projects_step(s: AppV, key: KeyInput) -> (AppV, bool) {
    match key {
        KeyInput::Enter => {
            if !blank(s.input_fields.current_github_url) {
                (
                    AppV {
                        input_fields: InputFieldsV {
                            github_projects: s.input_fields.github_projects.push(
                                s.input_fields.current_github_url,
                            ),
                            current_github_url: Seq::empty(),
                            ..s.input_fields
                        },
                        ..s
                    },
                    false,
                )
            } else if s.input_fields.github_projects.len() > 0 {
                (s, true)
            } else {
                (s, false)
            }
        },
        KeyInput::Char(c) => (
            AppV {
                input_fields: buffers_with_char(s.input_fields, InputField::GitHubUrl, c),
                ..s
            },
            false,
        ),
        KeyInput::Backspace => (
            AppV {
                input_fields: buffers_with_delete(s.input_fields, InputField::GitHubUrl),
                ..s
            },
            false,
        ),
        KeyInput::Delete => (
            AppV {
                input_fields: buffers_with_delete(s.input_fields, InputField::GitHubUrl),
                ..s
            },
            false,
        ),
        KeyInput::Esc => (AppV { current_screen: Screen::ProjectDetails, ..s }, false),
        _ => (s, false),
    }
}

/// The confirmation transition: enter freezes the record and moves to the
/// progress screen (the second component asks the application to generate);
/// backspace and escape go back one screen.
pub open spec fn confirmation_step(s: AppV, key: KeyInput) -> (AppV, bool) {
    match key {
        KeyInput::Enter => (AppV { current_screen: Screen::Progress, ..s }, true),
        KeyInput::Backspace => (AppV { current_screen: Screen::GitHubProjects, ..s }, false),
        KeyInput::Esc => (AppV { current_screen: Screen::GitHubProjects, ..s }, false),
        _ => (s, false),
    }
}

/// The complete transition table: one key against one state.  The progress
/// screen accepts no input; the complete screen exits on any key; the global
/// quit key exits from every interactive state; the letter q exits from the
/// screens that take no text; everything else goes to the screen's own
/// transition.
pub open spec fn wizard_step(s: AppV, key: KeyInput) -> (AppV, WizardAction) {
    if s.current_screen == Screen::Progress {
        (s, WizardAction::Stay)
    } else if s.current_screen == Screen::Complete {
        (quit_state(s), WizardAction::Quit)
    } else if key is ForceQuit {
        (quit_state(s), WizardAction::Quit)
    } else if !is_text_screen(s.current_screen) && key == KeyInput::Char('q') {
        (quit_state(s), WizardAction::Quit)
    } else if s.current_screen == Screen::ThemeSelection && key is Esc {
        (quit_state(s), WizardAction::Quit)
    } else if s.current_screen == Screen::ThemeSelection {
        (theme_selection_step(s, key), WizardAction::Stay)
    } else if s.current_screen == Screen::ProjectDetails {
        (project_details_step(s, key), WizardAction::Stay)
    } else if s.current_screen == Screen::GitHubProjects {
        let (s2, fetch) = github_projects_step(s, key);
        (
            s2,
            if fetch {
                WizardAction::FetchProjects
            } else {
                WizardAction::Stay
            },
        )
    } else {
        let (s2, generate) = confirmation_step(s, key);
        (
            s2,
            if generate {
                WizardAction::Generate
            } else {
                WizardAction::Stay
            },
        )
    }
}

/// Selection clamps at both ends of the theme list: moving down past the last
/// index is a no-op, and moving up at index zero stays at zero; every key
/// leaves the selection inside the list.
pub proof fn lemma_theme_selection_clamps(s: AppV)
    requires
        s.wf(),
    ensures
        s.selected_theme_idx == s.themes.len() - 1 ==> theme_selection_step(
            s,
            KeyInput::Down,
        ).selected_theme_idx == s.selected_theme_idx,
        s.selected_theme_idx == 0 ==> theme_selection_step(s, KeyInput::Up).selected_theme_idx
            == 0,
        forall|key: KeyInput|
            0 <= (#[trigger] theme_selection_step(s, key)).selected_theme_idx < s.themes.len(),
{
}

/// Every transition preserves well-formedness, and backward transitions keep
/// every buffer: going back one screen changes nothing but the screen.
pub proof fn lemma_wizard_step_wf(s: AppV, key: KeyInput)
    requires
        s.wf(),
    ensures
        wizard_step(s, key).0.wf(),
        wizard_step(s, key).0.themes == s.themes,
        key is Esc && s.current_screen == Screen::ProjectDetails ==> wizard_step(s, key).0 == (
        AppV { current_screen: Screen::ThemeSelection, ..s }),
        key is Esc && s.current_screen == Screen::GitHubProjects ==> wizard_step(s, key).0 == (
        AppV { current_screen: Screen::ProjectDetails, ..s }),
        key is Backspace && s.current_screen == Screen::Confirmation ==> wizard_step(s, key).0 == (
        AppV { current_screen: Screen::GitHubProjects, ..s }),
{
}

/// The forward transition out of the details screen is gated: enter advances
/// only when every required field passes validation; a failing gate does not
/// transition, keeps every buffer, surfaces a non-fatal inline message, and
/// the wizard keeps accepting input.
pub proof fn lemma_details_gated(s: AppV)
    requires
        s.wf(),
        s.current_screen == Screen::ProjectDetails,
    ensures
        basic_inputs_ok(s.input_fields) ==> wizard_step(s, KeyInput::Enter).0 == (AppV {
            current_screen: Screen::GitHubProjects,
            error_message: None,
            ..s
        }),
        !basic_inputs_ok(s.input_fields) ==> wizard_step(s, KeyInput::Enter) == (
        (AppV { error_message: Some(details_gate_message()), ..s }),
        WizardAction::Stay,
        ),
{
}

/// The progress screen accepts no input at all: while generation runs, every
/// key leaves the state untouched.
pub proof fn lemma_progress_blocks_input(s: AppV, key: KeyInput)
    requires
        s.current_screen == Screen::Progress,
    ensures
        wizard_step(s, key) == (s, WizardAction::Stay),
{
}

impl App {
    /// A fresh wizard: theme selection showing, the second catalog entry (the
    /// most feature-complete theme) preselected, default configuration, and
    /// the given project name (or the stock one) in the name buffer.
    pub fn new(project_name: Option<String>) -> (r: App)
        ensures
            r@.wf(),
            r@.themes == theme_catalog(),
            r@.current_screen == Screen::ThemeSelection,
            r@.selected_theme_idx == 1,
            r@.current_input == InputField::ProjectName,
            !r@.should_quit,
            r@.error_message is None,
            r@.progress_message.len() == 0,
            r@.input_fields.project_name == (match project_name {
                Some(n) => n@,
                None => "my-portfolio"@,
            }),
            r@.input_fields.author_name == "your name"@,
            r@.input_fields.title == "software developer"@,
            r@.input_fields.github_projects.len() == 0,
            r@.input_fields.current_github_url.len() == 0,
            crate::models::is_default_config(r@.config),
    {
        let themes = Theme::available_themes();
        let config = PortfolioConfig::default();
        let name: String = match project_name {
            Some(n) => n,
            None => "my-portfolio".to_owned(),
        };
        let input_fields = InputFields {
            project_name: name,
            author_name: config.user.name.clone(),
            title: config.user.title.clone(),
            github_projects: Vec::new(),
            current_github_url: String::new(),
        };
        App {
            current_screen: Screen::ThemeSelection,
            config,
            themes,
            selected_theme_idx: 1,
            input_fields,
            current_input: InputField::ProjectName,
            should_quit: false,
            error_message: None,
            progress_message: String::new(),
        }
    }

    /// The currently selected theme.
    pub fn selected_theme(&self) -> (r: &Theme)
        requires
            self@.selected_theme_idx < self@.themes.len(),
        ensures
            r@ == self@.themes[self@.selected_theme_idx],
    {
        &self.themes[self.selected_theme_idx]
    }

    /// Whether the required project-details fields all pass validation.
    pub fn validate_basic_inputs(&self) -> (r: bool)
        ensures
            r == basic_inputs_ok(self@.input_fields),
    {
        !is_blank(self.input_fields.project_name.as_str()) && !is_blank(
            self.input_fields.author_name.as_str(),
        ) && !is_blank(self.input_fields.title.as_str())
    }

    /// Whether everything needed for generation was collected: the basic
    /// fields pass and at least one repository URL was added.
    pub fn validate_inputs(&self) -> (r: bool)
        ensures
            r == (basic_inputs_ok(self@.input_fields) && self@.input_fields.github_projects.len()
                > 0),
    {
        self.validate_basic_inputs() && self.input_fields.github_projects.len() > 0
    }

    /// Appends a typed character to the focused buffer.
    pub fn add_char_to_current_input(&mut self, c: char)
        ensures
            final(self)@ == (AppV {
                input_fields: buffers_with_char(
                    old(self)@.input_fields,
                    old(self)@.current_input,
                    c,
                ),
                ..old(self)@
            }),
    {
        match self.current_input {
            InputField::ProjectName => push_char(&mut self.input_fields.project_name, c),
            InputField::AuthorName => push_char(&mut self.input_fields.author_name, c),
            InputField::Title => push_char(&mut self.input_fields.title, c),
            InputField::GitHubUrl => push_char(&mut self.input_fields.current_github_url, c),
        }
    }

    /// Removes the last character of the focused buffer, if any.
    pub fn delete_char_from_current_input(&mut self)
        ensures
            final(self)@ == (AppV {
                input_fields: buffers_with_delete(old(self)@.input_fields, old(self)@.current_input),
                ..old(self)@
            }),
    {
        match self.current_input {
            InputField::ProjectName => {
                pop_char(&mut self.input_fields.project_name);
            },
            InputField::AuthorName => {
                pop_char(&mut self.input_fields.author_name);
            },
            InputField::Title => {
                pop_char(&mut self.input_fields.title);
            },
            InputField::GitHubUrl => {
                pop_char(&mut self.input_fields.current_github_url);
            },
        }
    }

    /// Handles one key press: the explicit transition table `wizard_step`,
    /// made executable.
    pub fn handle_input(&mut self, key: KeyInput) -> (r: WizardAction)
        requires
            old(self)@.wf(),
        ensures
            (final(self)@, r) == wizard_step(old(self)@, key),
            final(self)@.wf(),
    {
        match self.current_screen {
            Screen::Progress => WizardAction::Stay,
            Screen::Complete => {
                self.should_quit = true;
                WizardAction::Quit
            },
            _ => {
                if let KeyInput::ForceQuit = key {
                    self.should_quit = true;
                    return WizardAction::Quit;
                }
                let is_text = match self.current_screen {
                    Screen::ProjectDetails => true,
                    Screen::GitHubProjects => true,
                    _ => false,
                };
                if !is_text {
                    if let KeyInput::Char(c) = key {
                        if c == 'q' {
                            self.should_quit = true;
                            return WizardAction::Quit;
                        }
                    }
                }
                match self.current_screen {
                    Screen::ThemeSelection => {
                        if let KeyInput::Esc = key {
                            self.should_quit = true;
                            return WizardAction::Quit;
                        }
                        self.handle_theme_selection(key);
                        WizardAction::Stay
                    },
                    Screen::ProjectDetails => {
                        self.handle_project_details(key);
                        WizardAction::Stay
                    },
                    Screen::GitHubProjects => {
                        if self.handle_github_projects(key) {
                            WizardAction::FetchProjects
                        } else {
                            WizardAction::Stay
                        }
                    },
                    _ => {
                        if self.handle_confirmation(key) {
                            WizardAction::Generate
                        } else {
                            WizardAction::Stay
                        }
                    },
                }
            },
        }
    }

    /// Handles a key on the theme-selection screen.
    pub fn handle_theme_selection(&mut self, key: KeyInput)
        requires
            old(self)@.wf(),
        ensures
            final(self)@ == theme_selection_step(old(self)@, key),
    {
        match key {
            KeyInput::Up => {
                if self.selected_theme_idx > 0 {
                    self.selected_theme_idx = self.selected_theme_idx - 1;
                }
            },
            KeyInput::Down => {
                let count = self.themes.len();
                if self.selected_theme_idx + 1 < count {
                    self.selected_theme_idx = self.selected_theme_idx + 1;
                }
            },
            KeyInput::Enter => {
                proof {
                    assert(self.themes.deep_view()[self.selected_theme_idx as int] == self.themes@[
                    self.selected_theme_idx as int]@);
                }
                self.config.theme = self.themes[self.selected_theme_idx].id.clone();
                self.current_screen = Screen::ProjectDetails;
            },
            _ => {},
        }
    }

    /// Handles a key on the project-details screen.
    pub fn handle_project_details(&mut self, key: KeyInput)
        ensures
            final(self)@ == project_details_step(old(self)@, key),
    {
        match key {
            KeyInput::Tab => {
                self.current_input = match self.current_input {
                    InputField::ProjectName => InputField::AuthorName,
                    InputField::AuthorName => InputField::Title,
                    InputField::Title => InputField::ProjectName,
                    InputField::GitHubUrl => InputField::ProjectName,
                };
            },
            KeyInput::Down => {
                self.current_input = match self.current_input {
                    InputField::ProjectName => InputField::AuthorName,
                    InputField::AuthorName => InputField::Title,
                    InputField::Title => InputField::ProjectName,
                    InputField::GitHubUrl => InputField::ProjectName,
                };
            },
            KeyInput::Up => {
                self.current_input = match self.current_input {
                    InputField::ProjectName => InputField::Title,
                    InputField::AuthorName => InputField::ProjectName,
                    InputField::Title => InputField::AuthorName,
                    InputField::GitHubUrl => InputField::Title,
                };
            },
            KeyInput::BackTab => {
                self.current_input = match self.current_input {
                    InputField::ProjectName => InputField::Title,
                    InputField::AuthorName => InputField::ProjectName,
                    InputField::Title => InputField::AuthorName,
                    InputField::GitHubUrl => InputField::Title,
                };
            },
            KeyInput::Enter => {
                if self.validate_basic_inputs() {
                    self.current_screen = Screen::GitHubProjects;
                    self.error_message = None;
                } else {
                    self.error_message = Some(
                        "project name, your name and professional title are all required".to_owned(),
                    );
                }
            },
            KeyInput::Char(c) => {
                self.add_char_to_current_input(c);
            },
            KeyInput::Backspace => {
                self.delete_char_from_current_input();
            },
            KeyInput::Delete => {
                self.delete_char_from_current_input();
            },
            KeyInput::Esc => {
                self.current_screen = Screen::ThemeSelection;
            },
            _ => {},
        }
    }

    /// Handles a key on the repository-collection screen; returns whether the
    /// application should now fetch project data and confirm.
    pub fn handle_github_projects(&mut self, key: KeyInput) -> (r: bool)
        ensures
            (final(self)@, r) == github_projects_step(old(self)@, key),
    {
        match key {
            KeyInput::Enter => {
                if !is_blank(self.input_fields.current_github_url.as_str()) {
                    let url = self.input_fields.current_github_url.clone();
                    self.input_fields.current_github_url = String::new();
                    self.input_fields.github_projects.push(url);
                    proof {
                        assert(self.input_fields.github_projects.deep_view() =~= old(
                            self,
                        )@.input_fields.github_projects.push(
                            old(self)@.input_fields.current_github_url,
                        ));
                    }
                    false
                } else {
                    self.input_fields.github_projects.len() > 0
                }
            },
            KeyInput::Char(c) => {
                push_char(&mut self.input_fields.current_github_url, c);
                false
            },
            KeyInput::Backspace => {
                pop_char(&mut self.input_fields.current_github_url);
                false
            },
            KeyInput::Delete => {
                pop_char(&mut self.input_fields.current_github_url);
                false
            },
            KeyInput::Esc => {
                self.current_screen = Screen::ProjectDetails;
                false
            },
            _ => { false },
        }
    }

    /// Handles a key on the confirmation screen; returns whether the
    /// application should now run generation.
    pub fn handle_confirmation(&mut self, key: KeyInput) -> (r: bool)
        ensures
            (final(self)@, r) == confirmation_step(old(self)@, key),
    {
        match key {
            KeyInput::Enter => {
                self.current_screen = Screen::Progress;
                true
            },
            KeyInput::Backspace => {
                self.current_screen = Screen::GitHubProjects;
                false
            },
            KeyInput::Esc => {
                self.current_screen = Screen::GitHubProjects;
                false
            },
            _ => { false },
        }
    }

    /// Takes the fetched (or placeholder) project entries into the record,
    /// commits the entered identity, and moves to the confirmation screen.
    /// The repository workflow needs no separate content management system.
    pub fn apply_fetched_projects(&mut self, projects: Vec<Project>)
        ensures
            final(self)@ == (AppV {
                current_screen: Screen::Confirmation,
                config: PortfolioConfigV {
                    user: crate::models::UserInfoV {
                        name: old(self)@.input_fields.author_name,
                        title: old(self)@.input_fields.title,
                        ..old(self)@.config.user
                    },
                    cms: CmsType::NoCms,
                    projects: projects.deep_view(),
                    ..old(self)@.config
                },
                ..old(self)@
            }),
    {
        self.config.user.name = self.input_fields.author_name.clone();
        self.config.user.title = self.input_fields.title.clone();
        self.config.cms = CmsType::NoCms;
        self.config.projects = projects;
        self.current_screen = Screen::Confirmation;
    }

    /// Shows a live status line on the progress screen.
    pub fn set_progress(&mut self, message: String)
        ensures
            final(self)@ == (AppV { progress_message: message@, ..old(self)@ }),
    {
        self.progress_message = message;
    }

    /// Records the generation pipeline's outcome and moves to the complete
    /// screen: an error becomes a displayable message, never a crash, and the
    /// user can always exit cleanly from there.
    pub fn finish_generation(&mut self, outcome: Option<String>)
        ensures
            final(self)@ == (AppV {
                current_screen: Screen::Complete,
                error_message: outcome.deep_view(),
                progress_message: (match outcome {
                    None => "project generated successfully!"@,
                    Some(_) => old(self)@.progress_message,
                }),
                ..old(self)@
            }),
    {
        match outcome {
            None => {
                self.error_message = None;
                self.progress_message = "project generated successfully!".to_owned();
            },
            Some(e) => {
                self.error_message = Some(e);
            },
        }
        self.current_screen = Screen::Complete;
    }
}

/// The event poll timeout, kept by the application's input loop.
#[derive(Clone, Copy, Debug)]
pub struct EventHandler {
    pub timeout_ms: u64,
}

impl EventHandler {
    /// An event handler polling with the given timeout in milliseconds.
    pub fn new(timeout_ms: u64) -> (r: Self)
        ensures
            r.timeout_ms == timeout_ms,
    {
        EventHandler { timeout_ms }
    }
}

/// The command-line surface: what the program was asked to do.
#[derive(Clone, Debug)]
pub enum Commands {
    /// Start the interactive wizard, optionally with a project name.
    Init { project_name: Option<String> },
    /// Check for a newer release and show how to update.
    Update,
}

/// The parsed command line.
#[derive(Clone, Debug)]
pub struct Cli {
    pub command: Commands,
}

} // verus!
