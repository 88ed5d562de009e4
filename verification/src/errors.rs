//! Error taxonomy with recovery guidance.
//!
//! Every failure the generator can report, each with a short code, a
//! human-readable message, and a concrete suggestion for resolving it.

use vstd::prelude::*;

use crate::strutil::concat_str;
use crate::strutil::dec_str;
use crate::strutil::u64_to_dec;

verus! {

/// One failure the generator can report.
#[derive(Clone, Debug)]
pub enum PortfolioError {
    TemplateNotFound { theme: String },
    NodeNotInstalled,
    PortInUse { port: u16 },
    InvalidProjectName { name: String, reason: String },
    FilePermissions { path: String },
    DirectoryExists { path: String },
    PackageManagerNotFound { manager: String },
    TemplateCopyFailed { reason: String },
    DependencyInstallFailed { reason: String },
    DevServerFailed { reason: String },
    ConfigurationError { reason: String },
}

impl PortfolioError {
    /// The message this error displays.
    pub open spec fn spec_message(&self) -> Seq<char> {
        match self {
            PortfolioError::TemplateNotFound { theme } => "template '"@ + theme@ + "' not found"@,
            PortfolioError::NodeNotInstalled => "node.js is not installed or not found in PATH"@,
            PortfolioError::PortInUse { port } => "port "@ + dec_str(*port as nat)
                + " is already in use"@,
            PortfolioError::InvalidProjectName { name, reason } => "invalid project name '"@
                + name@ + "': "@ + reason@,
            PortfolioError::FilePermissions { path } => "no write permission for directory '"@
                + path@ + "'"@,
            PortfolioError::DirectoryExists { path } => "directory '"@ + path@
                + "' already exists"@,
            PortfolioError::PackageManagerNotFound { manager } => "package manager '"@ + manager@
                + "' not found"@,
            PortfolioError::TemplateCopyFailed { reason } => "failed to copy template files: "@
                + reason@,
            PortfolioError::DependencyInstallFailed { reason } =>
                "failed to install dependencies: "@ + reason@,
            PortfolioError::DevServerFailed { reason } => "dev server failed to start: "@ + reason@,
            PortfolioError::ConfigurationError { reason } => "invalid configuration: "@ + reason@,
        }
    }

    /// Formats the message this error displays.
    pub fn message(&self) -> (r: String)
        ensures
            r@ == self.spec_message(),
    {
        match self {
            PortfolioError::TemplateNotFound { theme } => {
                let s = concat_str("template '", theme.as_str());
                concat_str(s.as_str(), "' not found")
            },
            PortfolioError::NodeNotInstalled => {
                "node.js is not installed or not found in PATH".to_owned()
            },
            PortfolioError::PortInUse { port } => {
                let s = concat_str("port ", u64_to_dec(*port as u64).as_str());
                concat_str(s.as_str(), " is already in use")
            },
            PortfolioError::InvalidProjectName { name, reason } => {
                let s = concat_str("invalid project name '", name.as_str());
                let s = concat_str(s.as_str(), "': ");
                concat_str(s.as_str(), reason.as_str())
            },
            PortfolioError::FilePermissions { path } => {
                let s = concat_str("no write permission for directory '", path.as_str());
                concat_str(s.as_str(), "'")
            },
            PortfolioError::DirectoryExists { path } => {
                let s = concat_str("directory '", path.as_str());
                concat_str(s.as_str(), "' already exists")
            },
            PortfolioError::PackageManagerNotFound { manager } => {
                let s = concat_str("package manager '", manager.as_str());
                concat_str(s.as_str(), "' not found")
            },
            PortfolioError::TemplateCopyFailed { reason } => {
                concat_str("failed to copy template files: ", reason.as_str())
            },
            PortfolioError::DependencyInstallFailed { reason } => {
                concat_str("failed to install dependencies: ", reason.as_str())
            },
            PortfolioError::DevServerFailed { reason } => {
                concat_str("dev server failed to start: ", reason.as_str())
            },
            PortfolioError::ConfigurationError { reason } => {
                concat_str("invalid configuration: ", reason.as_str())
            },
        }
    }

    /// The suggestion offered for this error.
    pub open spec fn spec_suggestion(&self) -> Seq<char> {
        match self {
            PortfolioError::TemplateNotFound { theme } =>
                "available themes are: ps3, ps5, wii\ntry using one of these instead of '"@ + theme@
                + "'"@,
            PortfolioError::NodeNotInstalled =>
                "please install node.js from https://nodejs.org/\nthen restart your terminal and try again"@,
            PortfolioError::PortInUse { port } => "try using a different port:\n  portfolio-arcade init --port "@
                + dec_str((*port as nat + 1)) + "\n\nor stop the process using port "@ + dec_str(
                *port as nat,
            ) + ":\n  lsof -ti:"@ + dec_str(*port as nat) + " | xargs kill"@,
            PortfolioError::InvalidProjectName { name: _, reason } =>
                "project names should be:\n  - alphanumeric characters, hyphens, and underscores only\n  - not start with a hyphen\n  - 50 characters or less\n\nspecific issue: "@
                + reason@,
            PortfolioError::FilePermissions { path } =>
                "try running from a different directory or fixing permissions:\n  chmod 755 "@
                + path@,
            PortfolioError::DirectoryExists { path } =>
                "either:\n  - choose a different project name\n  - remove the existing directory: rm -rf "@
                + path@ + "\n  - use the existing directory if it's from a previous run"@,
            PortfolioError::PackageManagerNotFound { manager } => {
                if manager@ == "npm"@ {
                    "install node.js from https://nodejs.org/ (includes npm)"@
                } else if manager@ == "pnpm"@ {
                    "install pnpm: npm install -g pnpm"@
                } else if manager@ == "yarn"@ {
                    "install yarn: npm install -g yarn"@
                } else {
                    "install "@ + manager@ + " package manager"@
                }
            },
            PortfolioError::TemplateCopyFailed { reason: _ } =>
                "check that:\n  - you have write permissions\n  - enough disk space is available\n  - template directory exists"@,
            PortfolioError::DependencyInstallFailed { reason: _ } =>
                "try:\n  - checking your internet connection\n  - clearing npm cache: npm cache clean --force\n  - using a different registry: npm config set registry https://registry.npmjs.org/"@,
            PortfolioError::DevServerFailed { reason: _ } =>
                "try:\n  - using a different port\n  - checking if another process is using the port\n  - running npm install manually in the project directory"@,
            PortfolioError::ConfigurationError { reason: _ } =>
                "check your input values and try again"@,
        }
    }

    /// Offers a concrete way to resolve this error.
    pub fn suggestion(&self) -> (r: String)
        ensures
            r@ == self.spec_suggestion(),
    {
        match self {
            PortfolioError::TemplateNotFound { theme } => {
                let s = concat_str(
                    "available themes are: ps3, ps5, wii\ntry using one of these instead of '",
                    theme.as_str(),
                );
                concat_str(s.as_str(), "'")
            },
            PortfolioError::NodeNotInstalled => {
                "please install node.js from https://nodejs.org/\nthen restart your terminal and try again".to_owned()
            },
            PortfolioError::PortInUse { port } => {
                let next_port = u64_to_dec(*port as u64 + 1);
                let this_port = u64_to_dec(*port as u64);
                let s = concat_str(
                    "try using a different port:\n  portfolio-arcade init --port ",
                    next_port.as_str(),
                );
                let s = concat_str(s.as_str(), "\n\nor stop the process using port ");
                let s = concat_str(s.as_str(), this_port.as_str());
                let s = concat_str(s.as_str(), ":\n  lsof -ti:");
                let s = concat_str(s.as_str(), this_port.as_str());
                concat_str(s.as_str(), " | xargs kill")
            },
            PortfolioError::InvalidProjectName { name: _, reason } => {
                concat_str(
                    "project names should be:\n  - alphanumeric characters, hyphens, and underscores only\n  - not start with a hyphen\n  - 50 characters or less\n\nspecific issue: ",
                    reason.as_str(),
                )
            },
            PortfolioError::FilePermissions { path } => {
                concat_str(
                    "try running from a different directory or fixing permissions:\n  chmod 755 ",
                    path.as_str(),
                )
            },
            PortfolioError::DirectoryExists { path } => {
                let s = concat_str(
                    "either:\n  - choose a different project name\n  - remove the existing directory: rm -rf ",
                    path.as_str(),
                );
                concat_str(s.as_str(), "\n  - use the existing directory if it's from a previous run")
            },
            PortfolioError::PackageManagerNotFound { manager } => {
                if crate::strutil::str_equal(manager.as_str(), "npm") {
                    "install node.js from https://nodejs.org/ (includes npm)".to_owned()
                } else if crate::strutil::str_equal(manager.as_str(), "pnpm") {
                    "install pnpm: npm install -g pnpm".to_owned()
                } else if crate::strutil::str_equal(manager.as_str(), "yarn") {
                    "install yarn: npm install -g yarn".to_owned()
                } else {
                    let s = concat_str("install ", manager.as_str());
                    concat_str(s.as_str(), " package manager")
                }
            },
            PortfolioError::TemplateCopyFailed { reason: _ } => {
                "check that:\n  - you have write permissions\n  - enough disk space is available\n  - template directory exists".to_owned()
            },
            PortfolioError::DependencyInstallFailed { reason: _ } => {
                "try:\n  - checking your internet connection\n  - clearing npm cache: npm cache clean --force\n  - using a different registry: npm config set registry https://registry.npmjs.org/".to_owned()
            },
            PortfolioError::DevServerFailed { reason: _ } => {
                "try:\n  - using a different port\n  - checking if another process is using the port\n  - running npm install manually in the project directory".to_owned()
            },
            PortfolioError::ConfigurationError { reason: _ } => {
                "check your input values and try again".to_owned()
            },
        }
    }

    /// The short code given to this error for support.
    pub open spec fn spec_error_code(&self) -> Seq<char> {
        match self {
            PortfolioError::TemplateNotFound { .. } => "E001"@,
            PortfolioError::NodeNotInstalled => "E002"@,
            PortfolioError::PortInUse { .. } => "E003"@,
            PortfolioError::InvalidProjectName { .. } => "E004"@,
            PortfolioError::FilePermissions { .. } => "E005"@,
            PortfolioError::DirectoryExists { .. } => "E006"@,
            PortfolioError::PackageManagerNotFound { .. } => "E007"@,
            PortfolioError::TemplateCopyFailed { .. } => "E008"@,
            PortfolioError::DependencyInstallFailed { .. } => "E009"@,
            PortfolioError::DevServerFailed { .. } => "E010"@,
            PortfolioError::ConfigurationError { .. } => "E011"@,
        }
    }

    /// The short code given to this error for support.
    pub fn error_code(&self) -> (r: &'static str)
        ensures
            r@ == self.spec_error_code(),
    {
        match self {
            PortfolioError::TemplateNotFound { .. } => "E001",
            PortfolioError::NodeNotInstalled => "E002",
            PortfolioError::PortInUse { .. } => "E003",
            PortfolioError::InvalidProjectName { .. } => "E004",
            PortfolioError::FilePermissions { .. } => "E005",
            PortfolioError::DirectoryExists { .. } => "E006",
            PortfolioError::PackageManagerNotFound { .. } => "E007",
            PortfolioError::TemplateCopyFailed { .. } => "E008",
            PortfolioError::DependencyInstallFailed { .. } => "E009",
            PortfolioError::DevServerFailed { .. } => "E010",
            PortfolioError::ConfigurationError { .. } => "E011",
        }
    }

    /// Formats the error with its code and suggestion, ready to show.
    pub fn display_with_suggestion(&self) -> (r: String)
        ensures
            r@ == "error "@ + self.spec_error_code() + ": "@ + self.spec_message()
                + "\n\n\u{1F4A1} suggestion:\n"@ + self.spec_suggestion() + "\n"@,
    {
        let msg = self.message();
        let sug = self.suggestion();
        let s = concat_str("error ", self.error_code());
        let s = concat_str(s.as_str(), ": ");
        let s = concat_str(s.as_str(), msg.as_str());
        let s = concat_str(s.as_str(), "\n\n\u{1F4A1} suggestion:\n");
        let s = concat_str(s.as_str(), sug.as_str());
        concat_str(s.as_str(), "\n")
    }
}

} // verus!
