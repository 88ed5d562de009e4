//! Portfolio configuration data structures.
//!
//! The configuration record carries the user's identity, the ordered list of
//! project entries, the selected theme id, the content-management choice and
//! the development port.  Each type has a ghost mirror used as its view, so
//! contracts speak about mathematical values.

use vstd::prelude::*;

verus! {

/// One open-ended metadata value attached to a project entry.
#[derive(Clone, Debug, PartialEq)]
pub enum ExtraValue {
    Str(String),
    UInt(u64),
    Bool(bool),
}

/// Model of an extra metadata value.
pub ghost enum ExtraValueV {
    Str(Seq<char>),
    UInt(u64),
    Bool(bool),
}

impl View for ExtraValue {
    type V = ExtraValueV;

    open spec fn view(&self) -> ExtraValueV {
        match self {
            ExtraValue::Str(s) => ExtraValueV::Str(s@),
            ExtraValue::UInt(n) => ExtraValueV::UInt(*n),
            ExtraValue::Bool(b) => ExtraValueV::Bool(*b),
        }
    }
}

impl DeepView for ExtraValue {
    type V = ExtraValueV;

    open spec fn deep_view(&self) -> ExtraValueV {
        self.view()
    }
}

/// A project entry's outbound links.
#[derive(Clone, Debug, PartialEq)]
pub struct ProjectLinks {
    pub github: Option<String>,
    pub live: Option<String>,
    pub demo: Option<String>,
}

/// Model of a project entry's links.
pub ghost struct ProjectLinksV {
    pub github: Option<Seq<char>>,
    pub live: Option<Seq<char>>,
    pub demo: Option<Seq<char>>,
}

impl View for ProjectLinks {
    type V = ProjectLinksV;

    open spec fn view(&self) -> ProjectLinksV {
        ProjectLinksV {
            github: self.github.deep_view(),
            live: self.live.deep_view(),
            demo: self.demo.deep_view(),
        }
    }
}

impl DeepView for ProjectLinks {
    type V = ProjectLinksV;

    open spec fn deep_view(&self) -> ProjectLinksV {
        self.view()
    }
}

/// One portfolio project, theme-agnostic.
#[derive(Clone, Debug, PartialEq)]
pub struct Project {
    pub id: String,
    pub title: String,
    pub description: String,
    pub full_description: String,
    pub tech_stack: Vec<String>,
    pub category: String,
    pub featured: bool,
    pub links: ProjectLinks,
    pub date: String,
    pub thumbnail: String,
    pub screenshots: Vec<String>,
    pub extra: Vec<(String, ExtraValue)>,
}

/// Model of a project entry.
pub ghost struct ProjectV {
    pub id: Seq<char>,
    pub title: Seq<char>,
    pub description: Seq<char>,
    pub full_description: Seq<char>,
    pub tech_stack: Seq<Seq<char>>,
    pub category: Seq<char>,
    pub featured: bool,
    pub links: ProjectLinksV,
    pub date: Seq<char>,
    pub thumbnail: Seq<char>,
    pub screenshots: Seq<Seq<char>>,
    pub extra: Seq<(Seq<char>, ExtraValueV)>,
}

impl View for Project {
    type V = ProjectV;

    open spec fn view(&self) -> ProjectV {
        ProjectV {
            id: self.id@,
            title: self.title@,
            description: self.description@,
            full_description: self.full_description@,
            tech_stack: self.tech_stack.deep_view(),
            category: self.category@,
            featured: self.featured,
            links: self.links@,
            date: self.date@,
            thumbnail: self.thumbnail@,
            screenshots: self.screenshots.deep_view(),
            extra: self.extra.deep_view(),
        }
    }
}

impl DeepView for Project {
    type V = ProjectV;

    open spec fn deep_view(&self) -> ProjectV {
        self.view()
    }
}

/// The user's social links; each one is optional.
#[derive(Clone, Debug, PartialEq)]
pub struct SocialLinks {
    pub github: Option<String>,
    pub linkedin: Option<String>,
    pub email: Option<String>,
    pub website: Option<String>,
    pub twitter: Option<String>,
}

/// Model of the social links.
pub ghost struct SocialLinksV {
    pub github: Option<Seq<char>>,
    pub linkedin: Option<Seq<char>>,
    pub email: Option<Seq<char>>,
    pub website: Option<Seq<char>>,
    pub twitter: Option<Seq<char>>,
}

impl View for SocialLinks {
    type V = SocialLinksV;

    open spec fn view(&self) -> SocialLinksV {
        SocialLinksV {
            github: self.github.deep_view(),
            linkedin: self.linkedin.deep_view(),
            email: self.email.deep_view(),
            website: self.website.deep_view(),
            twitter: self.twitter.deep_view(),
        }
    }
}

impl DeepView for SocialLinks {
    type V = SocialLinksV;

    open spec fn deep_view(&self) -> SocialLinksV {
        self.view()
    }
}

/// The user's identity and profile text.
#[derive(Clone, Debug, PartialEq)]
pub struct UserInfo {
    pub name: String,
    pub title: String,
    pub bio: String,
    pub avatar: String,
    pub social: SocialLinks,
}

/// Model of the user identity.
pub ghost struct UserInfoV {
    pub name: Seq<char>,
    pub title: Seq<char>,
    pub bio: Seq<char>,
    pub avatar: Seq<char>,
    pub social: SocialLinksV,
}

impl View for UserInfo {
    type V = UserInfoV;

    open spec fn view(&self) -> UserInfoV {
        UserInfoV {
            name: self.name@,
            title: self.title@,
            bio: self.bio@,
            avatar: self.avatar@,
            social: self.social@,
        }
    }
}

impl DeepView for UserInfo {
    type V = UserInfoV;

    open spec fn deep_view(&self) -> UserInfoV {
        self.view()
    }
}

/// The content-management choice.
#[derive(Clone, Debug, PartialEq, Eq, Structural)]
pub enum CmsType {
    Decap,
    Payload,
    NoCms,
}

/// The complete configuration record the wizard accumulates and freezes.
#[derive(Clone, Debug, PartialEq)]
pub struct PortfolioConfig {
    pub user: UserInfo,
    pub projects: Vec<Project>,
    pub theme: String,
    pub cms: CmsType,
    pub dev_port: u16,
}

/// Model of the configuration record.
pub ghost struct PortfolioConfigV {
    pub user: UserInfoV,
    pub projects: Seq<ProjectV>,
    pub theme: Seq<char>,
    pub cms: CmsType,
    pub dev_port: u16,
}

impl View for PortfolioConfig {
    type V = PortfolioConfigV;

    open spec fn view(&self) -> PortfolioConfigV {
        PortfolioConfigV {
            user: self.user@,
            projects: self.projects.deep_view(),
            theme: self.theme@,
            cms: self.cms,
            dev_port: self.dev_port,
        }
    }
}

impl DeepView for PortfolioConfig {
    type V = PortfolioConfigV;

    open spec fn deep_view(&self) -> PortfolioConfigV {
        self.view()
    }
}

impl CmsType {
    /// The human-readable label the wizard shows for this choice.
    pub fn display_label(&self) -> (r: String)
        ensures
            r@ == (match self {
                CmsType::Decap => "git-based (decap cms)"@,
                CmsType::Payload => "self-hosted (payload cms)"@,
                CmsType::NoCms => "none - manual json editing"@,
            }),
    {
        match self {
            CmsType::Decap => "git-based (decap cms)".to_owned(),
            CmsType::Payload => "self-hosted (payload cms)".to_owned(),
            CmsType::NoCms => "none - manual json editing".to_owned(),
        }
    }

    /// The tag this choice carries in the persisted document.
    pub fn json_tag(&self) -> (r: String)
        ensures
            r@ == self.spec_json_tag(),
    {
        match self {
            CmsType::Decap => "decap".to_owned(),
            CmsType::Payload => "payload".to_owned(),
            CmsType::NoCms => "none".to_owned(),
        }
    }

    /// The persisted tag of this choice.
    pub open spec fn spec_json_tag(&self) -> Seq<char> {
        match self {
            CmsType::Decap => "decap"@,
            CmsType::Payload => "payload"@,
            CmsType::NoCms => "none"@,
        }
    }
}

/// Whether an association list's keys are pairwise distinct, as they are when
/// the pairs come from a map.
pub open spec fn distinct_keys<V>(s: Seq<(Seq<char>, V)>) -> bool {
    forall|i: int, j: int| 0 <= i < j < s.len() ==> (#[trigger] s[i]).0 != (#[trigger] s[j]).0
}

impl Project {
    /// Invariant of entries this crate builds: the extra metadata keys are
    /// pairwise distinct, as their map source guarantees.  Lookups read the
    /// first occurrence of a key.
    pub open spec fn extra_keys_wf(&self) -> bool {
        distinct_keys(self@.extra)
    }
}

/// The starter social links.
pub open spec fn is_starter_social(s: SocialLinksV) -> bool {
    &&& s.github == Some("https://github.com/username"@)
    &&& s.linkedin == Some("https://linkedin.com/in/username"@)
    &&& s.email == Some("hello@example.com"@)
    &&& s.website is None
    &&& s.twitter is None
}

/// The starter identity a fresh wizard offers.
pub open spec fn is_starter_user(u: UserInfoV) -> bool {
    &&& u.name == "your name"@
    &&& u.title == "software developer"@
    &&& u.bio == "passionate about creating amazing digital experiences"@
    &&& u.avatar == "/images/avatar.jpg"@
    &&& is_starter_social(u.social)
}

/// The sample entry shown to users before they add their own.
pub open spec fn is_sample_project(p: ProjectV) -> bool {
    &&& p.id == "portfolio-website"@
    &&& p.title == "portfolio website"@
    &&& p.description == "a modern, responsive portfolio website showcasing my projects and skills"@
    &&& p.full_description
        == "built with modern web technologies, this portfolio website features a clean design, smooth animations, and optimal performance. showcases my development skills and project portfolio in an engaging, user-friendly interface."@
    &&& p.tech_stack == seq!["react"@, "next.js"@, "typescript"@, "tailwind css"@]
    &&& p.category == "web development"@
    &&& p.featured
    &&& p.links.github == Some("https://github.com/username/portfolio"@)
    &&& p.links.live == Some("https://yourname.dev"@)
    &&& p.links.demo is None
    &&& p.date == "2024-01"@
    &&& p.thumbnail == "/projects/portfolio-thumb.jpg"@
    &&& p.screenshots == seq!["/projects/portfolio-1.jpg"@, "/projects/portfolio-2.jpg"@]
    &&& p.extra.len() == 0
}

/// The defaults a configuration record is created with at wizard start: the
/// starter identity, the single sample entry, the most modern theme, the
/// git-based content management choice, and port 3000.
pub open spec fn is_default_config(c: PortfolioConfigV) -> bool {
    &&& is_starter_user(c.user)
    &&& c.projects.len() == 1
    &&& is_sample_project(c.projects[0])
    &&& c.theme == "ps5"@
    &&& c.cms == CmsType::Decap
    &&& c.dev_port == 3000
}

impl Default for SocialLinks {
    /// The starter social links offered to a new user.
    fn default() -> (r: Self)
        ensures
            is_starter_social(r@),
    {
        SocialLinks {
            github: Some("https://github.com/username".to_owned()),
            linkedin: Some("https://linkedin.com/in/username".to_owned()),
            email: Some("hello@example.com".to_owned()),
            website: None,
            twitter: None,
        }
    }
}

impl Default for UserInfo {
    /// The starter identity offered to a new user.
    fn default() -> (r: Self)
        ensures
            is_starter_user(r@),
    {
        UserInfo {
            name: "your name".to_owned(),
            title: "software developer".to_owned(),
            bio: "passionate about creating amazing digital experiences".to_owned(),
            avatar: "/images/avatar.jpg".to_owned(),
            social: SocialLinks::default(),
        }
    }
}

/// The sample project shown to users before they add their own.
pub fn create_sample_project() -> (r: Project)
    ensures
        is_sample_project(r@),
{
    let mut tech_stack: Vec<String> = Vec::new();
    tech_stack.push("react".to_owned());
    tech_stack.push("next.js".to_owned());
    tech_stack.push("typescript".to_owned());
    tech_stack.push("tailwind css".to_owned());
    let mut screenshots: Vec<String> = Vec::new();
    screenshots.push("/projects/portfolio-1.jpg".to_owned());
    screenshots.push("/projects/portfolio-2.jpg".to_owned());
    proof {
        assert(tech_stack.deep_view() =~= seq![
            "react"@,
            "next.js"@,
            "typescript"@,
            "tailwind css"@,
        ]);
        assert(screenshots.deep_view() =~= seq![
            "/projects/portfolio-1.jpg"@,
            "/projects/portfolio-2.jpg"@,
        ]);
    }
    Project {
        id: "portfolio-website".to_owned(),
        title: "portfolio website".to_owned(),
        description:
            "a modern, responsive portfolio website showcasing my projects and skills".to_owned(),
        full_description:
            "built with modern web technologies, this portfolio website features a clean design, smooth animations, and optimal performance. showcases my development skills and project portfolio in an engaging, user-friendly interface.".to_owned(),
        tech_stack,
        category: "web development".to_owned(),
        featured: true,
        links: ProjectLinks {
            github: Some("https://github.com/username/portfolio".to_owned()),
            live: Some("https://yourname.dev".to_owned()),
            demo: None,
        },
        date: "2024-01".to_owned(),
        thumbnail: "/projects/portfolio-thumb.jpg".to_owned(),
        screenshots,
        extra: Vec::new(),
    }
}

impl Default for PortfolioConfig {
    /// The configuration a fresh wizard starts from: the starter identity, the
    /// sample project, the most modern theme, a git-based CMS and port 3000.
    fn default() -> (r: Self)
        ensures
            is_default_config(r@),
    {
        let mut projects: Vec<Project> = Vec::new();
        let sample = create_sample_project();
        let ghost sample_v = sample@;
        projects.push(sample);
        proof {
            assert(projects.deep_view() =~= seq![sample_v]);
        }
        PortfolioConfig {
            user: UserInfo::default(),
            projects,
            theme: "ps5".to_owned(),
            cms: CmsType::Decap,
            dev_port: 3000,
        }
    }
}

/// The number stored under a key in an entry's extra metadata, taking 0 when
/// the key is absent or not numeric.
pub open spec fn extra_uint(extra: Seq<(Seq<char>, ExtraValueV)>, key: Seq<char>) -> u64
    decreases extra.len(),
{
    if extra.len() == 0 {
        0
    } else if extra[0].0 == key {
        match extra[0].1 {
            ExtraValueV::UInt(n) => n,
            _ => 0,
        }
    } else {
        extra_uint(extra.skip(1), key)
    }
}

/// The value stored under a key in an entry's extra metadata, if any.
pub open spec fn extra_lookup(extra: Seq<(Seq<char>, ExtraValueV)>, key: Seq<char>) -> Option<
    ExtraValueV,
>
    decreases extra.len(),
{
    if extra.len() == 0 {
        Option::None
    } else if extra[0].0 == key {
        Option::Some(extra[0].1)
    } else {
        extra_lookup(extra.skip(1), key)
    }
}

impl Project {
    /// The star count recorded in this entry's extra metadata, 0 when absent.
    pub open spec fn spec_stars(&self) -> u64 {
        extra_uint(self@.extra, "stars"@)
    }

    /// Reads the star count from the extra metadata.
    pub fn stars(&self) -> (r: u64)
        ensures
            r == self.spec_stars(),
    {
        let mut i: usize = 0;
        let n = self.extra.len();
        proof {
            reveal_strlit("stars");
            assert(self@.extra.skip(0) =~= self@.extra);
        }
        while i < n
            invariant
                n == self.extra.len(),
                i <= n,
                extra_uint(self@.extra, "stars"@) == extra_uint(
                    self@.extra.skip(i as int),
                    "stars"@,
                ),
            decreases n - i,
        {
            let pair = &self.extra[i];
            proof {
                assert(self@.extra.skip(i as int)[0] == self@.extra[i as int]);
            }
            if crate::strutil::str_equal(pair.0.as_str(), "stars") {
                match &pair.1 {
                    ExtraValue::UInt(v) => {
                        return *v;
                    },
                    _ => {
                        return 0;
                    },
                }
            }
            i += 1;
            proof {
                assert(self@.extra.skip(i as int - 1).skip(1) =~= self@.extra.skip(i as int));
            }
        }
        proof {
            assert(self@.extra.skip(n as int) =~= Seq::<(Seq<char>, ExtraValueV)>::empty());
        }
        0
    }

    /// Whether this entry links to a live demo.
    pub open spec fn spec_has_live(&self) -> bool {
        self@.links.live is Some
    }

    /// Whether this entry links to a live demo.
    pub fn has_live(&self) -> (r: bool)
        ensures
            r == self.spec_has_live(),
    {
        self.links.live.is_some()
    }
}

} // verus!
