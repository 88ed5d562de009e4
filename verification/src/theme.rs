//! Theme registry.
//!
//! A fixed catalog of console themes.  The catalog's mathematical value is
//! `theme_catalog()`; the registry functions are specified against it.

use vstd::prelude::*;

use crate::models::PortfolioConfig;
use crate::strutil::replace_seq;
use crate::strutil::replace_str;
use crate::strutil::str_equal;

verus! {

/// One visual theme for the generated site.
#[derive(Clone, Debug, PartialEq)]
pub struct Theme {
    pub id: String,
    pub display_name: String,
    pub description: String,
    pub template_dir: String,
}

/// Model of a theme.
pub ghost struct ThemeV {
    pub id: Seq<char>,
    pub display_name: Seq<char>,
    pub description: Seq<char>,
    pub template_dir: Seq<char>,
}

impl View for Theme {
    type V = ThemeV;

    open spec fn view(&self) -> ThemeV {
        ThemeV {
            id: self.id@,
            display_name: self.display_name@,
            description: self.description@,
            template_dir: self.template_dir@,
        }
    }
}

impl DeepView for Theme {
    type V = ThemeV;

    open spec fn deep_view(&self) -> ThemeV {
        self.view()
    }
}

/// The fixed theme catalog, in display order.
pub open spec fn theme_catalog() -> Seq<ThemeV> {
    seq![
        ThemeV {
            id: "ps3"@,
            display_name: "ps3 xmb interface"@,
            description: "classic crossbar menu design with smooth navigation"@,
            template_dir: "ps3-template"@,
        },
        ThemeV {
            id: "ps5"@,
            display_name: "ps5 modern ui"@,
            description: "sleek, modern interface with user profiles and game library"@,
            template_dir: "ps5-template"@,
        },
        ThemeV {
            id: "wii"@,
            display_name: "wii channel menu"@,
            description: "friendly grid layout with colorful channel tiles"@,
            template_dir: "wii-template"@,
        },
    ]
}

impl Theme {
    /// All available console themes, in display order.
    pub fn available_themes() -> (r: Vec<Theme>)
        ensures
            r.deep_view() == theme_catalog(),
    {
        let mut themes: Vec<Theme> = Vec::new();
        themes.push(
            Theme {
                id: "ps3".to_owned(),
                display_name: "ps3 xmb interface".to_owned(),
                description: "classic crossbar menu design with smooth navigation".to_owned(),
                template_dir: "ps3-template".to_owned(),
            },
        );
        themes.push(
            Theme {
                id: "ps5".to_owned(),
                display_name: "ps5 modern ui".to_owned(),
                description: "sleek, modern interface with user profiles and game library"
                    .to_owned(),
                template_dir: "ps5-template".to_owned(),
            },
        );
        themes.push(
            Theme {
                id: "wii".to_owned(),
                display_name: "wii channel menu".to_owned(),
                description: "friendly grid layout with colorful channel tiles".to_owned(),
                template_dir: "wii-template".to_owned(),
            },
        );
        proof {
            assert(themes.deep_view() =~= theme_catalog());
        }
        themes
    }

    /// Looks a theme up by id, case-exactly: the result carries the queried
    /// id, and it is absent exactly when no catalog entry has that id.
    pub fn find_by_id(id: &str) -> (r: Option<Theme>)
        ensures
            r is Some <==> exists|i: int|
                0 <= i < theme_catalog().len() && (#[trigger] theme_catalog()[i].id) == id@,
            r is Some ==> r->0@.id == id@,
            r is Some ==> exists|i: int|
                0 <= i < theme_catalog().len() && #[trigger] theme_catalog()[i] == r->0@,
    {
        let mut themes = Self::available_themes();
        let mut i: usize = 0;
        while i < themes.len()
            invariant
                themes.deep_view() == theme_catalog(),
                i <= theme_catalog().len(),
                forall|j: int| 0 <= j < i ==> (#[trigger] theme_catalog()[j].id) != id@,
            decreases themes.len() - i,
        {
            if str_equal(themes[i].id.as_str(), id) {
                proof {
                    assert(theme_catalog()[i as int] == themes.deep_view()[i as int]);
                    assert(theme_catalog()[i as int].id == id@);
                }
                let t = themes.remove(i);
                return Some(t);
            }
            proof {
                assert(theme_catalog()[i as int] == themes.deep_view()[i as int]);
            }
            i += 1;
        }
        None
    }
}

/// The ps5 layout page with the stock title and bio swapped for the user's.
pub open spec fn ps5_layout_of(content: Seq<char>, user_name: Seq<char>, bio: Seq<char>) -> Seq<
    char,
> {
    replace_seq(
        replace_seq(content, "MilxOS | Developer Portfolio"@, user_name + " | Developer Portfolio"@),
        "a ps5-inspired developer portfolio showcasing projects and skills"@,
        bio,
    )
}

/// The wii layout page with the stock title and bio swapped for the user's.
pub open spec fn wii_layout_of(content: Seq<char>, user_name: Seq<char>, bio: Seq<char>) -> Seq<
    char,
> {
    replace_seq(
        replace_seq(
            content,
            "Wii Portfolio | Developer Channel Menu"@,
            user_name + " | Portfolio Channel Menu"@,
        ),
        "A creative developer portfolio styled like the Nintendo Wii Channel Menu"@,
        bio,
    )
}

/// The ps3 layout page with the stock title and bio swapped for the user's.
pub open spec fn ps3_layout_of(content: Seq<char>, user_name: Seq<char>, bio: Seq<char>) -> Seq<
    char,
> {
    replace_seq(
        replace_seq(content, "Portfolio OS | Developer Portfolio"@, user_name + " | Portfolio"@),
        "A developer portfolio styled like the PlayStation 3 XrossMediaBar interface. Navigate projects, skills, and contact info with keyboard or mouse."@,
        bio,
    )
}

/// Rewrites a ps5 layout page with the user's name and bio.
pub fn update_ps5_layout(content: &str, config: &PortfolioConfig) -> (r: String)
    ensures
        r@ == ps5_layout_of(content@, config@.user.name, config@.user.bio),
{
    proof {
        reveal_strlit("MilxOS | Developer Portfolio");
        reveal_strlit("a ps5-inspired developer portfolio showcasing projects and skills");
    }
    let title = crate::strutil::concat_str(config.user.name.as_str(), " | Developer Portfolio");
    let step = replace_str(content, "MilxOS | Developer Portfolio", title.as_str());
    replace_str(
        step.as_str(),
        "a ps5-inspired developer portfolio showcasing projects and skills",
        config.user.bio.as_str(),
    )
}

/// Rewrites a wii layout page with the user's name and bio.
pub fn update_wii_layout(content: &str, config: &PortfolioConfig) -> (r: String)
    ensures
        r@ == wii_layout_of(content@, config@.user.name, config@.user.bio),
{
    proof {
        reveal_strlit("Wii Portfolio | Developer Channel Menu");
        reveal_strlit("A creative developer portfolio styled like the Nintendo Wii Channel Menu");
    }
    let title = crate::strutil::concat_str(config.user.name.as_str(), " | Portfolio Channel Menu");
    let step = replace_str(content, "Wii Portfolio | Developer Channel Menu", title.as_str());
    replace_str(
        step.as_str(),
        "A creative developer portfolio styled like the Nintendo Wii Channel Menu",
        config.user.bio.as_str(),
    )
}

/// Rewrites a ps3 layout page with the user's name and bio.
pub fn update_ps3_layout(content: &str, config: &PortfolioConfig) -> (r: String)
    ensures
        r@ == ps3_layout_of(content@, config@.user.name, config@.user.bio),
{
    proof {
        reveal_strlit("Portfolio OS | Developer Portfolio");
        reveal_strlit(
            "A developer portfolio styled like the PlayStation 3 XrossMediaBar interface. Navigate projects, skills, and contact info with keyboard or mouse.",
        );
    }
    let title = crate::strutil::concat_str(config.user.name.as_str(), " | Portfolio");
    let step = replace_str(content, "Portfolio OS | Developer Portfolio", title.as_str());
    replace_str(
        step.as_str(),
        "A developer portfolio styled like the PlayStation 3 XrossMediaBar interface. Navigate projects, skills, and contact info with keyboard or mouse.",
        config.user.bio.as_str(),
    )
}

impl Theme {
    /// Rewrites a theme's layout page content with the user's information; an
    /// unknown theme id leaves the content unchanged.
    pub fn update_layout_content(&self, content: &str, config: &PortfolioConfig) -> (r: String)
        ensures
            r@ == (if self@.id == "ps5"@ {
                ps5_layout_of(content@, config@.user.name, config@.user.bio)
            } else if self@.id == "wii"@ {
                wii_layout_of(content@, config@.user.name, config@.user.bio)
            } else if self@.id == "ps3"@ {
                ps3_layout_of(content@, config@.user.name, config@.user.bio)
            } else {
                content@
            }),
    {
        if str_equal(self.id.as_str(), "ps5") {
            update_ps5_layout(content, config)
        } else if str_equal(self.id.as_str(), "wii") {
            update_wii_layout(content, config)
        } else if str_equal(self.id.as_str(), "ps3") {
            update_ps3_layout(content, config)
        } else {
            content.to_owned()
        }
    }
}

} // verus!
