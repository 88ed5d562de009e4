//! Persisted configuration document.
//!
//! The wizard's frozen configuration record is persisted as one JSON document
//! whose field names are a stable external contract.  `config_to_doc` builds
//! that document; `doc_to_config` parses it back.  The round-trip law at the
//! end states that parsing what was serialized reproduces the record, for
//! every record whose extra metadata keys stay clear of the schema's own
//! field names.

use vstd::prelude::*;

use crate::adapt::extra_doc_fields;
use crate::adapt::extra_docv;
use crate::adapt::links_docv;
use crate::adapt::opt_str_docv;
use crate::adapt::passthrough_excluded;
use crate::adapt::passthrough_fixed_key;
use crate::adapt::project_doc;
use crate::adapt::project_to_doc;
use crate::adapt::str_docs;
use crate::doc::Doc;
use crate::doc::DocV;
use crate::doc::doc_model;
use crate::doc::doc_model_fields;
use crate::doc::doc_model_seq;
use crate::doc::lemma_doc_model_fields;
use crate::doc::lemma_doc_model_seq;
use crate::models::CmsType;
use crate::models::ExtraValue;
use crate::models::ExtraValueV;
use crate::models::PortfolioConfig;
use crate::models::PortfolioConfigV;
use crate::models::Project;
use crate::models::ProjectLinks;
use crate::models::ProjectLinksV;
use crate::models::ProjectV;
use crate::models::SocialLinks;
use crate::models::SocialLinksV;
use crate::models::UserInfo;
use crate::models::UserInfoV;
use crate::strutil::str_equal;

verus! {

/// The social-links object of the persisted document.
pub open spec fn social_docv(s: SocialLinksV) -> DocV {
    DocV::Obj(
        seq![
            ("github"@, opt_str_docv(s.github)),
            ("linkedin"@, opt_str_docv(s.linkedin)),
            ("email"@, opt_str_docv(s.email)),
            ("website"@, opt_str_docv(s.website)),
            ("twitter"@, opt_str_docv(s.twitter)),
        ],
    )
}

/// The user object of the persisted document.
pub open spec fn user_docv(u: UserInfoV) -> DocV {
    DocV::Obj(
        seq![
            ("name"@, DocV::Str(u.name)),
            ("title"@, DocV::Str(u.title)),
            ("bio"@, DocV::Str(u.bio)),
            ("avatar"@, DocV::Str(u.avatar)),
            ("social"@, social_docv(u.social)),
        ],
    )
}

/// The documents of the raw project entries, in order.
pub open spec fn project_docs(ps: Seq<ProjectV>) -> Seq<DocV> {
    Seq::new(ps.len(), |i: int| project_doc(ps[i]))
}

/// The whole persisted configuration document.
pub open spec fn config_docv(c: PortfolioConfigV) -> DocV {
    DocV::Obj(
        seq![
            ("user"@, user_docv(c.user)),
            ("projects"@, DocV::Arr(project_docs(c.projects))),
            ("theme"@, DocV::Str(c.theme)),
            ("cms"@, DocV::Str(c.cms.spec_json_tag())),
            ("dev_port"@, DocV::UInt(c.dev_port as u64)),
        ],
    )
}

/// Builds the social-links object.
fn social_to_doc(s: &SocialLinks) -> (r: Doc)
    ensures
        doc_model(r) == social_docv(s@),
{
    let mut fields: Vec<(String, Doc)> = Vec::new();
    crate::adapt::push_field(&mut fields, "github", crate::adapt::opt_to_doc(&s.github));
    crate::adapt::push_field(&mut fields, "linkedin", crate::adapt::opt_to_doc(&s.linkedin));
    crate::adapt::push_field(&mut fields, "email", crate::adapt::opt_to_doc(&s.email));
    crate::adapt::push_field(&mut fields, "website", crate::adapt::opt_to_doc(&s.website));
    crate::adapt::push_field(&mut fields, "twitter", crate::adapt::opt_to_doc(&s.twitter));
    proof {
        assert(doc_model_fields(fields@) =~= social_docv(s@)->Obj_0);
    }
    Doc::Obj(fields)
}

/// Builds the user object.
fn user_to_doc(u: &UserInfo) -> (r: Doc)
    ensures
        doc_model(r) == user_docv(u@),
{
    let mut fields: Vec<(String, Doc)> = Vec::new();
    crate::adapt::push_field(&mut fields, "name", Doc::Str(u.name.clone()));
    crate::adapt::push_field(&mut fields, "title", Doc::Str(u.title.clone()));
    crate::adapt::push_field(&mut fields, "bio", Doc::Str(u.bio.clone()));
    crate::adapt::push_field(&mut fields, "avatar", Doc::Str(u.avatar.clone()));
    crate::adapt::push_field(&mut fields, "social", social_to_doc(&u.social));
    proof {
        assert(doc_model_fields(fields@) =~= user_docv(u@)->Obj_0);
    }
    Doc::Obj(fields)
}

/// Serializes a configuration record into the persisted document.
pub fn config_to_doc(c: &PortfolioConfig) -> (r: Doc)
    ensures
        r.deep_view() == config_docv(c@),
{
    let mut items: Vec<Doc> = Vec::new();
    let mut i: usize = 0;
    proof {
        assert(doc_model_seq(items@) =~= project_docs(c@.projects).take(0));
    }
    while i < c.projects.len()
        invariant
            i <= c.projects@.len(),
            c@.projects.len() == c.projects@.len(),
            doc_model_seq(items@) == project_docs(c@.projects).take(i as int),
        decreases c.projects@.len() - i,
    {
        let d = project_to_doc(&c.projects[i]);
        let ghost before = items@;
        let ghost gd = d;
        items.push(d);
        i += 1;
        proof {
            crate::adapt::lemma_doc_model_seq_push(before, gd);
            assert(doc_model_seq(items@) =~= project_docs(c@.projects).take(i as int));
        }
    }
    proof {
        assert(project_docs(c@.projects).take(i as int) =~= project_docs(c@.projects));
    }
    let mut fields: Vec<(String, Doc)> = Vec::new();
    crate::adapt::push_field(&mut fields, "user", user_to_doc(&c.user));
    crate::adapt::push_field(&mut fields, "projects", Doc::Arr(items));
    crate::adapt::push_field(&mut fields, "theme", Doc::Str(c.theme.clone()));
    crate::adapt::push_field(&mut fields, "cms", Doc::Str(c.cms.json_tag()));
    crate::adapt::push_field(&mut fields, "dev_port", Doc::UInt(c.dev_port as u64));
    proof {
        assert(doc_model_fields(fields@) =~= config_docv(c@)->Obj_0);
    }
    Doc::Obj(fields)
}

/// Parses an optional string: null stands for an absent value.
pub open spec fn decode_opt_str(d: DocV) -> Option<Option<Seq<char>>> {
    match d {
        DocV::Null => Some(Option::None),
        DocV::Str(s) => Some(Option::Some(s)),
        _ => Option::None,
    }
}

/// Parses an array of strings.
pub open spec fn decode_str_seq(items: Seq<DocV>) -> Option<Seq<Seq<char>>>
    decreases items.len(),
{
    if items.len() == 0 {
        Some(Seq::empty())
    } else {
        match items[0] {
            DocV::Str(s) => match decode_str_seq(items.skip(1)) {
                Some(rest) => Some(seq![s] + rest),
                Option::None => Option::None,
            },
            _ => Option::None,
        }
    }
}

/// Parses extra metadata pairs: every value must be a string, number or flag.
pub open spec fn decode_extra_seq(fields: Seq<(Seq<char>, DocV)>) -> Option<
    Seq<(Seq<char>, ExtraValueV)>,
>
    decreases fields.len(),
{
    if fields.len() == 0 {
        Some(Seq::empty())
    } else {
        let v = match fields[0].1 {
            DocV::Str(s) => Some(ExtraValueV::Str(s)),
            DocV::UInt(n) => Some(ExtraValueV::UInt(n)),
            DocV::Bool(b) => Some(ExtraValueV::Bool(b)),
            _ => Option::None,
        };
        match v {
            Some(v0) => match decode_extra_seq(fields.skip(1)) {
                Some(rest) => Some(seq![(fields[0].0, v0)] + rest),
                Option::None => Option::None,
            },
            Option::None => Option::None,
        }
    }
}

/// Parses the links object of a project entry.
pub open spec fn decode_links_v(d: DocV) -> Option<ProjectLinksV> {
    match d {
        DocV::Obj(fs) => {
            if fs.len() == 3 && fs[0].0 == "github"@ && fs[1].0 == "live"@ && fs[2].0 == "demo"@ {
                match (decode_opt_str(fs[0].1), decode_opt_str(fs[1].1), decode_opt_str(fs[2].1)) {
                    (Some(github), Some(live), Some(demo)) => Some(
                        ProjectLinksV { github, live, demo },
                    ),
                    _ => Option::None,
                }
            } else {
                Option::None
            }
        },
        _ => Option::None,
    }
}

/// Parses one project entry of the persisted document.
pub open spec fn decode_project_v(d: DocV) -> Option<ProjectV> {
    match d {
        DocV::Obj(fs) => {
            if fs.len() >= 11 && fs[0].0 == "id"@ && fs[1].0 == "title"@ && fs[2].0
                == "description"@ && fs[3].0 == "full_description"@ && fs[4].0 == "tech_stack"@
                && fs[5].0 == "category"@ && fs[6].0 == "featured"@ && fs[7].0 == "links"@ && fs[8].0
                == "date"@ && fs[9].0 == "thumbnail"@ && fs[10].0 == "screenshots"@ {
                match (fs[0].1, fs[1].1, fs[2].1, fs[3].1, fs[5].1, fs[6].1, fs[8].1, fs[9].1) {
                    (
                        DocV::Str(id),
                        DocV::Str(title),
                        DocV::Str(description),
                        DocV::Str(full_description),
                        DocV::Str(category),
                        DocV::Bool(featured),
                        DocV::Str(date),
                        DocV::Str(thumbnail),
                    ) => {
                        match (fs[4].1, fs[10].1) {
                            (DocV::Arr(tech_items), DocV::Arr(shot_items)) => {
                                match (
                                    decode_str_seq(tech_items),
                                    decode_str_seq(shot_items),
                                    decode_links_v(fs[7].1),
                                    decode_extra_seq(fs.skip(11)),
                                ) {
                                    (
                                        Some(tech_stack),
                                        Some(screenshots),
                                        Some(links),
                                        Some(extra),
                                    ) => Some(
                                        ProjectV {
                                            id,
                                            title,
                                            description,
                                            full_description,
                                            tech_stack,
                                            category,
                                            featured,
                                            links,
                                            date,
                                            thumbnail,
                                            screenshots,
                                            extra,
                                        },
                                    ),
                                    _ => Option::None,
                                }
                            },
                            _ => Option::None,
                        }
                    },
                    _ => Option::None,
                }
            } else {
                Option::None
            }
        },
        _ => Option::None,
    }
}

/// Parses the project array of the persisted document.
pub open spec fn decode_projects_v(items: Seq<DocV>) -> Option<Seq<ProjectV>>
    decreases items.len(),
{
    if items.len() == 0 {
        Some(Seq::empty())
    } else {
        match decode_project_v(items[0]) {
            Some(p) => match decode_projects_v(items.skip(1)) {
                Some(rest) => Some(seq![p] + rest),
                Option::None => Option::None,
            },
            Option::None => Option::None,
        }
    }
}

/// Parses the social-links object.
pub open spec fn decode_social_v(d: DocV) -> Option<SocialLinksV> {
    match d {
        DocV::Obj(fs) => {
            if fs.len() == 5 && fs[0].0 == "github"@ && fs[1].0 == "linkedin"@ && fs[2].0
                == "email"@ && fs[3].0 == "website"@ && fs[4].0 == "twitter"@ {
                match (
                    decode_opt_str(fs[0].1),
                    decode_opt_str(fs[1].1),
                    decode_opt_str(fs[2].1),
                    decode_opt_str(fs[3].1),
                    decode_opt_str(fs[4].1),
                ) {
                    (Some(github), Some(linkedin), Some(email), Some(website), Some(twitter)) =>
                        Some(SocialLinksV { github, linkedin, email, website, twitter }),
                    _ => Option::None,
                }
            } else {
                Option::None
            }
        },
        _ => Option::None,
    }
}

/// Parses the user object.
pub open spec fn decode_user_v(d: DocV) -> Option<UserInfoV> {
    match d {
        DocV::Obj(fs) => {
            if fs.len() == 5 && fs[0].0 == "name"@ && fs[1].0 == "title"@ && fs[2].0 == "bio"@
                && fs[3].0 == "avatar"@ && fs[4].0 == "social"@ {
                match (fs[0].1, fs[1].1, fs[2].1, fs[3].1) {
                    (DocV::Str(name), DocV::Str(title), DocV::Str(bio), DocV::Str(avatar)) => {
                        match decode_social_v(fs[4].1) {
                            Some(social) => Some(UserInfoV { name, title, bio, avatar, social }),
                            Option::None => Option::None,
                        }
                    },
                    _ => Option::None,
                }
            } else {
                Option::None
            }
        },
        _ => Option::None,
    }
}

/// Parses a content-management tag.
pub open spec fn decode_cms_v(s: Seq<char>) -> Option<CmsType> {
    if s == "decap"@ {
        Some(CmsType::Decap)
    } else if s == "payload"@ {
        Some(CmsType::Payload)
    } else if s == "none"@ {
        Some(CmsType::NoCms)
    } else {
        Option::None
    }
}

/// Parses the whole persisted configuration document.
pub open spec fn config_of_doc(d: DocV) -> Option<PortfolioConfigV> {
    match d {
        DocV::Obj(fs) => {
            if fs.len() == 5 && fs[0].0 == "user"@ && fs[1].0 == "projects"@ && fs[2].0 == "theme"@
                && fs[3].0 == "cms"@ && fs[4].0 == "dev_port"@ {
                match (fs[1].1, fs[2].1, fs[3].1, fs[4].1) {
                    (DocV::Arr(items), DocV::Str(theme), DocV::Str(cms_tag), DocV::UInt(port)) => {
                        if port <= 0xFFFF {
                            match (
                                decode_user_v(fs[0].1),
                                decode_projects_v(items),
                                decode_cms_v(cms_tag),
                            ) {
                                (Some(user), Some(projects), Some(cms)) => Some(
                                    PortfolioConfigV {
                                        user,
                                        projects,
                                        theme,
                                        cms,
                                        dev_port: port as u16,
                                    },
                                ),
                                _ => Option::None,
                            }
                        } else {
                            Option::None
                        }
                    },
                    _ => Option::None,
                }
            } else {
                Option::None
            }
        },
        _ => Option::None,
    }
}

/// Parses an optional string from a document node.
fn decode_opt_string(d: &Doc) -> (r: Option<Option<String>>)
    ensures
        r is Some <==> decode_opt_str(doc_model(*d)) is Some,
        r matches Some(o) ==> decode_opt_str(doc_model(*d)) == Some(o.deep_view()),
{
    match d {
        Doc::Null => Some(None),
        Doc::Str(s) => Some(Some(s.clone())),
        _ => None,
    }
}

/// Parses an array of strings.
#[verifier::loop_isolation(false)]
fn decode_string_items(items: &Vec<Doc>) -> (r: Option<Vec<String>>)
    ensures
        r is Some <==> decode_str_seq(doc_model_seq(items@)) is Some,
        r matches Some(v) ==> decode_str_seq(doc_model_seq(items@)) == Some(v.deep_view()),
{
    let ghost ms = doc_model_seq(items@);
    proof {
        lemma_doc_model_seq(items@);
        assert(ms.skip(0) =~= ms);
    }
    let mut out: Vec<String> = Vec::new();
    let mut j: usize = 0;
    while j < items.len()
        invariant
            j <= items@.len(),
            ms.len() == items@.len(),
            (decode_str_seq(ms) is Some <==> decode_str_seq(ms.skip(j as int)) is Some),
            decode_str_seq(ms.skip(j as int)) matches Some(rest) ==> decode_str_seq(ms) == Some(
                out.deep_view() + rest,
            ),
        decreases items@.len() - j,
    {
        proof {
            assert(ms.skip(j as int)[0] == ms[j as int]);
            assert(ms[j as int] == doc_model(items@[j as int]));
            assert(ms.skip(j as int).skip(1) =~= ms.skip(j + 1));
        }
        match &items[j] {
            Doc::Str(s) => {
                let ghost before = out.deep_view();
                out.push(s.clone());
                proof {
                    assert(out.deep_view() =~= before.push(s@));
                    if decode_str_seq(ms.skip(j + 1)) is Some {
                        let ghost rest = decode_str_seq(ms.skip(j + 1))->0;
                        assert(before + (seq![s@] + rest) =~= out.deep_view() + rest);
                    }
                }
            },
            _ => {
                return None;
            },
        }
        j += 1;
    }
    proof {
        assert(ms.skip(items@.len() as int) =~= Seq::<DocV>::empty());
        assert(out.deep_view() + Seq::<Seq<char>>::empty() =~= out.deep_view());
    }
    Some(out)
}

/// Parses extra metadata pairs from an object's tail, starting at a position.
#[verifier::loop_isolation(false)]
fn decode_extra_items(fields: &Vec<(String, Doc)>, start: usize) -> (r: Option<
    Vec<(String, ExtraValue)>,
>)
    requires
        start <= fields@.len(),
    ensures
        r is Some <==> decode_extra_seq(doc_model_fields(fields@).skip(start as int)) is Some,
        r matches Some(v) ==> decode_extra_seq(doc_model_fields(fields@).skip(start as int))
            == Some(v.deep_view()),
{
    let ghost mf = doc_model_fields(fields@);
    proof {
        lemma_doc_model_fields(fields@);
    }
    let mut out: Vec<(String, ExtraValue)> = Vec::new();
    let mut j: usize = start;
    proof {
        assert(out.deep_view() =~= Seq::<(Seq<char>, ExtraValueV)>::empty());
    }
    while j < fields.len()
        invariant
            start <= j <= fields@.len(),
            mf.len() == fields@.len(),
            (decode_extra_seq(mf.skip(start as int)) is Some <==> decode_extra_seq(
                mf.skip(j as int),
            ) is Some),
            decode_extra_seq(mf.skip(j as int)) matches Some(rest) ==> decode_extra_seq(
                mf.skip(start as int),
            ) == Some(out.deep_view() + rest),
        decreases fields@.len() - j,
    {
        proof {
            assert(mf.skip(j as int)[0] == mf[j as int]);
            assert(mf.skip(j as int).skip(1) =~= mf.skip(j + 1));
        }
        let pair = &fields[j];
        let value: ExtraValue = match &pair.1 {
            Doc::Str(s) => ExtraValue::Str(s.clone()),
            Doc::UInt(n) => ExtraValue::UInt(*n),
            Doc::Bool(b) => ExtraValue::Bool(*b),
            _ => {
                return None;
            },
        };
        let ghost before = out.deep_view();
        let item = (pair.0.clone(), value);
        let ghost gitem = item;
        out.push(item);
        proof {
            assert(out.deep_view() =~= before.push((gitem.0@, gitem.1@)));
            if decode_extra_seq(mf.skip(j + 1)) is Some {
                let ghost rest = decode_extra_seq(mf.skip(j + 1))->0;
                assert(before + (seq![(mf[j as int].0, gitem.1@)] + rest) =~= out.deep_view()
                    + rest);
            }
        }
        j += 1;
    }
    proof {
        assert(mf.skip(fields@.len() as int) =~= Seq::<(Seq<char>, DocV)>::empty());
        assert(out.deep_view() + Seq::<(Seq<char>, ExtraValueV)>::empty() =~= out.deep_view());
    }
    Some(out)
}

/// Parses the links object of a project entry.
fn decode_links(d: &Doc) -> (r: Option<ProjectLinks>)
    ensures
        r is Some <==> decode_links_v(doc_model(*d)) is Some,
        r matches Some(l) ==> decode_links_v(doc_model(*d)) == Some(l@),
{
    match d {
        Doc::Obj(fields) => {
            proof {
                lemma_doc_model_fields(fields@);
            }
            if fields.len() != 3 {
                return None;
            }
            if !(str_equal(fields[0].0.as_str(), "github") && str_equal(
                fields[1].0.as_str(),
                "live",
            ) && str_equal(fields[2].0.as_str(), "demo")) {
                return None;
            }
            let github = match decode_opt_string(&fields[0].1) {
                Some(o) => o,
                None => {
                    return None;
                },
            };
            let live = match decode_opt_string(&fields[1].1) {
                Some(o) => o,
                None => {
                    return None;
                },
            };
            let demo = match decode_opt_string(&fields[2].1) {
                Some(o) => o,
                None => {
                    return None;
                },
            };
            Some(ProjectLinks { github, live, demo })
        },
        _ => None,
    }
}

/// Parses one project entry of the persisted document.
fn decode_project(d: &Doc) -> (r: Option<Project>)
    ensures
        r is Some <==> decode_project_v(doc_model(*d)) is Some,
        r matches Some(p) ==> decode_project_v(doc_model(*d)) == Some(p@),
{
    match d {
        Doc::Obj(fields) => {
            proof {
                lemma_doc_model_fields(fields@);
            }
            if fields.len() < 11 {
                return None;
            }
            if !(str_equal(fields[0].0.as_str(), "id") && str_equal(fields[1].0.as_str(), "title")
                && str_equal(fields[2].0.as_str(), "description") && str_equal(
                fields[3].0.as_str(),
                "full_description",
            ) && str_equal(fields[4].0.as_str(), "tech_stack") && str_equal(
                fields[5].0.as_str(),
                "category",
            ) && str_equal(fields[6].0.as_str(), "featured") && str_equal(
                fields[7].0.as_str(),
                "links",
            ) && str_equal(fields[8].0.as_str(), "date") && str_equal(
                fields[9].0.as_str(),
                "thumbnail",
            ) && str_equal(fields[10].0.as_str(), "screenshots")) {
                return None;
            }
            let id = match &fields[0].1 {
                Doc::Str(s) => s.clone(),
                _ => {
                    return None;
                },
            };
            let title = match &fields[1].1 {
                Doc::Str(s) => s.clone(),
                _ => {
                    return None;
                },
            };
            let description = match &fields[2].1 {
                Doc::Str(s) => s.clone(),
                _ => {
                    return None;
                },
            };
            let full_description = match &fields[3].1 {
                Doc::Str(s) => s.clone(),
                _ => {
                    return None;
                },
            };
            let tech_stack = match &fields[4].1 {
                Doc::Arr(items) => match decode_string_items(items) {
                    Some(v) => v,
                    None => {
                        return None;
                    },
                },
                _ => {
                    return None;
                },
            };
            let category = match &fields[5].1 {
                Doc::Str(s) => s.clone(),
                _ => {
                    return None;
                },
            };
            let featured = match &fields[6].1 {
                Doc::Bool(b) => *b,
                _ => {
                    return None;
                },
            };
            let links = match decode_links(&fields[7].1) {
                Some(l) => l,
                None => {
                    return None;
                },
            };
            let date = match &fields[8].1 {
                Doc::Str(s) => s.clone(),
                _ => {
                    return None;
                },
            };
            let thumbnail = match &fields[9].1 {
                Doc::Str(s) => s.clone(),
                _ => {
                    return None;
                },
            };
            let screenshots = match &fields[10].1 {
                Doc::Arr(items) => match decode_string_items(items) {
                    Some(v) => v,
                    None => {
                        return None;
                    },
                },
                _ => {
                    return None;
                },
            };
            let extra = match decode_extra_items(fields, 11) {
                Some(v) => v,
                None => {
                    return None;
                },
            };
            Some(
                Project {
                    id,
                    title,
                    description,
                    full_description,
                    tech_stack,
                    category,
                    featured,
                    links,
                    date,
                    thumbnail,
                    screenshots,
                    extra,
                },
            )
        },
        _ => None,
    }
}

/// Parses the project array of the persisted document.
#[verifier::loop_isolation(false)]
fn decode_projects(items: &Vec<Doc>) -> (r: Option<Vec<Project>>)
    ensures
        r is Some <==> decode_projects_v(doc_model_seq(items@)) is Some,
        r matches Some(v) ==> decode_projects_v(doc_model_seq(items@)) == Some(v.deep_view()),
{
    let ghost ms = doc_model_seq(items@);
    proof {
        lemma_doc_model_seq(items@);
        assert(ms.skip(0) =~= ms);
    }
    let mut out: Vec<Project> = Vec::new();
    let mut j: usize = 0;
    while j < items.len()
        invariant
            j <= items@.len(),
            ms.len() == items@.len(),
            (decode_projects_v(ms) is Some <==> decode_projects_v(ms.skip(j as int)) is Some),
            decode_projects_v(ms.skip(j as int)) matches Some(rest) ==> decode_projects_v(ms)
                == Some(out.deep_view() + rest),
        decreases items@.len() - j,
    {
        proof {
            assert(ms.skip(j as int)[0] == ms[j as int]);
            assert(ms[j as int] == doc_model(items@[j as int]));
            assert(ms.skip(j as int).skip(1) =~= ms.skip(j + 1));
        }
        match decode_project(&items[j]) {
            Some(p) => {
                let ghost before = out.deep_view();
                let ghost pv = p@;
                out.push(p);
                proof {
                    assert(out.deep_view() =~= before.push(pv));
                    if decode_projects_v(ms.skip(j + 1)) is Some {
                        let ghost rest = decode_projects_v(ms.skip(j + 1))->0;
                        assert(before + (seq![pv] + rest) =~= out.deep_view() + rest);
                    }
                }
            },
            None => {
                return None;
            },
        }
        j += 1;
    }
    proof {
        assert(ms.skip(items@.len() as int) =~= Seq::<DocV>::empty());
        assert(out.deep_view() + Seq::<ProjectV>::empty() =~= out.deep_view());
    }
    Some(out)
}

/// Parses the social-links object.
fn decode_social(d: &Doc) -> (r: Option<SocialLinks>)
    ensures
        r is Some <==> decode_social_v(doc_model(*d)) is Some,
        r matches Some(s) ==> decode_social_v(doc_model(*d)) == Some(s@),
{
    match d {
        Doc::Obj(fields) => {
            proof {
                lemma_doc_model_fields(fields@);
            }
            if fields.len() != 5 {
                return None;
            }
            if !(str_equal(fields[0].0.as_str(), "github") && str_equal(
                fields[1].0.as_str(),
                "linkedin",
            ) && str_equal(fields[2].0.as_str(), "email") && str_equal(
                fields[3].0.as_str(),
                "website",
            ) && str_equal(fields[4].0.as_str(), "twitter")) {
                return None;
            }
            let github = match decode_opt_string(&fields[0].1) {
                Some(o) => o,
                None => {
                    return None;
                },
            };
            let linkedin = match decode_opt_string(&fields[1].1) {
                Some(o) => o,
                None => {
                    return None;
                },
            };
            let email = match decode_opt_string(&fields[2].1) {
                Some(o) => o,
                None => {
                    return None;
                },
            };
            let website = match decode_opt_string(&fields[3].1) {
                Some(o) => o,
                None => {
                    return None;
                },
            };
            let twitter = match decode_opt_string(&fields[4].1) {
                Some(o) => o,
                None => {
                    return None;
                },
            };
            Some(SocialLinks { github, linkedin, email, website, twitter })
        },
        _ => None,
    }
}

/// Parses the user object.
fn decode_user(d: &Doc) -> (r: Option<UserInfo>)
    ensures
        r is Some <==> decode_user_v(doc_model(*d)) is Some,
        r matches Some(u) ==> decode_user_v(doc_model(*d)) == Some(u@),
{
    match d {
        Doc::Obj(fields) => {
            proof {
                lemma_doc_model_fields(fields@);
            }
            if fields.len() != 5 {
                return None;
            }
            if !(str_equal(fields[0].0.as_str(), "name") && str_equal(
                fields[1].0.as_str(),
                "title",
            ) && str_equal(fields[2].0.as_str(), "bio") && str_equal(fields[3].0.as_str(), "avatar")
                && str_equal(fields[4].0.as_str(), "social")) {
                return None;
            }
            let name = match &fields[0].1 {
                Doc::Str(s) => s.clone(),
                _ => {
                    return None;
                },
            };
            let title = match &fields[1].1 {
                Doc::Str(s) => s.clone(),
                _ => {
                    return None;
                },
            };
            let bio = match &fields[2].1 {
                Doc::Str(s) => s.clone(),
                _ => {
                    return None;
                },
            };
            let avatar = match &fields[3].1 {
                Doc::Str(s) => s.clone(),
                _ => {
                    return None;
                },
            };
            let social = match decode_social(&fields[4].1) {
                Some(s) => s,
                None => {
                    return None;
                },
            };
            Some(UserInfo { name, title, bio, avatar, social })
        },
        _ => None,
    }
}

/// Parses the whole persisted configuration document back into a record.
pub fn doc_to_config(d: &Doc) -> (r: Option<PortfolioConfig>)
    ensures
        r is Some <==> config_of_doc(doc_model(*d)) is Some,
        r matches Some(c) ==> config_of_doc(doc_model(*d)) == Some(c@),
{
    match d {
        Doc::Obj(fields) => {
            proof {
                lemma_doc_model_fields(fields@);
            }
            if fields.len() != 5 {
                return None;
            }
            if !(str_equal(fields[0].0.as_str(), "user") && str_equal(
                fields[1].0.as_str(),
                "projects",
            ) && str_equal(fields[2].0.as_str(), "theme") && str_equal(fields[3].0.as_str(), "cms")
                && str_equal(fields[4].0.as_str(), "dev_port")) {
                return None;
            }
            let user = match decode_user(&fields[0].1) {
                Some(u) => u,
                None => {
                    return None;
                },
            };
            let projects = match &fields[1].1 {
                Doc::Arr(items) => match decode_projects(items) {
                    Some(v) => v,
                    None => {
                        return None;
                    },
                },
                _ => {
                    return None;
                },
            };
            let theme = match &fields[2].1 {
                Doc::Str(s) => s.clone(),
                _ => {
                    return None;
                },
            };
            let cms = match &fields[3].1 {
                Doc::Str(tag) => {
                    if str_equal(tag.as_str(), "decap") {
                        CmsType::Decap
                    } else if str_equal(tag.as_str(), "payload") {
                        CmsType::Payload
                    } else if str_equal(tag.as_str(), "none") {
                        CmsType::NoCms
                    } else {
                        return None;
                    }
                },
                _ => {
                    return None;
                },
            };
            let dev_port: u16 = match &fields[4].1 {
                Doc::UInt(n) => {
                    if *n <= 0xFFFF {
                        *n as u16
                    } else {
                        return None;
                    }
                },
                _ => {
                    return None;
                },
            };
            Some(PortfolioConfig { user, projects, theme, cms, dev_port })
        },
        _ => None,
    }
}

/// Whether an entry's extra metadata keys stay clear of the persisted
/// document's own field names, so that nothing is lost when they merge.
pub open spec fn extra_keys_clear(p: ProjectV) -> bool {
    forall|i: int| 0 <= i < p.extra.len() ==> !passthrough_fixed_key((#[trigger] p.extra[i]).0)
}

/// Parsing undoes serializing for an optional string.
proof fn lemma_decode_opt_str(o: Option<Seq<char>>)
    ensures
        decode_opt_str(opt_str_docv(o)) == Some(o),
{
}

/// Parsing undoes serializing for a string list.
proof fn lemma_decode_str_docs(v: Seq<Seq<char>>)
    ensures
        decode_str_seq(str_docs(v)) == Some(v),
    decreases v.len(),
{
    if v.len() > 0 {
        assert(str_docs(v).skip(1) =~= str_docs(v.skip(1)));
        lemma_decode_str_docs(v.skip(1));
        assert(seq![v[0]] + v.skip(1) =~= v);
    } else {
        assert(str_docs(v).len() == 0);
        assert(Seq::<Seq<char>>::empty() =~= v);
    }
}

/// Parsing undoes serializing for extra metadata whose keys stay clear of the
/// fixed field names.
proof fn lemma_decode_extra_fields(e: Seq<(Seq<char>, ExtraValueV)>)
    requires
        forall|i: int| 0 <= i < e.len() ==> !passthrough_fixed_key((#[trigger] e[i]).0),
    ensures
        decode_extra_seq(extra_doc_fields(e, passthrough_excluded())) == Some(e),
    decreases e.len(),
{
    if e.len() > 0 {
        lemma_decode_extra_fields(e.skip(1));
        assert(!passthrough_fixed_key(e[0].0));
        let tail = extra_doc_fields(e.skip(1), passthrough_excluded());
        assert(extra_doc_fields(e, passthrough_excluded()) == seq![(e[0].0, extra_docv(e[0].1))]
            + tail);
        let whole = extra_doc_fields(e, passthrough_excluded());
        assert(whole[0] == (e[0].0, extra_docv(e[0].1)));
        assert(whole.skip(1) =~= tail);
        assert(seq![(e[0].0, e[0].1)] + e.skip(1) =~= e);
    } else {
        assert(extra_doc_fields(e, passthrough_excluded()).len() == 0);
        assert(Seq::<(Seq<char>, ExtraValueV)>::empty() =~= e);
    }
}

/// Parsing undoes serializing for a links object.
proof fn lemma_decode_links(l: ProjectLinksV)
    ensures
        decode_links_v(links_docv(l)) == Some(l),
{
    lemma_decode_opt_str(l.github);
    lemma_decode_opt_str(l.live);
    lemma_decode_opt_str(l.demo);
}

/// Parsing undoes serializing for one project entry whose extra keys stay
/// clear of the fixed field names.
proof fn lemma_decode_project(p: ProjectV)
    requires
        extra_keys_clear(p),
    ensures
        decode_project_v(project_doc(p)) == Some(p),
{
    let fixed = project_doc(p)->Obj_0.take(11);
    let tail = extra_doc_fields(p.extra, passthrough_excluded());
    assert(project_doc(p)->Obj_0.skip(11) =~= tail);
    lemma_decode_str_docs(p.tech_stack);
    lemma_decode_str_docs(p.screenshots);
    lemma_decode_links(p.links);
    lemma_decode_extra_fields(p.extra);
}

/// Parsing undoes serializing for the project array.
proof fn lemma_decode_projects(ps: Seq<ProjectV>)
    requires
        forall|i: int| 0 <= i < ps.len() ==> extra_keys_clear(#[trigger] ps[i]),
    ensures
        decode_projects_v(project_docs(ps)) == Some(ps),
    decreases ps.len(),
{
    if ps.len() > 0 {
        lemma_decode_project(ps[0]);
        assert(project_docs(ps).skip(1) =~= project_docs(ps.skip(1)));
        lemma_decode_projects(ps.skip(1));
        assert(seq![ps[0]] + ps.skip(1) =~= ps);
    } else {
        assert(project_docs(ps).len() == 0);
        assert(Seq::<ProjectV>::empty() =~= ps);
    }
}

/// Parsing undoes serializing for the social links and the user object.
proof fn lemma_decode_user(u: UserInfoV)
    ensures
        decode_user_v(user_docv(u)) == Some(u),
{
    lemma_decode_opt_str(u.social.github);
    lemma_decode_opt_str(u.social.linkedin);
    lemma_decode_opt_str(u.social.email);
    lemma_decode_opt_str(u.social.website);
    lemma_decode_opt_str(u.social.twitter);
}

/// Round trip: serializing a configuration record into the persisted document
/// and parsing it back reproduces the record exactly, for every record whose
/// entries keep their extra metadata keys clear of the schema's own field
/// names.
pub proof fn lemma_config_doc_round_trip(c: PortfolioConfigV)
    requires
        forall|i: int| 0 <= i < c.projects.len() ==> extra_keys_clear(#[trigger] c.projects[i]),
    ensures
        config_of_doc(config_docv(c)) == Some(c),
{
    reveal_strlit("decap");
    reveal_strlit("payload");
    reveal_strlit("none");
    lemma_decode_user(c.user);
    lemma_decode_projects(c.projects);
    assert(decode_cms_v(c.cms.spec_json_tag()) == Some(c.cms)) by {
        assert("decap"@.len() == 5);
        assert("payload"@.len() == 7);
        assert("none"@.len() == 4);
        match c.cms {
            CmsType::Decap => {
                assert(c.cms.spec_json_tag() == "decap"@);
            },
            CmsType::Payload => {
                assert(c.cms.spec_json_tag() == "payload"@);
                assert("payload"@ != "decap"@);
            },
            CmsType::NoCms => {
                assert(c.cms.spec_json_tag() == "none"@);
                assert("none"@ != "decap"@);
                assert("none"@ != "payload"@);
            },
        }
    }
    assert(c == (PortfolioConfigV {
        user: c.user,
        projects: c.projects,
        theme: c.theme,
        cms: c.cms,
        dev_port: c.dev_port,
    }));
}

} // verus!
