//! Theme adaptation engine.
//!
//! A deterministic transform from the ordered project list to the
//! theme-specific output document.  The derived quantities (ranks, the
//! completeness score, the progress percentage, category and priority tags)
//! are computed from entry content and list position alone.

use vstd::prelude::*;
use vstd::string::StrSliceExecFns;

use crate::doc::Doc;
use crate::doc::DocV;
use crate::doc::doc_model;
use crate::doc::doc_model_fields;
use crate::doc::doc_model_seq;
use crate::doc::lemma_doc_model_fields;
use crate::doc::lemma_doc_model_seq;
use crate::models::ExtraValue;
use crate::models::ExtraValueV;
use crate::models::Project;
use crate::models::ProjectV;
use crate::models::extra_lookup;
use crate::models::extra_uint;
use crate::strutil::dec_str;
use crate::strutil::lower_of;
use crate::strutil::lowercase;
use crate::strutil::replace_char;
use crate::strutil::str_equal;
use crate::strutil::swap_chars;
use crate::strutil::u64_to_dec;

verus! {

/// The star count recorded in an entry's extra metadata, 0 when absent.
pub open spec fn stars_of(p: ProjectV) -> u64 {
    extra_uint(p.extra, "stars"@)
}

/// Whether an entry links to a live demo.
pub open spec fn has_live(p: ProjectV) -> bool {
    p.links.live is Some
}

/// Whether an entry ranks high for recruiters: a live demo and more than ten
/// stars.
pub open spec fn recruiter_cond(p: ProjectV) -> bool {
    has_live(p) && stars_of(p) > 10
}

/// Whether an entry ranks high for engineers: more than three technology tags.
pub open spec fn engineer_cond(p: ProjectV) -> bool {
    p.tech_stack.len() > 3
}

/// Whether an entry ranks high for strangers: the featured flag.
pub open spec fn stranger_cond(p: ProjectV) -> bool {
    p.featured
}

/// The recruiter rank of the entry at position `i`; lower means higher
/// priority.
pub open spec fn recruiter_rank(p: ProjectV, i: int) -> int {
    if recruiter_cond(p) {
        i + 1
    } else {
        i + 5
    }
}

/// The engineer rank of the entry at position `i`.
pub open spec fn engineer_rank(p: ProjectV, i: int) -> int {
    if engineer_cond(p) {
        i + 1
    } else {
        i + 3
    }
}

/// The stranger rank of the entry at position `i`.
pub open spec fn stranger_rank(p: ProjectV, i: int) -> int {
    if stranger_cond(p) {
        i + 1
    } else {
        i + 4
    }
}

/// The completeness score of an entry: a base of 5, plus 2 for a full
/// description, 2 for any link, 2 for a non-empty technology list, 1 for more
/// than five stars, and 2 for a live demo; 14 at most.
pub open spec fn completeness_score(p: ProjectV) -> int {
    5 + (if p.full_description.len() > 0 {
        2int
    } else {
        0int
    }) + (if p.links.github is Some || p.links.live is Some {
        2int
    } else {
        0int
    }) + (if p.tech_stack.len() > 0 {
        2int
    } else {
        0int
    }) + (if stars_of(p) > 5 {
        1int
    } else {
        0int
    }) + (if has_live(p) {
        2int
    } else {
        0int
    })
}

/// The number of achievements a fully complete entry would have.
pub const TOTAL_ACHIEVEMENTS: u64 = 14;

/// The completion percentage for a score out of 14, rounded to the nearest
/// whole percent.
pub open spec fn progress_percent(score: int) -> int {
    (score * 100 + 7) / 14
}

/// Rank is monotonic in position within each condition bucket: of two entries
/// that both satisfy, or both fail, the recruiter condition, the earlier one
/// always ranks strictly higher (lower number) for recruiters.
pub proof fn lemma_recruiter_rank_monotone(p1: ProjectV, p2: ProjectV, i: int, j: int)
    requires
        0 <= i < j,
        recruiter_cond(p1) == recruiter_cond(p2),
    ensures
        recruiter_rank(p1, i) < recruiter_rank(p2, j),
{
}

/// The engineer rank is monotonic in position within each condition bucket.
pub proof fn lemma_engineer_rank_monotone(p1: ProjectV, p2: ProjectV, i: int, j: int)
    requires
        0 <= i < j,
        engineer_cond(p1) == engineer_cond(p2),
    ensures
        engineer_rank(p1, i) < engineer_rank(p2, j),
{
}

/// The stranger rank is monotonic in position within each condition bucket.
pub proof fn lemma_stranger_rank_monotone(p1: ProjectV, p2: ProjectV, i: int, j: int)
    requires
        0 <= i < j,
        stranger_cond(p1) == stranger_cond(p2),
    ensures
        stranger_rank(p1, i) < stranger_rank(p2, j),
{
}

/// The completeness score always lies between 5 and 14, and the progress
/// percentage between 0 and 100.
pub proof fn lemma_score_bounds(p: ProjectV)
    ensures
        5 <= completeness_score(p) <= 14,
        0 <= progress_percent(completeness_score(p)) <= 100,
{
}

/// The document node for an optional string: the string, or null when absent.
pub open spec fn opt_str_docv(o: Option<Seq<char>>) -> DocV {
    match o {
        Option::Some(s) => DocV::Str(s),
        Option::None => DocV::Null,
    }
}

/// The document nodes for a list of strings.
pub open spec fn str_docs(v: Seq<Seq<char>>) -> Seq<DocV> {
    Seq::new(v.len(), |i: int| DocV::Str(v[i]))
}

/// The document node for one extra metadata value.
pub open spec fn extra_docv(v: ExtraValueV) -> DocV {
    match v {
        ExtraValueV::Str(s) => DocV::Str(s),
        ExtraValueV::UInt(n) => DocV::UInt(n),
        ExtraValueV::Bool(b) => DocV::Bool(b),
    }
}

/// The document fields contributed by an entry's extra metadata: each pair in
/// order, skipping keys that the fixed fields already use (fixed fields win).
pub open spec fn extra_doc_fields(
    extra: Seq<(Seq<char>, ExtraValueV)>,
    excluded: spec_fn(Seq<char>) -> bool,
) -> Seq<(Seq<char>, DocV)>
    decreases extra.len(),
{
    if extra.len() == 0 {
        Seq::empty()
    } else {
        let rest = extra_doc_fields(extra.skip(1), excluded);
        if excluded(extra[0].0) {
            rest
        } else {
            seq![(extra[0].0, extra_docv(extra[0].1))] + rest
        }
    }
}

/// Appending one field to an object extends its model by that field's model.
pub proof fn lemma_doc_model_fields_push(s: Seq<(String, Doc)>, x: (String, Doc))
    ensures
        doc_model_fields(s.push(x)) == doc_model_fields(s) + seq![(x.0@, doc_model(x.1))],
{
    lemma_doc_model_fields(s.push(x));
    lemma_doc_model_fields(s);
    assert forall|i: int| 0 <= i < s.len() + 1 implies doc_model_fields(s.push(x))[i] == (
    doc_model_fields(s) + seq![(x.0@, doc_model(x.1))])[i] by {
        if i < s.len() {
            assert(s.push(x)[i] == s[i]);
        } else {
            assert(s.push(x)[i] == x);
        }
    }
    assert(doc_model_fields(s.push(x)) =~= doc_model_fields(s) + seq![(x.0@, doc_model(x.1))]);
}

/// Appending one element to an array extends its model by that element's
/// model.
pub proof fn lemma_doc_model_seq_push(s: Seq<Doc>, x: Doc)
    ensures
        doc_model_seq(s.push(x)) == doc_model_seq(s) + seq![doc_model(x)],
{
    lemma_doc_model_seq(s.push(x));
    lemma_doc_model_seq(s);
    assert forall|i: int| 0 <= i < s.len() + 1 implies doc_model_seq(s.push(x))[i] == (
    doc_model_seq(s) + seq![doc_model(x)])[i] by {
        if i < s.len() {
            assert(s.push(x)[i] == s[i]);
        } else {
            assert(s.push(x)[i] == x);
        }
    }
    assert(doc_model_seq(s.push(x)) =~= doc_model_seq(s) + seq![doc_model(x)]);
}

/// Appends one named field to an object under construction.
pub fn push_field(fields: &mut Vec<(String, Doc)>, key: &str, value: Doc)
    ensures
        doc_model_fields(final(fields)@) == doc_model_fields(old(fields)@) + seq![
            (key@, doc_model(value)),
        ],
{
    let ghost before = fields@;
    let item = (key.to_owned(), value);
    let ghost gitem = item;
    fields.push(item);
    proof {
        lemma_doc_model_fields_push(before, gitem);
    }
}

/// Builds the document node for an optional string.
pub fn opt_to_doc(o: &Option<String>) -> (r: Doc)
    ensures
        doc_model(r) == opt_str_docv(o.deep_view()),
{
    match o {
        Some(s) => Doc::Str(s.clone()),
        None => Doc::Null,
    }
}

/// Builds the document array for a list of strings.
pub fn strings_to_doc(v: &Vec<String>) -> (r: Doc)
    ensures
        doc_model(r) == DocV::Arr(str_docs(v.deep_view())),
{
    let mut items: Vec<Doc> = Vec::new();
    let mut i: usize = 0;
    proof {
        assert(doc_model_seq(items@) =~= str_docs(v.deep_view()).take(0));
    }
    while i < v.len()
        invariant
            i <= v@.len(),
            doc_model_seq(items@) == str_docs(v.deep_view()).take(i as int),
        decreases v@.len() - i,
    {
        let ghost before = items@;
        let item = Doc::Str(v[i].clone());
        let ghost gitem = item;
        items.push(item);
        i += 1;
        proof {
            lemma_doc_model_seq_push(before, gitem);
            assert(doc_model_seq(items@) =~= str_docs(v.deep_view()).take(i as int));
        }
    }
    proof {
        assert(str_docs(v.deep_view()).take(i as int) =~= str_docs(v.deep_view()));
    }
    Doc::Arr(items)
}

/// Builds the document node for one extra metadata value.
fn extra_value_to_doc(v: &ExtraValue) -> (r: Doc)
    ensures
        doc_model(r) == extra_docv(v@),
{
    match v {
        ExtraValue::Str(s) => Doc::Str(s.clone()),
        ExtraValue::UInt(n) => Doc::UInt(*n),
        ExtraValue::Bool(b) => Doc::Bool(*b),
    }
}

/// The document node for an optional extra metadata value: null when absent.
pub open spec fn extra_opt_docv(o: Option<ExtraValueV>) -> DocV {
    match o {
        Option::Some(v) => extra_docv(v),
        Option::None => DocV::Null,
    }
}

/// The cover image for the entry at position `i`: its own thumbnail, or a
/// deterministic placeholder seeded by the position.
pub open spec fn cover_image_of(p: ProjectV, i: int) -> Seq<char> {
    if p.thumbnail.len() > 0 {
        p.thumbnail
    } else {
        "https://images.unsplash.com/photo-1555099962-4199c345e5dd?w=400&h=400&fit=crop&seed="@
            + dec_str(i as nat)
    }
}

/// The background image for the entry at position `i`: its own thumbnail, or
/// a deterministic placeholder seeded by the position.
pub open spec fn background_image_of(p: ProjectV, i: int) -> Seq<char> {
    if p.thumbnail.len() > 0 {
        p.thumbnail
    } else {
        "https://images.unsplash.com/photo-1555099962-4199c345e5dd?w=1920&h=1080&fit=crop&seed="@
            + dec_str(i as nat)
    }
}

/// Whether a key is one of the fixed field names of the ps5 output shape.
pub open spec fn ps5_fixed_key(k: Seq<char>) -> bool {
    ||| k == "id"@
    ||| k == "title"@
    ||| k == "subtitle"@
    ||| k == "description"@
    ||| k == "fullDescription"@
    ||| k == "techStack"@
    ||| k == "achievements"@
    ||| k == "totalAchievements"@
    ||| k == "progress"@
    ||| k == "coverImage"@
    ||| k == "backgroundImage"@
    ||| k == "liveUrl"@
    ||| k == "githubUrl"@
    ||| k == "demoVideo"@
    ||| k == "screenshots"@
    ||| k == "priority"@
}

/// The excluded-key predicate of the ps5 shape.
pub open spec fn ps5_excluded() -> spec_fn(Seq<char>) -> bool {
    |k: Seq<char>| ps5_fixed_key(k)
}

/// The priority object of the ps5 shape: the three ranks for the entry at
/// position `i`.
pub open spec fn ps5_priority_docv(p: ProjectV, i: int) -> DocV {
    DocV::Obj(
        seq![
            ("recruiter"@, DocV::UInt(recruiter_rank(p, i) as u64)),
            ("engineer"@, DocV::UInt(engineer_rank(p, i) as u64)),
            ("stranger"@, DocV::UInt(stranger_rank(p, i) as u64)),
        ],
    )
}

/// The fixed fields of the ps5 output shape for the entry at position `i`.
pub open spec fn ps5_fixed_fields(p: ProjectV, i: int) -> Seq<(Seq<char>, DocV)> {
    seq![
        ("id"@, DocV::Str(p.id)),
        ("title"@, DocV::Str(p.title)),
        ("subtitle"@, DocV::Str(p.category)),
        ("description"@, DocV::Str(p.description)),
        ("fullDescription"@, DocV::Str(p.full_description)),
        ("techStack"@, DocV::Arr(str_docs(p.tech_stack))),
        ("achievements"@, DocV::UInt(completeness_score(p) as u64)),
        ("totalAchievements"@, DocV::UInt(TOTAL_ACHIEVEMENTS)),
        ("progress"@, DocV::UInt(progress_percent(completeness_score(p)) as u64)),
        ("coverImage"@, DocV::Str(cover_image_of(p, i))),
        ("backgroundImage"@, DocV::Str(background_image_of(p, i))),
        ("liveUrl"@, opt_str_docv(p.links.live)),
        ("githubUrl"@, opt_str_docv(p.links.github)),
        ("demoVideo"@, opt_str_docv(p.links.demo)),
        ("screenshots"@, DocV::Arr(str_docs(p.screenshots))),
        ("priority"@, ps5_priority_docv(p, i)),
    ]
}

/// The ps5 output document for the entry at position `i`: the fixed fields,
/// then the extra metadata merged in (fixed fields win on a key collision).
pub open spec fn ps5_entry_doc(p: ProjectV, i: int) -> DocV {
    DocV::Obj(ps5_fixed_fields(p, i) + extra_doc_fields(p.extra, ps5_excluded()))
}

/// Whether a key is one of the fixed field names of the ps3 output shape.
pub open spec fn ps3_fixed_key(k: Seq<char>) -> bool {
    ||| k == "id"@
    ||| k == "label"@
    ||| k == "subtitle"@
    ||| k == "description"@
    ||| k == "date"@
    ||| k == "tags"@
    ||| k == "links"@
    ||| k == "profilePriority"@
}

/// The excluded-key predicate of the ps3 shape.
pub open spec fn ps3_excluded() -> spec_fn(Seq<char>) -> bool {
    |k: Seq<char>| ps3_fixed_key(k)
}

/// Whether a key is one of the field names of the verbatim project shape.
pub open spec fn passthrough_fixed_key(k: Seq<char>) -> bool {
    ||| k == "id"@
    ||| k == "title"@
    ||| k == "description"@
    ||| k == "full_description"@
    ||| k == "tech_stack"@
    ||| k == "category"@
    ||| k == "featured"@
    ||| k == "links"@
    ||| k == "date"@
    ||| k == "thumbnail"@
    ||| k == "screenshots"@
}

/// The excluded-key predicate of the verbatim project shape.
pub open spec fn passthrough_excluded() -> spec_fn(Seq<char>) -> bool {
    |k: Seq<char>| passthrough_fixed_key(k)
}

/// Whether a key is one of the ps3 shape's fixed field names.
fn ps3_is_fixed_key(k: &str) -> (r: bool)
    ensures
        r == ps3_fixed_key(k@),
{
    str_equal(k, "id") || str_equal(k, "label") || str_equal(k, "subtitle") || str_equal(
        k,
        "description",
    ) || str_equal(k, "date") || str_equal(k, "tags") || str_equal(k, "links") || str_equal(
        k,
        "profilePriority",
    )
}

/// Whether a key is one of the verbatim project shape's field names.
fn passthrough_is_fixed_key(k: &str) -> (r: bool)
    ensures
        r == passthrough_fixed_key(k@),
{
    str_equal(k, "id") || str_equal(k, "title") || str_equal(k, "description") || str_equal(
        k,
        "full_description",
    ) || str_equal(k, "tech_stack") || str_equal(k, "category") || str_equal(k, "featured")
        || str_equal(k, "links") || str_equal(k, "date") || str_equal(k, "thumbnail") || str_equal(
        k,
        "screenshots",
    )
}

/// Whether a key is one of the ps5 shape's fixed field names.
fn ps5_is_fixed_key(k: &str) -> (r: bool)
    ensures
        r == ps5_fixed_key(k@),
{
    str_equal(k, "id") || str_equal(k, "title") || str_equal(k, "subtitle") || str_equal(
        k,
        "description",
    ) || str_equal(k, "fullDescription") || str_equal(k, "techStack") || str_equal(
        k,
        "achievements",
    ) || str_equal(k, "totalAchievements") || str_equal(k, "progress") || str_equal(
        k,
        "coverImage",
    ) || str_equal(k, "backgroundImage") || str_equal(k, "liveUrl") || str_equal(k, "githubUrl")
        || str_equal(k, "demoVideo") || str_equal(k, "screenshots") || str_equal(k, "priority")
}

/// Appends an entry's extra metadata fields to an object under construction,
/// skipping the keys a shape already uses.
#[verifier::loop_isolation(false)]
fn append_extra_fields(
    fields: &mut Vec<(String, Doc)>,
    extra: &Vec<(String, ExtraValue)>,
    shape: u8,
)
    requires
        shape == 1 || shape == 2 || shape == 3,
    ensures
        doc_model_fields(final(fields)@) == doc_model_fields(old(fields)@) + extra_doc_fields(
            extra.deep_view(),
            if shape == 1 {
                ps5_excluded()
            } else if shape == 2 {
                ps3_excluded()
            } else {
                passthrough_excluded()
            },
        ),
{
    let ghost excluded: spec_fn(Seq<char>) -> bool = if shape == 1 {
        ps5_excluded()
    } else if shape == 2 {
        ps3_excluded()
    } else {
        passthrough_excluded()
    };
    let ghost all = extra.deep_view();
    let ghost start = doc_model_fields(fields@);
    let mut j: usize = 0;
    proof {
        assert(all.skip(0) =~= all);
    }
    while j < extra.len()
        invariant
            j <= extra@.len(),
            all.len() == extra@.len(),
            start + extra_doc_fields(all, excluded) == doc_model_fields(fields@)
                + extra_doc_fields(all.skip(j as int), excluded),
        decreases extra@.len() - j,
    {
        let pair = &extra[j];
        proof {
            assert(all.skip(j as int)[0] == all[j as int]);
            assert(all[j as int] == (pair.0@, pair.1@));
        }
        let key_fixed = if shape == 1 {
            ps5_is_fixed_key(pair.0.as_str())
        } else if shape == 2 {
            ps3_is_fixed_key(pair.0.as_str())
        } else {
            passthrough_is_fixed_key(pair.0.as_str())
        };
        if !key_fixed {
            let ghost before = fields@;
            let item = (pair.0.clone(), extra_value_to_doc(&pair.1));
            let ghost gitem = item;
            fields.push(item);
            proof {
                lemma_doc_model_fields_push(before, gitem);
                assert(extra_doc_fields(all.skip(j as int), excluded) == seq![
                    (all[j as int].0, extra_docv(all[j as int].1)),
                ] + extra_doc_fields(all.skip(j as int).skip(1), excluded));
                assert(all.skip(j as int).skip(1) =~= all.skip(j + 1));
                assert(start + extra_doc_fields(all, excluded) =~= doc_model_fields(fields@)
                    + extra_doc_fields(all.skip(j + 1), excluded));
            }
        } else {
            proof {
                assert(all.skip(j as int).skip(1) =~= all.skip(j + 1));
            }
        }
        j += 1;
    }
    proof {
        assert(all.skip(all.len() as int) =~= Seq::<(Seq<char>, ExtraValueV)>::empty());
        assert(doc_model_fields(fields@) + Seq::<(Seq<char>, DocV)>::empty() =~= doc_model_fields(
            fields@,
        ));
        assert(start + extra_doc_fields(all, excluded) =~= doc_model_fields(fields@));
    }
}

/// Builds the ps5 output document for the entry at position `i`.
pub fn adapt_ps5_entry(p: &Project, i: usize) -> (r: Doc)
    requires
        i + 5 <= usize::MAX,
    ensures
        r.deep_view() == ps5_entry_doc(p@, i as int),
{
    let stars = p.stars();
    let live = p.has_live();
    let iu = i as u64;
    let recruiter: u64 = if live && stars > 10 {
        iu + 1
    } else {
        iu + 5
    };
    let engineer: u64 = if p.tech_stack.len() > 3 {
        iu + 1
    } else {
        iu + 3
    };
    let stranger: u64 = if p.featured {
        iu + 1
    } else {
        iu + 4
    };
    let has_desc = !p.full_description.as_str().is_empty();
    let has_links = p.links.github.is_some() || p.links.live.is_some();
    let has_tech = p.tech_stack.len() > 0;
    let score: u64 = 5 + (if has_desc {
        2
    } else {
        0
    }) + (if has_links {
        2
    } else {
        0
    }) + (if has_tech {
        2
    } else {
        0
    }) + (if stars > 5 {
        1
    } else {
        0
    }) + (if live {
        2
    } else {
        0
    });
    let progress: u64 = (score * 100 + 7) / 14;
    let thumb_set = !p.thumbnail.as_str().is_empty();
    let cover: String = if thumb_set {
        p.thumbnail.clone()
    } else {
        crate::strutil::concat_str(
            "https://images.unsplash.com/photo-1555099962-4199c345e5dd?w=400&h=400&fit=crop&seed=",
            u64_to_dec(iu).as_str(),
        )
    };
    let background: String = if thumb_set {
        p.thumbnail.clone()
    } else {
        crate::strutil::concat_str(
            "https://images.unsplash.com/photo-1555099962-4199c345e5dd?w=1920&h=1080&fit=crop&seed=",
            u64_to_dec(iu).as_str(),
        )
    };
    let mut prio: Vec<(String, Doc)> = Vec::new();
    push_field(&mut prio, "recruiter", Doc::UInt(recruiter));
    push_field(&mut prio, "engineer", Doc::UInt(engineer));
    push_field(&mut prio, "stranger", Doc::UInt(stranger));
    proof {
        assert(doc_model_fields(prio@) =~= seq![
            ("recruiter"@, DocV::UInt(recruiter_rank(p@, i as int) as u64)),
            ("engineer"@, DocV::UInt(engineer_rank(p@, i as int) as u64)),
            ("stranger"@, DocV::UInt(stranger_rank(p@, i as int) as u64)),
        ]);
    }
    let mut fields: Vec<(String, Doc)> = Vec::new();
    push_field(&mut fields, "id", Doc::Str(p.id.clone()));
    push_field(&mut fields, "title", Doc::Str(p.title.clone()));
    push_field(&mut fields, "subtitle", Doc::Str(p.category.clone()));
    push_field(&mut fields, "description", Doc::Str(p.description.clone()));
    push_field(&mut fields, "fullDescription", Doc::Str(p.full_description.clone()));
    push_field(&mut fields, "techStack", strings_to_doc(&p.tech_stack));
    push_field(&mut fields, "achievements", Doc::UInt(score));
    push_field(&mut fields, "totalAchievements", Doc::UInt(14));
    push_field(&mut fields, "progress", Doc::UInt(progress));
    push_field(&mut fields, "coverImage", Doc::Str(cover));
    push_field(&mut fields, "backgroundImage", Doc::Str(background));
    push_field(&mut fields, "liveUrl", opt_to_doc(&p.links.live));
    push_field(&mut fields, "githubUrl", opt_to_doc(&p.links.github));
    push_field(&mut fields, "demoVideo", opt_to_doc(&p.links.demo));
    push_field(&mut fields, "screenshots", strings_to_doc(&p.screenshots));
    push_field(&mut fields, "priority", Doc::Obj(prio));
    proof {
        assert(doc_model_fields(fields@) =~= ps5_fixed_fields(p@, i as int));
    }
    append_extra_fields(&mut fields, &p.extra, 1);
    Doc::Obj(fields)
}

/// Finds the position of a key in an entry's extra metadata.
#[verifier::loop_isolation(false)]
fn find_extra(extra: &Vec<(String, ExtraValue)>, key: &str) -> (r: Option<usize>)
    ensures
        match r {
            Some(j) => j < extra@.len() && extra_lookup(extra.deep_view(), key@) == Some(
                extra.deep_view()[j as int].1,
            ),
            None => extra_lookup(extra.deep_view(), key@) is None,
        },
{
    let ghost all = extra.deep_view();
    let mut j: usize = 0;
    proof {
        assert(all.skip(0) =~= all);
    }
    while j < extra.len()
        invariant
            j <= extra@.len(),
            extra_lookup(all, key@) == extra_lookup(all.skip(j as int), key@),
        decreases extra@.len() - j,
    {
        proof {
            assert(all.skip(j as int)[0] == all[j as int]);
        }
        if str_equal(extra[j].0.as_str(), key) {
            return Some(j);
        }
        j += 1;
        proof {
            assert(all.skip(j as int - 1).skip(1) =~= all.skip(j as int));
        }
    }
    proof {
        assert(all.skip(all.len() as int) =~= Seq::<(Seq<char>, ExtraValueV)>::empty());
    }
    None
}

/// The wii category slug of an entry's own category: lowercased, with spaces
/// replaced by hyphens.
pub open spec fn wii_slug(p: ProjectV) -> Seq<char> {
    lower_of(swap_chars(p.category, ' ', '-'))
}

/// The wii category set of an entry: its own slug, then the profile and
/// channel tags its content earns, in first-seen order without duplicates.
pub open spec fn wii_categories(p: ProjectV) -> Seq<Seq<char>> {
    let slug = wii_slug(p);
    seq![slug] + (if recruiter_cond(p) && slug != "recruiter"@ {
        seq!["recruiter"@]
    } else {
        Seq::<Seq<char>>::empty()
    }) + (if engineer_cond(p) && slug != "engineer"@ {
        seq!["engineer"@]
    } else {
        Seq::<Seq<char>>::empty()
    }) + (if stranger_cond(p) && slug != "creative"@ {
        seq!["creative"@]
    } else {
        Seq::<Seq<char>>::empty()
    }) + (if has_live(p) && slug != "web-apps"@ {
        seq!["web-apps"@]
    } else {
        Seq::<Seq<char>>::empty()
    }) + (if p.links.github is Some && slug != "open-source"@ {
        seq!["open-source"@]
    } else {
        Seq::<Seq<char>>::empty()
    })
}

/// The wii output document for an entry.
pub open spec fn wii_entry_doc(p: ProjectV) -> DocV {
    DocV::Obj(
        seq![
            ("id"@, DocV::Str(p.id)),
            ("title"@, DocV::Str(p.title)),
            ("tagline"@, DocV::Str(p.description)),
            ("description"@, DocV::Str(p.full_description)),
            ("techStack"@, DocV::Arr(str_docs(p.tech_stack))),
            ("liveUrl"@, opt_str_docv(p.links.live)),
            ("githubUrl"@, opt_str_docv(p.links.github)),
            ("category"@, DocV::Arr(str_docs(wii_categories(p)))),
            ("featured"@, DocV::Bool(p.featured)),
            ("stars"@, extra_opt_docv(extra_lookup(p.extra, "stars"@))),
            ("forks"@, extra_opt_docv(extra_lookup(p.extra, "forks"@))),
        ],
    )
}

/// Builds the wii category list for an entry.
fn wii_category_list(p: &Project) -> (r: Vec<String>)
    ensures
        r.deep_view() == wii_categories(p@),
{
    let dashed = replace_char(p.category.as_str(), ' ', '-');
    let slug = lowercase(dashed.as_str());
    let stars = p.stars();
    let live = p.has_live();
    let mut cats: Vec<String> = Vec::new();
    cats.push(slug.clone());
    if live && stars > 10 && !str_equal(slug.as_str(), "recruiter") {
        cats.push("recruiter".to_owned());
    }
    if p.tech_stack.len() > 3 && !str_equal(slug.as_str(), "engineer") {
        cats.push("engineer".to_owned());
    }
    if p.featured && !str_equal(slug.as_str(), "creative") {
        cats.push("creative".to_owned());
    }
    if live && !str_equal(slug.as_str(), "web-apps") {
        cats.push("web-apps".to_owned());
    }
    if p.links.github.is_some() && !str_equal(slug.as_str(), "open-source") {
        cats.push("open-source".to_owned());
    }
    proof {
        assert(cats.deep_view() =~= wii_categories(p@));
    }
    cats
}

/// Builds the wii output document for an entry.
pub fn adapt_wii_entry(p: &Project) -> (r: Doc)
    ensures
        r.deep_view() == wii_entry_doc(p@),
{
    let cats = wii_category_list(p);
    let stars_doc = match find_extra(&p.extra, "stars") {
        Some(j) => extra_value_to_doc(&p.extra[j].1),
        None => Doc::Null,
    };
    let forks_doc = match find_extra(&p.extra, "forks") {
        Some(j) => extra_value_to_doc(&p.extra[j].1),
        None => Doc::Null,
    };
    let mut fields: Vec<(String, Doc)> = Vec::new();
    push_field(&mut fields, "id", Doc::Str(p.id.clone()));
    push_field(&mut fields, "title", Doc::Str(p.title.clone()));
    push_field(&mut fields, "tagline", Doc::Str(p.description.clone()));
    push_field(&mut fields, "description", Doc::Str(p.full_description.clone()));
    push_field(&mut fields, "techStack", strings_to_doc(&p.tech_stack));
    push_field(&mut fields, "liveUrl", opt_to_doc(&p.links.live));
    push_field(&mut fields, "githubUrl", opt_to_doc(&p.links.github));
    push_field(&mut fields, "category", strings_to_doc(&cats));
    push_field(&mut fields, "featured", Doc::Bool(p.featured));
    push_field(&mut fields, "stars", stars_doc);
    push_field(&mut fields, "forks", forks_doc);
    proof {
        assert(doc_model_fields(fields@) =~= wii_entry_doc(p@)->Obj_0);
    }
    Doc::Obj(fields)
}

/// One link object of the ps3 shape.
pub open spec fn link_obj(label: Seq<char>, url: Seq<char>) -> DocV {
    DocV::Obj(seq![("label"@, DocV::Str(label)), ("url"@, DocV::Str(url))])
}

/// The ps3 links array: one labelled object per present link, in the order
/// repository, live demo, demo video.
pub open spec fn ps3_links_docv(l: crate::models::ProjectLinksV) -> Seq<DocV> {
    (match l.github {
        Option::Some(u) => seq![link_obj("GitHub"@, u)],
        Option::None => Seq::<DocV>::empty(),
    }) + (match l.live {
        Option::Some(u) => seq![link_obj("Live Demo"@, u)],
        Option::None => Seq::<DocV>::empty(),
    }) + (match l.demo {
        Option::Some(u) => seq![link_obj("Demo Video"@, u)],
        Option::None => Seq::<DocV>::empty(),
    })
}

/// The ps3 profile priority tags: the tags the entry earns, or all three when
/// it earns none.
pub open spec fn ps3_profile_priority(p: ProjectV) -> Seq<Seq<char>> {
    let base = (if recruiter_cond(p) {
        seq!["recruiter"@]
    } else {
        Seq::<Seq<char>>::empty()
    }) + (if engineer_cond(p) {
        seq!["engineer"@]
    } else {
        Seq::<Seq<char>>::empty()
    }) + (if stranger_cond(p) {
        seq!["stranger"@]
    } else {
        Seq::<Seq<char>>::empty()
    });
    if base.len() == 0 {
        seq!["recruiter"@, "engineer"@, "stranger"@]
    } else {
        base
    }
}

/// The fixed fields of the ps3 output shape.
pub open spec fn ps3_fixed_fields(p: ProjectV) -> Seq<(Seq<char>, DocV)> {
    seq![
        ("id"@, DocV::Str(p.id)),
        ("label"@, DocV::Str(p.title)),
        ("subtitle"@, DocV::Str(p.category)),
        ("description"@, DocV::Str(p.full_description)),
        ("date"@, DocV::Str(p.date)),
        ("tags"@, DocV::Arr(str_docs(p.tech_stack))),
        ("links"@, DocV::Arr(ps3_links_docv(p.links))),
        ("profilePriority"@, DocV::Arr(str_docs(ps3_profile_priority(p)))),
    ]
}

/// The ps3 output document for an entry: the fixed fields, then the extra
/// metadata merged in (fixed fields win on a key collision).
pub open spec fn ps3_entry_doc(p: ProjectV) -> DocV {
    DocV::Obj(ps3_fixed_fields(p) + extra_doc_fields(p.extra, ps3_excluded()))
}

/// Builds one labelled link object of the ps3 shape.
fn link_to_doc(label: &str, url: &String) -> (r: Doc)
    ensures
        doc_model(r) == link_obj(label@, url@),
{
    let mut fields: Vec<(String, Doc)> = Vec::new();
    push_field(&mut fields, "label", Doc::Str(label.to_owned()));
    push_field(&mut fields, "url", Doc::Str(url.clone()));
    proof {
        assert(doc_model_fields(fields@) =~= seq![("label"@, DocV::Str(label@)), ("url"@, DocV::Str(url@))]);
    }
    Doc::Obj(fields)
}

/// Builds the ps3 profile priority tag list for an entry.
fn ps3_priority_list(p: &Project) -> (r: Vec<String>)
    ensures
        r.deep_view() == ps3_profile_priority(p@),
{
    let stars = p.stars();
    let live = p.has_live();
    let mut tags: Vec<String> = Vec::new();
    if live && stars > 10 {
        tags.push("recruiter".to_owned());
    }
    if p.tech_stack.len() > 3 {
        tags.push("engineer".to_owned());
    }
    if p.featured {
        tags.push("stranger".to_owned());
    }
    if tags.len() == 0 {
        tags.push("recruiter".to_owned());
        tags.push("engineer".to_owned());
        tags.push("stranger".to_owned());
    }
    proof {
        assert(tags.deep_view() =~= ps3_profile_priority(p@));
    }
    tags
}

/// Builds the ps3 output document for an entry.
pub fn adapt_ps3_entry(p: &Project) -> (r: Doc)
    ensures
        r.deep_view() == ps3_entry_doc(p@),
{
    let mut links: Vec<Doc> = Vec::new();
    if let Some(u) = &p.links.github {
        let ghost before = links@;
        let item = link_to_doc("GitHub", u);
        let ghost gitem = item;
        links.push(item);
        proof {
            lemma_doc_model_seq_push(before, gitem);
        }
    }
    if let Some(u) = &p.links.live {
        let ghost before = links@;
        let item = link_to_doc("Live Demo", u);
        let ghost gitem = item;
        links.push(item);
        proof {
            lemma_doc_model_seq_push(before, gitem);
        }
    }
    if let Some(u) = &p.links.demo {
        let ghost before = links@;
        let item = link_to_doc("Demo Video", u);
        let ghost gitem = item;
        links.push(item);
        proof {
            lemma_doc_model_seq_push(before, gitem);
        }
    }
    proof {
        assert(doc_model_seq(links@) =~= ps3_links_docv(p@.links));
    }
    let tags = ps3_priority_list(p);
    let mut fields: Vec<(String, Doc)> = Vec::new();
    push_field(&mut fields, "id", Doc::Str(p.id.clone()));
    push_field(&mut fields, "label", Doc::Str(p.title.clone()));
    push_field(&mut fields, "subtitle", Doc::Str(p.category.clone()));
    push_field(&mut fields, "description", Doc::Str(p.full_description.clone()));
    push_field(&mut fields, "date", Doc::Str(p.date.clone()));
    push_field(&mut fields, "tags", strings_to_doc(&p.tech_stack));
    push_field(&mut fields, "links", Doc::Arr(links));
    push_field(&mut fields, "profilePriority", strings_to_doc(&tags));
    proof {
        assert(doc_model_fields(fields@) =~= ps3_fixed_fields(p@));
    }
    append_extra_fields(&mut fields, &p.extra, 2);
    Doc::Obj(fields)
}

/// The links object of the verbatim project shape.
pub open spec fn links_docv(l: crate::models::ProjectLinksV) -> DocV {
    DocV::Obj(
        seq![
            ("github"@, opt_str_docv(l.github)),
            ("live"@, opt_str_docv(l.live)),
            ("demo"@, opt_str_docv(l.demo)),
        ],
    )
}

/// The verbatim document for an entry, used when a theme id has no adaptation
/// of its own: every field of the entry, then the extra metadata.
pub open spec fn project_doc(p: ProjectV) -> DocV {
    DocV::Obj(
        seq![
            ("id"@, DocV::Str(p.id)),
            ("title"@, DocV::Str(p.title)),
            ("description"@, DocV::Str(p.description)),
            ("full_description"@, DocV::Str(p.full_description)),
            ("tech_stack"@, DocV::Arr(str_docs(p.tech_stack))),
            ("category"@, DocV::Str(p.category)),
            ("featured"@, DocV::Bool(p.featured)),
            ("links"@, links_docv(p.links)),
            ("date"@, DocV::Str(p.date)),
            ("thumbnail"@, DocV::Str(p.thumbnail)),
            ("screenshots"@, DocV::Arr(str_docs(p.screenshots))),
        ] + extra_doc_fields(p.extra, passthrough_excluded()),
    )
}

/// Builds the links object of the verbatim project shape.
fn links_to_doc(l: &crate::models::ProjectLinks) -> (r: Doc)
    ensures
        doc_model(r) == links_docv(l@),
{
    let mut fields: Vec<(String, Doc)> = Vec::new();
    push_field(&mut fields, "github", opt_to_doc(&l.github));
    push_field(&mut fields, "live", opt_to_doc(&l.live));
    push_field(&mut fields, "demo", opt_to_doc(&l.demo));
    proof {
        assert(doc_model_fields(fields@) =~= links_docv(l@)->Obj_0);
    }
    Doc::Obj(fields)
}

/// Builds the verbatim document for an entry.
pub fn project_to_doc(p: &Project) -> (r: Doc)
    ensures
        r.deep_view() == project_doc(p@),
{
    let mut fields: Vec<(String, Doc)> = Vec::new();
    push_field(&mut fields, "id", Doc::Str(p.id.clone()));
    push_field(&mut fields, "title", Doc::Str(p.title.clone()));
    push_field(&mut fields, "description", Doc::Str(p.description.clone()));
    push_field(&mut fields, "full_description", Doc::Str(p.full_description.clone()));
    push_field(&mut fields, "tech_stack", strings_to_doc(&p.tech_stack));
    push_field(&mut fields, "category", Doc::Str(p.category.clone()));
    push_field(&mut fields, "featured", Doc::Bool(p.featured));
    push_field(&mut fields, "links", links_to_doc(&p.links));
    push_field(&mut fields, "date", Doc::Str(p.date.clone()));
    push_field(&mut fields, "thumbnail", Doc::Str(p.thumbnail.clone()));
    push_field(&mut fields, "screenshots", strings_to_doc(&p.screenshots));
    proof {
        assert(doc_model_fields(fields@) =~= project_doc(p@)->Obj_0.take(11));
    }
    append_extra_fields(&mut fields, &p.extra, 3);
    proof {
        assert(project_doc(p@)->Obj_0.take(11) + extra_doc_fields(
            p@.extra,
            passthrough_excluded(),
        ) =~= project_doc(p@)->Obj_0);
    }
    Doc::Obj(fields)
}

/// The output document for one entry under a theme id: the theme's own shape,
/// or the verbatim shape for a theme id with no adaptation.
pub open spec fn adapted_entry(theme_id: Seq<char>, p: ProjectV, i: int) -> DocV {
    if theme_id == "ps5"@ {
        ps5_entry_doc(p, i)
    } else if theme_id == "wii"@ {
        wii_entry_doc(p)
    } else if theme_id == "ps3"@ {
        ps3_entry_doc(p)
    } else {
        project_doc(p)
    }
}

/// The output documents for a project list under a theme id, in list order.
pub open spec fn adapted_docs(theme_id: Seq<char>, ps: Seq<ProjectV>) -> Seq<DocV> {
    Seq::new(ps.len(), |i: int| adapted_entry(theme_id, ps[i], i))
}

/// Adaptation preserves the list's shape: for every theme id (the verbatim
/// passthrough included) the output has exactly one document per entry, and
/// the document at each position is derived from the entry at that position.
pub proof fn lemma_adaptation_preserves_shape(theme_id: Seq<char>, ps: Seq<ProjectV>)
    ensures
        adapted_docs(theme_id, ps).len() == ps.len(),
        forall|i: int|
            0 <= i < ps.len() ==> adapted_docs(theme_id, ps)[i] == adapted_entry(
                theme_id,
                ps[i],
                i,
            ),
{
}

/// When an entry earns no profile tag (no live link with more than ten stars,
/// three or fewer technology tags, not featured), the ps3 profile priority
/// defaults to exactly the three tags recruiter, engineer, stranger.
pub proof fn lemma_ps3_priority_default(p: ProjectV)
    requires
        !recruiter_cond(p),
        !engineer_cond(p),
        !stranger_cond(p),
    ensures
        ps3_profile_priority(p) == seq!["recruiter"@, "engineer"@, "stranger"@],
{
    assert(Seq::<Seq<char>>::empty() + Seq::<Seq<char>>::empty() + Seq::<Seq<char>>::empty()
        =~= Seq::<Seq<char>>::empty());
}

/// When an entry earns at least one profile tag, the ps3 profile priority
/// holds exactly the earned tags, in the order recruiter, engineer, stranger.
pub proof fn lemma_ps3_priority_earned(p: ProjectV)
    requires
        recruiter_cond(p) || engineer_cond(p) || stranger_cond(p),
    ensures
        ps3_profile_priority(p) == (if recruiter_cond(p) {
            seq!["recruiter"@]
        } else {
            Seq::<Seq<char>>::empty()
        }) + (if engineer_cond(p) {
            seq!["engineer"@]
        } else {
            Seq::<Seq<char>>::empty()
        }) + (if stranger_cond(p) {
            seq!["stranger"@]
        } else {
            Seq::<Seq<char>>::empty()
        }),
{
}

impl crate::theme::Theme {
    /// Adapts a project list to this theme's output document: an array with
    /// one document per entry, in input order.  A theme id with no adaptation
    /// of its own falls back to the verbatim project shape.
    pub fn adapt_projects(&self, projects: &Vec<Project>) -> (r: Doc)
        requires
            projects@.len() + 5 <= usize::MAX,
        ensures
            r.deep_view() == DocV::Arr(adapted_docs(self@.id, projects.deep_view())),
    {
        let ghost id = self@.id;
        let ghost ps = projects.deep_view();
        let mut items: Vec<Doc> = Vec::new();
        let mut i: usize = 0;
        proof {
            assert(doc_model_seq(items@) =~= adapted_docs(id, ps).take(0));
        }
        while i < projects.len()
            invariant
                id == self@.id,
                ps == projects.deep_view(),
                projects@.len() + 5 <= usize::MAX,
                i <= projects@.len(),
                ps.len() == projects@.len(),
                doc_model_seq(items@) == adapted_docs(id, ps).take(i as int),
            decreases projects@.len() - i,
        {
            let p = &projects[i];
            proof {
                assert(ps[i as int] == p@);
            }
            let d: Doc = if str_equal(self.id.as_str(), "ps5") {
                adapt_ps5_entry(p, i)
            } else if str_equal(self.id.as_str(), "wii") {
                adapt_wii_entry(p)
            } else if str_equal(self.id.as_str(), "ps3") {
                adapt_ps3_entry(p)
            } else {
                project_to_doc(p)
            };
            proof {
                assert(doc_model(d) == adapted_entry(id, ps[i as int], i as int));
            }
            let ghost before = items@;
            let ghost gd = d;
            items.push(d);
            i += 1;
            proof {
                lemma_doc_model_seq_push(before, gd);
                assert(doc_model_seq(items@) =~= adapted_docs(id, ps).take(i as int));
            }
        }
        proof {
            assert(adapted_docs(id, ps).take(i as int) =~= adapted_docs(id, ps));
        }
        Doc::Arr(items)
    }
}

} // verus!
