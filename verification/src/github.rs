//! Repository metadata handling.
//!
//! The data shapes a repository host returns, URL parsing into owner and
//! repository, the language-to-tech-stack heuristic, and the construction of
//! project entries from fetched or placeholder data.  The network calls
//! themselves live in the surrounding application; everything here is a pure
//! function of the values they return.

use vstd::prelude::*;
use vstd::string::StrSliceExecFns;
use vstd::string::StringExecFns;

use crate::models::ExtraValue;
use crate::models::Project;
use crate::models::ProjectV;
use crate::strutil::concat_str;
use crate::strutil::dec_str;
use crate::strutil::find_first;
use crate::strutil::find_char;
use crate::strutil::join_seq;
use crate::strutil::join_strings;
use crate::strutil::matches_at;
use crate::strutil::replace_char;
use crate::strutil::replace_seq;
use crate::strutil::replace_str;
use crate::strutil::swap_chars;
use crate::strutil::u64_to_dec;

verus! {

/// What the repository host reports about one repository.
#[derive(Clone, Debug)]
pub struct GitHubRepo {
    pub id: u64,
    pub name: String,
    pub full_name: String,
    pub description: Option<String>,
    pub html_url: String,
    pub homepage: Option<String>,
    pub language: Option<String>,
    pub stargazers_count: u32,
    pub forks_count: u32,
    pub topics: Vec<String>,
    pub created_at: String,
    pub updated_at: String,
    pub pushed_at: String,
    pub default_branch: String,
}

/// The language byte counts of one repository, in the order they arrived.
#[derive(Clone, Debug)]
pub struct GitHubLanguages {
    pub languages: Vec<(String, u32)>,
}

impl GitHubLanguages {
    /// Invariant of lists built from a language map: the names are pairwise
    /// distinct.  `process_languages` is defined for every list, but only a
    /// repeated name, which a map source never produces, could repeat a tag
    /// in its result.
    pub open spec fn names_wf(&self) -> bool {
        crate::models::distinct_keys(self.languages.deep_view())
    }
}

/// One project entry in the form the generated site's data file uses.
#[derive(Clone, Debug)]
pub struct ProjectData {
    pub id: String,
    pub title: String,
    pub description: String,
    pub full_description: String,
    pub category: String,
    pub tech_stack: Vec<String>,
    pub featured: bool,
    pub links: ProjectLinks,
    pub thumbnail: String,
    pub screenshots: Vec<String>,
    pub date: String,
    pub stars: u32,
    pub forks: u32,
    pub extra: Vec<(String, String)>,
}

/// A project's outbound links, as the data file carries them.
#[derive(Clone, Debug)]
pub struct ProjectLinks {
    pub github: Option<String>,
    pub live: Option<String>,
    pub demo: Option<String>,
}

/// A sequence with every trailing slash removed.
pub open spec fn trim_trailing_slashes(s: Seq<char>) -> Seq<char>
    decreases s.len(),
{
    if s.len() > 0 && s[s.len() - 1] == '/' {
        trim_trailing_slashes(s.drop_last())
    } else {
        s
    }
}

/// A sequence with every trailing ".git" suffix removed.
pub open spec fn trim_trailing_git(s: Seq<char>) -> Seq<char>
    decreases s.len(),
{
    if s.len() >= 4 && s.subrange(s.len() - 4, s.len() as int) == ".git"@ {
        trim_trailing_git(s.take(s.len() - 4))
    } else {
        s
    }
}

/// A repository URL with trailing slashes, then trailing ".git" suffixes,
/// stripped.
pub open spec fn trimmed_repo_url(s: Seq<char>) -> Seq<char> {
    trim_trailing_git(trim_trailing_slashes(s))
}

/// The position of the first slash at or after `i`, or the length when none
/// follows.
pub open spec fn next_slash(s: Seq<char>, i: int) -> int
    decreases s.len() - i,
    when 0 <= i <= s.len()
{
    if i == s.len() {
        i
    } else if s[i] == '/' {
        i
    } else {
        next_slash(s, i + 1)
    }
}

/// `next_slash` finds exactly the first slash at or after its start.
pub proof fn lemma_next_slash(s: Seq<char>, i: int)
    requires
        0 <= i <= s.len(),
    ensures
        i <= next_slash(s, i) <= s.len(),
        next_slash(s, i) < s.len() ==> s[next_slash(s, i)] == '/',
        forall|j: int| i <= j < next_slash(s, i) ==> s[j] != '/',
    decreases s.len() - i,
{
    if i < s.len() && s[i] != '/' {
        lemma_next_slash(s, i + 1);
    }
}

/// A witness pins `next_slash` down.
pub proof fn lemma_next_slash_is(s: Seq<char>, i: int, k: int)
    requires
        0 <= i <= k <= s.len(),
        k < s.len() ==> s[k] == '/',
        k == s.len() || s[k] == '/',
        forall|j: int| i <= j < k ==> s[j] != '/',
    ensures
        next_slash(s, i) == k,
    decreases k - i,
{
    if i < k {
        lemma_next_slash_is(s, i + 1, k);
    }
}

/// Whether the owner/repository pattern matches at position `m` of a URL: the
/// host literal, a non-empty run up to a slash, and a non-empty run after it.
pub open spec fn gh_pattern_at(s: Seq<char>, m: int) -> bool {
    &&& 0 <= m
    &&& m + 11 <= s.len()
    &&& s.subrange(m, m + 11) == "github.com/"@
    &&& {
        let k = next_slash(s, m + 11);
        &&& k > m + 11
        &&& k < s.len()
        &&& next_slash(s, k + 1) > k + 1
    }
}

/// The owner the pattern captures at position `m`.
pub open spec fn gh_owner_at(s: Seq<char>, m: int) -> Seq<char> {
    s.subrange(m + 11, next_slash(s, m + 11))
}

/// The repository name the pattern captures at position `m`.
pub open spec fn gh_repo_at(s: Seq<char>, m: int) -> Seq<char> {
    let k = next_slash(s, m + 11);
    s.subrange(k + 1, next_slash(s, k + 1))
}

/// Parses a repository URL into its owner and repository name.  Trailing
/// slashes and ".git" suffixes are ignored; the leftmost occurrence of the
/// host pattern wins; a URL without the pattern is rejected with a message
/// naming the trimmed URL.
#[verifier::loop_isolation(false)]
#[verifier::rlimit(60)]
pub fn parse_github_url(url: &str) -> (r: Result<(String, String), String>)
    ensures
        ({
            let t = trimmed_repo_url(url@);
            &&& (r is Ok <==> exists|m: int| gh_pattern_at(t, m))
            &&& r matches Ok((owner, repo)) ==> exists|m: int|
                {
                    &&& #[trigger] gh_pattern_at(t, m)
                    &&& forall|m2: int| 0 <= m2 < m ==> !gh_pattern_at(t, m2)
                    &&& owner@ == gh_owner_at(t, m)
                    &&& repo@ == gh_repo_at(t, m)
                }
            &&& (r matches Err(e) ==> e@ == "Invalid GitHub URL format: "@ + t)
        }),
{
    let len = url.unicode_len();
    let mut end: usize = len;
    proof {
        assert(url@.take(len as int) =~= url@);
    }
    while end > 0 && url.get_char(end - 1) == '/'
        invariant
            end <= len,
            trim_trailing_slashes(url@) == trim_trailing_slashes(url@.take(end as int)),
        decreases end,
    {
        end -= 1;
        proof {
            assert(url@.take(end + 1).drop_last() =~= url@.take(end as int));
        }
    }
    proof {
        assert(url@.take(len as int) =~= url@);
        if end > 0 {
            assert(url@.take(end as int)[end - 1] != '/');
        }
        assert(trim_trailing_slashes(url@.take(end as int)) == url@.take(end as int));
    }
    let mut end2: usize = end;
    proof {
        reveal_strlit(".git");
    }
    while end2 >= 4 && url.get_char(end2 - 4) == '.' && url.get_char(end2 - 3) == 'g'
        && url.get_char(end2 - 2) == 'i' && url.get_char(end2 - 1) == 't'
        invariant
            end2 <= end <= len,
            trim_trailing_git(url@.take(end as int)) == trim_trailing_git(url@.take(end2 as int)),
        decreases end2,
    {
        proof {
            assert(url@.take(end2 as int).subrange(end2 - 4, end2 as int) =~= ".git"@);
            assert(url@.take(end2 as int).take(end2 - 4) =~= url@.take(end2 - 4));
        }
        end2 -= 4;
    }
    proof {
        if url@.take(end2 as int).len() >= 4 {
            assert(url@.take(end2 as int).subrange(end2 - 4, end2 as int) != ".git"@) by {
                if url@.take(end2 as int).subrange(end2 - 4, end2 as int) == ".git"@ {
                    assert(url@.take(end2 as int).subrange(end2 - 4, end2 as int)[0] == url@[end2
                        - 4]);
                    assert(url@.take(end2 as int).subrange(end2 - 4, end2 as int)[1] == url@[end2
                        - 3]);
                    assert(url@.take(end2 as int).subrange(end2 - 4, end2 as int)[2] == url@[end2
                        - 2]);
                    assert(url@.take(end2 as int).subrange(end2 - 4, end2 as int)[3] == url@[end2
                        - 1]);
                }
            }
        }
        assert(trim_trailing_git(url@.take(end2 as int)) == url@.take(end2 as int));
    }
    let trimmed = url.substring_char(0, end2);
    let ghost t = trimmed_repo_url(url@);
    proof {
        assert(trimmed@ =~= t);
    }
    let tlen = trimmed.unicode_len();
    let mut m: usize = 0;
    proof {
        reveal_strlit("github.com/");
    }
    while tlen >= 11 && m <= tlen - 11
        invariant
            t == trimmed@,
            tlen == t.len(),
            m <= tlen,
            forall|m2: int| 0 <= m2 < m ==> !gh_pattern_at(t, m2),
        decreases tlen - m,
    {
        if matches_at(trimmed, "github.com/", m) {
            // owner runs to the next slash
            let mut k: usize = m + 11;
            while k < tlen && trimmed.get_char(k) != '/'
                invariant
                    m + 11 <= k <= tlen,
                    forall|j: int| m + 11 <= j < k ==> t[j] != '/',
                decreases tlen - k,
            {
                k += 1;
            }
            proof {
                lemma_next_slash_is(t, m + 11, k as int);
            }
            if k > m + 11 && k < tlen {
                // a repository name needs at least one character after the slash
                if k + 1 < tlen && trimmed.get_char(k + 1) != '/' {
                    let mut e: usize = k + 1;
                    while e < tlen && trimmed.get_char(e) != '/'
                        invariant
                            k + 1 <= e <= tlen,
                            forall|j: int| k + 1 <= j < e ==> t[j] != '/',
                        decreases tlen - e,
                    {
                        e += 1;
                    }
                    proof {
                        lemma_next_slash_is(t, k + 1 as int, e as int);
                        assert(gh_pattern_at(t, m as int));
                    }
                    let owner = trimmed.substring_char(m + 11, k).to_owned();
                    let repo = trimmed.substring_char(k + 1, e).to_owned();
                    return Ok((owner, repo));
                } else {
                    proof {
                        if k + 1 < tlen {
                            lemma_next_slash_is(t, k + 1 as int, k + 1 as int);
                        } else {
                            lemma_next_slash_is(t, k + 1 as int, tlen as int);
                        }
                        assert(!gh_pattern_at(t, m as int));
                    }
                }
            } else {
                proof {
                    assert(!gh_pattern_at(t, m as int));
                }
            }
        } else {
            proof {
                if m + 11 <= t.len() {
                    assert(!gh_pattern_at(t, m as int));
                }
            }
        }
        m += 1;
    }
    proof {
        assert forall|m2: int| !gh_pattern_at(t, m2) by {
            if 0 <= m2 && m2 + 11 <= t.len() {
                assert(m2 < m);
            }
        }
    }
    Err(concat_str("Invalid GitHub URL format: ", trimmed))
}

/// The total of the language byte counts.
pub open spec fn total_bytes(s: Seq<(Seq<char>, u32)>) -> int
    decreases s.len(),
{
    if s.len() == 0 {
        0
    } else {
        s[0].1 + total_bytes(s.skip(1))
    }
}

/// One step of a stable insertion sort by byte count, largest first: the new
/// pair goes in front of the first pair it is not smaller than, so earlier
/// input stays in front of equal counts.
pub open spec fn insert_desc(x: (Seq<char>, u32), s: Seq<(Seq<char>, u32)>) -> Seq<
    (Seq<char>, u32),
>
    decreases s.len(),
{
    if s.len() == 0 {
        seq![x]
    } else if x.1 >= s[0].1 {
        seq![x] + s
    } else {
        seq![s[0]] + insert_desc(x, s.skip(1))
    }
}

/// The language pairs sorted by byte count, largest first, stably.
pub open spec fn sort_desc(s: Seq<(Seq<char>, u32)>) -> Seq<(Seq<char>, u32)>
    decreases s.len(),
{
    if s.len() == 0 {
        Seq::empty()
    } else {
        insert_desc(s[0], sort_desc(s.skip(1)))
    }
}

/// The names of the languages holding at least one twentieth of the bytes, in
/// the given order.
pub open spec fn significant_names(s: Seq<(Seq<char>, u32)>, total: int) -> Seq<Seq<char>>
    decreases s.len(),
{
    if s.len() == 0 {
        Seq::empty()
    } else {
        let rest = significant_names(s.skip(1), total);
        if s[0].1 * 20 >= total {
            seq![s[0].0] + rest
        } else {
            rest
        }
    }
}

/// The names of a pair sequence, in order.
pub open spec fn names_of(s: Seq<(Seq<char>, u32)>) -> Seq<Seq<char>> {
    Seq::new(s.len(), |i: int| s[i].0)
}

/// The technology stack derived from language byte counts: the languages with
/// at least a twentieth of the bytes, largest first; the top three when none
/// reaches that share; a lone "Unknown" when no bytes were reported.
pub open spec fn tech_stack_of(pairs: Seq<(Seq<char>, u32)>) -> Seq<Seq<char>> {
    let total = total_bytes(pairs);
    if total == 0 {
        seq!["Unknown"@]
    } else {
        let sorted = sort_desc(pairs);
        let sig = significant_names(sorted, total);
        if sig.len() == 0 {
            names_of(sorted).take(
                if sorted.len() < 3 {
                    sorted.len() as int
                } else {
                    3
                },
            )
        } else {
            sig
        }
    }
}

/// Inserting in front of the first not-larger pair is exactly one step of the
/// spec sort.
proof fn lemma_insert_desc_at(x: (Seq<char>, u32), s: Seq<(Seq<char>, u32)>, j: int)
    requires
        0 <= j <= s.len(),
        forall|l: int| 0 <= l < j ==> (#[trigger] s[l]).1 > x.1,
        j < s.len() ==> x.1 >= s[j].1,
    ensures
        insert_desc(x, s) == s.take(j) + seq![x] + s.skip(j),
    decreases j,
{
    if j == 0 {
        assert(s.take(0) + seq![x] + s.skip(0) =~= seq![x] + s);
        if s.len() == 0 {
            assert(seq![x] + s =~= seq![x]);
        }
    } else {
        lemma_insert_desc_at(x, s.skip(1), j - 1);
        assert(s.skip(1).take(j - 1) =~= s.subrange(1, j));
        assert(s.skip(1).skip(j - 1) =~= s.skip(j));
        assert(seq![s[0]] + (s.subrange(1, j) + seq![x] + s.skip(j)) =~= s.take(j) + seq![x]
            + s.skip(j));
    }
}

/// Inserts a pair into a count-sorted list, keeping input order among equal
/// counts.
#[verifier::loop_isolation(false)]
fn insert_sorted_desc(v: &mut Vec<(String, u32)>, item: (String, u32))
    ensures
        final(v).deep_view() == insert_desc((item.0@, item.1), old(v).deep_view()),
{
    let ghost olds = v.deep_view();
    let ghost x = (item.0@, item.1);
    let mut j: usize = 0;
    while j < v.len() && v[j].1 > item.1
        invariant
            olds == v.deep_view(),
            j <= v@.len(),
            olds.len() == v@.len(),
            forall|l: int| 0 <= l < j ==> (#[trigger] olds[l]).1 > x.1,
        decreases v@.len() - j,
    {
        proof {
            assert(olds[j as int].1 == v@[j as int].1);
        }
        j += 1;
    }
    proof {
        if j < v@.len() {
            assert(olds[j as int].1 == v@[j as int].1);
        }
        lemma_insert_desc_at(x, olds, j as int);
    }
    v.insert(j, item);
    proof {
        assert(v.deep_view() =~= olds.take(j as int) + seq![x] + olds.skip(j as int));
    }
}

/// Converts language byte counts into a technology stack: the significant
/// languages largest-count first, the top three when none is significant, or
/// "Unknown" when no bytes were reported.  Inputs that keep `names_wf` never
/// repeat a tag in the result.
#[verifier::loop_isolation(false)]
pub fn process_languages(languages: &GitHubLanguages) -> (r: Vec<String>)
    requires
        languages.languages@.len() < 0x100000000,
    ensures
        r.deep_view() == tech_stack_of(languages.languages.deep_view()),
{
    let pairs = &languages.languages;
    let ghost ps = pairs.deep_view();
    let n = pairs.len();
    proof {
        assert(ps.skip(0) =~= ps);
    }
    let mut total: u64 = 0;
    let mut i: usize = 0;
    while i < n
        invariant
            i <= n,
            total <= i * 0xFFFFFFFF,
            total_bytes(ps) == total + total_bytes(ps.skip(i as int)),
        decreases n - i,
    {
        proof {
            assert(ps.skip(i as int)[0] == ps[i as int]);
            assert(ps[i as int].1 == pairs@[i as int].1);
            assert(ps.skip(i as int).skip(1) =~= ps.skip(i + 1));
        }
        total = total + pairs[i].1 as u64;
        i += 1;
    }
    proof {
        assert(ps.skip(n as int) =~= Seq::<(Seq<char>, u32)>::empty());
    }
    if total == 0 {
        let mut r: Vec<String> = Vec::new();
        r.push("Unknown".to_owned());
        proof {
            assert(r.deep_view() =~= seq!["Unknown"@]);
        }
        return r;
    }
    let mut sorted: Vec<(String, u32)> = Vec::new();
    let mut i: usize = n;
    proof {
        assert(ps.skip(n as int) =~= Seq::<(Seq<char>, u32)>::empty());
    }
    while i > 0
        invariant
            i <= n,
            sorted.deep_view() == sort_desc(ps.skip(i as int)),
        decreases i,
    {
        i -= 1;
        let item = (pairs[i].0.clone(), pairs[i].1);
        proof {
            assert(ps.skip(i as int)[0] == ps[i as int]);
            assert(ps[i as int] == (pairs@[i as int].0@, pairs@[i as int].1));
            assert(ps.skip(i as int).skip(1) =~= ps.skip(i + 1));
        }
        insert_sorted_desc(&mut sorted, item);
    }
    let ghost sortedv = sort_desc(ps);
    proof {
        assert(ps.skip(0) =~= ps);
        assert(sorted.deep_view() == sortedv);
    }
    let m = sorted.len();
    let mut sig: Vec<String> = Vec::new();
    let mut j: usize = 0;
    proof {
        assert(sortedv.skip(0) =~= sortedv);
        assert(sig.deep_view() + significant_names(sortedv, total_bytes(ps)) =~= significant_names(
            sortedv,
            total_bytes(ps),
        ));
    }
    while j < m
        invariant
            j <= m,
            m == sorted@.len(),
            sorted.deep_view() == sortedv,
            m == sortedv.len(),
            total == total_bytes(ps),
            significant_names(sortedv, total_bytes(ps)) == sig.deep_view() + significant_names(
                sortedv.skip(j as int),
                total_bytes(ps),
            ),
        decreases m - j,
    {
        proof {
            assert(sortedv.skip(j as int)[0] == sortedv[j as int]);
            assert(sortedv[j as int] == (sorted@[j as int].0@, sorted@[j as int].1));
            assert(sortedv.skip(j as int).skip(1) =~= sortedv.skip(j + 1));
        }
        let ghost before = sig.deep_view();
        if (sorted[j].1 as u64) * 20 >= total {
            sig.push(sorted[j].0.clone());
            proof {
                assert(sig.deep_view() =~= before.push(sortedv[j as int].0));
                assert(before + (seq![sortedv[j as int].0] + significant_names(
                    sortedv.skip(j + 1),
                    total_bytes(ps),
                )) =~= sig.deep_view() + significant_names(sortedv.skip(j + 1), total_bytes(ps)));
            }
        }
        j += 1;
    }
    proof {
        assert(sortedv.skip(m as int) =~= Seq::<(Seq<char>, u32)>::empty());
        assert(sig.deep_view() + Seq::<Seq<char>>::empty() =~= sig.deep_view());
    }
    if sig.len() == 0 {
        let count = if m < 3 {
            m
        } else {
            3
        };
        let mut top: Vec<String> = Vec::new();
        let mut j: usize = 0;
        while j < count
            invariant
                j <= count,
                count <= m,
                m == sorted@.len(),
                sorted.deep_view() == sortedv,
                m == sortedv.len(),
                top.deep_view() == names_of(sortedv).take(j as int),
            decreases count - j,
        {
            top.push(sorted[j].0.clone());
            j += 1;
            proof {
                assert(top.deep_view() =~= names_of(sortedv).take(j as int));
            }
        }
        top
    } else {
        sig
    }
}

/// The project entry built from fetched repository data: the identifier is
/// numbered from the position, the title is the repository name with hyphens
/// and underscores opened into spaces, the description falls back to a
/// language-based phrase, the full description takes the readme when one
/// came, the date is the creation timestamp's day part, and the entry is
/// featured at position zero or past ten stars.  Star and fork counts, and
/// the topics joined with commas, land in the extra metadata.
pub open spec fn github_project_v(
    url: Seq<char>,
    index: int,
    repo: &GitHubRepo,
    tech_stack: Seq<Seq<char>>,
    readme: Option<Seq<char>>,
) -> ProjectV {
    let description = (match repo.description {
        Option::Some(d) => d@,
        Option::None => "A "@ + (match repo.language {
            Option::Some(l) => l@,
            Option::None => "software"@,
        }) + " project"@,
    });
    ProjectV {
        id: "project-"@ + crate::strutil::dec_str((index + 1) as nat),
        title: swap_chars(swap_chars(repo.name@, '-', ' '), '_', ' '),
        description: description,
        full_description: (match readme {
            Option::Some(r) => r,
            Option::None => (match repo.description {
                Option::Some(d) => d@,
                Option::None => Seq::empty(),
            }),
        }),
        tech_stack: tech_stack,
        category: "Development"@,
        featured: index == 0 || repo.stargazers_count > 10,
        links: crate::models::ProjectLinksV {
            github: Some(url),
            live: repo.homepage.deep_view(),
            demo: None,
        },
        date: (if find_first(repo.created_at@, 'T') == -1 {
            repo.created_at@
        } else {
            repo.created_at@.take(find_first(repo.created_at@, 'T'))
        }),
        thumbnail: Seq::empty(),
        screenshots: Seq::empty(),
        extra: seq![
            ("stars"@, crate::models::ExtraValueV::UInt(repo.stargazers_count as u64)),
            ("forks"@, crate::models::ExtraValueV::UInt(repo.forks_count as u64)),
        ] + (if repo.topics.deep_view().len() > 0 {
            seq![
                (
                    "topics"@,
                    crate::models::ExtraValueV::Str(join_seq(repo.topics.deep_view(), ", "@)),
                ),
            ]
        } else {
            Seq::empty()
        }),
    }
}

/// Builds a project entry from fetched repository data.
pub fn build_github_project(
    url: &str,
    index: usize,
    repo: &GitHubRepo,
    tech_stack: Vec<String>,
    readme: Option<String>,
) -> (r: Project)
    requires
        index < usize::MAX,
    ensures
        r@ == github_project_v(url@, index as int, repo, tech_stack.deep_view(), readme.deep_view()),
        r.extra_keys_wf(),
{
    let id = concat_str("project-", u64_to_dec(index as u64 + 1).as_str());
    let title0 = replace_char(repo.name.as_str(), '-', ' ');
    let title = replace_char(title0.as_str(), '_', ' ');
    let description: String = match &repo.description {
        Some(d) => d.clone(),
        None => {
            let lang: String = match &repo.language {
                Some(l) => l.clone(),
                None => "software".to_owned(),
            };
            let s = concat_str("A ", lang.as_str());
            concat_str(s.as_str(), " project")
        },
    };
    let full_description: String = match readme {
        Some(r) => r,
        None => match &repo.description {
            Some(d) => d.clone(),
            None => String::new(),
        },
    };
    let date: String = match find_char(repo.created_at.as_str(), 'T') {
        Some(t) => {
            proof {
                crate::strutil::lemma_find_first(repo.created_at@, 'T');
            }
            repo.created_at.as_str().substring_char(0, t).to_owned()
        },
        None => repo.created_at.clone(),
    };
    let mut extra: Vec<(String, ExtraValue)> = Vec::new();
    extra.push(("stars".to_owned(), ExtraValue::UInt(repo.stargazers_count as u64)));
    extra.push(("forks".to_owned(), ExtraValue::UInt(repo.forks_count as u64)));
    if repo.topics.len() > 0 {
        let joined = join_strings(&repo.topics, ", ");
        extra.push(("topics".to_owned(), ExtraValue::Str(joined)));
    }
    let mut tech = tech_stack;
    let result = Project {
        id,
        title,
        description,
        full_description,
        tech_stack: tech,
        category: "Development".to_owned(),
        featured: index == 0 || repo.stargazers_count > 10,
        links: crate::models::ProjectLinks {
            github: Some(url.to_owned()),
            live: repo.homepage.clone(),
            demo: None,
        },
        date,
        thumbnail: String::new(),
        screenshots: Vec::new(),
        extra,
    };
    proof {
        assert(result@.date =~= github_project_v(
            url@,
            index as int,
            repo,
            result@.tech_stack,
            readme.deep_view(),
        ).date);
        assert(result@.extra =~= github_project_v(
            url@,
            index as int,
            repo,
            result@.tech_stack,
            readme.deep_view(),
        ).extra);
        assert(result@.screenshots =~= Seq::<Seq<char>>::empty());
        assert(result.extra_keys_wf()) by {
            reveal_strlit("stars");
            reveal_strlit("forks");
            reveal_strlit("topics");
            assert("stars"@[0] == 's' && "forks"@[0] == 'f' && "topics"@[0] == 't');
            assert("stars"@ != "forks"@);
            assert("stars"@ != "topics"@);
            assert("forks"@ != "topics"@);
            assert(result@.extra[0].0 == "stars"@);
            assert(result@.extra[1].0 == "forks"@);
            if result@.extra.len() == 3 {
                assert(result@.extra[2].0 == "topics"@);
            }
        }
    }
    result
}

/// The placeholder entry for a URL whose data could not be fetched: derived
/// from the URL's trailing path segment alone, featured only at position
/// zero, and carrying no metadata.
pub open spec fn placeholder_project_v(url: Seq<char>, index: int) -> ProjectV {
    let seg = (if crate::strutil::find_last(url, '/') == -1 {
        url
    } else {
        url.skip(crate::strutil::find_last(url, '/') + 1)
    });
    let repo_name = replace_seq(seg, ".git"@, Seq::empty());
    ProjectV {
        id: "project-"@ + crate::strutil::dec_str((index + 1) as nat),
        title: swap_chars(repo_name, '-', ' '),
        description: "Project hosted at "@ + url,
        full_description: "This project will be populated with GitHub data."@,
        tech_stack: seq!["GitHub"@],
        category: "Development"@,
        featured: index == 0,
        links: crate::models::ProjectLinksV { github: Some(url), live: None, demo: None },
        date: "2024-01-01"@,
        thumbnail: Seq::empty(),
        screenshots: Seq::empty(),
        extra: Seq::empty(),
    }
}

/// Builds a placeholder entry for a URL whose data could not be fetched.
pub fn create_placeholder_project(url: &str, index: usize) -> (r: Project)
    requires
        index < usize::MAX,
    ensures
        r@ == placeholder_project_v(url@, index as int),
{
    proof {
        reveal_strlit(".git");
    }
    let seg: String = match crate::strutil::rfind_char(url, '/') {
        Some(k) => {
            proof {
                crate::strutil::lemma_find_last(url@, '/');
            }
            let len = url.unicode_len();
            url.substring_char(k + 1, len).to_owned()
        },
        None => url.to_owned(),
    };
    proof {
        if crate::strutil::find_last(url@, '/') >= 0 {
            assert(seg@ =~= url@.skip(crate::strutil::find_last(url@, '/') + 1));
        }
    }
    let repo_name = replace_str(seg.as_str(), ".git", "");
    let title = replace_char(repo_name.as_str(), '-', ' ');
    let mut tech: Vec<String> = Vec::new();
    tech.push("GitHub".to_owned());
    let result = Project {
        id: concat_str("project-", u64_to_dec(index as u64 + 1).as_str()),
        title,
        description: concat_str("Project hosted at ", url),
        full_description: "This project will be populated with GitHub data.".to_owned(),
        tech_stack: tech,
        category: "Development".to_owned(),
        featured: index == 0,
        links: crate::models::ProjectLinks {
            github: Some(url.to_owned()),
            live: None,
            demo: None,
        },
        date: "2024-01-01".to_owned(),
        thumbnail: String::new(),
        screenshots: Vec::new(),
        extra: Vec::new(),
    };
    proof {
        reveal_strlit("");
        assert(result@.tech_stack =~= seq!["GitHub"@]);
        assert(result@.screenshots =~= Seq::<Seq<char>>::empty());
        assert(result@.extra =~= Seq::<(Seq<char>, crate::models::ExtraValueV)>::empty());
        assert(""@ =~= Seq::<char>::empty());
    }
    result
}

/// Builds one placeholder entry per collected URL, in order.
pub fn create_placeholder_projects(urls: &Vec<String>) -> (r: Vec<Project>)
    requires
        urls@.len() < usize::MAX,
    ensures
        r.deep_view().len() == urls@.len(),
        forall|i: int|
            0 <= i < urls@.len() ==> r.deep_view()[i] == placeholder_project_v(
                urls.deep_view()[i],
                i,
            ),
{
    let mut r: Vec<Project> = Vec::new();
    let mut i: usize = 0;
    while i < urls.len()
        invariant
            i <= urls@.len(),
            urls@.len() < usize::MAX,
            r.deep_view().len() == i,
            forall|j: int|
                0 <= j < i ==> r.deep_view()[j] == placeholder_project_v(urls.deep_view()[j], j),
        decreases urls@.len() - i,
    {
        let p = create_placeholder_project(urls[i].as_str(), i);
        let ghost before = r.deep_view();
        let ghost pv = p@;
        r.push(p);
        i += 1;
        proof {
            assert(r.deep_view() =~= before.push(pv));
        }
    }
    r
}

} // verus!
