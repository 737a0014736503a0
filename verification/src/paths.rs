//! Request paths of the daemon endpoints that take their arguments in the
//! URL: tab listing, tab tree and lookups.
use vstd::prelude::*;
use vstd::string::*;
use crate::chars::push_char;
use crate::escape::{escape_text, query_escape};
use crate::text::{free_of, index_of, lemma_index_of, split_on};

verus! {

/// `key=value`, with the value escaped.
pub open spec fn query_param(key: Seq<char>, value: Seq<char>) -> Seq<char> {
    key + seq!['='] + escape_text(value)
}

/// The text of an optional string argument.
pub open spec fn opt_text(value: Option<&str>) -> Option<Seq<char>> {
    match value {
        Some(v) => Some(v@),
        None => None,
    }
}

/// One parameter when the argument is given, none otherwise.
pub open spec fn optional_param(key: Seq<char>, value: Option<Seq<char>>) -> Seq<Seq<char>> {
    match value {
        Some(v) => seq![query_param(key, v)],
        None => Seq::empty(),
    }
}

/// Parameters joined by `&`.
pub open spec fn join_params(parts: Seq<Seq<char>>) -> Seq<char>
    decreases parts.len(),
{
    if parts.len() == 0 {
        Seq::empty()
    } else if parts.len() == 1 {
        parts[0]
    } else {
        join_params(parts.drop_last()) + seq!['&'] + parts.last()
    }
}

/// A path with its query: unchanged without parameters, otherwise followed
/// by `?` and the parameters joined by `&`.
pub open spec fn with_query(path: Seq<char>, parts: Seq<Seq<char>>) -> Seq<char> {
    if parts.len() == 0 {
        path
    } else {
        path + seq!['?'] + join_params(parts)
    }
}

/// The query parameters of the tab listing.
pub open spec fn tabs_params(browser: Option<Seq<char>>, profile: Option<Seq<char>>) -> Seq<
    Seq<char>,
> {
    optional_param("browser"@, browser) + optional_param("profile"@, profile)
}

/// The query parameters of the tab tree.
pub open spec fn tabtree_params(
    tab: Option<Seq<char>>,
    browser: Option<Seq<char>>,
    profile: Option<Seq<char>>,
    full: bool,
) -> Seq<Seq<char>> {
    optional_param("tab"@, tab) + optional_param("browser"@, browser) + optional_param(
        "profile"@,
        profile,
    ) + if full {
        seq!["full=true"@]
    } else {
        Seq::empty()
    }
}

/// What a lookup asks the daemon about.
pub enum LookupTarget {
    /// A tab, optionally narrowed to a browser and a profile.
    Tab { tab: String, browser: Option<String>, profile: Option<String> },
    /// A browser.
    Browser(String),
    /// A browser profile.
    Profile(String),
}

/// The text of an optional owned string argument.
pub open spec fn opt_string(value: Option<String>) -> Option<Seq<char>> {
    match value {
        Some(v) => Some(v@),
        None => None,
    }
}

/// The request path of a lookup.
pub open spec fn lookup_path(target: LookupTarget) -> Seq<char> {
    match target {
        LookupTarget::Tab { tab, browser, profile } => with_query(
            "/lookup/tab/"@ + escape_text(tab@),
            tabs_params(opt_string(browser), opt_string(profile)),
        ),
        LookupTarget::Browser(browser) => "/lookup/browser/"@ + escape_text(browser@),
        LookupTarget::Profile(profile) => "/lookup/profile/"@ + escape_text(profile@),
    }
}

proof fn lemma_index_of_free(s: Seq<char>, c: char)
    requires
        free_of(s, c),
    ensures
        index_of(s, c) == s.len(),
{
    lemma_index_of(s, c);
}

proof fn lemma_split_on_concat(a: Seq<char>, b: Seq<char>, c: char)
    ensures
        split_on(a + seq![c] + b, c) == split_on(a, c) + split_on(b, c),
    decreases a.len(),
{
    let s = a + seq![c] + b;
    lemma_index_of(s, c);
    lemma_index_of(a, c);
    let i = index_of(a, c);
    if i < a.len() {
        assert forall|j: int| 0 <= j < i implies s[j] != c by {
            assert(s[j] == a[j]);
        }
        assert(s[i] == c);
        assert(index_of(s, c) == i) by {
            if index_of(s, c) < i {
                assert(s[index_of(s, c)] == a[index_of(s, c)]);
            }
        }
        assert(s.take(i) =~= a.take(i));
        assert(s.skip(i + 1) =~= a.skip(i + 1) + seq![c] + b);
        lemma_split_on_concat(a.skip(i + 1), b, c);
        assert(split_on(s, c) =~= seq![a.take(i)] + (split_on(a.skip(i + 1), c) + split_on(b, c)));
    } else {
        assert forall|j: int| 0 <= j < a.len() implies s[j] != c by {
            assert(s[j] == a[j]);
        }
        assert(s[a.len() as int] == c);
        assert(index_of(s, c) == a.len()) by {
            if index_of(s, c) < a.len() {
                assert(s[index_of(s, c)] == a[index_of(s, c)]);
            }
            if index_of(s, c) > a.len() {
                assert(s[a.len() as int] != c);
            }
        }
        assert(s.take(a.len() as int) =~= a);
        assert(s.skip(a.len() as int + 1) =~= b);
    }
}

/// Parameters that hold no `&` are recovered by cutting their join at each
/// `&`: the query of a path is exactly the parameters it was built from.
pub proof fn lemma_join_params_split(parts: Seq<Seq<char>>)
    requires
        parts.len() > 0,
        forall|k: int| 0 <= k < parts.len() ==> free_of(#[trigger] parts[k], '&'),
    ensures
        split_on(join_params(parts), '&') == parts,
    decreases parts.len(),
{
    let last = parts.last();
    lemma_index_of_free(last, '&');
    assert(split_on(last, '&') == seq![last]);
    if parts.len() > 1 {
        lemma_join_params_split(parts.drop_last());
        lemma_split_on_concat(join_params(parts.drop_last()), last, '&');
        assert(parts.drop_last() + seq![last] =~= parts);
    } else {
        assert(parts =~= seq![last]);
    }
}

/// A parameter whose key holds no `&` holds none: its escaped value cannot
/// hold one.
pub proof fn lemma_query_param_free_of_amp(key: Seq<char>, value: Seq<char>)
    requires
        free_of(key, '&'),
    ensures
        free_of(query_param(key, value), '&'),
{
    crate::escape::lemma_escape_is_url_safe(value);
    let p = query_param(key, value);
    assert forall|j: int| 0 <= j < p.len() implies p[j] != '&' by {
        if j >= key.len() + 1 {
            assert(p[j] == escape_text(value)[j - key.len() - 1]);
        }
    }
}

/// The query of the tab listing cuts back, at each `&`, into exactly its
/// parameters: a browser or profile name can never add or split one.
pub proof fn lemma_tabs_query_recoverable(browser: Option<Seq<char>>, profile: Option<Seq<char>>)
    requires
        tabs_params(browser, profile).len() > 0,
    ensures
        split_on(join_params(tabs_params(browser, profile)), '&') == tabs_params(browser, profile),
{
    reveal_strlit("browser");
    reveal_strlit("profile");
    let parts = tabs_params(browser, profile);
    match browser {
        Some(b) => lemma_query_param_free_of_amp("browser"@, b),
        None => {},
    }
    match profile {
        Some(p) => lemma_query_param_free_of_amp("profile"@, p),
        None => {},
    }
    assert forall|k: int| 0 <= k < parts.len() implies free_of(#[trigger] parts[k], '&') by {}
    lemma_join_params_split(parts);
}

/// The query of the tab tree cuts back, at each `&`, into exactly its
/// parameters.
pub proof fn lemma_tabtree_query_recoverable(
    tab: Option<Seq<char>>,
    browser: Option<Seq<char>>,
    profile: Option<Seq<char>>,
    full: bool,
)
    requires
        tabtree_params(tab, browser, profile, full).len() > 0,
    ensures
        split_on(join_params(tabtree_params(tab, browser, profile, full)), '&') == tabtree_params(
            tab,
            browser,
            profile,
            full,
        ),
{
    reveal_strlit("tab");
    reveal_strlit("browser");
    reveal_strlit("profile");
    reveal_strlit("full=true");
    let parts = tabtree_params(tab, browser, profile, full);
    match tab {
        Some(t) => lemma_query_param_free_of_amp("tab"@, t),
        None => {},
    }
    match browser {
        Some(b) => lemma_query_param_free_of_amp("browser"@, b),
        None => {},
    }
    match profile {
        Some(p) => lemma_query_param_free_of_amp("profile"@, p),
        None => {},
    }
    assert forall|k: int| 0 <= k < parts.len() implies free_of(#[trigger] parts[k], '&') by {}
    lemma_join_params_split(parts);
}

fn param(key: &str, value: &str) -> (p: String)
    ensures
        p@ == query_param(key@, value@),
{
    let mut p = key.to_owned();
    push_char(&mut p, '=');
    let escaped = query_escape(value);
    p.append(escaped.as_str());
    p
}

fn push_optional_param(parts: &mut Vec<String>, key: &str, value: Option<&str>)
    ensures
        final(parts)@.map_values(|s: String| s@) == old(parts)@.map_values(|s: String| s@)
            + optional_param(key@, opt_text(value)),
{
    let ghost before = parts@.map_values(|s: String| s@);
    match value {
        Some(v) => {
            parts.push(param(key, v));
        },
        None => {},
    }
    assert(parts@.map_values(|s: String| s@) =~= before + optional_param(key@, opt_text(value)));
}

proof fn lemma_join_params_step(parts: Seq<Seq<char>>, i: int)
    requires
        1 <= i < parts.len(),
    ensures
        join_params(parts.take(i + 1)) == join_params(parts.take(i)) + seq!['&'] + parts[i],
{
    assert(parts.take(i + 1).drop_last() =~= parts.take(i));
}

/// Appends the query made of `parts` to `path`.
fn append_query(path: &mut String, parts: &Vec<String>)
    ensures
        final(path)@ == with_query(old(path)@, parts@.map_values(|s: String| s@)),
{
    let ghost ps = parts@.map_values(|s: String| s@);
    if parts.len() > 0 {
        push_char(path, '?');
        path.append(parts[0].as_str());
        assert(ps.take(1) =~= seq![ps[0]]);
        let mut i: usize = 1;
        while i < parts.len()
            invariant
                1 <= i <= parts@.len(),
                ps == parts@.map_values(|s: String| s@),
                path@ == old(path)@ + seq!['?'] + join_params(ps.take(i as int)),
            decreases parts@.len() - i,
        {
            proof {
                lemma_join_params_step(ps, i as int);
            }
            push_char(path, '&');
            path.append(parts[i].as_str());
            assert(path@ =~= old(path)@ + seq!['?'] + join_params(ps.take(i + 1)));
            i = i + 1;
        }
        assert(ps.take(parts@.len() as int) =~= ps);
    }
}

/// The request path of the tab listing: `/tabs`, with `browser` and
/// `profile` as escaped query parameters when given.
pub fn tabs_path(browser: Option<&str>, profile: Option<&str>) -> (path: String)
    ensures
        path@ == with_query("/tabs"@, tabs_params(opt_text(browser), opt_text(profile))),
{
    let mut path = "/tabs".to_owned();
    let mut parts: Vec<String> = Vec::new();
    push_optional_param(&mut parts, "browser", browser);
    push_optional_param(&mut parts, "profile", profile);
    append_query(&mut path, &parts);
    path
}

/// The request path of the tab tree: `/tabtree`, with `tab`, `browser` and
/// `profile` as escaped query parameters when given, then `full=true` when
/// the full form is asked for.
pub fn tabtree_path(tab: Option<&str>, browser: Option<&str>, profile: Option<&str>, full: bool) -> (path: String)
    ensures
        path@ == with_query(
            "/tabtree"@,
            tabtree_params(opt_text(tab), opt_text(browser), opt_text(profile), full),
        ),
{
    let mut path = "/tabtree".to_owned();
    let mut parts: Vec<String> = Vec::new();
    push_optional_param(&mut parts, "tab", tab);
    push_optional_param(&mut parts, "browser", browser);
    push_optional_param(&mut parts, "profile", profile);
    if full {
        let ghost before = parts@.map_values(|s: String| s@);
        parts.push("full=true".to_owned());
        assert(parts@.map_values(|s: String| s@) =~= before + seq!["full=true"@]);
    }
    append_query(&mut path, &parts);
    path
}

/// The daemon request path of a lookup: `/lookup/tab/<tab>` with `browser`
/// and `profile` as query parameters when given, `/lookup/browser/<browser>`
/// or `/lookup/profile/<profile>`, each name escaped.
pub fn run_lookup_command(target: &LookupTarget) -> (path: String)
    ensures
        path@ == lookup_path(*target),
{
    match target {
        LookupTarget::Tab { tab, browser, profile } => {
            let mut path = "/lookup/tab/".to_owned();
            let escaped = query_escape(tab.as_str());
            path.append(escaped.as_str());
            let mut parts: Vec<String> = Vec::new();
            let b: Option<&str> = match browser { Some(b) => Some(b.as_str()), None => None };
            let p: Option<&str> = match profile { Some(p) => Some(p.as_str()), None => None };
            push_optional_param(&mut parts, "browser", b);
            push_optional_param(&mut parts, "profile", p);
            assert(opt_text(b) == opt_string(*browser));
            assert(opt_text(p) == opt_string(*profile));
            append_query(&mut path, &parts);
            path
        },
        LookupTarget::Browser(browser) => {
            let mut path = "/lookup/browser/".to_owned();
            let escaped = query_escape(browser.as_str());
            path.append(escaped.as_str());
            path
        },
        LookupTarget::Profile(profile) => {
            let mut path = "/lookup/profile/".to_owned();
            let escaped = query_escape(profile.as_str());
            path.append(escaped.as_str());
            path
        },
    }
}

/// One when the argument is given, zero otherwise.
pub open spec fn given<T>(v: Option<T>) -> int {
    if v is Some {
        1
    } else {
        0
    }
}

/// The tab-tree query holds one parameter per argument given, in the order
/// tab, browser, profile, then `full=true`: each given name appears as
/// `key=` followed by its escaped text, and nothing else appears.
pub proof fn lemma_tabtree_params_layout(
    tab: Option<Seq<char>>,
    browser: Option<Seq<char>>,
    profile: Option<Seq<char>>,
    full: bool,
)
    ensures
        ({
            let ps = tabtree_params(tab, browser, profile, full);
            let nt = given(tab);
            let nb = given(browser);
            let np = given(profile);
            &&& ps.len() == nt + nb + np + (if full { 1int } else { 0int })
            &&& (tab matches Some(t) ==> ps[0] == "tab="@ + escape_text(t))
            &&& (browser matches Some(b) ==> ps[nt] == "browser="@ + escape_text(b))
            &&& (profile matches Some(p) ==> ps[nt + nb] == "profile="@ + escape_text(p))
            &&& (full ==> ps[nt + nb + np] == "full=true"@)
        }),
{
    reveal_strlit("tab");
    reveal_strlit("tab=");
    reveal_strlit("browser");
    reveal_strlit("browser=");
    reveal_strlit("profile");
    reveal_strlit("profile=");
    let ps = tabtree_params(tab, browser, profile, full);
    let nt = given(tab);
    let nb = given(browser);
    let np = given(profile);
    match tab {
        Some(t) => {
            assert(ps[0] == query_param("tab"@, t));
            assert(query_param("tab"@, t) =~= "tab="@ + escape_text(t));
        },
        None => {},
    }
    match browser {
        Some(b) => {
            assert(ps[nt] == query_param("browser"@, b));
            assert(query_param("browser"@, b) =~= "browser="@ + escape_text(b));
        },
        None => {},
    }
    match profile {
        Some(p) => {
            assert(ps[nt + nb] == query_param("profile"@, p));
            assert(query_param("profile"@, p) =~= "profile="@ + escape_text(p));
        },
        None => {},
    }
}

/// The tab-listing query holds one parameter per argument given, browser
/// first, then profile, each as `key=` followed by its escaped text.
pub proof fn lemma_tabs_params_layout(browser: Option<Seq<char>>, profile: Option<Seq<char>>)
    ensures
        ({
            let ps = tabs_params(browser, profile);
            let nb = given(browser);
            &&& ps.len() == nb + given(profile)
            &&& (browser matches Some(b) ==> ps[0] == "browser="@ + escape_text(b))
            &&& (profile matches Some(p) ==> ps[nb] == "profile="@ + escape_text(p))
        }),
{
    reveal_strlit("browser");
    reveal_strlit("browser=");
    reveal_strlit("profile");
    reveal_strlit("profile=");
    let ps = tabs_params(browser, profile);
    let nb = given(browser);
    match browser {
        Some(b) => {
            assert(ps[0] == query_param("browser"@, b));
            assert(query_param("browser"@, b) =~= "browser="@ + escape_text(b));
        },
        None => {},
    }
    match profile {
        Some(p) => {
            assert(ps[nb] == query_param("profile"@, p));
            assert(query_param("profile"@, p) =~= "profile="@ + escape_text(p));
        },
        None => {},
    }
}

/// A path gets a query exactly when some parameter is given: then it is the
/// path, `?`, and the parameters joined by `&`.
pub proof fn lemma_with_query_shape(path: Seq<char>, parts: Seq<Seq<char>>)
    ensures
        parts.len() == 0 ==> with_query(path, parts) == path,
        parts.len() > 0 ==> with_query(path, parts) == path + seq!['?'] + join_params(parts),
        parts.len() == 1 ==> with_query(path, parts) == path + seq!['?'] + parts[0],
{
}

/// A lookup asks for the escaped name under the path of its kind: a
/// browser under `/lookup/browser/`, a profile under `/lookup/profile/`,
/// a tab under `/lookup/tab/`, followed for a tab by `?` and its browser and
/// profile parameters when any is given.
pub proof fn lemma_lookup_path_shape(target: LookupTarget)
    ensures
        match target {
            LookupTarget::Browser(b) => lookup_path(target) == "/lookup/browser/"@ + escape_text(b@),
            LookupTarget::Profile(p) => lookup_path(target) == "/lookup/profile/"@ + escape_text(p@),
            LookupTarget::Tab { tab, browser, profile } => {
                let base = "/lookup/tab/"@ + escape_text(tab@);
                let ps = tabs_params(opt_string(browser), opt_string(profile));
                &&& (browser is None && profile is None ==> lookup_path(target) == base)
                &&& (browser is Some || profile is Some ==> lookup_path(target) == base + seq!['?']
                    + join_params(ps) && ps.len() > 0)
            },
        },
{
}

} // verus!
