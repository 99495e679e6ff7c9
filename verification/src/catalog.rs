//! Runtime catalog resolution: matching a caller-supplied language query (and
//! optional exact version) against the engine's list of installed runtimes.
//!
//! Language matching is case-insensitive over the language name and every
//! alias; version matching, when a version is given, is exact and
//! case-sensitive.

use vstd::prelude::*;

use crate::domain::{clone_opt_string, Runtime, RuntimeView, RunnerError, RunnerErrorView};

verus! {

/// The case-folded image of a character sequence, exactly as the standard
/// library's lowercase conversion computes it.  The result depends on the
/// characters alone; its full definition (the Unicode lowercase mapping) is
/// deliberately left unstated and every contract speaks of this name instead.
pub uninterp spec fn lower_of(s: Seq<char>) -> Seq<char>;

/// Relies on `str::to_lowercase`: returns the lowercase conversion of the
/// input, a pure function of the input characters.
#[verifier::external_body]
fn lowercase(s: &str) -> (r: String)
    ensures
        r@ == lower_of(s@),
{
    s.to_lowercase()
}

/// Whether a query whose case-folded form is `query_lower` names this
/// runtime: it equals the case-folded language name or the case-folded form
/// of one of the aliases.
pub open spec fn spec_lang_matches_lower(rt: RuntimeView, query_lower: Seq<char>) -> bool {
    ||| lower_of(rt.language) == query_lower
    ||| exists|i: int| 0 <= i < rt.aliases.len() && lower_of(rt.aliases[i]) == query_lower
}

/// Whether `query` names this runtime, compared case-insensitively.
pub open spec fn spec_lang_matches(rt: RuntimeView, query: Seq<char>) -> bool {
    spec_lang_matches_lower(rt, lower_of(query))
}

/// Whether this runtime survives the version filter: with no version given
/// every runtime survives; with one given, only an exact, case-sensitive
/// equality with the runtime's version field.
pub open spec fn spec_version_matches(rt: RuntimeView, version: Option<Seq<char>>) -> bool {
    match version {
        None => true,
        Some(v) => rt.version == v,
    }
}

/// Whether this runtime answers the full query.
pub open spec fn spec_runtime_matches(
    rt: RuntimeView,
    query: Seq<char>,
    version: Option<Seq<char>>,
) -> bool {
    spec_version_matches(rt, version) && spec_lang_matches(rt, query)
}

/// Whether `i` is the position of the first runtime of `catalog` that
/// answers the query.
pub open spec fn spec_first_match_at(
    catalog: Seq<RuntimeView>,
    query: Seq<char>,
    version: Option<Seq<char>>,
    i: int,
) -> bool {
    &&& 0 <= i < catalog.len()
    &&& spec_runtime_matches(catalog[i], query, version)
    &&& forall|j: int| 0 <= j < i ==> !spec_runtime_matches(catalog[j], query, version)
}

/// Whether some runtime of `catalog` answers the query.
pub open spec fn spec_has_match(
    catalog: Seq<RuntimeView>,
    query: Seq<char>,
    version: Option<Seq<char>>,
) -> bool {
    exists|i: int|
        0 <= i < catalog.len() && spec_runtime_matches(catalog[i], query, version)
}

/// Case-insensitivity of resolution: two queries with the same case-folded
/// form are answered by exactly the same runtimes, whether the query hits
/// the language name or one of the aliases.
pub proof fn lemma_match_case_insensitive(
    rt: RuntimeView,
    q1: Seq<char>,
    q2: Seq<char>,
    version: Option<Seq<char>>,
)
    requires
        lower_of(q1) == lower_of(q2),
    ensures
        spec_runtime_matches(rt, q1, version) == spec_runtime_matches(rt, q2, version),
{
}

fn lang_matches(rt: &Runtime, query_lower: &String) -> (r: bool)
    ensures
        r == spec_lang_matches_lower(rt@, query_lower@),
{
    let lang_lower = lowercase(rt.language.as_str());
    if lang_lower == *query_lower {
        return true;
    }
    let mut i: usize = 0;
    while i < rt.aliases.len()
        invariant
            forall|j: int| 0 <= j < i ==> lower_of(rt@.aliases[j]) != query_lower@,
        decreases rt.aliases.len() - i,
    {
        let alias_lower = lowercase(rt.aliases[i].as_str());
        if alias_lower == *query_lower {
            proof {
                assert(lower_of(rt@.aliases[i as int]) == query_lower@);
            }
            return true;
        }
        i = i + 1;
    }
    false
}

fn version_matches(rt: &Runtime, version: &Option<String>) -> (r: bool)
    ensures
        r == spec_version_matches(rt@, version.deep_view()),
{
    match version {
        None => true,
        Some(v) => rt.version == *v,
    }
}

/// Resolves a language query, and optionally an exact version, to the first
/// runtime of the catalog that answers it; fails with `RuntimeNotFound`,
/// naming the query, when none does.
pub fn resolve_runtime(
    runtimes: &Vec<Runtime>,
    language: &String,
    version: &Option<String>,
) -> (r: Result<Runtime, RunnerError>)
    ensures
        match r {
            Ok(rt) => exists|i: int|
                spec_first_match_at(
                    runtimes.deep_view(),
                    language@,
                    version.deep_view(),
                    i,
                ) && rt@ == runtimes.deep_view()[i],
            Err(e) => {
                &&& !spec_has_match(runtimes.deep_view(), language@, version.deep_view())
                &&& e@ == (RunnerErrorView::RuntimeNotFound {
                    language: language@,
                    version: version.deep_view(),
                })
            },
        },
{
    let query_lower = lowercase(language.as_str());
    let mut i: usize = 0;
    while i < runtimes.len()
        invariant
            query_lower@ == lower_of(language@),
            i <= runtimes@.len(),
            forall|j: int| 0 <= j < i ==> !spec_runtime_matches(
                runtimes.deep_view()[j],
                language@,
                version.deep_view(),
            ),
        decreases runtimes.len() - i,
    {
        let rt = &runtimes[i];
        if version_matches(rt, version) && lang_matches(rt, &query_lower) {
            proof {
                assert(spec_runtime_matches(
                    runtimes.deep_view()[i as int],
                    language@,
                    version.deep_view(),
                ));
                assert(spec_first_match_at(
                    runtimes.deep_view(),
                    language@,
                    version.deep_view(),
                    i as int,
                ));
            }
            return Ok(rt.clone());
        }
        i = i + 1;
    }
    Err(RunnerError::RuntimeNotFound {
        language: language.clone(),
        version: clone_opt_string(version),
    })
}

} // verus!
