use vstd::prelude::*;
use crate::error::{Error, FormatKind};
use crate::request::RateLimitPolicy;
use crate::query::{list_versions_query, query_pairs};
use crate::structures::ListVersionsParams;
use crate::validate::{is_id_or_slug, is_sha1, validate_id_or_slug, validate_sha1};

verus! {

/// The service's public endpoint.
pub const API_URL_BASE: &'static str = "https://api.modrinth.com/v2/";

#[verifier::external_type_specification]
#[verifier::external_body]
pub struct ExParseError(url::ParseError);

/// The serialization of the URL that `reference` denotes relative to the URL
/// serialized as `base`, or `None` where either does not parse.
pub uninterp spec fn url_join(base: Seq<char>, reference: Seq<char>) -> Option<Seq<char>>;

/// The serialization of the URL serialized as `url` with the pair `key=value`
/// form-urlencoded onto the end of its query, or `None` where `url` does not parse.
pub uninterp spec fn url_with_query_pair(url: Seq<char>, key: Seq<char>, value: Seq<char>) -> Option<
    Seq<char>,
>;

/// Relies on url::Url::join (with Url::parse turning `base` into a Url, and
/// `String::from` back): the joined URL's serialization.
#[verifier::external_body]
fn join_url(base: &str, reference: &str) -> (r: Result<String, url::ParseError>)
    ensures
        match r {
            Ok(u) => url_join(base@, reference@) == Some(u@),
            Err(_) => url_join(base@, reference@) is None,
        },
{
    let base = url::Url::parse(base)?;
    let joined = base.join(reference)?;
    Ok(joined.into())
}

/// Relies on url::Url::query_pairs_mut and form_urlencoded's append_pair
/// (with Url::parse turning `url` into a Url, and `String::from` back).
#[verifier::external_body]
fn append_query_pair(url: &str, key: &str, value: &str) -> (r: Result<String, url::ParseError>)
    ensures
        match r {
            Ok(u) => url_with_query_pair(url@, key@, value@) == Some(u@),
            Err(_) => url_with_query_pair(url@, key@, value@) is None,
        },
{
    let mut parsed = url::Url::parse(url)?;
    parsed.query_pairs_mut().append_pair(key, value);
    Ok(parsed.into())
}

/// Joining onto a URL that may already have failed.
pub open spec fn join_opt(u: Option<Seq<char>>, reference: Seq<char>) -> Option<Seq<char>> {
    match u {
        Some(b) => url_join(b, reference),
        None => None,
    }
}

/// The URL with each of `pairs` appended to its query, in order.
pub open spec fn with_query_pairs(u: Option<Seq<char>>, pairs: Seq<(Seq<char>, Seq<char>)>) -> Option<
    Seq<char>,
>
    decreases pairs.len(),
{
    if pairs.len() == 0 {
        u
    } else {
        match with_query_pairs(u, pairs.drop_last()) {
            Some(v) => url_with_query_pair(v, pairs.last().0, pairs.last().1),
            None => None,
        }
    }
}

/// The URL listing the versions of `project_id`, filtered by `params`.
pub open spec fn list_versions_url_of(
    base: Seq<char>,
    project_id: Seq<char>,
    params: Option<ListVersionsParams>,
) -> Option<Seq<char>> {
    let path = join_opt(
        join_opt(join_opt(Some(base), "project/"@), project_id + seq!['/']),
        "version"@,
    );
    match params {
        Some(p) => with_query_pairs(path, query_pairs(p)),
        None => path,
    }
}

/// The URL of the version with ID `version_id`.
pub open spec fn version_url_of(base: Seq<char>, version_id: Seq<char>) -> Option<Seq<char>> {
    join_opt(join_opt(Some(base), "version/"@), version_id)
}

/// The URL of the version that holds the file with SHA-1 `file_hash`.
pub open spec fn version_from_hash_url_of(base: Seq<char>, file_hash: Seq<char>) -> Option<
    Seq<char>,
> {
    join_opt(join_opt(Some(base), "version_file/"@), file_hash)
}

/// What building a URL returns, given whether the identifier passed its check
/// and the URL that the joins produce.
pub open spec fn built(valid: bool, kind: FormatKind, url: Option<Seq<char>>, r: Result<
    String,
    Error,
>) -> bool {
    if !valid {
        r == Err::<String, Error>(Error::InvalidFormat(kind))
    } else {
        match url {
            Some(u) => r is Ok && r->Ok_0@ == u,
            None => r == Err::<String, Error>(Error::InvalidUrl),
        }
    }
}

fn url_error(r: Result<String, url::ParseError>) -> (out: Result<String, Error>)
    ensures
        r is Ok ==> out is Ok && out->Ok_0@ == r->Ok_0@,
        r is Err ==> out == Err::<String, Error>(Error::InvalidUrl),
{
    match r {
        Ok(s) => Ok(s),
        Err(_) => Err(Error::InvalidUrl),
    }
}

/// Append every pair to the query of `url`, in order.
fn append_query_pairs(url: String, pairs: &Vec<(String, String)>) -> (r: Result<String, Error>)
    ensures
        match with_query_pairs(Some(url@), pairs@.map_values(|p: (String, String)| (p.0@, p.1@))) {
            Some(u) => r is Ok && r->Ok_0@ == u,
            None => r == Err::<String, Error>(Error::InvalidUrl),
        },
{
    let ghost views = pairs@.map_values(|p: (String, String)| (p.0@, p.1@));
    let mut cur = url;
    let mut i: usize = 0;
    while i < pairs.len()
        invariant
            i <= pairs@.len(),
            views == pairs@.map_values(|p: (String, String)| (p.0@, p.1@)),
            with_query_pairs(Some(url@), views.subrange(0, i as int)) == Some(cur@),
        decreases pairs@.len() - i,
    {
        let next = url_error(append_query_pair(cur.as_str(), pairs[i].0.as_str(), pairs[i].1.as_str()));
        proof {
            let p = views.subrange(0, i + 1);
            assert(p.drop_last() =~= views.subrange(0, i as int));
        }
        match next {
            Ok(u) => {
                cur = u;
            },
            Err(e) => {
                proof {
                    lemma_failed_stays_failed(Some(url@), views, i as int + 1);
                }
                return Err(e);
            },
        }
        i += 1;
    }
    assert(views.subrange(0, i as int) =~= views);
    Ok(cur)
}

proof fn lemma_failed_stays_failed(u: Option<Seq<char>>, pairs: Seq<(Seq<char>, Seq<char>)>, k: int)
    requires
        0 <= k <= pairs.len(),
        with_query_pairs(u, pairs.subrange(0, k)) is None,
    ensures
        with_query_pairs(u, pairs) is None,
    decreases pairs.len() - k,
{
    if k < pairs.len() {
        let p = pairs.subrange(0, k + 1);
        assert(p.drop_last() =~= pairs.subrange(0, k));
        lemma_failed_stays_failed(u, pairs, k + 1);
    } else {
        assert(pairs.subrange(0, k) =~= pairs);
    }
}

/// URL building is deterministic: any two results that the builders' contracts
/// allow for the same identifier check and the same joined URL are the same
/// error, or URLs with byte-identical text.
pub proof fn lemma_built_deterministic(
    valid: bool,
    kind: FormatKind,
    url: Option<Seq<char>>,
    r1: Result<String, Error>,
    r2: Result<String, Error>,
)
    requires
        built(valid, kind, url, r1),
        built(valid, kind, url, r2),
    ensures
        r1 is Ok <==> r2 is Ok,
        r1 is Ok ==> r1->Ok_0@ == r2->Ok_0@,
        r1 is Err ==> r1 == r2,
{
}

proof fn lemma_none_stays_none(pairs: Seq<(Seq<char>, Seq<char>)>)
    ensures
        with_query_pairs(None, pairs) is None,
    decreases pairs.len(),
{
    if pairs.len() > 0 {
        lemma_none_stays_none(pairs.drop_last());
    }
}

/// The immutable settings of a client: where requests go, who sends them,
/// and how it reacts to the service's rate limit.
pub struct ApiConfig {
    /// The endpoint that request paths are joined onto
    pub base_url: String,
    /// The user agent sent with every request
    pub user_agent: String,
    /// When to pause after a response
    pub rate_limit: RateLimitPolicy,
}

impl ApiConfig {
    /// Settings for the public endpoint with the given user agent.
    pub fn new(user_agent: &str) -> (r: ApiConfig)
        ensures
            r.base_url@ == API_URL_BASE@,
            r.user_agent@ == user_agent@,
            r.rate_limit.threshold == 1,
            r.rate_limit.default_wait_secs == 60,
    {
        ApiConfig {
            base_url: String::from_str(API_URL_BASE),
            user_agent: String::from_str(user_agent),
            rate_limit: RateLimitPolicy::new(),
        }
    }

    /// Settings for another endpoint, e.g. a test server.
    pub fn with_base_url(base_url: &str, user_agent: &str) -> (r: ApiConfig)
        ensures
            r.base_url@ == base_url@,
            r.user_agent@ == user_agent@,
            r.rate_limit.threshold == 1,
            r.rate_limit.default_wait_secs == 60,
    {
        ApiConfig {
            base_url: String::from_str(base_url),
            user_agent: String::from_str(user_agent),
            rate_limit: RateLimitPolicy::new(),
        }
    }

    /// The URL that lists the versions of `project_id`, with `params` as query filters.
    pub fn list_versions_url(&self, project_id: &str, params: Option<&ListVersionsParams>) -> (r:
        Result<String, Error>)
        ensures
            built(
                is_id_or_slug(project_id@),
                FormatKind::IdOrSlug,
                list_versions_url_of(
                    self.base_url@,
                    project_id@,
                    match params {
                        Some(p) => Some(*p),
                        None => None,
                    },
                ),
                r,
            ),
    {
        validate_id_or_slug(project_id)?;
        proof {
            if let Some(p) = params {
                lemma_none_stays_none(query_pairs(*p));
            }
        }
        let mut dir = String::from_str(project_id);
        dir.append("/");
        proof {
            reveal_strlit("/");
        }
        assert(dir@ =~= project_id@ + seq!['/']);
        let base = self.base_url.as_str();
        let a = url_error(join_url(base, "project/"))?;
        let b = url_error(join_url(a.as_str(), dir.as_str()))?;
        let c = url_error(join_url(b.as_str(), "version"))?;
        match params {
            Some(p) => {
                let pairs = list_versions_query(p);
                assert(pairs@.map_values(|q: (String, String)| (q.0@, q.1@)) =~= query_pairs(*p));
                append_query_pairs(c, &pairs)
            },
            None => Ok(c),
        }
    }

    /// The URL of the version with ID `version_id`.
    pub fn version_url(&self, version_id: &str) -> (r: Result<String, Error>)
        ensures
            built(
                is_id_or_slug(version_id@),
                FormatKind::IdOrSlug,
                version_url_of(self.base_url@, version_id@),
                r,
            ),
    {
        validate_id_or_slug(version_id)?;
        let a = url_error(join_url(self.base_url.as_str(), "version/"))?;
        url_error(join_url(a.as_str(), version_id))
    }

    /// The URL of the version holding the file whose SHA-1 is `file_hash`.
    pub fn version_from_file_hash_url(&self, file_hash: &str) -> (r: Result<String, Error>)
        ensures
            built(
                is_sha1(file_hash@),
                FormatKind::Sha1,
                version_from_hash_url_of(self.base_url@, file_hash@),
                r,
            ),
    {
        validate_sha1(file_hash)?;
        let a = url_error(join_url(self.base_url.as_str(), "version_file/"))?;
        url_error(join_url(a.as_str(), file_hash))
    }
}

} // verus!
