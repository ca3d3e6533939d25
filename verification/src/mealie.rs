//! The Mealie REST API: its data types, the client's construction, and the URLs
//! and query strings of each request. The requests themselves are sent by the
//! application.

use vstd::prelude::*;
use vstd::string::*;
use crate::calendar::{CalendarDate, iso_date_text};
use crate::text::decimal;
use vstd::utf8::encode_utf8;

verus! {

// ─── Recipe models ───────────────────────────────────────────────

/// A food of an ingredient or shopping-list item.
pub struct Food {
    pub id: Option<String>,
    pub name: String,
}

/// A unit of measure.
pub struct Unit {
    pub id: Option<String>,
    pub name: String,
    pub abbreviation: Option<String>,
}

/// One step of a recipe's method.
pub struct Instruction {
    pub id: Option<String>,
    pub text: String,
}

/// A recipe tag.
pub struct Tag {
    pub id: Option<String>,
    pub name: String,
    pub slug: Option<String>,
}

/// A recipe category.
pub struct Category {
    pub id: Option<String>,
    pub name: String,
    pub slug: Option<String>,
}

// ─── Meal plan models ────────────────────────────────────────────

/// A meal plan entry as Mealie returns it.
pub struct MealPlanEntry {
    pub date: CalendarDate,
    /// "dinner", "lunch", etc.
    pub entry_type: String,
    pub title: String,
    pub recipe_id: Option<String>,
}

/// The body of a request that creates a meal plan entry.
pub struct CreateMealPlan {
    pub date: CalendarDate,
    pub entry_type: String,
    pub title: String,
    pub recipe_id: Option<String>,
}

// ─── Shopping list models ────────────────────────────────────────

/// A shopping list.
pub struct ShoppingList {
    pub id: String,
    pub name: String,
}

// ─── Paginated response wrapper ──────────────────────────────────

/// One page of a paginated listing.
pub struct Paginated<T> {
    pub page: u32,
    pub per_page: u32,
    pub total: u32,
    pub total_pages: u32,
    pub items: Vec<T>,
}

// ─── Base URL ────────────────────────────────────────────────────

/// `s` without its trailing slashes (as `str::trim_end_matches('/')`).
pub open spec fn trim_trailing_slashes(s: Seq<char>) -> Seq<char>
    decreases s.len(),
{
    if s.len() > 0 && s.last() == '/' {
        trim_trailing_slashes(s.drop_last())
    } else {
        s
    }
}

/// A run of `n` slashes.
pub open spec fn slashes(n: nat) -> Seq<char> {
    Seq::new(n, |_i: int| '/')
}

/// Trimming leaves no trailing slash, takes off only slashes, and trimming
/// again changes nothing.
pub proof fn lemma_trim_trailing_slashes(s: Seq<char>)
    ensures
        trim_trailing_slashes(s).len() == 0 || trim_trailing_slashes(s).last() != '/',
        exists|k: nat| s == #[trigger] trim_trailing_slashes(s) + slashes(k),
        trim_trailing_slashes(trim_trailing_slashes(s)) == trim_trailing_slashes(s),
    decreases s.len(),
{
    if s.len() > 0 && s.last() == '/' {
        let t = s.drop_last();
        lemma_trim_trailing_slashes(t);
        let k = choose|k: nat| t == #[trigger] trim_trailing_slashes(t) + slashes(k);
        assert(trim_trailing_slashes(s) == trim_trailing_slashes(t));
        assert(s =~= t.push('/'));
        assert((trim_trailing_slashes(t) + slashes(k)).push('/') =~= trim_trailing_slashes(t) + slashes(k + 1));
        assert(s =~= trim_trailing_slashes(s) + slashes(k + 1));
    } else {
        assert(s =~= trim_trailing_slashes(s) + slashes(0));
    }
}

/// The base URL without trailing slashes.
pub fn normalize_base_url(base_url: &str) -> (r: String)
    ensures
        r@ == trim_trailing_slashes(base_url@),
{
    let n = base_url.unicode_len();
    let mut k: usize = n;
    assert(base_url@.subrange(0, n as int) =~= base_url@);
    while k > 0 && base_url.get_char(k - 1) == '/'
        invariant
            n == base_url@.len(),
            k <= n,
            trim_trailing_slashes(base_url@.subrange(0, k as int)) == trim_trailing_slashes(base_url@),
        decreases k,
    {
        assert(base_url@.subrange(0, k as int).drop_last() =~= base_url@.subrange(0, k - 1));
        k = k - 1;
    }
    let kept = base_url.substring_char(0, k);
    String::from_str(kept)
}

// ─── Authorization header ────────────────────────────────────────

/// A character that may stand in an HTTP header value: tab, or any character
/// from space upwards other than DEL.
pub open spec fn header_char_ok(c: char) -> bool {
    c == '\t' || (c as int >= 32 && c as int != 127)
}

/// Every character of the text may stand in an HTTP header value.
pub open spec fn header_text_ok(s: Seq<char>) -> bool {
    forall|i: int| 0 <= i < s.len() ==> header_char_ok(#[trigger] s[i])
}

/// The value of the `Authorization` header for an API token.
pub open spec fn bearer_value(token: Seq<char>) -> Seq<char> {
    "Bearer "@ + token
}

#[verifier::external_type_specification]
#[verifier::external_body]
pub struct ExHttpClient(reqwest::Client);

#[verifier::external_type_specification]
#[verifier::external_body]
pub struct ExHttpClientBuilder(reqwest::ClientBuilder);

#[verifier::external_type_specification]
#[verifier::external_body]
pub struct ExHttpError(reqwest::Error);

#[verifier::external_type_specification]
#[verifier::external_body]
#[verifier::reject_recursive_types(T)]
pub struct ExHeaderMap<T>(reqwest::header::HeaderMap<T>);

#[verifier::external_type_specification]
#[verifier::external_body]
pub struct ExHeaderValue(reqwest::header::HeaderValue);

#[verifier::external_type_specification]
#[verifier::external_body]
pub struct ExInvalidHeaderValue(reqwest::header::InvalidHeaderValue);

/// The bytes a header value holds.
pub uninterp spec fn header_value_bytes(value: reqwest::header::HeaderValue) -> Seq<u8>;

/// What a header map holds: each header name present, with the last value
/// stored under it (names are kept in lower case).
pub uninterp spec fn header_map_entries(headers: reqwest::header::HeaderMap) -> Map<Seq<char>, Seq<u8>>;

/// The default headers a client builder has collected so far, as in
/// `header_map_entries`.
pub uninterp spec fn builder_default_header_entries(builder: reqwest::ClientBuilder) -> Map<
    Seq<char>,
    Seq<u8>,
>;

/// The default headers a client adds to every request that does not set the same
/// name itself, as in `header_map_entries`.
pub uninterp spec fn client_default_header_entries(client: reqwest::Client) -> Map<Seq<char>, Seq<u8>>;

/// A header name as this library writes it: 1 to 64 lower-case ASCII letters or
/// hyphens, which `HeaderMap::insert` keeps as it is.
pub open spec fn lower_header_name_ok(name: Seq<char>) -> bool {
    &&& 0 < name.len() <= 64
    &&& forall|i: int| 0 <= i < name.len() ==> (('a' <= #[trigger] name[i] && name[i] <= 'z') || name[i] == '-')
}

/// No headers at all.
pub open spec fn no_headers() -> Map<Seq<char>, Seq<u8>> {
    Map::empty()
}

/// The header that carries the API token.
pub open spec fn authorization_header() -> Seq<char> {
    "authorization"@
}

/// Calls `HeaderValue::from_str`, which (by its source) accepts a text exactly
/// when every byte is a tab or lies in 32..=255 other than 127, that is when
/// every character is a tab or at least a space and not DEL; an accepted value
/// holds the text's UTF-8 bytes.
#[verifier::external_body]
fn header_value_from_str(text: &str) -> (r: Result<reqwest::header::HeaderValue, reqwest::header::InvalidHeaderValue>)
    ensures
        r is Ok == header_text_ok(text@),
        r matches Ok(v) ==> header_value_bytes(v) == encode_utf8(text@),
{
    reqwest::header::HeaderValue::from_str(text)
}

/// Calls `HeaderMap::new`, which makes a map with no headers.
#[verifier::external_body]
fn header_map_new() -> (r: reqwest::header::HeaderMap)
    ensures
        header_map_entries(r) == no_headers(),
{
    reqwest::header::HeaderMap::new()
}

/// Calls `HeaderMap::insert`, which sets `value` as the only value of `name`. The
/// name is given as a lower-case static text, which the map keeps as it is; the
/// map starts empty, so its size limit (which would panic) is not reached.
#[verifier::external_body]
fn header_map_insert(headers: &mut reqwest::header::HeaderMap, name: &'static str, value: reqwest::header::HeaderValue)
    requires
        lower_header_name_ok(name@),
        header_map_entries(*old(headers)) == no_headers(),
    ensures
        header_map_entries(*final(headers)) == header_map_entries(*old(headers)).insert(name@, header_value_bytes(value)),
{
    headers.insert(name, value);
}

/// Calls `reqwest::Client::builder`; nothing is claimed of the builder's own
/// default headers.
#[verifier::external_body]
fn http_client_builder() -> reqwest::ClientBuilder {
    reqwest::Client::builder()
}

/// Calls `ClientBuilder::default_headers`, which inserts each header of the map
/// into the builder's default headers, replacing a default of the same name.
#[verifier::external_body]
fn builder_default_headers(builder: reqwest::ClientBuilder, headers: reqwest::header::HeaderMap) -> (r: reqwest::ClientBuilder)
    ensures
        builder_default_header_entries(r) == builder_default_header_entries(builder).union_prefer_right(
            header_map_entries(headers),
        ),
{
    builder.default_headers(headers)
}

/// Calls `ClientBuilder::build`, which fails when a TLS backend or the system's
/// resolver or proxy settings cannot be loaded; whether it succeeds depends on the
/// machine, so that is left open. A built client keeps the builder's default
/// headers.
#[verifier::external_body]
fn builder_build(builder: reqwest::ClientBuilder) -> (r: reqwest::Result<reqwest::Client>)
    ensures
        r matches Ok(c) ==> client_default_header_entries(c) == builder_default_header_entries(builder),
{
    builder.build()
}

/// Why a Mealie client could not be made.
pub enum MealieSetupError {
    /// "invalid api token": the token cannot stand in an HTTP header.
    InvalidApiToken,
    /// The HTTP client could not be built.
    Http(reqwest::Error),
}

/// Typed client for the Mealie REST API.
///
/// Mealie's full OpenAPI spec is at /docs — we model only the endpoints
/// the agent needs.
pub struct MealieClient {
    client: reqwest::Client,
    base_url: String,
}

impl MealieClient {
    /// The base URL the client was made with, without trailing slashes.
    pub closed spec fn spec_base_url(&self) -> Seq<char> {
        self.base_url@
    }

    /// A client that sends `Authorization: Bearer <api_token>` with every request.
    /// Fails with `InvalidApiToken` exactly when that header value is not valid;
    /// otherwise the HTTP client's construction decides.
    pub fn new(base_url: &str, api_token: &str) -> (r: Result<MealieClient, MealieSetupError>)
        ensures
            r matches Ok(c) ==> c.spec_base_url() == trim_trailing_slashes(base_url@),
            r matches Ok(c) ==> client_default_header_entries(c.spec_http_client()).contains_key(
                authorization_header(),
            ),
            r matches Ok(c) ==> client_default_header_entries(c.spec_http_client())[authorization_header()]
                == encode_utf8(bearer_value(api_token@)),
            (r matches Err(MealieSetupError::InvalidApiToken)) <==> !header_text_ok(bearer_value(api_token@)),
    {
        let mut value = String::from_str("Bearer ");
        value.append(api_token);
        let header = match header_value_from_str(value.as_str()) {
            Ok(h) => h,
            Err(_) => {
                return Err(MealieSetupError::InvalidApiToken);
            },
        };
        let mut headers = header_map_new();
        proof {
            reveal_strlit("authorization");
            reveal_strlit("Bearer ");
        }
        header_map_insert(&mut headers, "authorization", header);
        let builder = builder_default_headers(http_client_builder(), headers);
        match builder_build(builder) {
            Ok(client) => Ok(MealieClient { client, base_url: normalize_base_url(base_url) }),
            Err(e) => Err(MealieSetupError::Http(e)),
        }
    }

    /// The HTTP client the Mealie client was built with.
    pub closed spec fn spec_http_client(&self) -> reqwest::Client {
        self.client
    }

    /// The HTTP client that carries the authorization header: the one held by
    /// this Mealie client, so every request is sent through the same client.
    pub fn http(&self) -> (r: &reqwest::Client)
        ensures
            *r == self.spec_http_client(),
    {
        &self.client
    }

    /// The base URL, without trailing slashes.
    pub fn base_url(&self) -> (r: &String)
        ensures
            r@ == self.spec_base_url(),
    {
        &self.base_url
    }

    /// The full URL of an API path: the base URL, "/api", then the path.
    pub fn url(&self, path: &str) -> (r: String)
        ensures
            r@ == self.spec_base_url() + "/api"@ + path@,
    {
        let mut r = self.base_url.clone();
        r.append("/api");
        r.append(path);
        r
    }
}

// ─── Paths and queries ───────────────────────────────────────────

/// The path that lists or searches recipes.
pub fn recipes_path() -> (r: String)
    ensures
        r@ == "/recipes"@,
{
    String::from_str("/recipes")
}

/// The path of one recipe, by slug.
pub fn recipe_path(slug: &str) -> (r: String)
    ensures
        r@ == "/recipes/"@ + slug@,
{
    let mut r = String::from_str("/recipes/");
    r.append(slug);
    r
}

/// The path that lists and creates meal plan entries.
pub fn meal_plans_path() -> (r: String)
    ensures
        r@ == "/meal-plans"@,
{
    String::from_str("/meal-plans")
}

/// The path that lists shopping lists.
pub fn shopping_lists_path() -> (r: String)
    ensures
        r@ == "/groups/shopping/lists"@,
{
    String::from_str("/groups/shopping/lists")
}

/// The path that adds a recipe's ingredients to a shopping list.
pub fn shopping_list_recipe_path(list_id: &str, recipe_id: &str) -> (r: String)
    ensures
        r@ == "/groups/shopping/lists/"@ + list_id@ + "/recipe/"@ + recipe_id@,
{
    let mut r = String::from_str("/groups/shopping/lists/");
    r.append(list_id);
    r.append("/recipe/");
    r.append(recipe_id);
    r
}

/// The views of query pairs.
pub open spec fn query_view(q: Seq<(String, String)>) -> Seq<(Seq<char>, Seq<char>)> {
    q.map_values(|p: (String, String)| (p.0@, p.1@))
}

/// Pairs `key` with each of `values`.
pub open spec fn keyed(key: Seq<char>, values: Seq<Seq<char>>) -> Seq<(Seq<char>, Seq<char>)> {
    values.map_values(|v: Seq<char>| (key, v))
}

/// The query of a recipe search: page and page size, the search text if any,
/// then one `tags` pair per tag and one `categories` pair per category.
pub open spec fn search_query_spec(
    search: Option<Seq<char>>,
    tags: Seq<Seq<char>>,
    categories: Seq<Seq<char>>,
    page: u32,
    per_page: u32,
) -> Seq<(Seq<char>, Seq<char>)> {
    seq![("page"@, decimal(page as nat)), ("perPage"@, decimal(per_page as nat))]
        + match search {
            Some(q) => seq![("search"@, q)],
            None => seq![],
        } + keyed("tags"@, tags) + keyed("categories"@, categories)
}

/// Appends one `(key, value)` pair per value.
fn push_keyed(query: &mut Vec<(String, String)>, key: &str, values: &[String])
    ensures
        query_view(final(query)@) == query_view(old(query)@) + keyed(key@, values@.map_values(|v: String| v@)),
{
    let ghost start = query_view(query@);
    let mut i: usize = 0;
    while i < values.len()
        invariant
            i <= values@.len(),
            query_view(query@) == start + keyed(key@, values@.map_values(|v: String| v@).take(i as int)),
        decreases values@.len() - i,
    {
        let ghost before = query@;
        query.push((String::from_str(key), values[i].clone()));
        assert(query_view(query@) =~= query_view(before).push((key@, values@[i as int]@)));
        assert(keyed(key@, values@.map_values(|v: String| v@).take(i + 1)) =~= keyed(
            key@,
            values@.map_values(|v: String| v@).take(i as int),
        ).push((key@, values@[i as int]@)));
        assert(query_view(query@) =~= start + keyed(key@, values@.map_values(|v: String| v@).take(i + 1)));
        i = i + 1;
    }
    assert(values@.map_values(|v: String| v@).take(values@.len() as int) =~= values@.map_values(|v: String| v@));
}

/// The query string pairs of a recipe search.
pub fn search_query(search: Option<&str>, tags: &[String], categories: &[String], page: u32, per_page: u32) -> (r: Vec<(String, String)>)
    ensures
        query_view(r@) == search_query_spec(
            match search {
                Some(q) => Some(q@),
                None => None,
            },
            tags@.map_values(|t: String| t@),
            categories@.map_values(|c: String| c@),
            page,
            per_page,
        ),
{
    let mut params: Vec<(String, String)> = Vec::new();
    params.push((String::from_str("page"), crate::text::decimal_string(page as u64)));
    params.push((String::from_str("perPage"), crate::text::decimal_string(per_page as u64)));
    match search {
        Some(q) => {
            params.push((String::from_str("search"), String::from_str(q)));
        },
        None => {},
    }
    let ghost head = query_view(params@);
    push_keyed(&mut params, "tags", tags);
    push_keyed(&mut params, "categories", categories);
    let ghost s = match search {
        Some(q) => Some(q@),
        None => None,
    };
    assert(query_view(params@) =~= search_query_spec(s, tags@.map_values(|t: String| t@), categories@.map_values(|c: String| c@), page, per_page));
    params
}

/// The query of a meal-plan listing: `start_date` and `end_date` in ISO form.
pub fn meal_plans_query(start: &CalendarDate, end: &CalendarDate) -> (r: Vec<(String, String)>)
    requires
        start.wf(),
        end.wf(),
    ensures
        query_view(r@) == seq![("start_date"@, iso_date_text(*start)), ("end_date"@, iso_date_text(*end))],
{
    let mut params: Vec<(String, String)> = Vec::new();
    params.push((String::from_str("start_date"), start.to_iso_string()));
    params.push((String::from_str("end_date"), end.to_iso_string()));
    assert(query_view(params@) =~= seq![("start_date"@, iso_date_text(*start)), ("end_date"@, iso_date_text(*end))]);
    params
}

} // verus!
