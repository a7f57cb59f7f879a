//! The search engine: the upstream endpoint, the query it is sent, and the
//! normalisation of its response into cards.
use vstd::prelude::*;
use vstd::string::*;

use crate::card::{Card, CardView};
use crate::infrastructure::{InfrastructureError, InfrastructureResult};
use crate::json::{document, document_scan, string_at, DEPTH_LIMIT};
use crate::upstream::{
    decode_response, elements_at, face_lookup, key_data, key_list, key_object, lookup, members_at,
    response_object, FacesView, ObjectView, ScryfallCard, ScryfallCardFaceKind, ScryfallObject,
    UpstreamCardView,
};

verus! {

/// The origin of the upstream card database.
pub const BASE_URL: &'static str = "https://api.scryfall.com/";

/// The path of the search operation, joined onto [`BASE_URL`].
pub const SEARCH_PATH: &'static str = "/cards/search";

/// The status with which the upstream service reports that nothing matched.
pub const NOT_FOUND: u16 = 404;

#[verifier::external_type_specification]
#[verifier::external_body]
pub struct ExClient(reqwest::Client);

#[verifier::external_type_specification]
#[verifier::external_body]
pub struct ExUrl(reqwest::Url);

#[verifier::external_type_specification]
#[verifier::external_body]
pub struct ExRequestBuilder(reqwest::RequestBuilder);

/// Relies on `url::Url::parse` (re-exported by reqwest): parses an absolute
/// URL, or describes why it cannot.
#[verifier::external_body]
fn parse_url(text: &str) -> (r: Result<reqwest::Url, String>) {
    match reqwest::Url::parse(text) {
        Ok(u) => Ok(u),
        Err(e) => Err(e.to_string()),
    }
}

/// Relies on `url::Url::join`: resolves a path against a base URL.
#[verifier::external_body]
fn join_url(base: &reqwest::Url, path: &str) -> (r: Result<reqwest::Url, String>) {
    match base.join(path) {
        Ok(u) => Ok(u),
        Err(e) => Err(e.to_string()),
    }
}

/// Relies on `reqwest::ClientBuilder::new` and `ClientBuilder::build`: a client
/// with the default settings, or why it could not be built.
#[verifier::external_body]
fn build_client() -> (r: Result<reqwest::Client, String>) {
    match reqwest::ClientBuilder::new().build() {
        Ok(c) => Ok(c),
        Err(e) => Err(e.to_string()),
    }
}

/// An outgoing request, not yet sent, with what was asked of it: its method,
/// its URL and the query pairs added to it, in order.
pub struct SearchRequest {
    builder: reqwest::RequestBuilder,
    method: Ghost<Seq<char>>,
    url: Ghost<reqwest::Url>,
    query: Ghost<Seq<(Seq<char>, Seq<char>)>>,
}

impl SearchRequest {
    pub closed spec fn method(&self) -> Seq<char> {
        self.method@
    }

    pub closed spec fn url(&self) -> reqwest::Url {
        self.url@
    }

    /// The query pairs, before URL-encoding.
    pub closed spec fn query(&self) -> Seq<(Seq<char>, Seq<char>)> {
        self.query@
    }

    /// The request, to be sent.
    pub fn into_builder(self) -> reqwest::RequestBuilder {
        self.builder
    }
}

/// Relies on `reqwest::Client::get` (given a copy of the URL): a GET request
/// to the URL, not yet sent, with no query pairs added.
#[verifier::external_body]
fn get_request(client: &reqwest::Client, url: &reqwest::Url) -> (r: SearchRequest)
    ensures
        r.method() == "GET"@,
        r.url() == *url,
        r.query() == Seq::<(Seq<char>, Seq<char>)>::empty(),
{
    SearchRequest {
        builder: client.get(url.clone()),
        method: Ghost("GET"@),
        url: Ghost(*url),
        query: Ghost(Seq::empty()),
    }
}

/// Relies on `reqwest::RequestBuilder::query`: appends `key=value`, URL-encoded,
/// to the request's query string; method and URL stay.
#[verifier::external_body]
fn with_query(request: SearchRequest, key: &str, value: &str) -> (r: SearchRequest)
    ensures
        r.method() == request.method(),
        r.url() == request.url(),
        r.query() == request.query().push((key@, value@)),
{
    SearchRequest {
        builder: request.builder.query(&[(key, value)]),
        method: Ghost(request.method@),
        url: Ghost(request.url@),
        query: Ghost(request.query@.push((key@, value@))),
    }
}

/// The exact-phrase query for a card name: the name between double quotes.
pub open spec fn phrase_query(name: Seq<char>) -> Seq<char> {
    seq!['"'] + name + seq!['"']
}

/// Builds the exact-phrase query for a card name.
pub fn search_query(name: &str) -> (r: String)
    ensures
        r@ == phrase_query(name@),
{
    proof {
        reveal_strlit("\"");
    }
    let mut q = String::from_str("\"");
    q.append(name);
    q.append("\"");
    assert(q@ =~= phrase_query(name@));
    q
}

/// The card that an upstream entry normalises to: its fields copied, and as
/// its image the single image set's URL, or the first face's.
pub open spec fn normalize(u: UpstreamCardView) -> CardView {
    CardView {
        id: u.id,
        oracle_id: u.oracle_id,
        name: u.name,
        type_line: u.type_line,
        language: u.lang,
        image_uri: match u.faces {
            FacesView::Single(png) => png,
            FacesView::Double(front, _) => front,
        },
        scryfall_uri: u.scryfall_uri,
        scryfall_set_uri: u.scryfall_set_uri,
    }
}

/// The text of the error that an upstream error payload becomes.
pub open spec fn upstream_error_text(details: Seq<char>) -> Seq<char> {
    "Received error from Scryfall '"@ + details + "'"@
}

/// The description of a body that is not well-formed JSON.
pub open spec fn malformed_json_text() -> Seq<char> {
    "the body is not a well-formed JSON document"@
}

/// The description of a well-formed body that is not a search result.
pub open spec fn not_a_result_text() -> Seq<char> {
    "the body is not a search result"@
}

/// What a search returns for an upstream response with this status and body.
pub open spec fn search_outcome_ok(status: u16, body: Seq<u8>, r: InfrastructureResult<Vec<Card>>) -> bool {
    if status == NOT_FOUND {
        r matches Ok(v) && v@.len() == 0
    } else {
        body_outcome_ok(body, r)
    }
}

/// What a search returns for a response body (of a status other than "not
/// found").
pub open spec fn body_outcome_ok(body: Seq<u8>, r: InfrastructureResult<Vec<Card>>) -> bool {
    match response_object(body) {
        None => r matches Err(InfrastructureError::Parse(m)) && m@ == if document(body) is None {
            malformed_json_text()
        } else {
            not_a_result_text()
        },
        Some(ObjectView::Error(d)) => r matches Err(InfrastructureError::Unknown(m)) && m@
            == upstream_error_text(d),
        Some(ObjectView::List(cs)) => r matches Ok(v) && v@.map_values(|c: Card| c@)
            == cs.map_values(|u: UpstreamCardView| normalize(u)),
    }
}

impl Card {
    /// Normalises an upstream entry into a card.
    pub fn from_upstream(value: &ScryfallCard) -> (r: Card)
        ensures
            r@ == normalize(value@),
    {
        Card {
            id: value.id,
            oracle_id: value.oracle_id,
            name: value.name.clone(),
            type_line: value.type_line.clone(),
            language: value.lang.clone(),
            image_uri: match &value.card_face_kind {
                ScryfallCardFaceKind::SingleFace(image_uris) => image_uris.png.clone(),
                ScryfallCardFaceKind::MultipleFace(front, _) => front.image_uris.png.clone(),
            },
            scryfall_uri: value.scryfall_uri.clone(),
            scryfall_set_uri: value.scryfall_set_uri.clone(),
        }
    }
}

/// Turns an upstream response into the cards it lists, in upstream order.
///
/// A "not found" status is an empty result. Otherwise the body must hold a
/// search result: an error payload becomes an `Unknown` error that quotes its
/// details, and anything else that is not a list of cards a `Parse` error.
pub fn cards_from_response(status: u16, body: &[u8]) -> (r: InfrastructureResult<Vec<Card>>)
    ensures
        search_outcome_ok(status, body@, r),
{
    if status == NOT_FOUND {
        return Ok(Vec::new());
    }
    cards_from_body(body)
}

/// Turns a response body into the cards it lists, in upstream order: an
/// error payload becomes an `Unknown` error that quotes its details, and a
/// body that is not a search result a `Parse` error that says whether it was
/// well-formed JSON.
pub fn cards_from_body(body: &[u8]) -> (r: InfrastructureResult<Vec<Card>>)
    ensures
        body_outcome_ok(body@, r),
{
    match decode_response(body) {
        None => {
            proof {
                reveal_strlit("the body is not a search result");
                reveal_strlit("the body is not a well-formed JSON document");
            }
            let why = if document_scan(body).is_some() {
                String::from_str("the body is not a search result")
            } else {
                String::from_str("the body is not a well-formed JSON document")
            };
            Err(InfrastructureError::Parse(why))
        },
        Some(ScryfallObject::Error { details }) => {
            let mut m = String::from_str("Received error from Scryfall '");
            m.append(details.as_str());
            m.append("'");
            Err(InfrastructureError::Unknown(m))
        },
        Some(ScryfallObject::List { data }) => {
            let mut out: Vec<Card> = Vec::new();
            let mut k: usize = 0;
            while k < data.len()
                invariant
                    k <= data@.len(),
                    out@.len() == k,
                    forall|j: int| 0 <= j < k ==> (#[trigger] out@[j])@ == normalize(data@[j]@),
                decreases data@.len() - k,
            {
                out.push(Card::from_upstream(&data[k]));
                k = k + 1;
            }
            assert(out@.map_values(|c: Card| c@) =~= data@.map_values(|c: ScryfallCard| c@).map_values(
                |u: UpstreamCardView| normalize(u),
            ));
            Ok(out)
        },
    }
}

/// Addresses the upstream search operation: a reusable HTTP client and the
/// URL of the search endpoint. Nothing in it changes after construction.
pub struct ScryfallSearchEngine {
    client: reqwest::Client,
    search_url: reqwest::Url,
}

impl ScryfallSearchEngine {
    /// Builds an engine: parses the base URL, joins the search path onto it
    /// and builds the client. Any failure is an `Unknown` error.
    pub fn new() -> (r: InfrastructureResult<Self>)
        ensures
            r matches Err(e) ==> e is Unknown,
    {
        let base_url = match parse_url(BASE_URL) {
            Ok(u) => u,
            Err(e) => return Err(InfrastructureError::Unknown(e)),
        };
        let client = match build_client() {
            Ok(c) => c,
            Err(e) => return Err(InfrastructureError::Unknown(e)),
        };
        let search_url = match join_url(&base_url, SEARCH_PATH) {
            Ok(u) => u,
            Err(e) => return Err(InfrastructureError::Unknown(e)),
        };
        Ok(ScryfallSearchEngine { client, search_url })
    }

    /// The URL of the search endpoint.
    pub closed spec fn search_url(&self) -> reqwest::Url {
        self.search_url
    }

    /// The request that searches for a card name: a GET to the search
    /// endpoint whose one query pair is `q`, the name's exact-phrase query.
    pub fn search_request(&self, name: &str) -> (r: SearchRequest)
        ensures
            r.method() == "GET"@,
            r.url() == self.search_url(),
            r.query() == seq![("q"@, phrase_query(name@))],
    {
        let query = search_query(name);
        let request = get_request(&self.client, &self.search_url);
        let r = with_query(request, "q", query.as_str());
        assert(r.query() =~= seq![("q"@, phrase_query(name@))]);
        r
    }
}


/// The members of the object that a body holds, if it holds a well-formed
/// JSON document whose value is an object.
pub open spec fn top_members(s: Seq<u8>) -> Option<Seq<(Seq<u8>, int, int)>> {
    match document(s) {
        Some(p) => members_at(s, p.0, DEPTH_LIMIT as nat),
        None => None,
    }
}

/// The entries of a body that holds a list-shaped search result: the spans of
/// the elements under `data`.
pub open spec fn listed_entries(s: Seq<u8>) -> Option<Seq<(int, int)>> {
    match document(s) {
        None => None,
        Some(p) => match members_at(s, p.0, DEPTH_LIMIT as nat) {
            None => None,
            Some(m) => match lookup(m, key_object(), 0) {
                None => None,
                Some(tag) => match string_at(s, tag.0) {
                    None => None,
                    Some(t) => {
                        if t.0 == key_list() {
                            match lookup(m, key_data(), 0) {
                                None => None,
                                Some(ds) => elements_at(s, ds.0, (DEPTH_LIMIT - 1) as nat),
                            }
                        } else {
                            None
                        }
                    },
                },
            },
        },
    }
}

/// The face spans under `card_faces` of the entry that starts at `start`,
/// where that member decides the entry's layout.
pub open spec fn listed_faces(s: Seq<u8>, start: int, d: nat) -> Option<Seq<(int, int)>> {
    match members_at(s, start, d) {
        Some(m) => match face_lookup(m, 0) {
            Some(f) => {
                if f.0 {
                    None
                } else {
                    elements_at(s, f.1, (d - 1) as nat)
                }
            },
            None => None,
        },
        None => None,
    }
}

/// A single-faced entry gives its card the URL of its one image set, and
/// every other field unchanged.
pub proof fn single_faced_entry_keeps_its_image(u: UpstreamCardView)
    requires
        u.faces is Single,
    ensures
        normalize(u).image_uri == u.faces->Single_0,
        normalize(u).id == u.id,
        normalize(u).oracle_id == u.oracle_id,
        normalize(u).name == u.name,
        normalize(u).type_line == u.type_line,
        normalize(u).language == u.lang,
        normalize(u).scryfall_uri == u.scryfall_uri,
        normalize(u).scryfall_set_uri == u.scryfall_set_uri,
{
}

/// A double-faced entry gives its card the image URL of its first face.
pub proof fn double_faced_entry_takes_front_image(u: UpstreamCardView)
    requires
        u.faces is Double,
    ensures
        normalize(u).image_uri == u.faces->Double_0,
{
}

/// An entry of a result list whose `card_faces` decides its layout but holds
/// fewer than two faces makes the whole response a `Parse` error: no card is
/// returned for it nor for the other entries.
pub proof fn short_face_pair_fails_the_response(s: Seq<u8>, k: int)
    requires
        listed_entries(s) is Some,
        0 <= k < listed_entries(s)->0.len(),
        listed_faces(s, listed_entries(s)->0[k].0, (DEPTH_LIMIT - 2) as nat) is Some,
        listed_faces(s, listed_entries(s)->0[k].0, (DEPTH_LIMIT - 2) as nat)->0.len() < 2,
    ensures
        response_object(s) is None,
        forall|r: InfrastructureResult<Vec<Card>>|
            body_outcome_ok(s, r) ==> r matches Err(InfrastructureError::Parse(_)),
{
    reveal(response_object);
    let e = listed_entries(s)->0;
    assert(crate::upstream::card_at(s, e[k].0, (DEPTH_LIMIT - 2) as nat) is None);
}

/// A "not found" status is an empty success, whatever the body.
pub proof fn not_found_is_an_empty_result(body: Seq<u8>, r: InfrastructureResult<Vec<Card>>)
    requires
        search_outcome_ok(NOT_FOUND, body, r),
    ensures
        r matches Ok(v) && v@.len() == 0,
{
}

/// The error text of an upstream error payload holds its details verbatim.
pub proof fn upstream_error_quotes_details(details: Seq<char>)
    ensures
        exists|i: int|
            0 <= i && i + details.len() <= upstream_error_text(details).len()
                && #[trigger] upstream_error_text(details).subrange(i, i + details.len()) == details,
{
    let pre = "Received error from Scryfall '"@;
    let text = upstream_error_text(details);
    assert(text.subrange(pre.len() as int, (pre.len() + details.len()) as int) =~= details);
}

/// A body that is not well-formed JSON, or whose top-level object lacks the
/// `object` discriminator, is a `Parse` error.
pub proof fn malformed_body_is_a_parse_error(s: Seq<u8>, r: InfrastructureResult<Vec<Card>>)
    requires
        body_outcome_ok(s, r),
        top_members(s) is None || lookup(top_members(s)->0, key_object(), 0) is None,
    ensures
        response_object(s) is None,
        r matches Err(InfrastructureError::Parse(_)),
{
    reveal(response_object);
}

/// The cards of a successful search follow the upstream list entry by entry.
pub proof fn list_order_is_kept(
    s: Seq<u8>,
    cs: Seq<UpstreamCardView>,
    r: InfrastructureResult<Vec<Card>>,
    k: int,
)
    requires
        response_object(s) == Some(ObjectView::List(cs)),
        body_outcome_ok(s, r),
        0 <= k < cs.len(),
    ensures
        r is Ok,
        r->Ok_0@.len() == cs.len(),
        r->Ok_0@[k]@ == normalize(cs[k]),
{
    let v = r->Ok_0;
    let cards = v@.map_values(|c: Card| c@);
    let entries = cs.map_values(|u: UpstreamCardView| normalize(u));
    assert(cards == entries);
    assert(cards.len() == v@.len() && entries.len() == cs.len());
    assert(cards[k] == v@[k]@ && entries[k] == normalize(cs[k]));
}

} // verus!
