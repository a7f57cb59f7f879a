//! The upstream search response: its two shapes (a list of cards or an error
//! payload) and the two face layouts of a card, decoded from the bytes of a
//! response body.
use vstd::prelude::*;
use vstd::utf8::*;

use crate::json::{
    array_scan, document, document_scan, members_view, object_items, object_scan, spans_view,
    string_at, string_scan, utf8_string, ws_end, array_items, skip_ws, Member, DEPTH_LIMIT,
};

verus! {

/// The 128-bit value of the UUID that a text spells, if it spells one.
pub uninterp spec fn uuid_of(t: Seq<char>) -> Option<u128>;

/// Relies on `uuid::Uuid::parse_str` and `Uuid::as_u128`: the result depends on
/// the text alone.
#[verifier::external_body]
fn parse_uuid(t: &str) -> (r: Option<u128>)
    ensures
        r == uuid_of(t@),
{
    uuid::Uuid::parse_str(t).ok().map(|u| u.as_u128())
}

/// The bytes of `object`.
pub open spec fn key_object() -> Seq<u8> {
    seq![0x6fu8, 0x62, 0x6a, 0x65, 0x63, 0x74]
}

fn key_object_bytes() -> (r: Vec<u8>)
    ensures
        r@ == key_object(),
{
    let r = vec![0x6fu8, 0x62, 0x6a, 0x65, 0x63, 0x74];
    assert(r@ =~= key_object());
    r
}

/// The bytes of `list`.
pub open spec fn key_list() -> Seq<u8> {
    seq![0x6cu8, 0x69, 0x73, 0x74]
}

fn key_list_bytes() -> (r: Vec<u8>)
    ensures
        r@ == key_list(),
{
    let r = vec![0x6cu8, 0x69, 0x73, 0x74];
    assert(r@ =~= key_list());
    r
}

/// The bytes of `error`.
pub open spec fn key_error() -> Seq<u8> {
    seq![0x65u8, 0x72, 0x72, 0x6f, 0x72]
}

fn key_error_bytes() -> (r: Vec<u8>)
    ensures
        r@ == key_error(),
{
    let r = vec![0x65u8, 0x72, 0x72, 0x6f, 0x72];
    assert(r@ =~= key_error());
    r
}

/// The bytes of `data`.
pub open spec fn key_data() -> Seq<u8> {
    seq![0x64u8, 0x61, 0x74, 0x61]
}

fn key_data_bytes() -> (r: Vec<u8>)
    ensures
        r@ == key_data(),
{
    let r = vec![0x64u8, 0x61, 0x74, 0x61];
    assert(r@ =~= key_data());
    r
}

/// The bytes of `details`.
pub open spec fn key_details() -> Seq<u8> {
    seq![0x64u8, 0x65, 0x74, 0x61, 0x69, 0x6c, 0x73]
}

fn key_details_bytes() -> (r: Vec<u8>)
    ensures
        r@ == key_details(),
{
    let r = vec![0x64u8, 0x65, 0x74, 0x61, 0x69, 0x6c, 0x73];
    assert(r@ =~= key_details());
    r
}

/// The bytes of `id`.
pub open spec fn key_id() -> Seq<u8> {
    seq![0x69u8, 0x64]
}

fn key_id_bytes() -> (r: Vec<u8>)
    ensures
        r@ == key_id(),
{
    let r = vec![0x69u8, 0x64];
    assert(r@ =~= key_id());
    r
}

/// The bytes of `oracle_id`.
pub open spec fn key_oracle_id() -> Seq<u8> {
    seq![0x6fu8, 0x72, 0x61, 0x63, 0x6c, 0x65, 0x5f, 0x69, 0x64]
}

fn key_oracle_id_bytes() -> (r: Vec<u8>)
    ensures
        r@ == key_oracle_id(),
{
    let r = vec![0x6fu8, 0x72, 0x61, 0x63, 0x6c, 0x65, 0x5f, 0x69, 0x64];
    assert(r@ =~= key_oracle_id());
    r
}

/// The bytes of `name`.
pub open spec fn key_name() -> Seq<u8> {
    seq![0x6eu8, 0x61, 0x6d, 0x65]
}

fn key_name_bytes() -> (r: Vec<u8>)
    ensures
        r@ == key_name(),
{
    let r = vec![0x6eu8, 0x61, 0x6d, 0x65];
    assert(r@ =~= key_name());
    r
}

/// The bytes of `lang`.
pub open spec fn key_lang() -> Seq<u8> {
    seq![0x6cu8, 0x61, 0x6e, 0x67]
}

fn key_lang_bytes() -> (r: Vec<u8>)
    ensures
        r@ == key_lang(),
{
    let r = vec![0x6cu8, 0x61, 0x6e, 0x67];
    assert(r@ =~= key_lang());
    r
}

/// The bytes of `scryfall_uri`.
pub open spec fn key_scryfall_uri() -> Seq<u8> {
    seq![0x73u8, 0x63, 0x72, 0x79, 0x66, 0x61, 0x6c, 0x6c, 0x5f, 0x75, 0x72, 0x69]
}

fn key_scryfall_uri_bytes() -> (r: Vec<u8>)
    ensures
        r@ == key_scryfall_uri(),
{
    let r = vec![0x73u8, 0x63, 0x72, 0x79, 0x66, 0x61, 0x6c, 0x6c, 0x5f, 0x75, 0x72, 0x69];
    assert(r@ =~= key_scryfall_uri());
    r
}

/// The bytes of `type_line`.
pub open spec fn key_type_line() -> Seq<u8> {
    seq![0x74u8, 0x79, 0x70, 0x65, 0x5f, 0x6c, 0x69, 0x6e, 0x65]
}

fn key_type_line_bytes() -> (r: Vec<u8>)
    ensures
        r@ == key_type_line(),
{
    let r = vec![0x74u8, 0x79, 0x70, 0x65, 0x5f, 0x6c, 0x69, 0x6e, 0x65];
    assert(r@ =~= key_type_line());
    r
}

/// The bytes of `scryfall_set_uri`.
pub open spec fn key_scryfall_set_uri() -> Seq<u8> {
    seq![0x73u8, 0x63, 0x72, 0x79, 0x66, 0x61, 0x6c, 0x6c, 0x5f, 0x73, 0x65, 0x74, 0x5f, 0x75, 0x72, 0x69]
}

fn key_scryfall_set_uri_bytes() -> (r: Vec<u8>)
    ensures
        r@ == key_scryfall_set_uri(),
{
    let r = vec![0x73u8, 0x63, 0x72, 0x79, 0x66, 0x61, 0x6c, 0x6c, 0x5f, 0x73, 0x65, 0x74, 0x5f, 0x75, 0x72, 0x69];
    assert(r@ =~= key_scryfall_set_uri());
    r
}

/// The bytes of `image_uris`.
pub open spec fn key_image_uris() -> Seq<u8> {
    seq![0x69u8, 0x6d, 0x61, 0x67, 0x65, 0x5f, 0x75, 0x72, 0x69, 0x73]
}

fn key_image_uris_bytes() -> (r: Vec<u8>)
    ensures
        r@ == key_image_uris(),
{
    let r = vec![0x69u8, 0x6d, 0x61, 0x67, 0x65, 0x5f, 0x75, 0x72, 0x69, 0x73];
    assert(r@ =~= key_image_uris());
    r
}

/// The bytes of `card_faces`.
pub open spec fn key_card_faces() -> Seq<u8> {
    seq![0x63u8, 0x61, 0x72, 0x64, 0x5f, 0x66, 0x61, 0x63, 0x65, 0x73]
}

fn key_card_faces_bytes() -> (r: Vec<u8>)
    ensures
        r@ == key_card_faces(),
{
    let r = vec![0x63u8, 0x61, 0x72, 0x64, 0x5f, 0x66, 0x61, 0x63, 0x65, 0x73];
    assert(r@ =~= key_card_faces());
    r
}

/// The bytes of `png`.
pub open spec fn key_png() -> Seq<u8> {
    seq![0x70u8, 0x6e, 0x67]
}

fn key_png_bytes() -> (r: Vec<u8>)
    ensures
        r@ == key_png(),
{
    let r = vec![0x70u8, 0x6e, 0x67];
    assert(r@ =~= key_png());
    r
}

/// The image set of a face: the URL of its PNG image.
pub struct ScryfallImageUris {
    pub png: String,
}

/// One face of a double-faced card.
pub struct ScryfallCardFace {
    pub image_uris: ScryfallImageUris,
}

/// The face layout of an upstream card: one image set, or exactly two faces.
pub enum ScryfallCardFaceKind {
    SingleFace(ScryfallImageUris),
    MultipleFace(ScryfallCardFace, ScryfallCardFace),
}

/// One entry of an upstream result list.
pub struct ScryfallCard {
    pub id: u128,
    pub oracle_id: u128,
    pub name: String,
    pub lang: String,
    pub scryfall_uri: String,
    pub type_line: String,
    pub scryfall_set_uri: String,
    pub card_face_kind: ScryfallCardFaceKind,
}

/// An upstream search result: a list of cards or an error payload.
pub enum ScryfallObject {
    List { data: Vec<ScryfallCard> },
    Error { details: String },
}

/// The image URLs of a face layout.
pub enum FacesView {
    Single(Seq<char>),
    Double(Seq<char>, Seq<char>),
}

pub struct UpstreamCardView {
    pub id: u128,
    pub oracle_id: u128,
    pub name: Seq<char>,
    pub lang: Seq<char>,
    pub scryfall_uri: Seq<char>,
    pub type_line: Seq<char>,
    pub scryfall_set_uri: Seq<char>,
    pub faces: FacesView,
}

pub enum ObjectView {
    List(Seq<UpstreamCardView>),
    Error(Seq<char>),
}

impl View for ScryfallCardFaceKind {
    type V = FacesView;

    open spec fn view(&self) -> FacesView {
        match self {
            ScryfallCardFaceKind::SingleFace(u) => FacesView::Single(u.png@),
            ScryfallCardFaceKind::MultipleFace(a, b) => FacesView::Double(
                a.image_uris.png@,
                b.image_uris.png@,
            ),
        }
    }
}

impl View for ScryfallCard {
    type V = UpstreamCardView;

    open spec fn view(&self) -> UpstreamCardView {
        UpstreamCardView {
            id: self.id,
            oracle_id: self.oracle_id,
            name: self.name@,
            lang: self.lang@,
            scryfall_uri: self.scryfall_uri@,
            type_line: self.type_line@,
            scryfall_set_uri: self.scryfall_set_uri@,
            faces: self.card_face_kind@,
        }
    }
}

impl View for ScryfallObject {
    type V = ObjectView;

    open spec fn view(&self) -> ObjectView {
        match self {
            ScryfallObject::List { data } => ObjectView::List(data@.map_values(|c: ScryfallCard| c@)),
            ScryfallObject::Error { details } => ObjectView::Error(details@),
        }
    }
}

/// The value span of the first member whose key is `key`, searching from index `k`.
pub open spec fn lookup(m: Seq<(Seq<u8>, int, int)>, key: Seq<u8>, k: int) -> Option<(int, int)>
    decreases m.len() - k,
{
    if !(0 <= k < m.len()) {
        None
    } else if m[k].0 == key {
        Some((m[k].1, m[k].2))
    } else {
        lookup(m, key, k + 1)
    }
}

/// The first member, from index `k`, that gives a face layout: whether it is
/// an image set (rather than a pair of faces), and where its value starts.
pub open spec fn face_lookup(m: Seq<(Seq<u8>, int, int)>, k: int) -> Option<(bool, int)>
    decreases m.len() - k,
{
    if !(0 <= k < m.len()) {
        None
    } else if m[k].0 == key_image_uris() {
        Some((true, m[k].1))
    } else if m[k].0 == key_card_faces() {
        Some((false, m[k].1))
    } else {
        face_lookup(m, k + 1)
    }
}

/// The members of the object that starts at `start`.
pub open spec fn members_at(s: Seq<u8>, start: int, d: nat) -> Option<Seq<(Seq<u8>, int, int)>> {
    if 0 <= start < s.len() && s[start] == 0x7b {
        match object_items(s, skip_ws(s, start + 1), d, seq![]) {
            Some(p) => Some(p.0),
            None => None,
        }
    } else {
        None
    }
}

/// The element spans of the array that starts at `start`.
pub open spec fn elements_at(s: Seq<u8>, start: int, d: nat) -> Option<Seq<(int, int)>> {
    if 0 <= start < s.len() && s[start] == 0x5b {
        match array_items(s, skip_ws(s, start + 1), d, seq![]) {
            Some(p) => Some(p.0),
            None => None,
        }
    } else {
        None
    }
}

/// The text of the string that starts at `start`.
pub open spec fn text_at(s: Seq<u8>, start: int) -> Option<Seq<char>> {
    match string_at(s, start) {
        Some(p) => Some(decode_utf8(p.0)),
        None => None,
    }
}

/// The text held by the member `key`.
pub open spec fn field_text(s: Seq<u8>, m: Seq<(Seq<u8>, int, int)>, key: Seq<u8>) -> Option<
    Seq<char>,
> {
    match lookup(m, key, 0) {
        Some(sp) => text_at(s, sp.0),
        None => None,
    }
}

/// The UUID held by the member `key`.
pub open spec fn field_uuid(s: Seq<u8>, m: Seq<(Seq<u8>, int, int)>, key: Seq<u8>) -> Option<u128> {
    match field_text(s, m, key) {
        Some(t) => uuid_of(t),
        None => None,
    }
}

/// The PNG URL of the image set that starts at `start`.
pub open spec fn png_at(s: Seq<u8>, start: int, d: nat) -> Option<Seq<char>> {
    match members_at(s, start, d) {
        Some(m) => field_text(s, m, key_png()),
        None => None,
    }
}

/// The PNG URL of the face that starts at `start`.
pub open spec fn face_png(s: Seq<u8>, start: int, d: nat) -> Option<Seq<char>> {
    match members_at(s, start, d) {
        Some(m) => match lookup(m, key_image_uris(), 0) {
            Some(sp) => png_at(s, sp.0, (d - 1) as nat),
            None => None,
        },
        None => None,
    }
}

/// The face layout of a card whose members are `m`, read at depth `d`: the
/// first of `image_uris` and `card_faces` decides, and `card_faces` must hold
/// exactly two faces.
pub open spec fn faces_of(s: Seq<u8>, m: Seq<(Seq<u8>, int, int)>, d: nat) -> Option<FacesView> {
    match face_lookup(m, 0) {
        None => None,
        Some(f) => {
            if f.0 {
                match png_at(s, f.1, (d - 1) as nat) {
                    Some(u) => Some(FacesView::Single(u)),
                    None => None,
                }
            } else {
                match elements_at(s, f.1, (d - 1) as nat) {
                    Some(e) => {
                        if e.len() == 2 {
                            match (face_png(s, e[0].0, (d - 2) as nat), face_png(s, e[1].0, (d - 2) as nat)) {
                                (Some(a), Some(b)) => Some(FacesView::Double(a, b)),
                                _ => None,
                            }
                        } else {
                            None
                        }
                    },
                    None => None,
                }
            }
        },
    }
}

/// The upstream card whose object starts at `start`.
pub open spec fn card_at(s: Seq<u8>, start: int, d: nat) -> Option<UpstreamCardView> {
    match members_at(s, start, d) {
        None => None,
        Some(m) => {
            let id = field_uuid(s, m, key_id());
            let oracle_id = field_uuid(s, m, key_oracle_id());
            let name = field_text(s, m, key_name());
            let lang = field_text(s, m, key_lang());
            let scryfall_uri = field_text(s, m, key_scryfall_uri());
            let type_line = field_text(s, m, key_type_line());
            let scryfall_set_uri = field_text(s, m, key_scryfall_set_uri());
            let faces = faces_of(s, m, d);
            if id is Some && oracle_id is Some && name is Some && lang is Some && scryfall_uri is Some
                && type_line is Some && scryfall_set_uri is Some && faces is Some {
                Some(
                    UpstreamCardView {
                        id: id->0,
                        oracle_id: oracle_id->0,
                        name: name->0,
                        lang: lang->0,
                        scryfall_uri: scryfall_uri->0,
                        type_line: type_line->0,
                        scryfall_set_uri: scryfall_set_uri->0,
                        faces: faces->0,
                    },
                )
            } else {
                None
            }
        },
    }
}

/// The cards of a result list whose elements lie at `e`, in that order; none
/// if any of them is not a card.
pub open spec fn cards_at(s: Seq<u8>, e: Seq<(int, int)>, d: nat) -> Option<Seq<UpstreamCardView>> {
    if forall|k: int| 0 <= k < e.len() ==> (#[trigger] card_at(s, e[k].0, d)) is Some {
        Some(Seq::new(e.len(), |k: int| card_at(s, e[k].0, d)->0))
    } else {
        None
    }
}

/// The upstream search result that a response body holds, if it holds one:
/// a JSON object whose `object` member is `"list"` (with the cards under
/// `data`) or `"error"` (with the text under `details`).
#[verifier::opaque]
pub open spec fn response_object(s: Seq<u8>) -> Option<ObjectView> {
    match document(s) {
        None => None,
        Some(p) => match members_at(s, p.0, DEPTH_LIMIT as nat) {
            None => None,
            Some(m) => match lookup(m, key_object(), 0) {
                None => None,
                Some(tag) => match string_at(s, tag.0) {
                    None => None,
                    Some(t) => {
                        if t.0 == key_list() {
                            match lookup(m, key_data(), 0) {
                                None => None,
                                Some(ds) => match elements_at(s, ds.0, (DEPTH_LIMIT - 1) as nat) {
                                    None => None,
                                    Some(e) => match cards_at(s, e, (DEPTH_LIMIT - 2) as nat) {
                                        Some(c) => Some(ObjectView::List(c)),
                                        None => None,
                                    },
                                },
                            }
                        } else if t.0 == key_error() {
                            match field_text(s, m, key_details()) {
                                Some(d) => Some(ObjectView::Error(d)),
                                None => None,
                            }
                        } else {
                            None
                        }
                    },
                },
            },
        },
    }
}


fn bytes_equal(a: &Vec<u8>, b: &Vec<u8>) -> (r: bool)
    ensures
        r == (a@ == b@),
{
    if a.len() != b.len() {
        return false;
    }
    let mut k: usize = 0;
    while k < a.len()
        invariant
            k <= a@.len(),
            a@.len() == b@.len(),
            forall|j: int| 0 <= j < k ==> a@[j] == b@[j],
        decreases a@.len() - k,
    {
        if a[k] != b[k] {
            return false;
        }
        k = k + 1;
    }
    assert(a@ =~= b@);
    true
}

fn find_member(m: &Vec<Member>, key: &Vec<u8>) -> (r: Option<(usize, usize)>)
    ensures
        r matches Some(p) ==> lookup(members_view(m@), key@, 0) == Some((p.0 as int, p.1 as int)),
        r is None ==> lookup(members_view(m@), key@, 0) is None,
{
    let mut k: usize = 0;
    while k < m.len()
        invariant
            k <= m@.len(),
            lookup(members_view(m@), key@, k as int) == lookup(members_view(m@), key@, 0),
        decreases m@.len() - k,
    {
        if bytes_equal(&m[k].key, key) {
            return Some((m[k].start, m[k].end));
        }
        k = k + 1;
    }
    None
}

fn find_face(m: &Vec<Member>) -> (r: Option<(bool, usize)>)
    ensures
        r matches Some(p) ==> face_lookup(members_view(m@), 0) == Some((p.0, p.1 as int)),
        r is None ==> face_lookup(members_view(m@), 0) is None,
{
    let image_uris = key_image_uris_bytes();
    let card_faces = key_card_faces_bytes();
    let mut k: usize = 0;
    while k < m.len()
        invariant
            k <= m@.len(),
            image_uris@ == key_image_uris(),
            card_faces@ == key_card_faces(),
            face_lookup(members_view(m@), k as int) == face_lookup(members_view(m@), 0),
        decreases m@.len() - k,
    {
        if bytes_equal(&m[k].key, &image_uris) {
            return Some((true, m[k].start));
        }
        if bytes_equal(&m[k].key, &card_faces) {
            return Some((false, m[k].start));
        }
        k = k + 1;
    }
    None
}

fn members_scan(s: &[u8], start: usize, d: usize) -> (r: Option<Vec<Member>>)
    ensures
        r matches Some(m) ==> members_at(s@, start as int, d as nat) == Some(members_view(m@))
            && d > 0,
        r is None ==> members_at(s@, start as int, d as nat) is None,
{
    if !(start < s.len() && s[start] == 0x7b) {
        return None;
    }
    let k = ws_end(s, start + 1);
    match object_scan(s, k, d) {
        Some((m, _)) => Some(m),
        None => None,
    }
}

fn elements_scan(s: &[u8], start: usize, d: usize) -> (r: Option<Vec<(usize, usize)>>)
    ensures
        r matches Some(e) ==> elements_at(s@, start as int, d as nat) == Some(spans_view(e@))
            && d > 0,
        r is None ==> elements_at(s@, start as int, d as nat) is None,
{
    if !(start < s.len() && s[start] == 0x5b) {
        return None;
    }
    let k = ws_end(s, start + 1);
    match array_scan(s, k, d) {
        Some((e, _)) => Some(e),
        None => None,
    }
}

fn text_scan(s: &[u8], start: usize) -> (r: Option<String>)
    ensures
        r matches Some(t) ==> text_at(s@, start as int) == Some(t@),
        r is None ==> text_at(s@, start as int) is None,
{
    if start >= s.len() {
        return None;
    }
    match string_scan(s, start) {
        Some((b, _)) => utf8_string(b),
        None => None,
    }
}

fn field_text_scan(s: &[u8], m: &Vec<Member>, key: &Vec<u8>) -> (r: Option<String>)
    ensures
        r matches Some(t) ==> field_text(s@, members_view(m@), key@) == Some(t@),
        r is None ==> field_text(s@, members_view(m@), key@) is None,
{
    match find_member(m, key) {
        Some(sp) => text_scan(s, sp.0),
        None => None,
    }
}

fn field_uuid_scan(s: &[u8], m: &Vec<Member>, key: &Vec<u8>) -> (r: Option<u128>)
    ensures
        r == field_uuid(s@, members_view(m@), key@),
{
    match field_text_scan(s, m, key) {
        Some(t) => parse_uuid(t.as_str()),
        None => None,
    }
}

fn png_scan(s: &[u8], start: usize, d: usize) -> (r: Option<ScryfallImageUris>)
    ensures
        r matches Some(u) ==> png_at(s@, start as int, d as nat) == Some(u.png@),
        r is None ==> png_at(s@, start as int, d as nat) is None,
{
    match members_scan(s, start, d) {
        Some(m) => match field_text_scan(s, &m, &key_png_bytes()) {
            Some(png) => Some(ScryfallImageUris { png }),
            None => None,
        },
        None => None,
    }
}

fn face_scan(s: &[u8], start: usize, d: usize) -> (r: Option<ScryfallCardFace>)
    ensures
        r matches Some(f) ==> face_png(s@, start as int, d as nat) == Some(f.image_uris.png@),
        r is None ==> face_png(s@, start as int, d as nat) is None,
{
    match members_scan(s, start, d) {
        Some(m) => match find_member(&m, &key_image_uris_bytes()) {
            Some(sp) => match png_scan(s, sp.0, d - 1) {
                Some(image_uris) => Some(ScryfallCardFace { image_uris }),
                None => None,
            },
            None => None,
        },
        None => None,
    }
}

fn faces_scan(s: &[u8], m: &Vec<Member>, d: usize) -> (r: Option<ScryfallCardFaceKind>)
    requires
        d > 0,
    ensures
        r matches Some(f) ==> faces_of(s@, members_view(m@), d as nat) == Some(f@),
        r is None ==> faces_of(s@, members_view(m@), d as nat) is None,
{
    match find_face(m) {
        None => None,
        Some((single, start)) => {
            if single {
                match png_scan(s, start, d - 1) {
                    Some(u) => Some(ScryfallCardFaceKind::SingleFace(u)),
                    None => None,
                }
            } else {
                match elements_scan(s, start, d - 1) {
                    Some(e) => {
                        if e.len() == 2 {
                            let a = face_scan(s, e[0].0, d - 2);
                            let b = face_scan(s, e[1].0, d - 2);
                            match (a, b) {
                                (Some(a), Some(b)) => Some(ScryfallCardFaceKind::MultipleFace(a, b)),
                                _ => None,
                            }
                        } else {
                            None
                        }
                    },
                    None => None,
                }
            }
        },
    }
}

fn card_scan(s: &[u8], start: usize, d: usize) -> (r: Option<ScryfallCard>)
    ensures
        r matches Some(c) ==> card_at(s@, start as int, d as nat) == Some(c@),
        r is None ==> card_at(s@, start as int, d as nat) is None,
{
    let m = match members_scan(s, start, d) {
        Some(m) => m,
        None => return None,
    };
    let id = field_uuid_scan(s, &m, &key_id_bytes());
    let oracle_id = field_uuid_scan(s, &m, &key_oracle_id_bytes());
    let name = field_text_scan(s, &m, &key_name_bytes());
    let lang = field_text_scan(s, &m, &key_lang_bytes());
    let scryfall_uri = field_text_scan(s, &m, &key_scryfall_uri_bytes());
    let type_line = field_text_scan(s, &m, &key_type_line_bytes());
    let scryfall_set_uri = field_text_scan(s, &m, &key_scryfall_set_uri_bytes());
    let faces = faces_scan(s, &m, d);
    match (id, oracle_id, name, lang, scryfall_uri, type_line, scryfall_set_uri, faces) {
        (
            Some(id),
            Some(oracle_id),
            Some(name),
            Some(lang),
            Some(scryfall_uri),
            Some(type_line),
            Some(scryfall_set_uri),
            Some(card_face_kind),
        ) => Some(
            ScryfallCard {
                id,
                oracle_id,
                name,
                lang,
                scryfall_uri,
                type_line,
                scryfall_set_uri,
                card_face_kind,
            },
        ),
        _ => None,
    }
}

fn cards_scan(s: &[u8], e: &Vec<(usize, usize)>, d: usize) -> (r: Option<Vec<ScryfallCard>>)
    ensures
        r matches Some(c) ==> cards_at(s@, spans_view(e@), d as nat) == Some(
            c@.map_values(|x: ScryfallCard| x@),
        ),
        r is None ==> cards_at(s@, spans_view(e@), d as nat) is None,
{
    let ghost sp = spans_view(e@);
    let mut out: Vec<ScryfallCard> = Vec::new();
    let mut k: usize = 0;
    while k < e.len()
        invariant
            k <= e@.len(),
            sp == spans_view(e@),
            out@.len() == k,
            forall|j: int|
                0 <= j < k ==> card_at(s@, sp[j].0, d as nat) == Some(#[trigger] out@[j]@),
        decreases e@.len() - k,
    {
        match card_scan(s, e[k].0, d) {
            Some(c) => {
                out.push(c);
            },
            None => {
                assert(card_at(s@, sp[k as int].0, d as nat) is None);
                return None;
            },
        }
        k = k + 1;
    }
    assert forall|j: int| 0 <= j < sp.len() implies (#[trigger] card_at(
        s@,
        sp[j].0,
        d as nat,
    )) is Some by {
        assert(card_at(s@, sp[j].0, d as nat) == Some(out@[j]@));
    }
    assert(out@.map_values(|x: ScryfallCard| x@) =~= Seq::new(
        sp.len(),
        |j: int| card_at(s@, sp[j].0, d as nat)->0,
    ));
    Some(out)
}

/// Decodes a response body into the upstream search result it holds.
pub fn decode_response(s: &[u8]) -> (r: Option<ScryfallObject>)
    ensures
        r matches Some(o) ==> response_object(s@) == Some(o@),
        r is None ==> response_object(s@) is None,
{
    reveal(response_object);
    let p = match document_scan(s) {
        Some(p) => p,
        None => return None,
    };
    let m = match members_scan(s, p.0, DEPTH_LIMIT) {
        Some(m) => m,
        None => return None,
    };
    let tag = match find_member(&m, &key_object_bytes()) {
        Some(t) => t,
        None => return None,
    };
    if tag.0 > s.len() {
        return None;
    }
    let t = match string_scan(s, tag.0) {
        Some((t, _)) => t,
        None => return None,
    };
    if bytes_equal(&t, &key_list_bytes()) {
        let ds = match find_member(&m, &key_data_bytes()) {
            Some(ds) => ds,
            None => return None,
        };
        let e = match elements_scan(s, ds.0, DEPTH_LIMIT - 1) {
            Some(e) => e,
            None => return None,
        };
        match cards_scan(s, &e, DEPTH_LIMIT - 2) {
            Some(data) => Some(ScryfallObject::List { data }),
            None => None,
        }
    } else if bytes_equal(&t, &key_error_bytes()) {
        match field_text_scan(s, &m, &key_details_bytes()) {
            Some(details) => Some(ScryfallObject::Error { details }),
            None => None,
        }
    } else {
        None
    }
}

} // verus!
