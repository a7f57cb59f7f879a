use card_search::card::{Card, CardFinish, CardInstance};
use card_search::infrastructure::InfrastructureError;
use card_search::scryfall::{
    cards_from_body, cards_from_response, search_query, ScryfallSearchEngine, NOT_FOUND,
};
use card_search::upstream::{decode_response, ScryfallCardFaceKind, ScryfallObject};

const BOLT: &str = r#"{"object":"list","data":[{"id":"11111111-1111-1111-1111-111111111111","oracle_id":"22222222-2222-2222-2222-222222222222","name":"Lightning Bolt","lang":"en","scryfall_uri":"https://x/1","type_line":"Instant","scryfall_set_uri":"https://x/2","image_uris":{"png":"https://img/bolt.png"}}]}"#;

fn entry(name: &str, faces: &str) -> String {
    format!(
        r#"{{"id":"11111111-1111-1111-1111-111111111111","oracle_id":"22222222-2222-2222-2222-222222222222","name":"{name}","lang":"en","scryfall_uri":"https://x/1","type_line":"Instant","scryfall_set_uri":"https://x/2",{faces}}}"#
    )
}

fn list(entries: &[String]) -> String {
    format!(r#"{{"object":"list","data":[{}]}}"#, entries.join(","))
}

fn search(body: &str) -> Result<Vec<Card>, InfrastructureError> {
    cards_from_response(200, body.as_bytes())
}

fn is_parse(r: &Result<Vec<Card>, InfrastructureError>) -> bool {
    matches!(r, Err(InfrastructureError::Parse(_)))
}

#[test]
fn lightning_bolt_scenario() {
    let cards = search(BOLT).unwrap();
    assert_eq!(cards.len(), 1);
    let c = &cards[0];
    assert_eq!(c.id, 0x11111111_1111_1111_1111_111111111111u128);
    assert_eq!(c.oracle_id, 0x22222222_2222_2222_2222_222222222222u128);
    assert_eq!(c.name, "Lightning Bolt");
    assert_eq!(c.language, "en");
    assert_eq!(c.type_line, "Instant");
    assert_eq!(c.scryfall_uri, "https://x/1");
    assert_eq!(c.scryfall_set_uri, "https://x/2");
    assert_eq!(c.image_uri, "https://img/bolt.png");
}

#[test]
fn double_faced_entry_takes_front_image() {
    let body = list(&[entry(
        "Delver",
        r#""card_faces":[{"image_uris":{"png":"front.png"}},{"image_uris":{"png":"back.png"}}]"#,
    )]);
    let cards = search(&body).unwrap();
    assert_eq!(cards.len(), 1);
    assert_eq!(cards[0].image_uri, "front.png");
    assert_eq!(cards[0].name, "Delver");
}

#[test]
fn decoded_double_face_keeps_both_faces() {
    let body = list(&[entry(
        "Delver",
        r#""card_faces":[{"image_uris":{"png":"front.png"}},{"image_uris":{"png":"back.png"}}]"#,
    )]);
    match decode_response(body.as_bytes()) {
        Some(ScryfallObject::List { data }) => match &data[0].card_face_kind {
            ScryfallCardFaceKind::MultipleFace(a, b) => {
                assert_eq!(a.image_uris.png, "front.png");
                assert_eq!(b.image_uris.png, "back.png");
            }
            _ => panic!("expected two faces"),
        },
        _ => panic!("expected a list"),
    }
}

#[test]
fn one_face_in_pair_is_parse_error() {
    let body = list(&[
        entry("Fine", r#""image_uris":{"png":"a.png"}"#),
        entry("Broken", r#""card_faces":[{"image_uris":{"png":"front.png"}}]"#),
    ]);
    assert!(is_parse(&search(&body)));
}

#[test]
fn empty_face_pair_is_parse_error() {
    let body = list(&[entry("Broken", r#""card_faces":[]"#)]);
    assert!(is_parse(&search(&body)));
}

#[test]
fn three_faces_is_parse_error() {
    let f = r#"{"image_uris":{"png":"f.png"}}"#;
    let body = list(&[entry("Broken", &format!(r#""card_faces":[{f},{f},{f}]"#))]);
    assert!(is_parse(&search(&body)));
}

#[test]
fn face_without_image_is_parse_error() {
    let body = list(&[entry("Broken", r#""card_faces":[{"name":"a"},{"image_uris":{"png":"b.png"}}]"#)]);
    assert!(is_parse(&search(&body)));
}

#[test]
fn not_found_is_empty_result() {
    assert_eq!(NOT_FOUND, 404);
    let r = cards_from_response(404, b"{\"object\":\"error\",\"details\":\"No cards found\"}");
    assert!(r.unwrap().is_empty());
    let r = cards_from_response(404, b"");
    assert!(r.unwrap().is_empty());
}

#[test]
fn error_payload_is_unknown_with_details() {
    let r = search(r#"{"object":"error","code":"bad_request","status":400,"details":"All of your terms were ignored."}"#);
    match r {
        Err(InfrastructureError::Unknown(m)) => {
            assert!(m.contains("All of your terms were ignored."));
            assert_eq!(m, "Received error from Scryfall 'All of your terms were ignored.'");
        }
        _ => panic!("expected an upstream error"),
    }
}

#[test]
fn truncated_body_is_parse_error() {
    let cut = &BOLT[..BOLT.len() - 5];
    assert!(is_parse(&search(cut)));
    assert!(is_parse(&search("")));
    assert!(is_parse(&search("not json")));
}

#[test]
fn missing_discriminator_is_parse_error() {
    assert!(is_parse(&search(r#"{"data":[]}"#)));
    assert!(is_parse(&search(r#"{"object":"card","data":[]}"#)));
    assert!(is_parse(&search(r#"{"object":7,"data":[]}"#)));
    assert!(is_parse(&search(r#"[1,2,3]"#)));
}

#[test]
fn trailing_text_is_parse_error() {
    assert!(is_parse(&search(&format!("{BOLT} x"))));
    assert!(search(&format!(" \n{BOLT}\r\n\t")).is_ok());
}

#[test]
fn order_is_preserved() {
    let body = list(&[
        entry("A", r#""image_uris":{"png":"a.png"}"#),
        entry("B", r#""card_faces":[{"image_uris":{"png":"b.png"}},{"image_uris":{"png":"b2.png"}}]"#),
        entry("C", r#""image_uris":{"png":"c.png"}"#),
    ]);
    let cards = search(&body).unwrap();
    let names: Vec<&str> = cards.iter().map(|c| c.name.as_str()).collect();
    assert_eq!(names, vec!["A", "B", "C"]);
    let images: Vec<&str> = cards.iter().map(|c| c.image_uri.as_str()).collect();
    assert_eq!(images, vec!["a.png", "b.png", "c.png"]);
}

#[test]
fn empty_list_is_empty_result() {
    assert!(search(r#"{"object":"list","data":[]}"#).unwrap().is_empty());
    assert!(search(r#"{ "object" : "list" , "data" : [ ] }"#).unwrap().is_empty());
}

#[test]
fn unknown_fields_are_ignored() {
    let faces = r#""prices":{"usd":"0.50","eur":null},"cmc":1.0e0,"reserved":false,"games":["paper","mtgo"],"digital":true,"edhrec_rank":-12,"image_uris":{"small":"s.jpg","png":"p.png"}"#;
    let body = format!(r#"{{"has_more":false,"total_cards":1,"object":"list","data":[{}]}}"#, entry("X", faces));
    let cards = search(&body).unwrap();
    assert_eq!(cards[0].image_uri, "p.png");
}

#[test]
fn first_layout_member_decides() {
    let body = list(&[entry(
        "Flip",
        r#""card_faces":[{"name":"a"},{"name":"b"}],"image_uris":{"png":"top.png"}"#,
    )]);
    assert!(is_parse(&search(&body)));
    let body = list(&[entry(
        "Split",
        r#""image_uris":{"png":"top.png"},"card_faces":[{"name":"a"},{"name":"b"}]"#,
    )]);
    assert_eq!(search(&body).unwrap()[0].image_uri, "top.png");
}

#[test]
fn string_escapes_are_decoded() {
    let body = list(&[entry(
        "J\\u00f6tun \\\"Owl\\\" \\ud83d\\ude00\\/",
        r#""image_uris":{"png":"a\nb"}"#,
    )]);
    let cards = search(&body).unwrap();
    assert_eq!(cards[0].name, "J\u{f6}tun \"Owl\" \u{1F600}/");
    let body = list(&[entry("Æther", r#""image_uris":{"png":"x.png"}"#)]);
    assert_eq!(search(&body).unwrap()[0].name, "Æther");
}

#[test]
fn bad_escapes_are_parse_errors() {
    let lone = list(&[entry("a\\ud83d", r#""image_uris":{"png":"x.png"}"#)]);
    assert!(is_parse(&search(&lone)));
    let trailing = list(&[entry("a\\ude00", r#""image_uris":{"png":"x.png"}"#)]);
    assert!(is_parse(&search(&trailing)));
    let unknown = list(&[entry("a\\q", r#""image_uris":{"png":"x.png"}"#)]);
    assert!(is_parse(&search(&unknown)));
    let raw_newline = list(&[entry("a\nb", r#""image_uris":{"png":"x.png"}"#)]);
    assert!(is_parse(&search(&raw_newline)));
}

#[test]
fn invalid_utf8_is_parse_error() {
    let mut body = list(&[entry("AB", r#""image_uris":{"png":"x.png"}"#)]).into_bytes();
    let at = body.windows(2).position(|w| w == b"AB").unwrap();
    body[at] = 0xff;
    assert!(matches!(cards_from_response(200, &body), Err(InfrastructureError::Parse(_))));
}

#[test]
fn bad_numbers_are_parse_errors() {
    for n in ["01", "1.", ".5", "-", "1e", "+1", "1.5e+"] {
        let body = format!(r#"{{"object":"list","n":{n},"data":[]}}"#);
        assert!(is_parse(&search(&body)), "{n}");
    }
    for n in ["0", "-0", "12.50", "1E9", "-3.2e-7"] {
        let body = format!(r#"{{"object":"list","n":{n},"data":[]}}"#);
        assert!(search(&body).is_ok(), "{n}");
    }
}

#[test]
fn invalid_uuid_is_parse_error() {
    let body = BOLT.replace("11111111-1111-1111-1111-111111111111", "not-a-uuid");
    assert!(is_parse(&search(&body)));
}

#[test]
fn missing_field_is_parse_error() {
    let body = BOLT.replace(r#""lang":"en","#, "");
    assert!(is_parse(&search(&body)));
    let body = BOLT.replace(r#""name":"Lightning Bolt""#, r#""name":null"#);
    assert!(is_parse(&search(&body)));
}

#[test]
fn deep_nesting_is_parse_error() {
    let deep = format!(r#"{{"object":"list","x":{}{},"data":[]}}"#, "[".repeat(200), "]".repeat(200));
    assert!(is_parse(&search(&deep)));
    let shallow = format!(r#"{{"object":"list","x":{}{},"data":[]}}"#, "[".repeat(100), "]".repeat(100));
    assert!(search(&shallow).is_ok());
}

#[test]
fn query_is_quoted_phrase() {
    assert_eq!(search_query("Lightning Bolt"), "\"Lightning Bolt\"");
    assert_eq!(search_query(""), "\"\"");
}

#[test]
fn engine_builds_search_request() {
    let engine = ScryfallSearchEngine::new().unwrap();
    let request = engine.search_request("Lightning Bolt").into_builder().build().unwrap();
    assert_eq!(request.method().as_str(), "GET");
    let url = request.url();
    assert_eq!(url.host_str(), Some("api.scryfall.com"));
    assert_eq!(url.path(), "/cards/search");
    let q: Vec<(String, String)> = url.query_pairs().map(|(k, v)| (k.into_owned(), v.into_owned())).collect();
    assert_eq!(q, vec![("q".to_string(), "\"Lightning Bolt\"".to_string())]);
}

#[test]
fn error_descriptions() {
    let e = InfrastructureError::Parse("bad".to_string());
    assert_eq!(e.to_string(), "Failed to parse data from infrastructure (bad)");
    let e = InfrastructureError::Unknown("boom".to_string());
    assert_eq!(e.to_string(), "boom");
}

#[test]
fn defaults() {
    assert_eq!(CardFinish::default(), CardFinish::NonFoil);
    let c = Card::default();
    assert_eq!(c.id, 0);
    assert!(c.name.is_empty());
    let i = CardInstance::default();
    assert_eq!(i.finish, CardFinish::NonFoil);
    assert!(i.card == c);
}

#[test]
fn parse_error_says_what_failed() {
    match cards_from_body(b"{\"object\":\"list\"") {
        Err(InfrastructureError::Parse(m)) => assert_eq!(m, "the body is not a well-formed JSON document"),
        _ => panic!("expected a parse error"),
    }
    match cards_from_body(br#"{"data":[]}"#) {
        Err(InfrastructureError::Parse(m)) => assert_eq!(m, "the body is not a search result"),
        _ => panic!("expected a parse error"),
    }
}

#[test]
fn body_alone_gives_the_cards() {
    let cards = cards_from_body(BOLT.as_bytes()).unwrap();
    assert_eq!(cards.len(), 1);
    assert_eq!(cards[0].image_uri, "https://img/bolt.png");
}

#[test]
fn empty_name_is_sent_quoted() {
    let engine = ScryfallSearchEngine::new().unwrap();
    let request = engine.search_request("").into_builder().build().unwrap();
    let q: Vec<(String, String)> = request.url().query_pairs().map(|(k, v)| (k.into_owned(), v.into_owned())).collect();
    assert_eq!(q, vec![("q".to_string(), "\"\"".to_string())]);
    let request = engine.search_request("Fire & Ice #=").into_builder().build().unwrap();
    let q: Vec<(String, String)> = request.url().query_pairs().map(|(k, v)| (k.into_owned(), v.into_owned())).collect();
    assert_eq!(q, vec![("q".to_string(), "\"Fire & Ice #=\"".to_string())]);
}
