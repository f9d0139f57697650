use api_adresse::client::body;
use api_adresse::url::{reverse_url, search_url};
use api_adresse::{get_data, Error, Fetched, Json, Member};

const SEARCH_RESPONSE: &str = r#"{"type":"FeatureCollection","version":"draft","features":[{"type":"Feature","geometry":{"type":"Point","coordinates":[4.823731,44.750832]},"properties":{"label":"200 Chemin de Puy Petit 26270 Loriol-sur-Drôme","score":0.8912,"housenumber":"200","id":"26166_0520_00200","name":"200 Chemin de Puy Petit","postcode":"26270","citycode":"26166","x":844000.51,"y":6407000.2,"city":"Loriol-sur-Drôme","context":"26, Drôme, Auvergne-Rhône-Alpes","type":"housenumber","importance":0.40536,"street":"Chemin de Puy Petit"}}],"attribution":"BAN","licence":"ETALAB-2.0","query":"200 Chemin de puy petit","limit":5}"#;

const REVERSE_RESPONSE: &str = r#"{"type":"FeatureCollection","version":"draft","features":[{"type":"Feature","geometry":{"type":"Point","coordinates":[2.370716,48.357003]},"properties":{"label":"23 Chemin de Pithiviers 91720 Prunay-sur-Essonne","score":0.9999,"housenumber":"23","id":"91507_0130_00023","name":"23 Chemin de Pithiviers","postcode":"91720","citycode":"91507","x":653394.23,"y":6806500.41,"city":"Prunay-sur-Essonne","context":"91, Essonne, Île-de-France","type":"housenumber","importance":0.35,"street":"Chemin de Pithiviers","distance":12}}],"attribution":"BAN","licence":"ETALAB-2.0","limit":1}"#;

#[test]
fn test_get_address_info() {
    let url = search_url("200 Chemin de puy petit");
    assert_eq!(url, "https://api-adresse.data.gouv.fr/search/?q=200%20Chemin%20de%20puy%20petit");
    let result = get_data(Fetched::Body(SEARCH_RESPONSE.to_string())).unwrap();
    assert_eq!(result.features[0].properties.postcode, "26270");
    assert_eq!(result.features[0].properties.citycode, "26166");
}

#[test]
fn test_get_reverse_info() {
    let url = reverse_url(&format!("{}", 2.37), &format!("{}", 48.357));
    assert_eq!(url, "https://api-adresse.data.gouv.fr/reverse/?lon=2.37&lat=48.357");
    let result = get_data(Fetched::Body(REVERSE_RESPONSE.to_string())).unwrap();
    assert_eq!(
        result.features[0].properties.label,
        "23 Chemin de Pithiviers 91720 Prunay-sur-Essonne"
    );
}

#[test]
fn unreachable_service_is_an_http_error() {
    assert_eq!(get_data(Fetched::Unreachable), Err(Error::HttpError));
    assert_eq!(body(Fetched::Unreachable), Err(Error::HttpError));
}

#[test]
fn unreadable_body_is_a_text_error() {
    assert_eq!(get_data(Fetched::Unreadable), Err(Error::GetTextError));
    assert_eq!(body(Fetched::Unreadable), Err(Error::GetTextError));
}

#[test]
fn body_is_handed_on_as_it_came() {
    assert_eq!(body(Fetched::Body("<html>".to_string())), Ok("<html>".to_string()));
    assert_eq!(body(Fetched::Body(String::new())), Ok(String::new()));
}

#[test]
fn body_that_is_no_address_result_is_a_decoding_error() {
    assert_eq!(get_data(Fetched::Body(String::new())), Err(Error::UnmarshalJsonError));
    assert_eq!(
        get_data(Fetched::Body("<html>502 Bad Gateway</html>".to_string())),
        Err(Error::UnmarshalJsonError)
    );
    let cut = &SEARCH_RESPONSE[..100];
    assert_eq!(get_data(Fetched::Body(cut.to_string())), Err(Error::UnmarshalJsonError));
}

#[test]
fn body_with_no_match_is_a_result() {
    let text = r#"{"type":"FeatureCollection","version":"draft","features":[],"query":"zzzz"}"#;
    let result = get_data(Fetched::Body(text.to_string())).unwrap();
    assert_eq!(result.kind, "FeatureCollection");
    assert!(result.features.is_empty());
}

#[test]
fn each_error_has_its_message() {
    assert_eq!(Error::HttpError.to_string(), "Can't access to http://api-adresse.data.gouv.fr");
    assert_eq!(Error::GetTextError.to_string(), "Can't unmarshal data response to text");
    assert_eq!(Error::UnmarshalJsonError.to_string(), "Can't unmarshal text response to json");
}

#[test]
fn parse_reads_every_kind_of_value() {
    assert_eq!(Json::parse("null"), Some(Json::Null));
    assert_eq!(Json::parse("true"), Some(Json::Bool(true)));
    assert_eq!(Json::parse("false"), Some(Json::Bool(false)));
    assert_eq!(Json::parse("\"a\\u00e9\\n\""), Some(Json::Text("aé\n".to_string())));
    assert_eq!(Json::parse("[]"), Some(Json::Array(vec![])));
    assert_eq!(Json::parse("{}"), Some(Json::Object(vec![])));
    assert_eq!(
        Json::parse(" [1, [2, {\"a\": [null]}], \"x\"] "),
        Some(Json::Array(vec![
            Json::Number("1".to_string()),
            Json::Array(vec![
                Json::Number("2".to_string()),
                Json::Object(vec![Member {
                    name: "a".to_string(),
                    value: Json::Array(vec![Json::Null]),
                }]),
            ]),
            Json::Text("x".to_string()),
        ]))
    );
}

#[test]
fn parse_holds_numbers_as_decimal_text() {
    assert_eq!(Json::parse("0"), Some(Json::Number("0".to_string())));
    assert_eq!(Json::parse("-12"), Some(Json::Number("-12".to_string())));
    assert_eq!(Json::parse("48.357"), Some(Json::Number("48.357".to_string())));
    assert_eq!(Json::parse("-0.5"), Some(Json::Number("-0.5".to_string())));
    assert_eq!(Json::parse("2.50"), Some(Json::Number("2.5".to_string())));
    assert_eq!(Json::parse("18446744073709551615"), Some(Json::Number("18446744073709551615".to_string())));
}

#[test]
fn parse_refuses_what_is_not_json() {
    assert_eq!(Json::parse(""), None);
    assert_eq!(Json::parse("{"), None);
    assert_eq!(Json::parse("[1,]"), None);
    assert_eq!(Json::parse("{\"a\" 1}"), None);
    assert_eq!(Json::parse("nul"), None);
    assert_eq!(Json::parse("1 2"), None);
    assert_eq!(Json::parse("'a'"), None);
    assert_eq!(Json::parse("1e999"), None);
}

#[test]
fn parse_keeps_each_member_name_once() {
    let parsed = Json::parse(r#"{"b": 1, "a": 2, "b": 3}"#).unwrap();
    match parsed {
        Json::Object(members) => {
            assert_eq!(members.len(), 2);
            let b: Vec<&Member> = members.iter().filter(|m| m.name == "b").collect();
            assert_eq!(b.len(), 1);
            assert_eq!(b[0].value, Json::Number("3".to_string()));
            let a: Vec<&Member> = members.iter().filter(|m| m.name == "a").collect();
            assert_eq!(a.len(), 1);
            assert_eq!(a[0].value, Json::Number("2".to_string()));
        }
        _ => panic!("an object was parsed"),
    }
}

#[test]
fn copy_of_a_document_is_the_same_document() {
    let parsed = Json::parse(SEARCH_RESPONSE).unwrap();
    let copy = parsed.clone();
    assert_eq!(copy, parsed);
    let member = Member { name: "a".to_string(), value: Json::Array(vec![Json::Null, parsed]) };
    assert_eq!(member.clone(), member);
}

#[test]
fn outcome_of_a_fetch_can_be_used_twice() {
    let fetched = Fetched::Body(REVERSE_RESPONSE.to_string());
    assert_eq!(get_data(fetched.clone()), get_data(fetched));
}
