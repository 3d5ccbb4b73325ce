use werd::client::{
    build_request, definitions, get_client, get_key, get_key_path, key_document, key_from_document, synonyms,
    FileRead, Reply,
};
use werd::err::Error;
use werd::json::{decode_definitions, decode_synonyms, DecodeError, Expected, Field, Json};
use werd::operations::{Definition, DefinitionsResponse, Modus, SynonymsResponse};

fn text(s: &str) -> Json {
    Json::Text(s.to_string())
}

fn object(members: Vec<(&str, Json)>) -> Json {
    Json::Object(members.into_iter().map(|(k, v)| (k.to_string(), v)).collect())
}

fn synonyms_body(word: &str, items: &[&str]) -> Json {
    object(vec![
        ("word", text(word)),
        ("synonyms", Json::Array(items.iter().map(|s| text(s)).collect())),
    ])
}

fn definition_item(definition: &str, pos: &str) -> Json {
    object(vec![("definition", text(definition)), ("partOfSpeech", text(pos))])
}

fn ok_reply(body: Json) -> Reply {
    Reply { status: 200, body: Some(body) }
}

#[test]
fn test_get_key() {
    let key = get_key(FileRead::Text("key = \"t\"\n".to_string())).unwrap();
    assert_eq!(key, "t");
}

#[test]
fn synonyms_scenario_renders_exact_text() {
    let reply = ok_reply(synonyms_body("happy", &["glad", "cheerful"]));
    let s = synonyms(&reply).unwrap();
    assert_eq!(s.render(), "Synonyms for 'happy':\n\nglad\ncheerful\n");
}

#[test]
fn definitions_scenario_renders_exact_text() {
    let body = object(vec![
        ("word", text("run")),
        ("definitions", Json::Array(vec![definition_item("move fast", "verb")])),
    ]);
    let d = definitions(&ok_reply(body)).unwrap();
    assert_eq!(d.render(), "Definitions for 'run':\n\n(verb) move fast\n");
    assert_eq!(d.definitions()[0].part_of_speech(), "verb");
    assert_eq!(d.definitions()[0].definition(), "move fast");
}

#[test]
fn synonyms_render_reads_back_in_order() {
    let list = vec!["a".to_string(), "b c".to_string(), "".to_string(), "d".to_string()];
    let r = SynonymsResponse::new("w".to_string(), list.clone()).render();
    let header = "Synonyms for 'w':\n\n";
    assert!(r.starts_with(header));
    let lines: Vec<String> = r[header.len()..].lines().map(|l| l.to_string()).collect();
    assert_eq!(lines, list);
}

#[test]
fn definitions_render_reads_back_in_order() {
    let defs = vec![("to go quickly", "verb"), ("a period of running", "noun")];
    let d = DefinitionsResponse::new(
        "run".to_string(),
        defs.iter().map(|(t, p)| Definition::new(t.to_string(), p.to_string())).collect(),
    );
    let r = d.render();
    let header = "Definitions for 'run':\n\n";
    assert!(r.starts_with(header));
    let pairs: Vec<(String, String)> = r[header.len()..]
        .lines()
        .map(|l| {
            let close = l.find(')').unwrap();
            (l[close + 2..].to_string(), l[1..close].to_string())
        })
        .collect();
    let expected: Vec<(String, String)> =
        defs.iter().map(|(t, p)| (t.to_string(), p.to_string())).collect();
    assert_eq!(pairs, expected);
}

#[test]
fn empty_definitions_render_header_only() {
    let d = DefinitionsResponse::new("x".to_string(), Vec::new());
    assert_eq!(d.render(), "Definitions for 'x':\n\n");
}

#[test]
fn empty_synonyms_render_header_only() {
    let s = SynonymsResponse::new("x".to_string(), Vec::new());
    assert_eq!(s.render(), "Synonyms for 'x':\n\n");
}

#[test]
fn absent_or_empty_synonyms_decode_to_empty_list() {
    let absent = object(vec![("word", text("zzz"))]);
    let s = decode_synonyms(&absent).unwrap();
    assert_eq!(s.word(), "zzz");
    assert!(s.synonyms().is_empty());
    let empty = synonyms_body("zzz", &[]);
    assert!(decode_synonyms(&empty).unwrap().synonyms().is_empty());
}

#[test]
fn synonyms_body_fails_as_definitions() {
    let body = synonyms_body("happy", &["glad"]);
    assert_eq!(
        decode_definitions(&body).err(),
        Some(DecodeError::Missing(Field::Definitions))
    );
    assert_eq!(
        definitions(&ok_reply(body)).err(),
        Some(Error::Decode(DecodeError::Missing(Field::Definitions)))
    );
}

#[test]
fn decode_errors_name_field_and_kind() {
    assert_eq!(
        decode_synonyms(&Json::Null).err(),
        Some(DecodeError::WrongType(Field::Body, Expected::Object))
    );
    assert_eq!(
        decode_synonyms(&object(vec![("synonyms", Json::Array(vec![]))])).err(),
        Some(DecodeError::Missing(Field::Word))
    );
    assert_eq!(
        decode_synonyms(&object(vec![("word", Json::Bool(true))])).err(),
        Some(DecodeError::WrongType(Field::Word, Expected::Text))
    );
    assert_eq!(
        decode_synonyms(&object(vec![("word", text("a")), ("synonyms", text("b"))])).err(),
        Some(DecodeError::WrongType(Field::Synonyms, Expected::Array))
    );
    let mixed = object(vec![
        ("word", text("a")),
        ("synonyms", Json::Array(vec![text("b"), Json::Number("1".to_string())])),
    ]);
    assert_eq!(
        decode_synonyms(&mixed).err(),
        Some(DecodeError::WrongType(Field::Synonyms, Expected::Text))
    );
    let wrong_item = object(vec![
        ("word", text("a")),
        ("definitions", Json::Array(vec![text("x")])),
    ]);
    assert_eq!(
        decode_definitions(&wrong_item).err(),
        Some(DecodeError::WrongType(Field::Definitions, Expected::Object))
    );
    let snake_case = object(vec![
        ("word", text("a")),
        (
            "definitions",
            Json::Array(vec![object(vec![
                ("definition", text("d")),
                ("part_of_speech", text("noun")),
            ])]),
        ),
    ]);
    assert_eq!(
        decode_definitions(&snake_case).err(),
        Some(DecodeError::Missing(Field::PartOfSpeech))
    );
    let not_array = object(vec![("word", text("a")), ("definitions", Json::Null)]);
    assert_eq!(
        decode_definitions(&not_array).err(),
        Some(DecodeError::WrongType(Field::Definitions, Expected::Array))
    );
}

#[test]
fn error_status_is_not_decoded() {
    let reply = Reply { status: 404, body: Some(synonyms_body("a", &["b"])) };
    assert_eq!(synonyms(&reply).err(), Some(Error::Status(404)));
    let reply = Reply { status: 500, body: None };
    assert_eq!(definitions(&reply).err(), Some(Error::Status(500)));
}

#[test]
fn body_that_is_not_json_is_malformed() {
    let reply = Reply { status: 200, body: None };
    assert_eq!(synonyms(&reply).err(), Some(Error::Decode(DecodeError::Malformed)));
}

#[test]
fn request_has_url_and_headers() {
    let r = build_request("happy", Modus::Synonyms, "abc123");
    assert_eq!(r.url, "https://wordsapiv1.p.rapidapi.com/words/happy/synonyms");
    assert_eq!(
        r.headers,
        vec![
            ("x-rapidapi-key".to_string(), "abc123".to_string()),
            ("x-rapidapi-host".to_string(), "wordsapiv1.p.rapidapi.com".to_string()),
        ]
    );
    let r = build_request("two words", Modus::Definitions, "k");
    assert_eq!(r.url, "https://wordsapiv1.p.rapidapi.com/words/two%20words/definitions");
}

#[test]
fn modus_segments_are_lowercase() {
    assert_eq!(Modus::Synonyms.as_str(), "synonyms");
    assert_eq!(Modus::Definitions.as_str(), "definitions");
}

#[test]
fn key_path_joins_home_directory() {
    assert_eq!(get_key_path(Some("/home/u".to_string())), Ok("/home/u/.werd.toml".to_string()));
    assert_eq!(get_key_path(Some("/home/u/".to_string())), Ok("/home/u/.werd.toml".to_string()));
    assert_eq!(get_key_path(None), Err(Error::Path));
}

#[test]
fn missing_key_file_is_missing_error() {
    assert_eq!(get_key(FileRead::Missing), Err(Error::ConfigFileNotFound));
    assert!(Error::ConfigFileNotFound.message().contains("Please run 'werd setup'"));
}

#[test]
fn unreadable_key_file_is_io_error() {
    assert_eq!(get_key(FileRead::Failed), Err(Error::Io));
}

#[test]
fn key_file_without_string_key_is_corrupt() {
    assert_eq!(key_from_document("other = \"x\"\n"), Err(Error::ConfigFile));
    assert_eq!(key_from_document("key = 5\n"), Err(Error::ConfigFile));
    assert_eq!(key_from_document("key = [\n"), Err(Error::ConfigFile));
    assert!(Error::ConfigFile.message().contains("Please run 'werd setup' again"));
}

#[test]
fn saved_key_loads_back() {
    for key in ["abc123", "", "with \"quotes\" and \\ slash", "unicodé ✓", "a\tb\nc"] {
        let doc = key_document(key).unwrap();
        assert_eq!(get_key(FileRead::Text(doc)), Ok(key.to_string()));
    }
}

#[test]
fn key_document_is_toml_with_one_key() {
    assert_eq!(key_document("abc123").unwrap(), "key = \"abc123\"\n");
}

#[test]
fn messages_are_distinct_for_credential_errors() {
    assert_ne!(Error::ConfigFile.message(), Error::ConfigFileNotFound.message());
    assert_eq!(Error::NotImplemented.message(), "Command not implemented");
}

#[test]
fn request_needs_a_stored_key() {
    assert_eq!(get_client("run", Modus::Definitions, FileRead::Missing).err(), Some(Error::ConfigFileNotFound));
    assert_eq!(
        get_client("run", Modus::Definitions, FileRead::Text("nokey = 1".to_string())).err(),
        Some(Error::ConfigFile)
    );
    let r = get_client("run", Modus::Definitions, FileRead::Text("key = \"abc123\"".to_string()))
        .ok()
        .unwrap();
    assert_eq!(r.url, "https://wordsapiv1.p.rapidapi.com/words/run/definitions");
    assert_eq!(r.headers[0], ("x-rapidapi-key".to_string(), "abc123".to_string()));
}

#[test]
fn word_is_percent_escaped_in_url() {
    let base = "https://wordsapiv1.p.rapidapi.com/words/";
    let r = build_request("a?b/c#d%e", Modus::Synonyms, "k");
    assert_eq!(r.url, format!("{}a%3Fb%2Fc%23d%25e/synonyms", base));
    let r = build_request("caf\u{e9}", Modus::Synonyms, "k");
    assert_eq!(r.url, format!("{}caf%C3%A9/synonyms", base));
    let r = build_request("A-z.0_9~", Modus::Definitions, "k");
    assert_eq!(r.url, format!("{}A-z.0_9~/definitions", base));
    let r = build_request("", Modus::Synonyms, "k");
    assert_eq!(r.url, format!("{}/synonyms", base));
}

#[test]
fn definitions_body_fails_as_synonyms() {
    let body = object(vec![
        ("word", text("run")),
        ("definitions", Json::Array(vec![definition_item("move fast", "verb")])),
    ]);
    assert_eq!(decode_synonyms(&body).err(), Some(DecodeError::Missing(Field::Synonyms)));
    assert_eq!(
        synonyms(&ok_reply(body)).err(),
        Some(Error::Decode(DecodeError::Missing(Field::Synonyms)))
    );
}
