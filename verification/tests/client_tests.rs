use sanity_rs_client::config::SanityConfig;
use sanity_rs_client::json::{to_json, JsonValue};
use sanity_rs_client::sanity_client::{
    Content, HttpMethod, Mutation, Operation, Query, SanityClient,
};

fn client(project_id: &str, dataset: &str) -> SanityClient {
    SanityClient::new(SanityConfig::new(project_id, dataset).build())
}

#[test]
fn builder_defaults() {
    let config = SanityConfig::new("p", "d").build();
    assert_eq!(config.project_id, "p");
    assert_eq!(config.dataset, "d");
    assert!(config.access_token.is_none());
    assert!(config.api_version.is_none());
}

#[test]
fn builder_setters_chain() {
    let config = SanityConfig::new("p", "d")
        .project_id("other")
        .dataset("staging")
        .access_token("abc123")
        .api_version("2021-10-21")
        .build();
    assert_eq!(config.project_id, "other");
    assert_eq!(config.dataset, "staging");
    assert_eq!(config.access_token.as_deref(), Some("abc123"));
    assert_eq!(config.api_version.as_deref(), Some("2021-10-21"));
}

#[test]
fn url_uses_default_version() {
    let c = client("34l3kdkb", "production");
    let url = c.url(Content::Data, Operation::Query);
    assert_eq!(url, "https://34l3kdkb.api.sanity.io/v2021-06-07/data/query/production");
}

#[test]
fn url_uses_configured_version() {
    let config = SanityConfig::new("34l3kdkb", "production")
        .api_version("2021-10-21")
        .build();
    let c = SanityClient::new(config);
    assert_eq!(
        c.url(Content::Data, Operation::Mutate),
        "https://34l3kdkb.api.sanity.io/v2021-10-21/data/mutate/production"
    );
    assert_eq!(
        c.url(Content::Assets, Operation::Images),
        "https://34l3kdkb.api.sanity.io/v2021-10-21/assets/images/production"
    );
}

#[test]
fn headers_empty_without_token() {
    let c = client("p", "d");
    assert!(c.build_headers().is_empty());
}

#[test]
fn headers_bearer_with_token() {
    let config = SanityConfig::new("p", "d").access_token("abc123").build();
    let c = SanityClient::new(config);
    let headers = c.build_headers();
    assert_eq!(headers.len(), 1);
    assert_eq!(headers[0].0, "Authorization");
    assert_eq!(headers[0].1, "Bearer abc123");
}

#[test]
fn json_text_scalars() {
    assert_eq!(to_json(&JsonValue::Null), "null");
    assert_eq!(to_json(&JsonValue::Bool(true)), "true");
    assert_eq!(to_json(&JsonValue::Bool(false)), "false");
    assert_eq!(to_json(&JsonValue::Int(0)), "0");
    assert_eq!(to_json(&JsonValue::Int(-7)), "-7");
    assert_eq!(to_json(&JsonValue::Int(1234567890)), "1234567890");
    assert_eq!(to_json(&JsonValue::Int(i64::MIN)), "-9223372036854775808");
    assert_eq!(to_json(&JsonValue::Int(i64::MAX)), "9223372036854775807");
    assert_eq!(to_json(&JsonValue::Str(String::from("hi"))), "\"hi\"");
}

#[test]
fn json_text_nested() {
    let doc = JsonValue::Object(vec![
        (String::from("name"), JsonValue::Str(String::from("Random"))),
        (
            String::from("tags"),
            JsonValue::Array(vec![JsonValue::Int(1), JsonValue::Str(String::from("x"))]),
        ),
        (String::from("empty"), JsonValue::Array(vec![])),
    ]);
    assert_eq!(to_json(&doc), "{\"name\":\"Random\",\"tags\":[1,\"x\"],\"empty\":[]}");
}

#[test]
fn json_escapes_parse_back() {
    let doc = JsonValue::Str(String::from("a\"b\\c\nd\te"));
    let text = to_json(&doc);
    let parsed: serde_json::Value = serde_json::from_str(&text).unwrap();
    assert_eq!(parsed, serde_json::Value::String(String::from("a\"b\\c\nd\te")));
}

fn author_doc() -> JsonValue {
    JsonValue::Object(vec![
        (
            String::from("_id"),
            JsonValue::Str(String::from("drafts.cfeba160-1123-4af9-ad4e-c657d5e537af")),
        ),
        (String::from("_type"), JsonValue::Str(String::from("author"))),
        (String::from("name"), JsonValue::Str(String::from("Random"))),
    ])
}

#[test]
fn mutation_body_single_create_or_replace() {
    let body = sanity_rs_client::sanity_client::mutate_body(&vec![Mutation::CreateOrReplace(
        author_doc(),
    )]);
    assert_eq!(
        body,
        "{\"mutations\":[{\"createOrReplace\":{\"_id\":\"drafts.cfeba160-1123-4af9-ad4e-c657d5e537af\",\"_type\":\"author\",\"name\":\"Random\"}}]}"
    );
}

#[test]
fn mutation_body_parses_back() {
    let body = sanity_rs_client::sanity_client::mutate_body(&vec![Mutation::CreateOrReplace(
        author_doc(),
    )]);
    let parsed: serde_json::Value = serde_json::from_str(&body).unwrap();

    let mut doc = serde_json::Map::new();
    doc.insert(
        String::from("_id"),
        serde_json::Value::String(String::from("drafts.cfeba160-1123-4af9-ad4e-c657d5e537af")),
    );
    doc.insert(String::from("_type"), serde_json::Value::String(String::from("author")));
    doc.insert(String::from("name"), serde_json::Value::String(String::from("Random")));
    let mut tagged = serde_json::Map::new();
    tagged.insert(String::from("createOrReplace"), serde_json::Value::Object(doc));
    let mut envelope = serde_json::Map::new();
    envelope.insert(
        String::from("mutations"),
        serde_json::Value::Array(vec![serde_json::Value::Object(tagged)]),
    );
    assert_eq!(parsed, serde_json::Value::Object(envelope));
}

#[test]
fn mutation_body_keeps_batch_order() {
    let body = sanity_rs_client::sanity_client::mutate_body(&vec![
        Mutation::Create(JsonValue::Int(1)),
        Mutation::Delete(JsonValue::Int(2)),
        Mutation::Patch(JsonValue::Int(3)),
        Mutation::CreateIfNotExists(JsonValue::Int(4)),
    ]);
    assert_eq!(
        body,
        "{\"mutations\":[{\"create\":1},{\"delete\":2},{\"patch\":3},{\"createIfNotExists\":4}]}"
    );
}

#[test]
fn fetch_request_encodes_query() {
    let config = SanityConfig::new("34l3kdkb", "production")
        .api_version("2021-10-21")
        .build();
    let c = SanityClient::new(config);
    let query = Query::new(
        String::from("*[_type=='site' && id==$siteId][0]"),
        vec![(String::from("siteId"), JsonValue::Int(1))],
    );
    let request = c.fetch_request(query);
    assert_eq!(request.method, HttpMethod::Get);
    assert_eq!(
        request.url,
        "https://34l3kdkb.api.sanity.io/v2021-10-21/data/query/production?query=%2A%5B_type%3D%3D%27site%27%20%26%26%20id%3D%3D%24siteId%5D%5B0%5D"
    );
    assert_eq!(request.params.len(), 1);
    assert_eq!(request.params[0].0, "$siteId");
    assert_eq!(request.params[0].1, "1");
    assert!(request.body.is_none());
}

#[test]
fn fetch_request_variable_kinds() {
    let c = client("p", "d");
    let query = Query::new(
        String::from("*"),
        vec![
            (String::from("name"), JsonValue::Str(String::from("some value"))),
            (String::from("flag"), JsonValue::Bool(true)),
        ],
    );
    let request = c.fetch_request(query);
    assert_eq!(request.url, "https://p.api.sanity.io/v2021-06-07/data/query/d?query=%2A");
    assert_eq!(request.params.len(), 2);
    assert_eq!(request.params[0].0, "$name");
    assert_eq!(request.params[0].1, "some value");
    assert_eq!(request.params[1].0, "$flag");
    assert_eq!(request.params[1].1, "true");
}

#[test]
fn mutate_request_fields() {
    let config = SanityConfig::new("p", "d").access_token("abc123").build();
    let c = SanityClient::new(config);
    let mutations = vec![Mutation::Create(JsonValue::Null)];
    let extra = vec![
        (String::from("returnIds"), JsonValue::Bool(true)),
        (String::from("dryRun"), JsonValue::Bool(false)),
    ];
    let request = c.mutate_request(&mutations, &extra);
    assert_eq!(request.method, HttpMethod::Post);
    assert_eq!(request.url, "https://p.api.sanity.io/v2021-06-07/data/mutate/d");
    assert_eq!(request.params.len(), 2);
    assert_eq!(request.params[0].0, "returnIds");
    assert_eq!(request.params[0].1, "true");
    assert_eq!(request.params[1].0, "dryRun");
    assert_eq!(request.params[1].1, "false");
    assert_eq!(request.headers.len(), 1);
    assert_eq!(request.headers[0].1, "Bearer abc123");
    assert_eq!(request.body.as_deref(), Some("{\"mutations\":[{\"create\":null}]}"));
}

#[test]
fn empty_config_strings_accepted_silently() {
    let config = SanityConfig::new("", "").api_version("").access_token("").build();
    let c = SanityClient::new(config);
    assert_eq!(c.url(Content::Data, Operation::Query), "https://.api.sanity.io/v/data/query/");
    let headers = c.build_headers();
    assert_eq!(headers.len(), 1);
    assert_eq!(headers[0].1, "Bearer ");
}

#[test]
fn control_characters_escape_as_hex() {
    assert_eq!(to_json(&JsonValue::Str(String::from("\u{1f}"))), "\"\\u001F\"");
    assert_eq!(to_json(&JsonValue::Str(String::from("\u{0}"))), "\"\\u0000\"");
    assert_eq!(to_json(&JsonValue::Str(String::from("\n"))), "\"\\u000A\"");
}

#[test]
fn fetch_request_encodes_beyond_ascii() {
    let c = client("p", "d");
    let query = Query::new(String::from("café"), vec![]);
    let request = c.fetch_request(query);
    assert_eq!(request.url, "https://p.api.sanity.io/v2021-06-07/data/query/d?query=caf%C3%A9");
    assert!(request.params.is_empty());
}

#[test]
fn mutation_body_of_empty_batch() {
    let body = sanity_rs_client::sanity_client::mutate_body(&vec![]);
    assert_eq!(body, "{\"mutations\":[]}");
}

#[test]
fn upload_image_request_fields() {
    let c = client("p", "d");
    let request = c.upload_image_request();
    assert_eq!(request.method, HttpMethod::Post);
    assert_eq!(request.url, "https://p.api.sanity.io/v2021-06-07/assets/images/d");
    assert!(request.params.is_empty());
    assert!(request.headers.is_empty());
    assert!(request.body.is_none());
}
