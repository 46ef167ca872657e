use pubsub2bq::url::{build_insert_url, trimmed_base};
use pubsub2bq::{ForwardRequest, Forwarder};

fn request(base: &str, dataset: &str, table: &str, payload: &str) -> ForwardRequest {
    ForwardRequest {
        destination_base_url: base.to_string(),
        dataset_id: dataset.to_string(),
        table_id: table.to_string(),
        payload: payload.to_string(),
    }
}

#[test]
fn url_follows_the_template() {
    let url = build_insert_url("http://localhost:9050", "your_project_id", "ds1", "t1");
    assert_eq!(
        url,
        "http://localhost:9050/bigquery/v2/projects/your_project_id/datasets/ds1/tables/t1/insertAll"
    );
}

#[test]
fn url_drops_one_trailing_slash_of_the_base() {
    let url = build_insert_url("http://localhost:9050/", "p", "d", "t");
    assert_eq!(url, "http://localhost:9050/bigquery/v2/projects/p/datasets/d/tables/t/insertAll");
}

#[test]
fn url_drops_every_trailing_slash_of_the_base() {
    let url = build_insert_url("http://h///", "p", "d", "t");
    assert_eq!(url, "http://h/bigquery/v2/projects/p/datasets/d/tables/t/insertAll");
}

#[test]
fn url_has_no_double_slash_after_the_scheme() {
    for base in ["http://localhost:9050", "http://localhost:9050/", "https://bq.example//"] {
        let url = build_insert_url(base, "proj", "ds", "tbl");
        let after_scheme = url.split_once("://").unwrap().1;
        assert!(!after_scheme.contains("//"), "{}", url);
        assert!(url.ends_with("/bigquery/v2/projects/proj/datasets/ds/tables/tbl/insertAll"));
    }
}

#[test]
fn url_keeps_inner_slashes_of_the_base() {
    let url = build_insert_url("http://h/emulator/v1/", "p", "d", "t");
    assert_eq!(url, "http://h/emulator/v1/bigquery/v2/projects/p/datasets/d/tables/t/insertAll");
}

#[test]
fn url_of_an_empty_base_is_the_path() {
    assert_eq!(
        build_insert_url("", "p", "d", "t"),
        "/bigquery/v2/projects/p/datasets/d/tables/t/insertAll"
    );
    assert_eq!(
        build_insert_url("//", "p", "d", "t"),
        "/bigquery/v2/projects/p/datasets/d/tables/t/insertAll"
    );
}

#[test]
fn url_counts_characters_not_bytes() {
    let url = build_insert_url("http://h\u{e9}te/", "p", "d\u{e9}", "t");
    assert_eq!(
        url,
        "http://h\u{e9}te/bigquery/v2/projects/p/datasets/d\u{e9}/tables/t/insertAll"
    );
}

#[test]
fn trimmed_base_cases() {
    assert_eq!(trimmed_base("http://a"), "http://a");
    assert_eq!(trimmed_base("http://a/"), "http://a");
    assert_eq!(trimmed_base("a/b//"), "a/b");
    assert_eq!(trimmed_base("/"), "");
    assert_eq!(trimmed_base(""), "");
}

#[test]
fn outbound_request_of_the_default_forwarder() {
    let forwarder = Forwarder::default();
    assert_eq!(forwarder.project_id, "your_project_id");
    assert_eq!(forwarder.timeout_secs, 30);
    let out = forwarder.outbound_request(&request("http://localhost:9050", "ds1", "t1", "{\"a\":1}"));
    assert_eq!(
        out.url,
        "http://localhost:9050/bigquery/v2/projects/your_project_id/datasets/ds1/tables/t1/insertAll"
    );
    assert_eq!(out.method, "POST");
    assert_eq!(out.content_type, "application/json");
    assert_eq!(out.body, "{\"a\":1}");
    assert_eq!(out.timeout_secs, 30);
}

#[test]
fn outbound_request_uses_the_configured_project() {
    let forwarder = Forwarder::new("warehouse-7".to_string(), 5);
    let out = forwarder.outbound_request(&request("http://bq:1/", "d", "t", "[]"));
    assert_eq!(out.url, "http://bq:1/bigquery/v2/projects/warehouse-7/datasets/d/tables/t/insertAll");
    assert_eq!(out.timeout_secs, 5);
}

#[test]
fn payload_passes_through_byte_for_byte() {
    let forwarder = Forwarder::default();
    let payloads = [
        "",
        "{\"a\":1}",
        "  not json at all \n\t",
        "{\"text\":\"sn\u{f6}\u{2603} \\u0041 \\\"q\\\"\"}",
        "\u{0}\u{1}binary\u{7f}",
    ];
    for payload in payloads {
        let out = forwarder.outbound_request(&request("http://h", "d", "t", payload));
        assert_eq!(out.body.as_bytes(), payload.as_bytes());
    }
}
