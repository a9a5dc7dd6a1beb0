use shooting_star::config::Config;
use shooting_star::handler::{process_request, record, route, Plan};
use shooting_star::policy::{authorize, Refusal};
use shooting_star::request::{parse_request, RequestUrl, BYTE_ORDER_MARK, MAX_REQUEST_BYTES};
use shooting_star::resolver::{file_response, resolve, FileOutcome};
use shooting_star::response::Response;
use shooting_star::status::Status;

fn example_config() -> Config {
    Config::new(Some("example.com".to_string()), Some(1965), "/srv/gemini".to_string(), vec![])
}

fn gemini_url(host: Option<&str>, port: Option<u16>, path: &str) -> RequestUrl {
    RequestUrl {
        scheme: "gemini".to_string(),
        cannot_be_a_base: false,
        host: host.map(str::to_string),
        port,
        path: path.to_string(),
    }
}

#[test]
fn parse_request_reads_the_components() {
    let url = parse_request("gemini://example.com/docs/a.gmi".to_string()).unwrap();
    assert_eq!(url, gemini_url(Some("example.com"), None, "/docs/a.gmi"));
}

#[test]
fn parse_request_reads_an_explicit_port() {
    let url = parse_request("gemini://example.com:1965/".to_string()).unwrap();
    assert_eq!(url, gemini_url(Some("example.com"), Some(1965), "/"));
}

#[test]
fn parse_request_leaves_out_query_and_fragment() {
    let url = parse_request("gemini://example.com/a.gmi?q=1#top".to_string()).unwrap();
    assert_eq!(url.path, "/a.gmi");
}

#[test]
fn parse_request_lowers_the_scheme_and_keeps_the_host() {
    let url = parse_request("GEMINI://Example.COM/".to_string()).unwrap();
    assert_eq!(url.scheme, "gemini");
    assert_eq!(url.host, Some("Example.COM".to_string()));
}

#[test]
fn parse_request_keeps_the_path_encoded() {
    let url = parse_request("gemini://example.com/a%20b/c d".to_string()).unwrap();
    assert_eq!(url.path, "/a%20b/c%20d");
}

#[test]
fn parse_request_reads_other_schemes_too() {
    let url = parse_request("http://example.com/".to_string()).unwrap();
    assert_eq!(url.scheme, "http");
    assert_eq!(url.host, Some("example.com".to_string()));
    assert!(!url.cannot_be_a_base);
}

#[test]
fn parse_request_tells_opaque_urls() {
    let url = parse_request("mailto:someone@example.com".to_string()).unwrap();
    assert_eq!(url.scheme, "mailto");
    assert!(url.cannot_be_a_base);
    assert_eq!(url.host, None);
}

#[test]
fn parse_request_tells_urls_without_host() {
    let url = parse_request("gemini:/index.gmi".to_string()).unwrap();
    assert_eq!(url, gemini_url(None, None, "/index.gmi"));
    let url = parse_request("gemini://".to_string()).unwrap();
    assert_eq!(url, gemini_url(None, None, ""));
}

#[test]
fn parse_request_rejects_a_byte_order_mark() {
    assert_eq!(
        parse_request("\u{feff}gemini://example.com/".to_string()),
        Err("The request MUST NOT begin with a U+FEFF byte order mark.")
    );
    assert_eq!(BYTE_ORDER_MARK, '\u{feff}');
}

#[test]
fn parse_request_rejects_a_lone_byte_order_mark() {
    assert_eq!(
        parse_request("\u{feff}".to_string()),
        Err("The request MUST NOT begin with a U+FEFF byte order mark.")
    );
}

#[test]
fn byte_order_mark_is_reported_before_length() {
    let line = format!("\u{feff}gemini://example.com/{}", "a".repeat(2000));
    assert_eq!(
        parse_request(line),
        Err("The request MUST NOT begin with a U+FEFF byte order mark.")
    );
}

#[test]
fn byte_order_mark_later_in_the_line_is_no_reason() {
    let url = parse_request("gemini://example.com/\u{feff}".to_string()).unwrap();
    assert_eq!(url.path, "/%EF%BB%BF");
}

#[test]
fn parse_request_rejects_more_than_the_maximum() {
    assert_eq!(MAX_REQUEST_BYTES, 1024);
    let prefix = "gemini://example.com/";
    let longest = format!("{}{}", prefix, "a".repeat(1024 - prefix.len()));
    assert_eq!(longest.len(), 1024);
    assert!(parse_request(longest).is_ok());
    let too_long = format!("{}{}", prefix, "a".repeat(1025 - prefix.len()));
    assert_eq!(too_long.len(), 1025);
    assert_eq!(
        parse_request(too_long),
        Err("URL is too long. Maximum length is 1024 bytes.")
    );
}

#[test]
fn length_is_counted_in_bytes() {
    let prefix = "gemini://example.com/";
    let line = format!("{}{}", prefix, "\u{e9}".repeat(502));
    assert_eq!(line.chars().count(), 523);
    assert_eq!(line.len(), 1025);
    assert_eq!(parse_request(line), Err("URL is too long. Maximum length is 1024 bytes."));
}

#[test]
fn length_is_checked_before_parsing() {
    assert_eq!(
        parse_request("a".repeat(1025)),
        Err("URL is too long. Maximum length is 1024 bytes.")
    );
    assert_eq!(parse_request("a".repeat(1024)), Err("Error parsing the url"));
}

#[test]
fn parse_request_rejects_what_is_no_absolute_url() {
    assert_eq!(parse_request(String::new()), Err("Error parsing the url"));
    assert_eq!(parse_request("not a url".to_string()), Err("Error parsing the url"));
    assert_eq!(parse_request("/index.gmi".to_string()), Err("Error parsing the url"));
    assert_eq!(parse_request("//example.com/".to_string()), Err("Error parsing the url"));
    assert_eq!(parse_request("gemini".to_string()), Err("Error parsing the url"));
}

#[test]
fn authorize_accepts_a_served_url() {
    let config = example_config();
    assert_eq!(authorize(&gemini_url(Some("example.com"), None, "/"), &config), Ok(()));
    assert_eq!(authorize(&gemini_url(Some("example.com"), Some(1965), "/"), &config), Ok(()));
}

#[test]
fn authorize_refuses_another_scheme() {
    let config = example_config();
    let mut url = gemini_url(Some("example.com"), None, "/");
    url.scheme = "http".to_string();
    assert_eq!(authorize(&url, &config), Err(Refusal::NotGemini));
    url.scheme = "gemini2".to_string();
    assert_eq!(authorize(&url, &config), Err(Refusal::NotGemini));
    url.scheme = "Gemini".to_string();
    assert_eq!(authorize(&url, &config), Err(Refusal::NotGemini));
    url.scheme = String::new();
    assert_eq!(authorize(&url, &config), Err(Refusal::NotGemini));
}

#[test]
fn authorize_refuses_an_opaque_url() {
    let config = example_config();
    let mut url = gemini_url(Some("example.com"), None, "index.gmi");
    url.cannot_be_a_base = true;
    assert_eq!(authorize(&url, &config), Err(Refusal::NotGemini));
}

#[test]
fn authorize_refuses_a_url_without_host() {
    let config = example_config();
    assert_eq!(authorize(&gemini_url(None, None, "/index.gmi"), &config), Err(Refusal::NotGemini));
}

#[test]
fn authorize_refuses_another_port() {
    let config = example_config();
    assert_eq!(
        authorize(&gemini_url(Some("example.com"), Some(1966), "/"), &config),
        Err(Refusal::NotGemini)
    );
    assert_eq!(
        authorize(&gemini_url(Some("example.com"), Some(0), "/"), &config),
        Err(Refusal::NotGemini)
    );
}

#[test]
fn authorize_refuses_a_foreign_host() {
    let config = example_config();
    assert_eq!(
        authorize(&gemini_url(Some("evil.com"), None, "/"), &config),
        Err(Refusal::ForeignHost)
    );
    assert_eq!(
        authorize(&gemini_url(Some("EXAMPLE.COM"), None, "/"), &config),
        Err(Refusal::ForeignHost)
    );
}

#[test]
fn port_is_checked_before_host() {
    let config = example_config();
    assert_eq!(
        authorize(&gemini_url(Some("evil.com"), Some(1966), "/"), &config),
        Err(Refusal::NotGemini)
    );
}

#[test]
fn refusals_carry_their_reasons() {
    assert_eq!(Refusal::NotGemini.message(), "Not a gemini request.");
    assert_eq!(Refusal::ForeignHost.message(), "This host is not served here.");
}

#[test]
fn resolve_maps_the_root_to_the_default_document() {
    assert_eq!(resolve("/srv/gemini", "/"), "/srv/gemini/index.gmi");
    assert_eq!(resolve("/srv/gemini", ""), "/srv/gemini/index.gmi");
}

#[test]
fn resolve_removes_exactly_one_leading_slash() {
    assert_eq!(resolve("/srv/gemini", "/a.gmi"), "/srv/gemini/a.gmi");
    assert_eq!(resolve("/srv/gemini", "/docs/a.gmi"), "/srv/gemini/docs/a.gmi");
    assert_eq!(resolve("/srv/gemini", "//etc/passwd"), "/srv/gemini//etc/passwd");
    assert_eq!(resolve("/srv/gemini", "//"), "/srv/gemini//");
    assert_eq!(resolve("/srv/gemini", "/docs/"), "/srv/gemini/docs/");
}

#[test]
fn resolve_keeps_a_path_without_leading_slash() {
    assert_eq!(resolve("/srv/gemini", "a.gmi"), "/srv/gemini/a.gmi");
}

#[test]
fn resolve_joins_with_one_slash() {
    assert_eq!(resolve("/srv/gemini/", "/a.gmi"), "/srv/gemini/a.gmi");
    assert_eq!(resolve("/", "/a.gmi"), "/a.gmi");
    assert_eq!(resolve("", "/a.gmi"), "a.gmi");
    assert_eq!(resolve("", "/"), "index.gmi");
    assert_eq!(resolve("docs", "/a.gmi"), "docs/a.gmi");
}

#[test]
fn resolve_counts_characters_not_bytes() {
    assert_eq!(resolve("/srv/\u{e9}t\u{e9}", "/vi\u{1ec7}t"), "/srv/\u{e9}t\u{e9}/vi\u{1ec7}t");
    assert_eq!(resolve("/srv/\u{e9}", "\u{e9}"), "/srv/\u{e9}/\u{e9}");
}

#[test]
fn file_response_serves_the_contents() {
    let response = file_response(FileOutcome::Contents("# Hi".to_string()));
    assert_eq!(response.header.status, Status::Success);
    assert_eq!(response.header.meta, "text/gemini");
    assert_eq!(response.body, Some("# Hi".to_string()));
}

#[test]
fn file_response_serves_an_empty_file() {
    let response = file_response(FileOutcome::Contents(String::new()));
    assert_eq!(response.header.status, Status::Success);
    assert_eq!(response.body, Some(String::new()));
    assert_eq!(response.render(), "20 text/gemini\r\n");
}

#[test]
fn file_response_reports_a_missing_file() {
    assert_eq!(file_response(FileOutcome::Missing), Response::failure(Status::NotFound, "Not Found"));
}

#[test]
fn file_response_reports_an_unreadable_file() {
    assert_eq!(
        file_response(FileOutcome::Unreadable),
        Response::failure(Status::TemporaryFailure, "Internal Server Error")
    );
    assert_eq!(file_response(FileOutcome::Unreadable).render(), "40 Internal Server Error\r\n");
}

#[test]
fn route_fetches_for_a_served_url() {
    let config = example_config();
    assert_eq!(
        route(&gemini_url(Some("example.com"), None, "/a.gmi"), &config),
        Plan::Fetch { location: "/srv/gemini/a.gmi".to_string() }
    );
}

#[test]
fn route_refuses_without_reading() {
    let config = example_config();
    assert_eq!(
        route(&gemini_url(Some("evil.com"), None, "/a.gmi"), &config),
        Plan::Reply(Response::failure(Status::ProxyRequestRefused, "This host is not served here."))
    );
    assert_eq!(
        route(&gemini_url(Some("example.com"), Some(70), "/a.gmi"), &config),
        Plan::Reply(Response::failure(Status::ProxyRequestRefused, "Not a gemini request."))
    );
}

#[test]
fn process_request_fetches_the_default_document() {
    let config = example_config();
    let expected = Plan::Fetch { location: "/srv/gemini/index.gmi".to_string() };
    assert_eq!(process_request("gemini://example.com/".to_string(), &config), expected);
    assert_eq!(process_request("gemini://example.com".to_string(), &config), expected);
    assert_eq!(process_request("gemini://example.com:1965".to_string(), &config), expected);
}

#[test]
fn process_request_maps_the_path() {
    let config = example_config();
    assert_eq!(
        process_request("gemini://example.com/docs/a.gmi?q#f".to_string(), &config),
        Plan::Fetch { location: "/srv/gemini/docs/a.gmi".to_string() }
    );
    assert_eq!(
        process_request("gemini://example.com//etc/passwd".to_string(), &config),
        Plan::Fetch { location: "/srv/gemini//etc/passwd".to_string() }
    );
}

#[test]
fn process_request_takes_the_path_as_parsed() {
    let config = example_config();
    assert_eq!(
        process_request("gemini://example.com/a/../b.gmi".to_string(), &config),
        Plan::Fetch { location: "/srv/gemini/b.gmi".to_string() }
    );
    assert_eq!(
        process_request("gemini://example.com/../../etc/passwd".to_string(), &config),
        Plan::Fetch { location: "/srv/gemini/etc/passwd".to_string() }
    );
    assert_eq!(
        process_request("gemini://example.com/%2e%2e/secret".to_string(), &config),
        Plan::Fetch { location: "/srv/gemini/secret".to_string() }
    );
}

#[test]
fn process_request_rejects_bad_lines() {
    let config = example_config();
    assert_eq!(
        process_request("\u{feff}gemini://example.com/".to_string(), &config),
        Plan::Reply(Response::failure(
            Status::BadRequest,
            "The request MUST NOT begin with a U+FEFF byte order mark."
        ))
    );
    assert_eq!(
        process_request("a".repeat(1025), &config),
        Plan::Reply(Response::failure(
            Status::BadRequest,
            "URL is too long. Maximum length is 1024 bytes."
        ))
    );
    assert_eq!(
        process_request("index.gmi".to_string(), &config),
        Plan::Reply(Response::failure(Status::BadRequest, "Error parsing the url"))
    );
}

#[test]
fn process_request_refuses_foreign_urls() {
    let config = example_config();
    let not_gemini =
        Plan::Reply(Response::failure(Status::ProxyRequestRefused, "Not a gemini request."));
    let foreign =
        Plan::Reply(Response::failure(Status::ProxyRequestRefused, "This host is not served here."));
    assert_eq!(process_request("http://example.com/".to_string(), &config), not_gemini);
    assert_eq!(process_request("https://example.com/".to_string(), &config), not_gemini);
    assert_eq!(process_request("gemini://example.com:1966/".to_string(), &config), not_gemini);
    assert_eq!(process_request("mailto:someone@example.com".to_string(), &config), not_gemini);
    assert_eq!(process_request("gemini:index.gmi".to_string(), &config), not_gemini);
    assert_eq!(process_request("gemini:/index.gmi".to_string(), &config), not_gemini);
    assert_eq!(process_request("gemini://".to_string(), &config), not_gemini);
    assert_eq!(process_request("gemini://evil.com/".to_string(), &config), foreign);
    assert_eq!(process_request("gemini://EXAMPLE.com/".to_string(), &config), foreign);
    assert_eq!(process_request("gemini://example.com.evil.com/".to_string(), &config), foreign);
}

#[test]
fn process_request_serves_additional_hosts() {
    let config = Config::new(
        None,
        None,
        "/srv/gemini".to_string(),
        vec!["example.com".to_string(), "example.org".to_string()],
    );
    assert_eq!(
        process_request("gemini://example.org/a.gmi".to_string(), &config),
        Plan::Fetch { location: "/srv/gemini/a.gmi".to_string() }
    );
    assert_eq!(
        process_request("gemini://0.0.0.0/a.gmi".to_string(), &config),
        Plan::Fetch { location: "/srv/gemini/a.gmi".to_string() }
    );
}

#[test]
fn repeated_requests_get_the_same_plan() {
    let config = example_config();
    let lines = ["gemini://example.com/a.gmi", "http://example.com/", "nonsense", ""];
    for line in lines {
        let first = process_request(line.to_string(), &config);
        let second = process_request(line.to_string(), &config);
        assert_eq!(first, second);
    }
}

#[test]
fn record_summarizes_status_and_request() {
    assert_eq!(
        record(Status::Success, "gemini://example.com/"),
        "Request: [20] gemini://example.com/"
    );
    assert_eq!(record(Status::BadRequest, "nonsense"), "BadRequest: nonsense");
    assert_eq!(
        record(Status::NotFound, "gemini://example.com/x"),
        "Not found: gemini://example.com/x"
    );
    assert_eq!(
        record(Status::ProxyRequestRefused, "http://example.com/"),
        "Not able to process request: http://example.com/"
    );
    assert_eq!(record(Status::TemporaryFailure, "x"), "Not able to process request: x");
    assert_eq!(record(Status::PermanentFailure, ""), "Not able to process request: ");
}
