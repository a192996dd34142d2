use onboarding_pipeline::clock::accepted_at;
use onboarding_pipeline::config::Config;
use onboarding_pipeline::context::{decimal_text, RunContext};
use onboarding_pipeline::headers::HeaderList;
use onboarding_pipeline::json::Json;
use onboarding_pipeline::pipeline::{Pipeline, Step};
use onboarding_pipeline::request::{call, Method, PipelineError, Request, Response};
use onboarding_pipeline::stages::{
    authorize_buyer, create_application, create_application_reply, create_buyer,
    create_buyer_reply, fill_application, fill_authorize, fill_buyer, fill_contact,
    fill_send_code, get_contact_id, send_code, send_code_reply, update_buyer_contact, BuyerRecord,
};

const SEED: u128 = 123456789012345678901234567890;

fn s(text: &str) -> String {
    text.to_string()
}

fn object(entries: Vec<(&str, Json)>) -> Json {
    Json::Object(entries.into_iter().map(|(k, v)| (s(k), v)).collect())
}

fn text(t: &str) -> Json {
    Json::Str(s(t))
}

fn reply(body: Json) -> Response {
    Response { headers: HeaderList::new(), body }
}

fn context() -> RunContext {
    RunContext::from_seed(SEED).unwrap()
}

fn header(r: &Request, name: &str) -> Option<String> {
    r.headers.get(name)
}

fn body(r: &Request) -> String {
    r.body.clone().unwrap()
}

fn buyer() -> BuyerRecord {
    BuyerRecord { buyer_id: s("b1"), token: s("Bearer tok123"), contact_id: s("c1") }
}

#[test]
fn seed_gives_shared_digits() {
    let c = context();
    assert_eq!(c.email, "6789012345@domain.com");
    assert_eq!(c.phone, "+16789012345");
    assert_eq!(c.request_id, "00000001-8ee9-0ff6-c373-e0ee4e3f0ad2");
}

#[test]
fn same_seed_same_details() {
    let a = context();
    let b = context();
    assert_eq!(a.email, b.email);
    assert_eq!(a.phone, b.phone);
    assert_eq!(a.request_id, b.request_id);
}

#[test]
fn largest_seed() {
    let c = RunContext::from_seed(u128::MAX).unwrap();
    assert_eq!(c.email, "2366920938@domain.com");
    assert_eq!(c.phone, "+12366920938");
    assert_eq!(c.request_id, "ffffffff-ffff-ffff-ffff-ffffffffffff");
}

#[test]
fn short_seed_is_refused() {
    assert!(RunContext::from_seed(99_999_999_999_999).is_none());
    assert!(RunContext::from_seed(0).is_none());
    assert!(RunContext::from_seed(100_000_000_000_000).is_some());
}

#[test]
fn generated_context_has_shape() {
    if let Some(c) = RunContext::generate() {
        assert_eq!(c.request_id.len(), 36);
        assert_eq!(c.email.len(), 21);
        assert_eq!(&c.phone[2..], &c.email[..10]);
    }
}

#[test]
fn decimal_forms() {
    assert_eq!(decimal_text(0), "0");
    assert_eq!(decimal_text(7), "7");
    assert_eq!(decimal_text(1009), "1009");
    assert_eq!(decimal_text(u128::MAX), "340282366920938463463374607431768211455");
}

#[test]
fn acceptance_time_is_one_day_earlier() {
    assert_eq!(accepted_at(86400).unwrap(), "1970-01-01T00:00:00Z");
    assert_eq!(accepted_at(1_000_086_400).unwrap(), "2001-09-09T01:46:40Z");
    assert!(accepted_at(i64::MIN).is_none());
}

#[test]
fn header_list_last_write_wins() {
    let mut h = HeaderList::new();
    h.set("authorization", "Bearer a");
    h.set("x-api-version", "v2");
    h.set("authorization", "Bearer b");
    assert_eq!(h.len(), 2);
    assert_eq!(h.get("authorization").unwrap(), "Bearer b");
    assert_eq!(h.entry(1), ("authorization", "Bearer b"));
    assert_eq!(h.entry(0), ("x-api-version", "v2"));
    assert!(h.get("accept").is_none());
}

#[test]
fn call_sends_mandatory_headers() {
    let config = Config::standard();
    let mut extra = HeaderList::new();
    extra.set("x-api-version", "v2");
    let r = call(&config, "rid-1", Method::Post, "https://h/p", Some(s("{}")), &extra);
    assert_eq!(r.method, Method::Post);
    assert_eq!(r.url, "https://h/p");
    assert_eq!(header(&r, "accept").unwrap(), "application/json");
    assert_eq!(header(&r, "content-type").unwrap(), "application/json");
    assert_eq!(header(&r, "x-bread-app-id").unwrap(), "9132d63e-78fd-4ee4-bde2-68583a4657b8");
    assert_eq!(header(&r, "x-request-id").unwrap(), "rid-1");
    assert_eq!(header(&r, "x-api-version").unwrap(), "v2");
    assert_eq!(r.headers.len(), 5);
    assert_eq!(body(&r), "{}");
}

#[test]
fn call_without_body_or_extra_headers() {
    let config = Config::new("https://h", "app", "m", "p");
    let r = call(&config, "rid", Method::Put, "https://h/x", None, &HeaderList::new());
    assert!(r.body.is_none());
    assert_eq!(r.headers.len(), 4);
    assert_eq!(header(&r, "x-bread-app-id").unwrap(), "app");
}

#[test]
fn caller_header_overrides_mandatory_one() {
    let config = Config::standard();
    let mut extra = HeaderList::new();
    extra.set("accept", "text/plain");
    let r = call(&config, "rid", Method::Post, "https://h", None, &extra);
    assert_eq!(header(&r, "accept").unwrap(), "text/plain");
    assert_eq!(r.headers.len(), 4);
}

#[test]
fn every_stage_request_has_mandatory_headers() {
    let config = Config::standard();
    let c = context();
    let b = buyer();
    let requests = vec![
        send_code(&config, &c, "2024-01-01T00:00:00Z"),
        authorize_buyer(&config, &c, "r1"),
        create_buyer(&config, &c, "anon"),
        update_buyer_contact(&config, &c, &b),
        create_application(&config, &c, "Bearer tok123", "2024-01-01T00:00:00Z"),
    ];
    for r in &requests {
        assert_eq!(header(r, "accept").unwrap(), "application/json");
        assert_eq!(header(r, "content-type").unwrap(), "application/json");
        assert_eq!(header(r, "x-bread-app-id").unwrap(), config.app_id);
        assert_eq!(header(r, "x-request-id").unwrap(), c.request_id);
    }
}

#[test]
fn send_code_request_shape() {
    let config = Config::standard();
    let c = context();
    let r = send_code(&config, &c, "2024-01-01T00:00:00Z");
    assert_eq!(r.method, Method::Post);
    assert_eq!(r.url, "https://api.npp-dev-ads.ue2.breadgateway.net/api/auth/send-code");
    assert_eq!(header(&r, "x-api-version").unwrap(), "v2");
    assert!(header(&r, "authorization").is_none());
    assert_eq!(
        body(&r),
        "{\"deliveryMethod\":\"SMS\",\"phone\":\"+16789012345\",\"email\":\"6789012345@domain.com\",\
         \"disclosures\":[{\"type\":\"privacy-policy-choices\",\"acceptedAt\":\"2024-01-01T00:00:00Z\"},\
         {\"type\":\"terms-of-use\",\"acceptedAt\":\"2024-01-01T00:00:00Z\"}],\
         \"uat\":{\"auth\":{\"token\":\"1234\"}}}"
    );
    let parsed: serde_json::Value = serde_json::from_str(&body(&r)).unwrap();
    assert_eq!(parsed["phone"], "+16789012345");
}

#[test]
fn authorize_request_escapes_reference() {
    let config = Config::new("https://h", "app", "m1", "p1");
    let c = context();
    let r = authorize_buyer(&config, &c, "a\"b");
    assert_eq!(r.url, "https://h/api/auth/buyer/authorize");
    assert_eq!(
        body(&r),
        "{\"credentials\":{\"code\":\"1234\"},\"referenceID\":\"a\\\"b\",\"merchantID\":\"m1\",\"programID\":\"p1\"}"
    );
    assert_eq!(r.headers.len(), 4);
}

#[test]
fn buyer_request_shape() {
    let config = Config::new("https://h", "app", "m", "p");
    let c = context();
    let r = create_buyer(&config, &c, "anon");
    assert_eq!(r.url, "https://h/api/buyer");
    assert_eq!(header(&r, "authorization").unwrap(), "Bearer anon");
    let parsed: serde_json::Value = serde_json::from_str(&body(&r)).unwrap();
    assert_eq!(parsed["identity"]["email"], "6789012345@domain.com");
    assert_eq!(parsed["identity"]["name"]["givenName"], "Athens");
    assert_eq!(parsed["languagePreference"], "en-us");
}

#[test]
fn contact_update_request_shape() {
    let config = Config::new("https://h", "app", "m", "p");
    let c = context();
    let r = update_buyer_contact(&config, &c, &buyer());
    assert_eq!(r.method, Method::Put);
    assert_eq!(r.url, "https://h/api/buyer/b1/contact/c1");
    assert_eq!(header(&r, "authorization").unwrap(), "Bearer Bearer tok123");
    let parsed: serde_json::Value = serde_json::from_str(&body(&r)).unwrap();
    assert_eq!(parsed["address"]["postalCode"], "10028");
    assert_eq!(parsed["phone"], "+16789012345");
}

#[test]
fn application_request_shape() {
    let config = Config::new("https://h", "app", "m", "p");
    let c = context();
    let r = create_application(&config, &c, "tok", "2024-01-01T00:00:00Z");
    assert_eq!(r.url, "https://h/api/application");
    assert_eq!(header(&r, "authorization").unwrap(), "Bearer tok");
    assert_eq!(header(&r, "x-api-version").unwrap(), "v2");
    let parsed: serde_json::Value = serde_json::from_str(&body(&r)).unwrap();
    assert_eq!(parsed["order"]["totalPrice"]["value"], 110000);
    assert_eq!(parsed["disclosures"][0]["type"], "SOFT_PULL");
    assert_eq!(parsed["disclosures"][0]["acceptedAt"], "2024-01-01T00:00:00Z");
}

#[test]
fn reference_id_is_read() {
    let ok = reply(object(vec![("referenceID", text("r1"))]));
    assert_eq!(send_code_reply(&ok).unwrap(), "r1");
    let wrong_type = reply(object(vec![("referenceID", Json::Number(s("5")))]));
    assert_eq!(send_code_reply(&wrong_type).err(), Some(PipelineError::FieldMissing));
}

#[test]
fn buyer_reply_yields_ids() {
    let mut headers = HeaderList::new();
    headers.set("authorization", "Bearer tok123");
    let body = object(vec![("id", text("b1")), ("contacts", object(vec![("c1", object(vec![]))]))]);
    let b = create_buyer_reply(&Response { headers, body }).unwrap();
    assert_eq!(b.buyer_id, "b1");
    assert_eq!(b.token, "Bearer tok123");
    assert_eq!(b.contact_id, "c1");
}

#[test]
fn buyer_reply_without_authorization_header() {
    let body = object(vec![("id", text("b1")), ("contacts", object(vec![("c1", object(vec![]))]))]);
    assert_eq!(create_buyer_reply(&reply(body)).err(), Some(PipelineError::HeaderMissing));
}

#[test]
fn buyer_reply_field_errors() {
    let mut headers = HeaderList::new();
    headers.set("authorization", "Bearer t");
    let no_id = object(vec![("contacts", object(vec![("c1", Json::Null)]))]);
    let r = create_buyer_reply(&Response { headers, body: no_id });
    assert_eq!(r.err(), Some(PipelineError::FieldMissing));
    let empty = object(vec![("contacts", object(vec![]))]);
    assert_eq!(get_contact_id(&empty).err(), Some(PipelineError::EmptyMap));
    let missing = object(vec![("id", text("b1"))]);
    assert_eq!(get_contact_id(&missing).err(), Some(PipelineError::FieldMissing));
    let not_object = object(vec![("contacts", Json::Array(vec![]))]);
    assert_eq!(get_contact_id(&not_object).err(), Some(PipelineError::FieldMissing));
}

#[test]
fn first_contact_is_taken() {
    let body = object(vec![("contacts", object(vec![("c1", Json::Null), ("c2", Json::Null)]))]);
    assert_eq!(get_contact_id(&body).unwrap(), "c1");
}

#[test]
fn application_reply_errors() {
    let no_id = object(vec![("paymentAgreements", Json::Array(vec![object(vec![("id", text("p1"))])]))]);
    assert_eq!(create_application_reply(&reply(no_id)).err(), Some(PipelineError::FieldMissing));
    let empty = object(vec![("id", text("a1")), ("paymentAgreements", Json::Array(vec![]))]);
    assert_eq!(create_application_reply(&reply(empty)).err(), Some(PipelineError::Index));
    let no_list = object(vec![("id", text("a1"))]);
    assert_eq!(create_application_reply(&reply(no_list)).err(), Some(PipelineError::FieldMissing));
    let no_inner = object(vec![("id", text("a1")), ("paymentAgreements", Json::Array(vec![Json::Null]))]);
    assert_eq!(create_application_reply(&reply(no_inner)).err(), Some(PipelineError::FieldMissing));
}

fn buyer_reply() -> Response {
    let mut headers = HeaderList::new();
    headers.set("authorization", "Bearer tok123");
    let body = object(vec![("id", text("b1")), ("contacts", object(vec![("c1", object(vec![]))]))]);
    Response { headers, body }
}

fn application_reply() -> Response {
    reply(object(vec![
        ("id", text("a1")),
        ("paymentAgreements", Json::Array(vec![object(vec![("id", text("p1"))])])),
    ]))
}

#[test]
fn reference_is_passed_to_authorization() {
    let p = Pipeline::new(Config::standard(), context());
    let p = p.advance(Ok(reply(object(vec![("referenceID", text("r1"))]))));
    let r = p.next_request("2024-01-01T00:00:00Z").unwrap();
    assert!(r.url.ends_with("/api/auth/buyer/authorize"));
    let parsed: serde_json::Value = serde_json::from_str(&body(&r)).unwrap();
    assert_eq!(parsed["referenceID"], "r1");
}

#[test]
fn missing_reference_aborts_run() {
    let p = Pipeline::new(Config::standard(), context());
    let p = p.advance(Ok(reply(object(vec![("other", text("x"))]))));
    assert_eq!(p.failure(), Some((Step::SendCode, PipelineError::FieldMissing)));
    assert!(p.is_over());
    assert!(p.next_request("2024-01-01T00:00:00Z").is_none());
    assert!(p.output_line().is_none());
    let p = p.advance(Ok(reply(object(vec![("token", text("t"))]))));
    assert_eq!(p.failure(), Some((Step::SendCode, PipelineError::FieldMissing)));
}

#[test]
fn transport_and_decode_failures_abort_run() {
    let p = Pipeline::new(Config::standard(), context());
    let p = p.advance(Ok(reply(object(vec![("referenceID", text("r1"))]))));
    let q = p.advance(Err(PipelineError::Transport));
    assert_eq!(q.failure(), Some((Step::AuthorizeBuyer, PipelineError::Transport)));
    let p = Pipeline::new(Config::standard(), context());
    let p = p.advance(Err(PipelineError::Decode));
    assert_eq!(p.failure(), Some((Step::SendCode, PipelineError::Decode)));
}

#[test]
fn full_run_prints_identifiers() {
    let at = "2024-01-01T00:00:00Z";
    let mut p = Pipeline::new(Config::standard(), context());
    let replies = vec![
        reply(object(vec![("referenceID", text("r1"))])),
        reply(object(vec![("token", text("anon"))])),
        buyer_reply(),
        reply(object(vec![])),
        application_reply(),
    ];
    let mut urls = Vec::new();
    for resp in replies {
        assert!(p.output_line().is_none());
        let r = p.next_request(at).unwrap();
        urls.push(r.url.clone());
        p = p.advance(Ok(resp));
    }
    assert!(p.is_over());
    assert!(p.failure().is_none());
    assert!(p.next_request(at).is_none());
    assert_eq!(p.output_line().unwrap(), "ApplicationId:a1 PaymentAgreementId:p1");
    let base = "https://api.npp-dev-ads.ue2.breadgateway.net";
    assert_eq!(urls[0], format!("{}/api/auth/send-code", base));
    assert_eq!(urls[1], format!("{}/api/auth/buyer/authorize", base));
    assert_eq!(urls[2], format!("{}/api/buyer", base));
    assert_eq!(urls[3], format!("{}/api/buyer/b1/contact/c1", base));
    assert_eq!(urls[4], format!("{}/api/application", base));
}

#[test]
fn application_reply_gives_summary_line() {
    let a = create_application_reply(&application_reply()).unwrap();
    assert_eq!(a.summary_line(), "ApplicationId:a1 PaymentAgreementId:p1");
}

fn at_contact_update() -> Pipeline {
    let p = Pipeline::new(Config::standard(), context());
    let p = p.advance(Ok(reply(object(vec![("referenceID", text("r1"))]))));
    let p = p.advance(Ok(reply(object(vec![("token", text("anon"))]))));
    p.advance(Ok(buyer_reply()))
}

#[test]
fn contact_update_is_repeatable() {
    let first = at_contact_update();
    let second = at_contact_update();
    let r1 = first.next_request("x").unwrap();
    let r2 = second.next_request("y").unwrap();
    assert_eq!(r1.method, r2.method);
    assert_eq!(r1.url, r2.url);
    assert_eq!(r1.body, r2.body);
    assert_eq!(r1.headers.get("authorization"), r2.headers.get("authorization"));
    let a = first.advance(Ok(reply(Json::Null)));
    let b = second.advance(Ok(reply(object(vec![]))));
    assert!(a.failure().is_none() && b.failure().is_none());
    let qa = a.next_request("t").unwrap();
    let qb = b.next_request("t").unwrap();
    assert_eq!(qa.url, qb.url);
    assert_eq!(qa.body, qb.body);
}

#[test]
fn layouts_place_literals_verbatim() {
    assert_eq!(
        fill_authorize("\"r1\"", "\"m\"", "\"p\""),
        "{\"credentials\":{\"code\":\"1234\"},\"referenceID\":\"r1\",\"merchantID\":\"m\",\"programID\":\"p\"}"
    );
    assert_eq!(
        fill_send_code("P", "E", "T"),
        "{\"deliveryMethod\":\"SMS\",\"phone\":P,\"email\":E,\"disclosures\":[{\"type\":\"privacy-policy-choices\",\"acceptedAt\":T},{\"type\":\"terms-of-use\",\"acceptedAt\":T}],\"uat\":{\"auth\":{\"token\":\"1234\"}}}"
    );
    assert!(fill_buyer("P", "E").contains("\"email\":E,\"phone\":P,"));
    assert!(fill_contact("P", "E").ends_with("\"email\":E,\"phone\":P}"));
    assert!(fill_application("T").ends_with("{\"type\":\"SOFT_PULL\",\"acceptedAt\":T}]}"));
}

#[test]
fn header_names_ignore_ascii_case() {
    let mut h = HeaderList::new();
    h.set("Authorization", "Bearer a");
    h.set("X-API-Version", "v2");
    h.set("authorization", "Bearer b");
    assert_eq!(h.len(), 2);
    assert_eq!(h.get("AUTHORIZATION").unwrap(), "Bearer b");
    assert_eq!(h.get("x-api-version").unwrap(), "v2");
    assert_eq!(h.entry(1), ("authorization", "Bearer b"));
}

#[test]
fn caller_header_in_other_case_overrides_mandatory_one() {
    let config = Config::standard();
    let mut extra = HeaderList::new();
    extra.set("Accept", "text/plain");
    let r = call(&config, "rid", Method::Post, "https://h", None, &extra);
    assert_eq!(header(&r, "accept").unwrap(), "text/plain");
    assert_eq!(r.headers.len(), 4);
}

#[test]
fn control_characters_are_escaped() {
    let config = Config::new("https://h", "app", "m", "p");
    let r = authorize_buyer(&config, &context(), "a\nb\u{1}c\\d\t\u{8}\u{c}\r\u{1f}é");
    assert!(body(&r).contains("\"referenceID\":\"a\\nb\\u0001c\\\\d\\t\\b\\f\\r\\u001fé\","));
}

#[test]
fn acceptance_time_at_end_of_range() {
    assert_eq!(accepted_at(253_402_300_799 + 86_400).unwrap(), "9999-12-31T23:59:59Z");
    assert_eq!(accepted_at(0).unwrap(), "1969-12-31T00:00:00Z");
}
