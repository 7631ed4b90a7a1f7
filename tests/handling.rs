use addon_api::{
    addon_from_positional, begin_get, addon_from_typed, addons_from_positional, addons_from_typed, dispatch,
    get, log_error, post, query_for, respond, AddonResponse, Body, Column, Config, Dispatch,
    HandlerError, MappingMode, Message, Method, QueryOutcome, Response, Setting, POSITIONAL_QUERY,
    TYPED_QUERY,
};

fn text(s: &str) -> Column {
    Column::Text(s.to_string())
}

fn positional_row(id: i64, repository: &str, downloads: i64) -> Vec<Column> {
    vec![Column::Integer(id), text(repository), Column::Integer(downloads)]
}

fn error_text(r: &Response) -> String {
    match r {
        Response::Error(b) => b.error.clone(),
        _ => panic!("expected an error envelope"),
    }
}

#[test]
fn post_echoes_message() {
    let body = Body::Parsed(Message { message: "hello".to_string() });
    let r = respond(post(body));
    match r {
        Response::Echo(m) => assert_eq!(m.message, "hello"),
        _ => panic!("expected an echo"),
    }
}

#[test]
fn post_echoes_empty_and_unicode_messages() {
    for s in ["", "ünïcødé ✓", "{\"nested\": 1}"] {
        let r = respond(post(Body::Parsed(Message { message: s.to_string() })));
        match r {
            Response::Echo(m) => assert_eq!(m.message, s),
            _ => panic!("expected an echo"),
        }
    }
}

#[test]
fn post_without_body_fails() {
    let result = post(Body::Empty);
    assert!(matches!(result, Err(HandlerError::EmptyBody)));
    let r = respond(result);
    assert_eq!(error_text(&r), "Empty body");
}

#[test]
fn post_with_malformed_body_fails() {
    let r = respond(post(Body::Malformed("expected value at line 1 column 1".to_string())));
    assert_eq!(error_text(&r), "Malformed body: expected value at line 1 column 1");
}

#[test]
fn malformed_body_message_is_never_empty() {
    let r = respond(post(Body::Malformed(String::new())));
    assert!(!error_text(&r).is_empty());
}

#[test]
fn other_methods_are_rejected() {
    match dispatch(Method::Other) {
        Dispatch::Reply(r) => assert_eq!(error_text(&r), "Invalid method"),
        _ => panic!("expected an immediate reply"),
    }
}

#[test]
fn get_and_post_are_dispatched() {
    assert!(matches!(dispatch(Method::Get), Dispatch::Catalog));
    assert!(matches!(dispatch(Method::Post), Dispatch::Echo));
}

#[test]
fn count_of_empty_response_is_zero() {
    let r = AddonResponse::new(Vec::new());
    assert_eq!(r.count(), 0);
    assert!(r.addons().is_empty());
}

#[test]
fn zero_rows_give_empty_catalog() {
    for mode in [MappingMode::Positional, MappingMode::Typed] {
        match get(mode, QueryOutcome::Records(Vec::new())) {
            Ok(Response::Catalog(c)) => {
                assert_eq!(c.count(), 0);
                assert!(c.addons().is_empty());
            }
            _ => panic!("expected an empty catalog"),
        }
    }
}

#[test]
fn count_matches_addons() {
    let rows = vec![positional_row(1, "a/b", 10), positional_row(2, "c/d", 20), positional_row(3, "e/f", 0)];
    match get(MappingMode::Positional, QueryOutcome::Records(rows)) {
        Ok(Response::Catalog(c)) => {
            assert_eq!(c.count(), 3);
            assert_eq!(c.addons().len(), 3);
            let addons = c.into_addons();
            assert_eq!(addons[2].repository, "e/f");
        }
        _ => panic!("expected a catalog"),
    }
}

#[test]
fn missing_settings_fail() {
    let s = || Some("x".to_string());
    let cases = [
        (None, s(), s(), "Missing environment variable AURORA_DB_RESOURCE_ARN"),
        (s(), None, s(), "Missing environment variable AURORA_DB_SECRET_ARN"),
        (s(), s(), None, "Missing environment variable AURORA_DB_REGION"),
        (None, None, None, "Missing environment variable AURORA_DB_RESOURCE_ARN"),
    ];
    for (a, b, c, expected) in cases {
        match Config::from_settings(a, b, c) {
            Err(e) => {
                let r = respond(Err(e));
                assert_eq!(error_text(&r), expected);
            }
            Ok(_) => panic!("expected a missing setting"),
        }
    }
}

#[test]
fn all_settings_give_config() {
    let c = Config::from_settings(
        Some("arn:cluster".to_string()),
        Some("arn:secret".to_string()),
        Some("eu-west-1".to_string()),
    );
    match c {
        Ok(c) => {
            assert_eq!(c.resource_arn, "arn:cluster");
            assert_eq!(c.secret_arn, "arn:secret");
            assert_eq!(c.region, "eu-west-1");
        }
        Err(_) => panic!("expected a configuration"),
    }
}

#[test]
fn setting_variables() {
    assert_eq!(Setting::ResourceArn.variable(), "AURORA_DB_RESOURCE_ARN");
    assert_eq!(Setting::SecretArn.variable(), "AURORA_DB_SECRET_ARN");
    assert_eq!(Setting::Region.variable(), "AURORA_DB_REGION");
}

#[test]
fn positional_mixed_batch_drops_malformed_row() {
    let rows = vec![
        positional_row(1, "owner/one", 5),
        vec![Column::Integer(2), text("owner/two")],
        positional_row(3, "owner/three", 7),
    ];
    let addons = addons_from_positional(&rows);
    assert_eq!(addons.len(), 2);
    assert_eq!(addons[0].id, 1);
    assert_eq!(addons[0].total_download_count, Some(5));
    assert_eq!(addons[1].id, 3);
    assert_eq!(addons[1].repository, "owner/three");
    match get(MappingMode::Positional, QueryOutcome::Records(rows)) {
        Ok(Response::Catalog(c)) => assert_eq!(c.count(), 2),
        _ => panic!("expected a catalog"),
    }
}

#[test]
fn positional_row_with_wrong_kinds_is_dropped() {
    assert!(addon_from_positional(&vec![text("1"), text("a"), Column::Integer(3)]).is_none());
    assert!(addon_from_positional(&vec![Column::Integer(1), Column::Null, Column::Integer(3)]).is_none());
    assert!(addon_from_positional(&vec![Column::Integer(1), text("a"), Column::Null]).is_none());
    assert!(addon_from_positional(&Vec::new()).is_none());
}

#[test]
fn typed_row_with_null_optionals_is_kept() {
    let mut row = vec![Column::Integer(9), text("x/y")];
    while row.len() < 11 {
        row.push(Column::Null);
    }
    let a = addon_from_typed(&row).expect("row decodes");
    assert_eq!(a.id, 9);
    assert_eq!(a.repository, "x/y");
    assert!(a.repository_name.is_none());
    assert!(a.description.is_none());
    assert!(a.total_download_count.is_none());
    assert!(a.updated_at.is_none());
    let addons = addons_from_typed(&vec![row]).expect("batch decodes");
    assert_eq!(addons.len(), 1);
}

#[test]
fn typed_row_full() {
    let row = vec![
        Column::Integer(4),
        text("r/p"),
        text("Name"),
        text("github"),
        text("Desc"),
        text("https://home"),
        text("https://img"),
        text("https://owner"),
        text("owner"),
        Column::Integer(1234),
        text("2020-01-01"),
    ];
    let a = addon_from_typed(&row).expect("row decodes");
    assert_eq!(a.repository_name.as_deref(), Some("Name"));
    assert_eq!(a.source.as_deref(), Some("github"));
    assert_eq!(a.homepage.as_deref(), Some("https://home"));
    assert_eq!(a.owner_name.as_deref(), Some("owner"));
    assert_eq!(a.total_download_count, Some(1234));
    assert_eq!(a.updated_at.as_deref(), Some("2020-01-01"));
}

#[test]
fn typed_row_with_wrong_kind_fails_request() {
    let good = vec![Column::Integer(1), text("a/b")];
    let bad = vec![Column::Integer(2), text("c/d"), Column::Integer(5)];
    assert_eq!(addons_from_typed(&vec![good.clone(), bad.clone(), good.clone()]).err(), Some(1));
    let r = get(MappingMode::Typed, QueryOutcome::Records(vec![good, bad]));
    assert!(matches!(r, Err(HandlerError::UndecodableRow(1))));
    assert_eq!(error_text(&respond(r)), "A row could not be decoded as an addon");
}

#[test]
fn typed_row_without_id_fails() {
    assert!(addon_from_typed(&vec![Column::Null, text("a/b")]).is_none());
}

#[test]
fn query_failure_is_reported() {
    let r = get(MappingMode::Typed, QueryOutcome::Failed("timeout".to_string()));
    assert!(matches!(r, Err(HandlerError::QueryFailed(_))));
    assert_eq!(error_text(&respond(r)), "timeout");
}

#[test]
fn missing_record_set_is_an_error() {
    let r = get(MappingMode::Positional, QueryOutcome::NoRecordSet);
    assert!(matches!(r, Err(HandlerError::NoRecordSet)));
    assert_eq!(error_text(&respond(r)), "Query returned no record set");
}

#[test]
fn log_line_is_error_description() {
    assert_eq!(log_error(&HandlerError::EmptyBody), "Empty body");
    assert_eq!(
        log_error(&HandlerError::MissingSetting(Setting::Region)),
        "Missing environment variable AURORA_DB_REGION"
    );
}

#[test]
fn queries_per_mode() {
    assert_eq!(query_for(MappingMode::Positional), POSITIONAL_QUERY);
    assert_eq!(query_for(MappingMode::Typed), TYPED_QUERY);
    assert!(TYPED_QUERY.contains("total_download_count"));
    assert!(POSITIONAL_QUERY.starts_with("SELECT id, repository, total_download_count"));
}

#[test]
fn begin_get_fails_on_missing_setting() {
    let s = || Some("x".to_string());
    for (a, b, c) in [(None, s(), s()), (s(), None, s()), (s(), s(), None)] {
        match begin_get(a, b, c) {
            Err(e) => {
                assert!(matches!(e, HandlerError::MissingSetting(_)));
                assert!(matches!(respond(Err(e)), Response::Error(_)));
            }
            Ok(_) => panic!("expected the request to fail"),
        }
    }
    assert!(begin_get(s(), s(), s()).is_ok());
}

#[test]
fn query_failure_text_is_passed_on_unchanged() {
    let text = "Database error: relation \"addon\" does not exist";
    let r = get(MappingMode::Positional, QueryOutcome::Failed(text.to_string()));
    assert_eq!(error_text(&respond(r)), text);
    let r = get(MappingMode::Typed, QueryOutcome::Failed(String::new()));
    assert_eq!(error_text(&respond(r)), "");
}
