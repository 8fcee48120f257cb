use btc5min_limit_order::api::PolymarketApi;
use btc5min_limit_order::positions::{
    positions_query, read_answer, read_positions, JsonField, PositionFilter, PositionRow,
    SizeReading, SizeSign,
};

fn row(condition_id: Option<&str>, title: Option<&str>) -> PositionRow {
    PositionRow {
        size: JsonField::Missing,
        condition_id: condition_id.map(|text| text.to_string()),
        title: title.map(|text| text.to_string()),
    }
}

fn size(sign: SizeSign, micros: u64) -> Option<SizeReading> {
    Some(SizeReading { sign, micros })
}

#[test]
fn the_service_is_asked_for_a_prefixed_wallet() {
    let query = positions_query("abc", PositionFilter::Redeemable);
    let expected: Vec<(String, String)> = [("user", "0xabc"), ("redeemable", "true"), ("limit", "500")]
        .iter()
        .map(|(key, value)| (key.to_string(), value.to_string()))
        .collect();
    assert_eq!(query, expected);
    let query = positions_query("0xabc", PositionFilter::Mergeable);
    assert_eq!(query[0].1, "0xabc");
    assert_eq!(query[1].0, "mergeable");
}

#[test]
fn rows_are_read_from_json() {
    let body = br#"[
        {"size": 1.5, "conditionId": "0xa", "title": "A"},
        {"size": "2", "conditionId": 7},
        {"size": null, "title": null},
        3
    ]"#;
    let rows = read_positions(body);
    assert_eq!(rows.len(), 4);
    assert!(matches!(&rows[0].size, JsonField::Number(text) if text == "1.5"));
    assert_eq!(rows[0].condition_id.as_deref(), Some("0xa"));
    assert_eq!(rows[0].title.as_deref(), Some("A"));
    assert!(matches!(&rows[1].size, JsonField::Text(text) if text == "2"));
    assert!(rows[1].condition_id.is_none());
    assert!(matches!(&rows[2].size, JsonField::Other));
    assert!(rows[2].title.is_none());
    assert!(matches!(&rows[3].size, JsonField::Missing));
}

#[test]
fn what_is_no_list_has_no_rows() {
    assert_eq!(read_positions(b"{}").len(), 0);
    assert_eq!(read_positions(b"not json").len(), 0);
    assert_eq!(read_positions(b"").len(), 0);
    assert_eq!(read_positions(b"[]").len(), 0);
}

#[test]
fn a_refusal_is_an_error_for_redeemable_positions_only() {
    let body = br#"[{"conditionId": "0xa"}]"#;
    assert_eq!(read_answer(PositionFilter::Redeemable, 200, body).unwrap().len(), 1);
    assert_eq!(read_answer(PositionFilter::Redeemable, 299, body).unwrap().len(), 1);
    assert_eq!(read_answer(PositionFilter::Redeemable, 500, body).unwrap_err(), 500);
    assert_eq!(read_answer(PositionFilter::Redeemable, 199, body).unwrap_err(), 199);
    assert_eq!(read_answer(PositionFilter::Mergeable, 404, body).unwrap().len(), 0);
}

#[test]
fn redeemable_conditions_are_sorted_and_listed_once() {
    let rows = vec![
        row(Some("0xb"), None),
        row(Some("a"), None),
        row(Some("0xa"), None),
        row(None, None),
        row(Some("0xzero"), None),
        row(Some("0xnan"), None),
        row(Some("0xmissing"), None),
        row(Some("B"), None),
    ];
    let sizes = vec![
        size(SizeSign::Positive, 1),
        size(SizeSign::Positive, 1),
        size(SizeSign::Positive, 1),
        size(SizeSign::Positive, 1),
        size(SizeSign::NotPositive, 0),
        size(SizeSign::Undefined, 0),
        None,
        size(SizeSign::Positive, 0),
    ];
    let ids = PolymarketApi::get_redeemable_positions(&rows, &sizes);
    assert_eq!(ids, vec!["0xB".to_string(), "0xa".to_string(), "0xb".to_string()]);
    let mut sorted = ids.clone();
    sorted.sort();
    sorted.dedup();
    assert_eq!(ids, sorted);
}

#[test]
fn the_order_of_texts_is_that_of_strings() {
    let names = ["0xé", "0xz", "0x", "0xzz", "0x\u{10000}", "0x\u{ffff}", "0xa"];
    let rows: Vec<PositionRow> = names.iter().map(|name| row(Some(name), None)).collect();
    let sizes: Vec<Option<SizeReading>> =
        names.iter().map(|_| size(SizeSign::Positive, 1)).collect();
    let mut expected: Vec<String> = names.iter().map(|name| name.to_string()).collect();
    expected.sort();
    assert_eq!(PolymarketApi::get_redeemable_positions(&rows, &sizes), expected);
}

#[test]
fn mergeable_positions_keep_their_order() {
    let rows = vec![
        row(Some("b"), Some("B")),
        row(Some("0xa"), None),
        row(Some("0xzero"), None),
        row(Some("0xnan"), None),
        row(None, Some("C")),
        row(Some("0xnone"), None),
    ];
    let sizes = vec![
        size(SizeSign::Positive, 2_500_000),
        size(SizeSign::Positive, 7),
        size(SizeSign::NotPositive, 0),
        size(SizeSign::Undefined, 0),
        size(SizeSign::Positive, 1),
        None,
    ];
    let positions = PolymarketApi::get_mergeable_positions(&rows, &sizes);
    assert_eq!(positions.len(), 3);
    assert_eq!(positions[0].condition_id, "0xb");
    assert_eq!(positions[0].size, 2_500_000);
    assert_eq!(positions[0].title, "B");
    assert_eq!(positions[1].condition_id, "0xa");
    assert_eq!(positions[1].title, "Unknown");
    assert_eq!(positions[2].condition_id, "0xnan");
}
