use delete_function::config::{decode_config, ConfigFault, Field};
use delete_function::handler::{complete, prepare, HandlerError, StoreCapability, StoreOutcome};
use delete_function::json::JsonValue;
use delete_function::payload::{decode_input, PayloadFault};

fn text(s: &str) -> JsonValue {
    JsonValue::Text(s.to_string())
}

fn obj(entries: Vec<(&str, JsonValue)>) -> JsonValue {
    JsonValue::Object(entries.into_iter().map(|(k, v)| (k.to_string(), v)).collect())
}

fn base_config() -> JsonValue {
    obj(vec![
        ("table_name", text("functions")),
        ("primary_key", text("id")),
        ("index_data", obj(vec![("team_id", text("team_id-index"))])),
        ("token_claims", obj(vec![])),
    ])
}

fn uuid_input() -> JsonValue {
    obj(vec![("id", text("a6c18e06-aa03-45ea-9e9e-6d9328746951"))])
}

#[test]
fn end_to_end_delete_scenario() {
    let request = prepare(&base_config(), &uuid_input(), StoreCapability::Available)
        .expect("a fully valid invocation must produce a request");
    assert_eq!(request.table_name, "functions");
    assert_eq!(request.key.entries.len(), 1);
    assert_eq!(request.key.entries[0].0, "id");
    assert_eq!(
        request.key.entries[0].1,
        text("a6c18e06-aa03-45ea-9e9e-6d9328746951")
    );
    let response = complete(StoreOutcome::Deleted).expect("a deleted outcome is a success");
    assert_eq!(response.message, "Successfully deleted record");
}

#[test]
fn delete_twice_reports_success_both_times() {
    // The store reports a Deleted outcome for an absent key too, so an
    // identical repeat of the same request must not fail.
    let first = prepare(&base_config(), &uuid_input(), StoreCapability::Available).unwrap();
    let again = prepare(&base_config(), &uuid_input(), StoreCapability::Available).unwrap();
    assert_eq!(first, again);
    let first_response = complete(StoreOutcome::Deleted).unwrap();
    let again_response = complete(StoreOutcome::Deleted).unwrap();
    assert_eq!(first_response.message, "Successfully deleted record");
    assert_eq!(again_response, first_response);
}

#[test]
fn missing_capability_is_named_no_sdk_config() {
    let err = prepare(&base_config(), &uuid_input(), StoreCapability::Unavailable).unwrap_err();
    assert_eq!(err, HandlerError::CapabilityMissing);
    assert_eq!(err.code(), "NO_SDK_CONFIG");
    assert_eq!(err.message(), "No aws sdk config found in handler context");
}

#[test]
fn missing_table_name_fails_before_any_store_call() {
    let config = obj(vec![
        ("primary_key", text("id")),
        ("index_data", obj(vec![])),
        ("token_claims", obj(vec![])),
    ]);
    let err = prepare(&config, &uuid_input(), StoreCapability::Available).unwrap_err();
    assert_eq!(
        err,
        HandlerError::ConfigDecode(ConfigFault::MissingField(Field::TableName))
    );
}

#[test]
fn missing_primary_key_fails_before_any_store_call() {
    let config = obj(vec![
        ("table_name", text("functions")),
        ("index_data", obj(vec![])),
        ("token_claims", obj(vec![])),
    ]);
    let err = prepare(&config, &uuid_input(), StoreCapability::Available).unwrap_err();
    assert_eq!(
        err,
        HandlerError::ConfigDecode(ConfigFault::MissingField(Field::PrimaryKey))
    );
}

#[test]
fn missing_index_data_fails_before_any_store_call() {
    let config = obj(vec![
        ("table_name", text("functions")),
        ("primary_key", text("id")),
        ("token_claims", obj(vec![])),
    ]);
    let err = prepare(&config, &uuid_input(), StoreCapability::Available).unwrap_err();
    assert_eq!(
        err,
        HandlerError::ConfigDecode(ConfigFault::MissingField(Field::IndexData))
    );
}

#[test]
fn missing_token_claims_fails_before_any_store_call() {
    let config = obj(vec![
        ("table_name", text("functions")),
        ("primary_key", text("id")),
        ("index_data", obj(vec![])),
    ]);
    let err = prepare(&config, &uuid_input(), StoreCapability::Available).unwrap_err();
    assert_eq!(
        err,
        HandlerError::ConfigDecode(ConfigFault::MissingField(Field::TokenClaims))
    );
}

#[test]
fn non_object_config_fails_decoding() {
    let err = prepare(&text("nope"), &uuid_input(), StoreCapability::Available).unwrap_err();
    assert_eq!(err, HandlerError::ConfigDecode(ConfigFault::NotAnObject));
    assert_eq!(err.code(), "DECODE_ERROR");
}

#[test]
fn mistyped_table_name_fails_decoding() {
    let config = obj(vec![
        ("table_name", JsonValue::Number("7".to_string())),
        ("primary_key", text("id")),
        ("index_data", obj(vec![])),
        ("token_claims", obj(vec![])),
    ]);
    let err = decode_config(&config).unwrap_err();
    assert_eq!(err, ConfigFault::WrongFieldType(Field::TableName));
}

#[test]
fn mistyped_index_data_fails_decoding() {
    let not_an_object = obj(vec![
        ("table_name", text("functions")),
        ("primary_key", text("id")),
        ("index_data", text("team_id-index")),
        ("token_claims", obj(vec![])),
    ]);
    assert_eq!(
        decode_config(&not_an_object).unwrap_err(),
        ConfigFault::WrongFieldType(Field::IndexData)
    );
    let non_text_value = obj(vec![
        ("table_name", text("functions")),
        ("primary_key", text("id")),
        ("index_data", obj(vec![("team_id", JsonValue::Null)])),
        ("token_claims", obj(vec![])),
    ]);
    assert_eq!(
        decode_config(&non_text_value).unwrap_err(),
        ConfigFault::WrongFieldType(Field::IndexData)
    );
}

#[test]
fn scalar_input_fails_before_any_store_call() {
    let err = prepare(&base_config(), &text("bare"), StoreCapability::Available).unwrap_err();
    assert_eq!(err, HandlerError::InputDecode(PayloadFault::NotAnObject));
    assert_eq!(err.code(), "DECODE_ERROR");
}

#[test]
fn array_input_fails_before_any_store_call() {
    let input = JsonValue::Array(vec![text("id")]);
    let err = prepare(&base_config(), &input, StoreCapability::Available).unwrap_err();
    assert_eq!(err, HandlerError::InputDecode(PayloadFault::NotAnObject));
}

#[test]
fn invalid_input_with_missing_capability_reports_decode_first() {
    // Decoding runs before the capability gate, so a malformed input is
    // reported even when the capability is absent too.
    let err = prepare(&base_config(), &text("bare"), StoreCapability::Unavailable).unwrap_err();
    assert_eq!(err, HandlerError::InputDecode(PayloadFault::NotAnObject));
}

#[test]
fn store_failure_is_propagated_verbatim() {
    let described = "ProvisionedThroughputExceededException: slow down";
    let err = complete(StoreOutcome::Failed(described.to_string())).unwrap_err();
    assert_eq!(err, HandlerError::StoreOperation(described.to_string()));
    assert_eq!(err.code(), "STORE_OPERATION_ERROR");
    assert_eq!(err.message(), described);
}

#[test]
fn decoded_config_carries_every_field() {
    let claims = obj(vec![("sub", text("user-1"))]);
    let config = obj(vec![
        ("table_name", text("functions")),
        ("primary_key", text("id")),
        (
            "index_data",
            obj(vec![
                ("team_id", text("team_id-index")),
                ("org_id", text("org_id-index")),
            ]),
        ),
        ("token_claims", claims.clone()),
        ("extra", text("ignored")),
    ]);
    let decoded = decode_config(&config).unwrap();
    assert_eq!(decoded.table_name, "functions");
    assert_eq!(decoded.primary_key, "id");
    assert_eq!(
        decoded.index_data,
        vec![
            ("team_id".to_string(), "team_id-index".to_string()),
            ("org_id".to_string(), "org_id-index".to_string()),
        ]
    );
    assert_eq!(decoded.token_claims, claims);
}

#[test]
fn duplicate_field_uses_first_occurrence() {
    let config = obj(vec![
        ("table_name", text("first")),
        ("table_name", text("second")),
        ("primary_key", text("id")),
        ("index_data", obj(vec![])),
        ("token_claims", JsonValue::Null),
    ]);
    let decoded = decode_config(&config).unwrap();
    assert_eq!(decoded.table_name, "first");
}

#[test]
fn input_entries_pass_through_unmodified() {
    let nested = obj(vec![
        ("n", JsonValue::Number("12.5e3".to_string())),
        ("flag", JsonValue::Boolean(false)),
        ("list", JsonValue::Array(vec![JsonValue::Null, text("x")])),
    ]);
    let input = obj(vec![
        ("id", text("a6c18e06-aa03-45ea-9e9e-6d9328746951")),
        ("extra", nested.clone()),
    ]);
    let payload = decode_input(&input).unwrap();
    assert_eq!(payload.entries.len(), 2);
    assert_eq!(payload.entries[0].0, "id");
    assert_eq!(
        payload.entries[0].1,
        text("a6c18e06-aa03-45ea-9e9e-6d9328746951")
    );
    assert_eq!(payload.entries[1].0, "extra");
    assert_eq!(payload.entries[1].1, nested);
}

#[test]
fn empty_object_input_is_accepted() {
    let payload = decode_input(&obj(vec![])).unwrap();
    assert_eq!(payload.entries.len(), 0);
}

#[test]
fn deep_clone_preserves_the_whole_document() {
    let doc = obj(vec![
        ("a", JsonValue::Array(vec![text("x"), JsonValue::Number("1".to_string())])),
        ("b", obj(vec![("inner", JsonValue::Null)])),
    ]);
    assert_eq!(doc.clone(), doc);
}
