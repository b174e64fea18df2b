use mlflow_client::data::Param;
use mlflow_client::utils::{build_params, none_if_not_exist, JsonValue};
use mlflow_client::ClientError;

fn s(x: &str) -> String {
    x.to_string()
}

fn pairs(ps: &[Param]) -> Vec<(String, String)> {
    ps.iter().map(|p| (p.key.clone(), p.value.clone())).collect()
}

#[test]
fn flattens_nested_objects() {
    let v = JsonValue::Object(vec![
        (s("param_a"), JsonValue::Number(s("1.0"))),
        (
            s("inner"),
            JsonValue::Object(vec![
                (s("flag"), JsonValue::Bool(true)),
                (s("name"), JsonValue::String(s("adam"))),
                (s("none"), JsonValue::Null),
            ]),
        ),
    ]);
    let mut ps = Vec::new();
    build_params("", &v, &mut ps).unwrap();
    assert_eq!(
        pairs(&ps),
        vec![
            (s("param_a"), s("1.0")),
            (s("inner.flag"), s("true")),
            (s("inner.name"), s("adam")),
        ]
    );
}

#[test]
fn prefix_key_is_dotted() {
    let v = JsonValue::Object(vec![(s("b"), JsonValue::Bool(false))]);
    let mut ps = Vec::new();
    build_params("prefix", &v, &mut ps).unwrap();
    assert_eq!(pairs(&ps), vec![(s("prefix.b"), s("false"))]);
}

#[test]
fn scalar_at_top_uses_key() {
    let mut ps = vec![Param { key: s("k0"), value: s("v0") }];
    build_params("lr", &JsonValue::Number(s("0.01")), &mut ps).unwrap();
    assert_eq!(pairs(&ps), vec![(s("k0"), s("v0")), (s("lr"), s("0.01"))]);
}

#[test]
fn arrays_are_refused() {
    let v = JsonValue::Object(vec![
        (s("a"), JsonValue::Number(s("1"))),
        (s("list"), JsonValue::Array(vec![JsonValue::Null])),
    ]);
    let mut ps = Vec::new();
    match build_params("", &v, &mut ps) {
        Err(ClientError::Message(m)) => assert_eq!(m, "Array not supported"),
        other => panic!("unexpected {:?}", other),
    }
}

#[test]
fn null_gives_nothing() {
    let mut ps = Vec::new();
    build_params("x", &JsonValue::Null, &mut ps).unwrap();
    assert!(ps.is_empty());
}

fn not_found() -> ClientError {
    ClientError::ApiError { error_code: s("RESOURCE_DOES_NOT_EXIST"), message: s("gone") }
}

#[test]
fn none_if_not_exist_maps_success() {
    let r = none_if_not_exist(Ok::<i32, ClientError>(20), |x| Ok(x + 1));
    assert_eq!(r.unwrap(), Some(21));
}

#[test]
fn none_if_not_exist_maps_not_found_to_none() {
    let r = none_if_not_exist(Err::<i32, ClientError>(not_found()), |x| Ok(x + 1));
    assert_eq!(r.unwrap(), None);
}

#[test]
fn none_if_not_exist_passes_other_errors() {
    let e = ClientError::ApiError { error_code: s("INVALID_PARAMETER_VALUE"), message: s("bad") };
    let r = none_if_not_exist(Err::<i32, ClientError>(e), |x| Ok(x + 1));
    assert!(matches!(r, Err(ClientError::ApiError { .. })));
    let r: Result<Option<i32>, ClientError> =
        none_if_not_exist(Ok::<i32, ClientError>(1), |_| Err(ClientError::TaskJoinError));
    assert!(matches!(r, Err(ClientError::TaskJoinError)));
}
