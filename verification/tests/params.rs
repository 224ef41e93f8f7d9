use proxy_gates::job::{AuthorizeParams, FromParams, SubmitParams, SubscribeParams};
use proxy_gates::json::Json;
use proxy_gates::params::{
    extract_params_array, get_param_as_string, opt_param_as_string, parse_params_array, ParseError,
};
use proxy_gates::validation::{
    check_id, check_method, check_obj_on_base_fields, check_params, submit_validation,
    validation_authorize, validation_subscribe, ValidationError,
};

fn text(s: &str) -> Json {
    Json::Text(s.to_string())
}

fn request(method: &str, params: Json) -> Json {
    Json::Object(vec![
        ("id".to_string(), Json::Number("1".to_string())),
        ("method".to_string(), text(method)),
        ("params".to_string(), params),
    ])
}

fn texts(n: usize) -> Json {
    Json::Array((0..n).map(|i| Json::Text(format!("v{}", i))).collect())
}

#[test]
fn required_param_is_coerced() {
    let params = vec![text("a"), Json::Number("3.5".to_string()), Json::Bool(false), Json::Bool(true)];
    assert_eq!(get_param_as_string(&params, 0).unwrap(), "a");
    assert_eq!(get_param_as_string(&params, 1).unwrap(), "3.5");
    assert_eq!(get_param_as_string(&params, 2).unwrap(), "false");
    assert_eq!(get_param_as_string(&params, 3).unwrap(), "true");
}

#[test]
fn required_param_missing() {
    let params = vec![text("a")];
    assert!(matches!(get_param_as_string(&params, 1), Err(ParseError::MissingParam(1))));
    assert!(matches!(get_param_as_string(&[], 0), Err(ParseError::MissingParam(0))));
}

#[test]
fn required_param_of_wrong_kind() {
    let params = vec![Json::Null, Json::Array(vec![]), Json::Object(vec![])];
    assert!(matches!(get_param_as_string(&params, 0), Err(ParseError::InvalidType(0))));
    assert!(matches!(get_param_as_string(&params, 1), Err(ParseError::InvalidType(1))));
    assert!(matches!(get_param_as_string(&params, 2), Err(ParseError::InvalidType(2))));
}

#[test]
fn optional_param_absent_or_null_is_none() {
    let params = vec![text("a"), Json::Null];
    assert_eq!(opt_param_as_string(&params, 0).unwrap(), Some("a".to_string()));
    assert_eq!(opt_param_as_string(&params, 1).unwrap(), None);
    assert_eq!(opt_param_as_string(&params, 2).unwrap(), None);
}

#[test]
fn optional_param_of_wrong_kind() {
    let params = vec![text("a"), Json::Array(vec![])];
    assert!(matches!(opt_param_as_string(&params, 1), Err(ParseError::InvalidType(1))));
}

#[test]
fn params_array_is_found() {
    let doc = request("m", texts(2));
    assert_eq!(parse_params_array(&doc).unwrap().len(), 2);
    assert_eq!(extract_params_array(&doc).unwrap().len(), 2);
}

#[test]
fn params_array_missing_or_of_wrong_kind() {
    let doc = request("m", text("x"));
    assert!(matches!(parse_params_array(&doc), Err(ParseError::NoParamsArray)));
    assert!(matches!(parse_params_array(&Json::Null), Err(ParseError::NoParamsArray)));
    assert_eq!(extract_params_array(&doc).unwrap_err(), "Missing or invalid 'params' field");
}

#[test]
fn from_value_without_params_is_other() {
    let doc = Json::Object(vec![("id".to_string(), Json::Null)]);
    match SubmitParams::from_value(&doc) {
        Err(ParseError::Other(msg)) => assert_eq!(msg, "Missing or invalid 'params' field"),
        other => panic!("expected Other, got {:?}", other),
    }
    assert!(matches!(AuthorizeParams::form_value(&doc), Err(ParseError::Other(_))));
    assert!(matches!(SubscribeParams::from_value(&doc), Err(ParseError::Other(_))));
}

#[test]
fn from_value_reads_the_params() {
    let doc = request("mining.authorize", Json::Array(vec![text("u")]));
    let p = AuthorizeParams::form_value(&doc).unwrap();
    assert_eq!(p.username(), "u");
    let doc = request("mining.subscribe", Json::Array(vec![text("agent"), text("en1")]));
    let p = SubscribeParams::from_value(&doc).unwrap();
    assert_eq!(p.agent_version(), "agent");
    assert_eq!(p.extranonce1(), &Some("en1".to_string()));
    let doc = request("mining.submit", texts(5));
    let p = SubmitParams::from_value(&doc).unwrap();
    assert_eq!(p.workername, "v0");
    assert_eq!(p.nonce, "v4");
}

#[test]
fn submit_first_failing_param_decides() {
    let params = vec![text("a"), Json::Null, text("c")];
    assert!(matches!(SubmitParams::from_params(&params), Err(ParseError::InvalidType(1))));
    let params = vec![text("a"), text("b"), text("c")];
    assert!(matches!(SubmitParams::from_params(&params), Err(ParseError::MissingParam(3))));
}

#[test]
fn subscribe_from_empty_params_defaults_agent() {
    let p = SubscribeParams::from_params(&[]).unwrap();
    assert_eq!(p.agent_version(), "Unknown");
    assert_eq!(p.extranonce1(), &None);
}

#[test]
fn base_fields_are_checked_one_by_one() {
    let full = request("m", texts(1));
    assert!(check_id(&full) && check_method(&full) && check_params(&full));
    assert!(check_obj_on_base_fields(&full));
    let no_id = Json::Object(vec![
        ("method".to_string(), text("m")),
        ("params".to_string(), texts(1)),
    ]);
    assert!(!check_id(&no_id));
    assert!(check_method(&no_id));
    assert!(!check_obj_on_base_fields(&no_id));
    assert!(!check_obj_on_base_fields(&Json::Array(vec![])));
}

#[test]
fn validation_accepts_the_bounds() {
    assert!(validation_authorize(&request("mining.authorize", texts(1))).is_ok());
    assert!(validation_authorize(&request("mining.authorize", texts(2))).is_ok());
    assert!(validation_subscribe(&request("mining.subscribe", texts(1))).is_ok());
    assert!(validation_subscribe(&request("mining.subscribe", texts(2))).is_ok());
    assert!(submit_validation(&request("mining.submit", texts(5))).is_ok());
    assert!(submit_validation(&request("mining.submit", texts(6))).is_ok());
}

#[test]
fn validation_names_missing_base_fields() {
    let doc = Json::Object(vec![("id".to_string(), Json::Null)]);
    match validation_authorize(&doc) {
        Err(ValidationError::NotFoundBaseFields(m)) => assert_eq!(m, "mining.authorize"),
        other => panic!("unexpected {:?}", other),
    }
    match submit_validation(&doc) {
        Err(ValidationError::NotFoundBaseFields(m)) => assert_eq!(m, "mining.submit"),
        other => panic!("unexpected {:?}", other),
    }
}

#[test]
fn validation_names_params_that_are_no_array() {
    match validation_subscribe(&request("mining.subscribe", text("x"))) {
        Err(ValidationError::ParamsIsNotArray(m)) => assert_eq!(m, "mining.subscribe"),
        other => panic!("unexpected {:?}", other),
    }
}

#[test]
fn validation_names_empty_params() {
    match submit_validation(&request("mining.submit", texts(0))) {
        Err(ValidationError::ParamsIsEmpty(m)) => assert_eq!(m, "mining.submit"),
        other => panic!("unexpected {:?}", other),
    }
}

#[test]
fn validation_reports_the_count() {
    match validation_authorize(&request("mining.authorize", texts(3))) {
        Err(ValidationError::IncorrectNumberOfParameters(n)) => assert_eq!(n, "3"),
        other => panic!("unexpected {:?}", other),
    }
    match submit_validation(&request("mining.submit", texts(4))) {
        Err(ValidationError::IncorrectNumberOfParameters(n)) => assert_eq!(n, "4"),
        other => panic!("unexpected {:?}", other),
    }
    match submit_validation(&request("mining.submit", texts(7))) {
        Err(ValidationError::IncorrectNumberOfParameters(n)) => assert_eq!(n, "7"),
        other => panic!("unexpected {:?}", other),
    }
}

#[test]
fn trait_from_value_names_the_missing_array() {
    let doc = Json::Object(vec![("id".to_string(), Json::Null)]);
    assert!(matches!(
        <AuthorizeParams as FromParams>::from_value(&doc),
        Err(ParseError::NoParamsArray)
    ));
    let doc = request("mining.authorize", Json::Array(vec![text("u"), text("p")]));
    let p = <AuthorizeParams as FromParams>::from_value(&doc).unwrap();
    assert_eq!(p.username(), "u");
    assert_eq!(p.password(), &Some("p".to_string()));
    let doc = request("mining.submit", texts(2));
    assert!(matches!(
        <SubmitParams as FromParams>::from_value(&doc),
        Err(ParseError::MissingParam(2))
    ));
}

#[test]
fn parse_errors_in_words() {
    assert_eq!(ParseError::NoParamsArray.message(), "expected object with `params` array");
    assert_eq!(ParseError::MissingParam(3).message(), "missing param at index 3");
    assert_eq!(
        ParseError::InvalidType(12).message(),
        "invalid type for param 12: expected string-like"
    );
    assert_eq!(ParseError::Other("boom".to_string()).message(), "other: boom");
}

#[test]
fn validation_errors_in_words() {
    assert_eq!(
        ValidationError::NotFoundBaseFields("mining.submit".to_string()).message(),
        "Base fields not found: mining.submit"
    );
    assert_eq!(
        ValidationError::ParamsIsNotArray("mining.submit".to_string()).message(),
        "Params in mining.submit is not array"
    );
    assert_eq!(
        ValidationError::ParamsIsEmpty("mining.authorize".to_string()).message(),
        "Array with params is empty: mining.authorize"
    );
    assert_eq!(
        ValidationError::IncorrectNumberOfParameters("7".to_string()).message(),
        "Incorrect number of parameters: 7"
    );
}
