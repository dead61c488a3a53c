use zero2prod::{
    decode_form, health_check, insert_outcome_response, intake, is_form_content_type,
    new_subscriber, read_form, rejection_response, route, subscribe, unrouted_response, Field,
    FormData, FormError, Intake, Method, Route, StoreError, SubscriberTable,
};

const FORM: &str = "application/x-www-form-urlencoded";

fn pairs(items: &[(&str, &str)]) -> Vec<(String, String)> {
    items.iter().map(|(k, v)| (k.to_string(), v.to_string())).collect()
}

#[test]
fn valid_submission_inserts_one_row_with_decoded_values() {
    let mut store = SubscriberTable::new();
    let body = "name=le%20guin&email=usrula_le_guin%40gmail.com";
    let response = subscribe(&mut store, FORM, body.as_bytes());
    assert_eq!(200, response.status);
    assert_eq!(0, response.content_length());
    assert_eq!(1, store.len());
    let row = store.record(0);
    assert_eq!("le guin", row.name);
    assert_eq!("usrula_le_guin@gmail.com", row.email);
}

#[test]
fn plus_decodes_to_space() {
    let form = read_form(FORM, b"name=le+guin&email=a%2Bb%40c.d").ok().unwrap();
    assert_eq!("le guin", form.name);
    assert_eq!("a+b@c.d", form.email);
}

#[test]
fn missing_email_is_a_client_error_and_stores_nothing() {
    let mut store = SubscriberTable::new();
    let response = subscribe(&mut store, FORM, b"name=le%20guin");
    assert_eq!(400, response.status);
    assert_eq!(0, store.len());
}

#[test]
fn missing_name_is_a_client_error_and_stores_nothing() {
    let mut store = SubscriberTable::new();
    let response = subscribe(&mut store, FORM, b"email=ursula_le_guin%40gmail.com");
    assert_eq!(400, response.status);
    assert_eq!(0, store.len());
}

#[test]
fn empty_body_is_a_client_error_and_stores_nothing() {
    let mut store = SubscriberTable::new();
    let response = subscribe(&mut store, FORM, b"");
    assert_eq!(400, response.status);
    assert_eq!(0, store.len());
}

#[test]
fn store_failure_is_a_server_error() {
    let response = insert_outcome_response(&Err(StoreError::Backend));
    assert_eq!(500, response.status);
    assert_eq!(0, response.content_length());
    let response = insert_outcome_response(&Err(StoreError::DuplicateId));
    assert_eq!(500, response.status);
    let response = insert_outcome_response(&Ok(()));
    assert_eq!(200, response.status);
}

#[test]
fn well_formed_input_with_failing_store_writes_nothing() {
    match intake(FORM, b"name=le%20guin&email=usrula_le_guin%40gmail.com") {
        Intake::Insert(s) => {
            assert_eq!("le guin", s.name);
            let response = insert_outcome_response(&Err(StoreError::Backend));
            assert_eq!(500, response.status);
        }
        Intake::Respond(_) => panic!("a well-formed submission was refused"),
    }
}

#[test]
fn health_check_has_empty_body() {
    let response = health_check();
    assert_eq!(200, response.status);
    assert!(response.is_success());
    assert_eq!(0, response.content_length());
}

#[test]
fn identical_submissions_make_two_records() {
    let mut store = SubscriberTable::new();
    let body = b"name=le%20guin&email=usrula_le_guin%40gmail.com";
    assert_eq!(200, subscribe(&mut store, FORM, body).status);
    assert_eq!(200, subscribe(&mut store, FORM, body).status);
    assert_eq!(2, store.len());
    let (a, b) = (store.record(0), store.record(1));
    assert_eq!(a.email, b.email);
    assert_eq!(a.name, b.name);
    assert_ne!(a.id, b.id);
}

#[test]
fn generated_ids_are_random_uuids() {
    match intake(FORM, b"name=n&email=e") {
        Intake::Insert(s) => {
            assert_eq!(4, (s.id >> 76) & 0xf);
            assert_eq!(2, (s.id >> 62) & 3);
            assert!(s.subscribed_at > 1_500_000_000_000_000);
        }
        Intake::Respond(_) => panic!("a well-formed submission was refused"),
    }
}

#[test]
fn table_refuses_a_duplicate_id() {
    let mut store = SubscriberTable::new();
    let form = FormData { email: "e".to_string(), name: "n".to_string() };
    let again = FormData { email: "f".to_string(), name: "m".to_string() };
    assert_eq!(Ok(()), store.insert(new_subscriber(form, 7, 1)));
    assert_eq!(Err(StoreError::DuplicateId), store.insert(new_subscriber(again, 7, 2)));
    assert_eq!(1, store.len());
    assert!(store.contains_id(7));
    assert!(!store.contains_id(8));
}

#[test]
fn new_subscriber_keeps_id_and_time() {
    let form = FormData { email: "e@x".to_string(), name: "n".to_string() };
    let s = new_subscriber(form, 42, -5);
    assert_eq!(42, s.id);
    assert_eq!(-5, s.subscribed_at);
    assert_eq!("e@x", s.email);
    assert_eq!("n", s.name);
}

#[test]
fn decode_reports_each_problem() {
    let err = |ct: &str, p: &[(&str, &str)]| decode_form(ct, &pairs(p)).err().unwrap();
    assert_eq!(FormError::UnsupportedContentType, err("application/json", &[("name", "a"), ("email", "b")]));
    assert_eq!(FormError::Missing(Field::Email), err(FORM, &[("name", "a")]));
    assert_eq!(FormError::Missing(Field::Name), err(FORM, &[("email", "b")]));
    assert_eq!(FormError::Missing(Field::Email), err(FORM, &[]));
    assert_eq!(FormError::Duplicate(Field::Email), err(FORM, &[("email", "b"), ("name", "a"), ("email", "c")]));
    assert_eq!(FormError::Duplicate(Field::Name), err(FORM, &[("email", "b"), ("name", "a"), ("name", "c")]));
    assert_eq!(FormError::Empty(Field::Email), err(FORM, &[("email", ""), ("name", "a")]));
    assert_eq!(FormError::Empty(Field::Name), err(FORM, &[("email", "b"), ("name", "")]));
}

#[test]
fn decode_ignores_other_names() {
    let form = decode_form(FORM, &pairs(&[("x", "1"), ("email", "b"), ("name", "a"), ("Email", "z")])).ok().unwrap();
    assert_eq!("b", form.email);
    assert_eq!("a", form.name);
}

#[test]
fn content_type_ignores_ascii_case() {
    assert!(is_form_content_type("application/x-www-form-urlencoded"));
    assert!(is_form_content_type("Application/X-WWW-Form-URLEncoded"));
    assert!(!is_form_content_type("application/x-www-form-urlencode"));
    assert!(!is_form_content_type(""));
    assert!(!is_form_content_type("multipart/form-data"));
}

#[test]
fn wrong_content_type_is_rejected_before_decoding() {
    let mut store = SubscriberTable::new();
    let response = subscribe(&mut store, "text/plain", b"name=a&email=b");
    assert_eq!(400, response.status);
    assert_eq!(0, store.len());
    assert_eq!(400, rejection_response(FormError::UnsupportedContentType).status);
}

#[test]
fn route_table_dispatches_by_method_and_path() {
    assert_eq!(Route::HealthCheck, route(Method::Get, "/health_check"));
    assert_eq!(Route::MethodNotAllowed, route(Method::Post, "/health_check"));
    assert_eq!(Route::Subscribe, route(Method::Post, "/subscriptions"));
    assert_eq!(Route::MethodNotAllowed, route(Method::Get, "/subscriptions"));
    assert_eq!(Route::MethodNotAllowed, route(Method::Other, "/subscriptions"));
    assert_eq!(Route::NotFound, route(Method::Get, "/"));
    assert_eq!(Route::NotFound, route(Method::Get, "/health_check/"));
    assert_eq!(404, unrouted_response(Route::NotFound).status);
    assert_eq!(405, unrouted_response(Route::MethodNotAllowed).status);
}
