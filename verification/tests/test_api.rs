use gymapp::api::{form_request, generate_key, home, validate_key, AppData, StatusCode};
use gymapp::env_vars::EnvVars;
use gymapp::errors::E;
use gymapp::form::form;
use gymapp::models::{Ad, Store};
use uuid::Uuid;

fn app_data_factory() -> AppData {
    AppData {
        db: Store::new(),
        env: EnvVars {
            host: String::from("127.0.0.1"),
            port: 8080,
            log_level: String::from("info"),
            database_url: String::from("postgres://localhost/gymapp"),
            username: String::from("admin"),
            password: String::from("admin"),
        },
    }
}

fn segment_of(path: &str) -> &str {
    match path.rfind('/') {
        Some(at) => &path[at + 1..],
        None => path,
    }
}

#[test]
fn test_generate_key_success() {
    // given
    let mut data = app_data_factory();

    // when
    let response = generate_key::handler(
        &mut data,
        generate_key::Input {
            username: String::from("admin"),
            password: String::from("admin"),
        },
    );

    // then
    let key = match response {
        Ok(generate_key::Output { key: Some(key) }) => key,
        other => panic!("no key in {:?}", other),
    };
    assert_eq!(data.db.len(), 1);
    assert_eq!(data.db.get_by_key(key), Some(Ad { id: 1, key }));
}

#[test]
fn test_generate_key_failure() {
    // given
    let mut data = app_data_factory();

    // when
    let response = generate_key::handler(
        &mut data,
        generate_key::Input {
            username: String::from("wrong"),
            password: String::from("credentials"),
        },
    );

    // then
    assert_eq!(response, Ok(generate_key::Output { key: None }));
    assert_eq!(data.db.len(), 0);
}

#[test]
fn test_home() {
    // when
    let page = home::handler();

    // then
    assert_eq!(page.endpoint, "/form-request");
    assert_eq!(home::PATH, "/");
    assert_eq!(home::Home { endpoint: "/form-request" }.endpoint, page.endpoint);
}

#[test]
fn test_form_request_success() {
    // given
    let mut data = app_data_factory();
    let body = form(&vec![("username", "admin"), ("password", "admin")]);
    assert_eq!(body, "username=admin&password=admin");

    // when
    let page = form_request::handler(
        &mut data,
        form_request::Input {
            username: String::from("admin"),
            password: String::from("admin"),
        },
    );

    // then
    let shown = match page.key_success() {
        Some(form_request::KeySuccess { key }) => String::from(key),
        None => panic!("no key on the page"),
    };
    assert!(page.key_failure().is_none());
    let key = Uuid::parse_str(&shown).unwrap().as_u128();
    assert_eq!(data.db.len(), 1);
    assert_eq!(data.db.get_by_key(key), Some(Ad { id: 1, key }));
    assert_eq!(shown, Uuid::from_u128(key).to_string());
}

#[test]
fn test_form_request_failure() {
    // given
    let mut data = app_data_factory();
    let body = form(&vec![("username", "wrong"), ("password", "credentials")]);
    assert_eq!(body, "username=wrong&password=credentials");

    // when
    let page = form_request::handler(
        &mut data,
        form_request::Input {
            username: String::from("wrong"),
            password: String::from("credentials"),
        },
    );

    // then
    assert!(page.key_success().is_none());
    match page.key_failure() {
        Some(form_request::KeyFailure { message }) => assert_eq!(message, "invalid credentials"),
        None => panic!("no failure page"),
    }
    assert_eq!(data.db.len(), 0);
}

#[test]
fn test_validate_key_success() {
    // given
    let mut data = app_data_factory();
    let key = Uuid::new_v4().as_u128();
    assert!(data.db.insert(key).is_ok());

    // when
    let path = validate_key::Path { key }.to_string();
    let response = validate_key::handler_for_segment(segment_of(&path), &mut data);

    // then
    assert_eq!(response, Ok(validate_key::Output { is_valid: true }));
    assert_eq!(data.db.len(), 0);
}

#[test]
fn test_validate_key_failure() {
    // given
    let mut data = app_data_factory();
    let key = Uuid::new_v4().as_u128();

    // when
    let path = validate_key::Path { key }.to_string();
    let response = validate_key::handler_for_segment(segment_of(&path), &mut data);

    // then
    assert_eq!(response, Ok(validate_key::Output { is_valid: false }));
    assert_eq!(data.db.len(), 0);
}

#[test]
fn issue_then_redeem_twice() {
    let mut data = app_data_factory();
    let issued = generate_key::handler(
        &mut data,
        generate_key::Input {
            username: String::from("admin"),
            password: String::from("admin"),
        },
    );
    let key = issued.unwrap().key.unwrap();
    let first = validate_key::handler(validate_key::Path { key }, &mut data);
    assert_eq!(first, Ok(validate_key::Output { is_valid: true }));
    let second = validate_key::handler(validate_key::Path { key }, &mut data);
    assert_eq!(second, Ok(validate_key::Output { is_valid: false }));
}

#[test]
fn key_from_the_page_redeems_through_the_path() {
    let mut data = app_data_factory();
    let page = form_request::handler(
        &mut data,
        form_request::Input {
            username: String::from("admin"),
            password: String::from("admin"),
        },
    );
    let shown = String::from(page.key_success().unwrap().key);
    assert_eq!(shown.len(), 36);
    let first = validate_key::handler_for_segment(&shown, &mut data);
    assert_eq!(first, Ok(validate_key::Output { is_valid: true }));
    let second = validate_key::handler_for_segment(&shown, &mut data);
    assert_eq!(second, Ok(validate_key::Output { is_valid: false }));
}

#[test]
fn malformed_key_is_not_valid_and_changes_nothing() {
    let mut data = app_data_factory();
    assert!(data.db.insert(11).is_ok());
    for text in ["", "not-a-key", "1234", "a1a2a3a4-b1b2-c1c2-d1d2-d3d4d5d6d7dZ"] {
        let response = validate_key::handler_for_segment(text, &mut data);
        assert_eq!(response, Ok(validate_key::Output { is_valid: false }));
    }
    assert_eq!(data.db.len(), 1);
    assert_eq!(data.db.get_by_key(11), Some(Ad { id: 1, key: 11 }));
}

#[test]
fn path_text_is_prefix_and_hyphenated_key() {
    let key: u128 = 0xa1a2a3a4b1b2c1c2d1d2d3d4d5d6d7d8;
    let path = validate_key::Path { key }.to_string();
    assert_eq!(path, "/validate-key/a1a2a3a4-b1b2-c1c2-d1d2-d3d4d5d6d7d8");
    assert_eq!(validate_key::PREFIX, "/validate-key/");
    let small = validate_key::Path { key: 0x1f }.to_string();
    assert_eq!(small, "/validate-key/00000000-0000-0000-0000-00000000001f");
}

#[test]
fn segment_is_read_as_a_key() {
    let read = validate_key::Path::from_segment("a1a2a3a4-b1b2-c1c2-d1d2-d3d4d5d6d7d8");
    assert_eq!(
        read,
        Some(validate_key::Path {
            key: 0xa1a2a3a4b1b2c1c2d1d2d3d4d5d6d7d8
        })
    );
    let upper = validate_key::Path::from_segment("A1A2A3A4-B1B2-C1C2-D1D2-D3D4D5D6D7D8");
    assert_eq!(upper, read);
    assert_eq!(validate_key::Path::from_segment("/validate-key/"), None);
    assert_eq!(validate_key::Path::from_segment("a1a2a3a4"), None);
}

#[test]
fn path_round_trips_through_its_text() {
    for key in [0u128, 1, 0xffff_ffff_ffff_ffff_ffff_ffff_ffff_ffff, 0x0123_4567_89ab_cdef_0123_4567_89ab_cdef] {
        let path = validate_key::Path { key }.to_string();
        assert_eq!(
            validate_key::Path::from_segment(segment_of(&path)),
            Some(validate_key::Path { key })
        );
    }
}

#[test]
fn responses_map_a_failed_table_to_an_internal_error() {
    assert_eq!(
        generate_key::respond(Err(E::StoreUnavailable)),
        Err(StatusCode::InternalServerError)
    );
    assert_eq!(
        generate_key::respond(Ok(Some(3))),
        Ok(generate_key::Output { key: Some(3) })
    );
    assert_eq!(generate_key::respond(Ok(None)), Ok(generate_key::Output { key: None }));
    assert_eq!(
        validate_key::respond(Err(E::StoreUnavailable)),
        Err(StatusCode::InternalServerError)
    );
    assert_eq!(
        validate_key::respond(Ok(true)),
        Ok(validate_key::Output { is_valid: true })
    );
    assert_eq!(StatusCode::InternalServerError.as_u16(), 500);
}

#[test]
fn page_for_each_result() {
    let key: u128 = 0x550e8400e29b41d4a716446655440000;
    let success = form_request::page(Ok(Some(key)));
    assert_eq!(
        success.key_success().unwrap().key,
        "550e8400-e29b-41d4-a716-446655440000"
    );
    let denied = form_request::page(Ok(None));
    assert_eq!(denied.key_failure().unwrap().message, "invalid credentials");
    let failed = form_request::page(Err(E::StoreUnavailable));
    assert_eq!(failed.key_failure().unwrap().message, "server error");
    assert_eq!(form_request::PATH, "/form-request");
    assert_eq!(generate_key::PATH, "/generate-key");
}

#[test]
fn fixed_paths_as_text() {
    assert_eq!(home::Path {}.to_string(), "/");
    assert_eq!(form_request::Path {}.to_string(), "/form-request");
    assert_eq!(generate_key::Path {}.to_string(), "/generate-key");
}
