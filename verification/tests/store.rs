use acme_server::email::emails::UpdatedField;
use acme_server::store::{push_decimal, update_statement, Bind, Query, StoreError};
use acme_server::user::constants::UserMessage;
use acme_server::user::dto::{CreateUserDto, DeleteUserDto, ResetPasswordDto, UpdateUserDto};
use acme_server::user::service::UserService;
use acme_server::words::constants::WordsMessage;
use acme_server::words::dto::{WordsCreateDto, WordsDeleteDto, WordsUpdateDto};
use acme_server::words::service::WordsService;

fn text(value: &str) -> Bind {
    Bind::Text(value.to_string())
}

fn patch(user_id: u128) -> UpdateUserDto {
    UpdateUserDto {
        user_id,
        username: None,
        password: None,
        email: None,
        first_name: None,
        last_name: None,
    }
}

#[test]
fn decimal_is_appended_without_leading_zeros() {
    let mut out = String::from("$");
    push_decimal(&mut out, 0);
    assert_eq!(out, "$0");
    let mut out = String::from("$");
    push_decimal(&mut out, 7);
    assert_eq!(out, "$7");
    let mut out = String::from("$");
    push_decimal(&mut out, 10);
    assert_eq!(out, "$10");
    let mut out = String::new();
    push_decimal(&mut out, 1203);
    assert_eq!(out, "1203");
    let mut out = String::new();
    push_decimal(&mut out, u128::MAX);
    assert_eq!(out, "340282366920938463463374607431768211455");
}

#[test]
fn update_statement_writes_present_fields_in_order() {
    let fields = vec![
        ("a", Some("1".to_string())),
        ("b", None),
        ("c", Some("3".to_string())),
    ];
    let (query, changed) = update_statement("UPDATE t SET ", fields, Bind::Uuid(9)).unwrap();
    assert_eq!(query.sql, "UPDATE t SET a = $1, c = $2 WHERE id = $3 RETURNING *");
    assert_eq!(query.binds, vec![text("1"), text("3"), Bind::Uuid(9)]);
    assert_eq!(
        changed,
        vec![
            UpdatedField { label: "a", value: "1".to_string() },
            UpdatedField { label: "c", value: "3".to_string() },
        ]
    );
}

#[test]
fn update_statement_numbers_placeholders_past_nine() {
    let mut fields = Vec::new();
    for _ in 0..10 {
        fields.push(("x", Some("v".to_string())));
    }
    let (query, changed) = update_statement("UPDATE t SET ", fields, Bind::Uuid(1)).unwrap();
    assert!(query.sql.ends_with("x = $9, x = $10 WHERE id = $11 RETURNING *"));
    assert_eq!(query.binds.len(), 11);
    assert_eq!(changed.len(), 10);
}

#[test]
fn update_statement_with_nothing_to_write_is_none() {
    assert_eq!(update_statement("UPDATE t SET ", Vec::new(), Bind::Uuid(1)), None);
    assert_eq!(update_statement("UPDATE t SET ", vec![("a", None), ("b", None)], Bind::Uuid(1)), None);
}

#[test]
fn user_update_with_zero_fields_is_nothing_to_update() {
    assert_eq!(UserService::update_plan(patch(1), None), Err(UserMessage::NothingToUpdate));
    assert_eq!(UserService::update_query(patch(1)), Err(UserMessage::NothingToUpdate));
}

#[test]
fn user_update_plan_covers_only_supplied_fields() {
    let mut dto = patch(42);
    dto.first_name = Some("Janet".to_string());
    let (query, changed) = UserService::update_plan(dto, None).unwrap();
    assert_eq!(query.sql, "UPDATE users SET first_name = $1 WHERE id = $2 RETURNING *");
    assert_eq!(query.binds, vec![text("Janet"), Bind::Uuid(42)]);
    assert_eq!(changed, vec![UpdatedField { label: "first_name", value: "Janet".to_string() }]);
}

#[test]
fn user_update_plan_with_every_field() {
    let dto = UpdateUserDto {
        user_id: 7,
        username: Some("jane".to_string()),
        password: Some("password1".to_string()),
        email: Some("jane@x.com".to_string()),
        first_name: Some("Jane".to_string()),
        last_name: Some("Smith".to_string()),
    };
    let (query, changed) = UserService::update_plan(dto, Some("HASH".to_string())).unwrap();
    assert_eq!(
        query.sql,
        "UPDATE users SET username = $1, email = $2, first_name = $3, last_name = $4, password_hash = $5 WHERE id = $6 RETURNING *"
    );
    assert_eq!(
        query.binds,
        vec![text("jane"), text("jane@x.com"), text("Jane"), text("Smith"), text("HASH"), Bind::Uuid(7)]
    );
    let labels: Vec<&str> = changed.iter().map(|f| f.label).collect();
    assert_eq!(labels, vec!["username", "email", "first_name", "last_name", "password_hash"]);
}

#[test]
fn user_update_query_stores_a_hash_of_the_new_password() {
    let mut dto = patch(7);
    dto.password = Some("password1".to_string());
    let (query, changed) = UserService::update_query(dto).unwrap();
    assert_eq!(query.sql, "UPDATE users SET password_hash = $1 WHERE id = $2 RETURNING *");
    assert_eq!(changed.len(), 1);
    assert_eq!(changed[0].label, "password_hash");
    assert_ne!(changed[0].value, "password1");
    assert_eq!(bcrypt::verify("password1", &changed[0].value).ok(), Some(true));
    assert_eq!(query.binds, vec![Bind::Text(changed[0].value.clone()), Bind::Uuid(7)]);
}

#[test]
fn user_statements_bind_what_the_body_holds() {
    let create = CreateUserDto {
        username: "jane".to_string(),
        password: "password1".to_string(),
        email: "jane@x.com".to_string(),
        first_name: "Jane".to_string(),
        last_name: "Smith".to_string(),
    };
    let query = UserService::insert_statement(&create, "HASH".to_string());
    assert_eq!(
        query,
        Query {
            sql: "INSERT INTO users (username, email, first_name, last_name, password_hash) VALUES ($1, $2, $3, $4, $5) RETURNING *".to_string(),
            binds: vec![text("jane"), text("jane@x.com"), text("Jane"), text("Smith"), text("HASH")],
        }
    );
    let hashed = UserService::create_query(&create).unwrap();
    assert_eq!(hashed.sql, query.sql);
    assert_eq!(&hashed.binds[..4], &query.binds[..4]);
    match &hashed.binds[4] {
        Bind::Text(hash) => assert_eq!(bcrypt::verify("password1", hash).ok(), Some(true)),
        other => panic!("the hash is bound as {:?}", other),
    }

    let delete = UserService::delete_query(&DeleteUserDto { user_id: 5 });
    assert_eq!(delete.sql, "DELETE FROM users WHERE id = $1::uuid");
    assert_eq!(delete.binds, vec![Bind::Uuid(5)]);

    let me = UserService::me_query("abc".to_string());
    assert_eq!(me.sql, "SELECT * FROM users WHERE users.id = $1::uuid");
    assert_eq!(me.binds, vec![text("abc")]);

    let get = UserService::get_query(&ResetPasswordDto { user_id: "abc".to_string() });
    assert!(get.sql.starts_with("SELECT * FROM users u WHERE u.id = $1::uuid AND NOT EXISTS"));
    assert!(get.sql.contains("oc.expires_at > NOW() AND oc.is_active = true"));
    assert_eq!(get.binds, vec![text("abc")]);
}

#[test]
fn user_delete_outcomes() {
    assert_eq!(UserService::delete(Ok(1)), Ok(()));
    assert_eq!(UserService::delete(Ok(0)), Err(UserMessage::UserNotFound));
    assert_eq!(UserService::delete(Err(StoreError::Failed)), Err(UserMessage::UserDeleteFailed));
}

#[test]
fn word_statements_bind_what_the_body_holds() {
    let create = WordsCreateDto {
        category: "greetings".to_string(),
        literal: "hello".to_string(),
        user_id: 3,
        language: "es".to_string(),
        translated: "hola".to_string(),
    };
    let query = WordsService::create_query(&create);
    assert_eq!(
        query.sql,
        "INSERT INTO words (category, literal, user_id, language, translated) VALUES ($1, $2, $3, $4, $5) RETURNING *"
    );
    assert_eq!(
        query.binds,
        vec![text("greetings"), text("hello"), Bind::Uuid(3), text("es"), text("hola")]
    );

    let delete = WordsService::delete_query(&WordsDeleteDto { user_id: 8, id: 9 });
    assert_eq!(delete.sql, "DELETE FROM words WHERE id = $1::uuid AND user_id = $2::uuid");
    assert_eq!(delete.binds, vec![Bind::Uuid(9), Bind::Uuid(8)]);

    let all = WordsService::get_all_query();
    assert_eq!(all.sql, "SELECT * FROM words");
    assert!(all.binds.is_empty());
}

#[test]
fn word_update_writes_the_category_only() {
    let dto = WordsUpdateDto {
        category: Some("verbs".to_string()),
        literal: Some("run".to_string()),
        word_id: Some(11),
        language: Some("de".to_string()),
        translated: Some("laufen".to_string()),
    };
    let (query, changed) = WordsService::update_query(dto).unwrap();
    assert_eq!(query.sql, "UPDATE words SET category = $1 WHERE id = $2 RETURNING *");
    assert_eq!(query.binds, vec![text("verbs"), Bind::OptionalUuid(Some(11))]);
    assert_eq!(changed, vec![UpdatedField { label: "category", value: "verbs".to_string() }]);

    let nothing = WordsUpdateDto {
        category: None,
        literal: Some("run".to_string()),
        word_id: Some(11),
        language: None,
        translated: None,
    };
    assert_eq!(WordsService::update_query(nothing), Err(WordsMessage::NothingToUpdate));
}
