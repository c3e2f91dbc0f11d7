use user_crud::api::{ApiError, ApiSuccess, ServiceError};
use user_crud::model::{CreateUserDto, ReadUserDto, UpdateUserDto, User};
use user_crud::sql::{
    delete_user_statement, insert_user_statement, select_all_users_statement,
    select_user_by_email_statement, select_user_by_id_statement, update_user_statement, SqlValue,
    UpdateSet,
};
use user_crud::validate::{validate_create_user, validate_update_user};

#[test]
fn test_insert_statement_text_and_params() {
    let s = insert_user_statement(
        "Test User".to_string(),
        25,
        "test@example.com".to_string(),
        "hashvalue".to_string(),
    );
    assert_eq!(
        s.text,
        "INSERT INTO users(name, age, email, password) VALUES ($1, $2, $3, $4) RETURNING *"
    );
    assert_eq!(
        s.params,
        vec![
            SqlValue::Text("Test User".to_string()),
            SqlValue::Int(25),
            SqlValue::Text("test@example.com".to_string()),
            SqlValue::Text("hashvalue".to_string()),
        ]
    );
}

#[test]
fn test_select_and_delete_statement_texts() {
    let by_id = select_user_by_id_statement(3);
    assert_eq!(
        by_id.text,
        "SELECT u.id, u.name, u.age, u.email, u.password FROM users u WHERE u.id = $1"
    );
    assert_eq!(by_id.params, vec![SqlValue::Int(3)]);

    let by_email = select_user_by_email_statement("test@example.com".to_string());
    assert_eq!(
        by_email.text,
        "SELECT u.id, u.name, u.age, u.email, u.password FROM users u WHERE u.email = $1"
    );
    assert_eq!(by_email.params, vec![SqlValue::Text("test@example.com".to_string())]);

    let all = select_all_users_statement();
    assert_eq!(all.text, "SELECT u.id, u.name, u.age, u.email, u.password FROM users u");
    assert!(all.params.is_empty());

    let del = delete_user_statement(9);
    assert_eq!(del.text, "DELETE FROM users WHERE id = $1");
    assert_eq!(del.params, vec![SqlValue::Int(9)]);
}

#[test]
fn test_update_statement_empty_set_refused() {
    let r = update_user_statement(
        1,
        UpdateSet { name: None, age: None, password_hash: None },
    );
    assert!(r.is_none());
}

#[test]
fn test_update_statement_age_only() {
    let s = update_user_statement(
        7,
        UpdateSet { name: None, age: Some(30), password_hash: None },
    )
    .unwrap();
    assert_eq!(s.text, "UPDATE users SET age = $1 WHERE id = $2 RETURNING *");
    assert_eq!(s.params, vec![SqlValue::Int(30), SqlValue::Int(7)]);
}

#[test]
fn test_update_statement_full_set_fixed_order() {
    let s = update_user_statement(
        4,
        UpdateSet {
            name: Some("Updated User".to_string()),
            age: Some(31),
            password_hash: Some("hashvalue".to_string()),
        },
    )
    .unwrap();
    assert_eq!(
        s.text,
        "UPDATE users SET name = $1, age = $2, password = $3 WHERE id = $4 RETURNING *"
    );
    assert_eq!(
        s.params,
        vec![
            SqlValue::Text("Updated User".to_string()),
            SqlValue::Int(31),
            SqlValue::Text("hashvalue".to_string()),
            SqlValue::Int(4),
        ]
    );
}

#[test]
fn test_update_statement_name_and_password() {
    let s = update_user_statement(
        2,
        UpdateSet {
            name: Some("Updated User".to_string()),
            age: None,
            password_hash: Some("hashvalue".to_string()),
        },
    )
    .unwrap();
    assert_eq!(
        s.text,
        "UPDATE users SET name = $1, password = $2 WHERE id = $3 RETURNING *"
    );
    assert_eq!(
        s.params,
        vec![
            SqlValue::Text("Updated User".to_string()),
            SqlValue::Text("hashvalue".to_string()),
            SqlValue::Int(2),
        ]
    );
}

#[test]
fn test_api_success_wraps_payload_verbatim() {
    let single = ApiSuccess::new(ReadUserDto {
        id: 1,
        name: "Test User".to_string(),
        age: 25,
        email: "test@example.com".to_string(),
    });
    assert_eq!(single.data.id, 1);
    assert_eq!(single.data.name, "Test User");

    let flag = ApiSuccess::new(true);
    assert_eq!(flag.data, true);

    let many = ApiSuccess::new(vec![1_i32, 2, 3]);
    assert_eq!(many.data, vec![1, 2, 3]);
}

#[test]
fn test_api_error_new() {
    let e = ApiError::new(Some("User not found".to_string()), 404);
    assert_eq!(e.status, 404);
    assert_eq!(e.message, "User not found");

    let bare = ApiError::new(None, 500);
    assert_eq!(bare.status, 500);
    assert_eq!(bare.message, "");
}

#[test]
fn test_api_error_status_mapping() {
    let nf = ApiError::from(ServiceError::NotFound("User not found".to_string()));
    assert_eq!(nf.status, 404);
    assert_eq!(nf.message, "User not found");

    let db = ApiError::from(ServiceError::Database("pool exhausted".to_string()));
    assert_eq!(db.status, 500);
    assert_eq!(db.message, "pool exhausted");

    let unknown = ApiError::from(ServiceError::Unknown("odd".to_string()));
    assert_eq!(unknown.status, 500);
}

#[test]
fn test_read_dto_projection_drops_password() {
    let user = User {
        id: 5,
        name: "Test User".to_string(),
        age: 25,
        email: "test@example.com".to_string(),
        password: "hashed_password".to_string(),
    };
    let dto = ReadUserDto::from(user);
    assert_eq!(dto.id, 5);
    assert_eq!(dto.name, "Test User");
    assert_eq!(dto.age, 25);
    assert_eq!(dto.email, "test@example.com");
}

#[test]
fn test_validate_create_user_accepts_valid() {
    let dto = CreateUserDto {
        name: "Test User".to_string(),
        age: 25,
        email: "test@example.com".to_string(),
        password: "password123".to_string(),
    };
    assert!(validate_create_user(&dto).is_ok());
}

#[test]
fn test_validate_create_user_rejects_short_name() {
    let dto = CreateUserDto {
        name: "abc".to_string(),
        age: 25,
        email: "test@example.com".to_string(),
        password: "password123".to_string(),
    };
    let err = validate_create_user(&dto).unwrap_err();
    assert_eq!(err.status, 400);
}

#[test]
fn test_validate_create_user_rejects_age_out_of_range() {
    let young = CreateUserDto {
        name: "Test User".to_string(),
        age: 9,
        email: "test@example.com".to_string(),
        password: "password123".to_string(),
    };
    assert_eq!(validate_create_user(&young).unwrap_err().status, 400);

    let old = CreateUserDto {
        name: "Test User".to_string(),
        age: 101,
        email: "test@example.com".to_string(),
        password: "password123".to_string(),
    };
    assert_eq!(validate_create_user(&old).unwrap_err().status, 400);
}

#[test]
fn test_validate_create_user_rejects_bad_email() {
    let dto = CreateUserDto {
        name: "Test User".to_string(),
        age: 25,
        email: "not-an-email".to_string(),
        password: "password123".to_string(),
    };
    let err = validate_create_user(&dto).unwrap_err();
    assert_eq!(err.status, 400);
}

#[test]
fn test_validate_create_user_rejects_short_password() {
    let dto = CreateUserDto {
        name: "Test User".to_string(),
        age: 25,
        email: "test@example.com".to_string(),
        password: "abc".to_string(),
    };
    let err = validate_create_user(&dto).unwrap_err();
    assert_eq!(err.status, 400);
}

#[test]
fn test_validate_update_user_empty_is_valid() {
    let dto = UpdateUserDto { name: None, age: None, password: None };
    assert!(validate_update_user(&dto).is_ok());
}

#[test]
fn test_validate_update_user_checks_present_fields() {
    let good = UpdateUserDto {
        name: Some("Updated User".to_string()),
        age: Some(30),
        password: Some("newpassword123".to_string()),
    };
    assert!(validate_update_user(&good).is_ok());

    let bad_name = UpdateUserDto { name: Some("abc".to_string()), age: None, password: None };
    assert_eq!(validate_update_user(&bad_name).unwrap_err().status, 400);

    let bad_age = UpdateUserDto { name: None, age: Some(9), password: None };
    assert_eq!(validate_update_user(&bad_age).unwrap_err().status, 400);
}

#[test]
fn test_u32_decimal_rendering() {
    assert_eq!(user_crud::api::u32_to_decimal(0), "0");
    assert_eq!(user_crud::api::u32_to_decimal(7), "7");
    assert_eq!(user_crud::api::u32_to_decimal(10), "10");
    assert_eq!(user_crud::api::u32_to_decimal(304), "304");
    assert_eq!(user_crud::api::u32_to_decimal(4294967295), "4294967295");
}

#[test]
fn test_not_found_text_names_identity() {
    assert_eq!(user_crud::api::not_found_text(999), "User not found with id: 999");
}
