use user_crud::api::ServiceError;
use user_crud::model::{CreateUserDto, UpdateUserDto};
use user_crud::repository::{StorageError, UserRepositoryImpl, UserRepositoryTrait};
use user_crud::service::{map_storage_error, UserServiceImpl, UserServiceTrait};

#[test]
fn test_dto_creation() {
    let create_dto = CreateUserDto {
        name: "Test User".to_string(),
        age: 25,
        email: "test@example.com".to_string(),
        password: "password123".to_string(),
    };
    assert!(!create_dto.name.is_empty());
    assert!(create_dto.age > 0);
}

#[test]
fn test_create_user_dto_validation() {
    let valid_dto = CreateUserDto {
        name: "Test User".to_string(),
        age: 25,
        email: "test@example.com".to_string(),
        password: "password123".to_string(),
    };

    assert_eq!(valid_dto.name, "Test User");
    assert_eq!(valid_dto.age, 25);
    assert_eq!(valid_dto.email, "test@example.com");
}

#[test]
fn test_update_user_dto_validation() {
    let update_dto = UpdateUserDto {
        name: Some("Updated User".to_string()),
        age: Some(30),
        password: Some("newpassword123".to_string()),
    };

    assert_eq!(update_dto.name, Some("Updated User".to_string()));
    assert_eq!(update_dto.age, Some(30));
}

#[test]
fn test_create_user_success() {
    let repo = UserRepositoryImpl::new();
    let mut service = UserServiceImpl::new(repo);

    let create_dto = CreateUserDto {
        name: "Test User".to_string(),
        age: 25,
        email: "test@example.com".to_string(),
        password: "password123".to_string(),
    };

    let result = service.create(create_dto);
    assert!(result.is_ok());
    let user = result.unwrap();
    assert_eq!(user.name, "Test User");
    assert_eq!(user.age, 25);
}

#[test]
fn test_get_user_success() {
    let repo = UserRepositoryImpl::new();
    let mut service = UserServiceImpl::new(repo);
    let create_dto = CreateUserDto {
        name: "Test User".to_string(),
        age: 25,
        email: "test@example.com".to_string(),
        password: "password123".to_string(),
    };
    service.create(create_dto).unwrap();

    let result = service.get(1);
    assert!(result.is_ok());
    let user = result.unwrap();
    assert_eq!(user.id, 1);
    assert_eq!(user.name, "Test User");
}

#[test]
fn test_get_user_not_found() {
    let repo = UserRepositoryImpl::new();
    let service = UserServiceImpl::new(repo);

    let result = service.get(999);
    assert!(result.is_err());
}

#[test]
fn test_scenario_create_then_missing_get() {
    let repo = UserRepositoryImpl::new();
    let mut service = UserServiceImpl::new(repo);
    let created = service
        .create(CreateUserDto {
            name: "Test User".to_string(),
            age: 25,
            email: "test@example.com".to_string(),
            password: "password123".to_string(),
        })
        .unwrap();
    assert_eq!(created.id, 1);
    assert_eq!(created.name, "Test User");
    assert_eq!(created.age, 25);
    assert_eq!(created.email, "test@example.com");

    let err = service.get(999).unwrap_err();
    assert_eq!(err.status, 404);
    assert_eq!(err.message, "User not found with id: 999");
}

#[test]
fn test_create_then_get_round_trip() {
    let repo = UserRepositoryImpl::new();
    let mut service = UserServiceImpl::new(repo);
    let created = service
        .create(CreateUserDto {
            name: "Round Trip".to_string(),
            age: 41,
            email: "round@example.com".to_string(),
            password: "password123".to_string(),
        })
        .unwrap();

    let got = service.get(created.id as u32).unwrap();
    assert_eq!(got.id, created.id);
    assert_eq!(got.name, created.name);
    assert_eq!(got.age, created.age);
    assert_eq!(got.email, created.email);
}

#[test]
fn test_update_age_only_preserves_other_fields() {
    let repo = UserRepositoryImpl::new();
    let mut service = UserServiceImpl::new(repo);
    let created = service
        .create(CreateUserDto {
            name: "A".to_string(),
            age: 25,
            email: "a@example.com".to_string(),
            password: "password123".to_string(),
        })
        .unwrap();

    let updated = service
        .update(
            created.id as u32,
            UpdateUserDto { name: None, age: Some(30), password: None },
        )
        .unwrap();
    assert_eq!(updated.id, created.id);
    assert_eq!(updated.name, "A");
    assert_eq!(updated.age, 30);
    assert_eq!(updated.email, "a@example.com");
}

#[test]
fn test_update_empty_intent_returns_current_row() {
    let repo = UserRepositoryImpl::new();
    let mut service = UserServiceImpl::new(repo);
    service
        .create(CreateUserDto {
            name: "Test User".to_string(),
            age: 25,
            email: "test@example.com".to_string(),
            password: "password123".to_string(),
        })
        .unwrap();

    let unchanged = service
        .update(1, UpdateUserDto { name: None, age: None, password: None })
        .unwrap();
    assert_eq!(unchanged.id, 1);
    assert_eq!(unchanged.name, "Test User");
    assert_eq!(unchanged.age, 25);
    assert_eq!(unchanged.email, "test@example.com");

    let err = service
        .update(999, UpdateUserDto { name: None, age: None, password: None })
        .unwrap_err();
    assert_eq!(err.status, 404);
}

#[test]
fn test_update_missing_returns_not_found() {
    let repo = UserRepositoryImpl::new();
    let mut service = UserServiceImpl::new(repo);
    let err = service
        .update(
            42,
            UpdateUserDto {
                name: Some("Another Name".to_string()),
                age: Some(50),
                password: None,
            },
        )
        .unwrap_err();
    assert_eq!(err.status, 404);
}

#[test]
fn test_delete_then_repeat_returns_not_found() {
    let repo = UserRepositoryImpl::new();
    let mut service = UserServiceImpl::new(repo);
    service
        .create(CreateUserDto {
            name: "Test User".to_string(),
            age: 25,
            email: "test@example.com".to_string(),
            password: "password123".to_string(),
        })
        .unwrap();

    assert_eq!(service.delete(1).unwrap(), true);
    let second = service.delete(1).unwrap_err();
    assert_eq!(second.status, 404);
    let third = service.delete(1).unwrap_err();
    assert_eq!(third.status, 404);
}

#[test]
fn test_delete_missing_returns_not_found() {
    let repo = UserRepositoryImpl::new();
    let mut service = UserServiceImpl::new(repo);
    let err = service.delete(7).unwrap_err();
    assert_eq!(err.status, 404);
}

#[test]
fn test_get_all_returns_projections_in_order() {
    let repo = UserRepositoryImpl::new();
    let mut service = UserServiceImpl::new(repo);
    service
        .create(CreateUserDto {
            name: "First User".to_string(),
            age: 25,
            email: "first@example.com".to_string(),
            password: "password123".to_string(),
        })
        .unwrap();
    service
        .create(CreateUserDto {
            name: "Second User".to_string(),
            age: 30,
            email: "second@example.com".to_string(),
            password: "password123".to_string(),
        })
        .unwrap();

    let all = service.get_all().unwrap();
    assert_eq!(all.len(), 2);
    assert_eq!(all[0].id, 1);
    assert_eq!(all[0].name, "First User");
    assert_eq!(all[1].id, 2);
    assert_eq!(all[1].name, "Second User");
}

#[test]
fn test_stored_password_is_hashed() {
    let mut repo = UserRepositoryImpl::new();
    repo.create(CreateUserDto {
        name: "Test User".to_string(),
        age: 25,
        email: "test@example.com".to_string(),
        password: "password123".to_string(),
    })
    .unwrap();

    let user = repo.get(1).unwrap();
    assert_eq!(user.password.len(), 60);
    assert_ne!(user.password, "password123");
}

#[test]
fn test_update_with_password_rehashes() {
    let mut repo = UserRepositoryImpl::new();
    repo.create(CreateUserDto {
        name: "Test User".to_string(),
        age: 25,
        email: "test@example.com".to_string(),
        password: "password123".to_string(),
    })
    .unwrap();

    repo.update(
        1,
        UpdateUserDto {
            name: None,
            age: None,
            password: Some("newpassword123".to_string()),
        },
    )
    .unwrap();
    let user = repo.get(1).unwrap();
    assert_eq!(user.password.len(), 60);
    assert_ne!(user.password, "newpassword123");
}

#[test]
fn test_get_by_email() {
    let mut repo = UserRepositoryImpl::new();
    repo.create(CreateUserDto {
        name: "Test User".to_string(),
        age: 25,
        email: "test@example.com".to_string(),
        password: "password123".to_string(),
    })
    .unwrap();

    let user = repo.get_by_email("test@example.com".to_string()).unwrap();
    assert_eq!(user.id, 1);
    assert_eq!(user.name, "Test User");

    let missing = repo.get_by_email("missing@example.com".to_string());
    assert!(matches!(missing, Err(StorageError::RowNotFound)));
}

#[test]
fn test_map_storage_error_is_total() {
    let not_found = map_storage_error(StorageError::RowNotFound, 999);
    match not_found {
        ServiceError::NotFound(m) => assert_eq!(m, "User not found with id: 999"),
        other => panic!("expected a not-found error, got {other:?}"),
    }

    let database = map_storage_error(StorageError::Database("constraint violated".to_string()), 1);
    match database {
        ServiceError::Database(m) => assert_eq!(m, "constraint violated"),
        other => panic!("expected a database error, got {other:?}"),
    }

    let unknown = map_storage_error(StorageError::Other("odd failure".to_string()), 1);
    match unknown {
        ServiceError::Unknown(m) => assert_eq!(m, "odd failure"),
        other => panic!("expected an unknown error, got {other:?}"),
    }
}
