use registration::domain::{DomainError, UserEntity};
use registration::sign_up::{SignUpInput, SignUpPort, SignUpUseCase};
use registration::stubs::{FixedClock, FixedIdGenerator, FixedPasswordHasher, FixedUserRepository};

fn john_doe_input(password: &str, password_confirmation: &str) -> SignUpInput {
    SignUpInput {
        first_name: "John".to_string(),
        last_name: "Doe".to_string(),
        email: "john.doe@mail.com".to_string(),
        password: password.to_string(),
        password_confirmation: password_confirmation.to_string(),
    }
}

fn john_doe_entity() -> UserEntity {
    UserEntity::new(
        "John".to_string(),
        "Doe".to_string(),
        "john.doe@mail.com".to_string(),
        "SuperSecret123".to_string(),
        1_000_000,
        1_000_000,
    )
}

fn fixed_ports() -> (FixedIdGenerator, FixedPasswordHasher, FixedClock) {
    (
        FixedIdGenerator { id: "generated_id".to_string() },
        FixedPasswordHasher { hash: "password_hash".to_string() },
        FixedClock { now: 1_000_000 },
    )
}

#[test]
fn should_successfully_sign_up_user() {
    let (id_generator, password_hasher, time) = fixed_ports();
    let repository = FixedUserRepository::new(Ok(None), Ok(john_doe_entity()));

    let use_case = SignUpUseCase::new(id_generator, password_hasher, time, repository);

    let input = john_doe_input("SuperSecret123", "SuperSecret123");

    let result = use_case.perform(input);

    assert!(result.is_ok());

    let user_entity = result.unwrap();

    assert_eq!(user_entity, john_doe_entity());
}

#[test]
fn should_return_error_if_password_mismatch() {
    let (id_generator, password_hasher, time) = fixed_ports();
    let repository = FixedUserRepository::new(Ok(None), Ok(john_doe_entity()));

    let use_case = SignUpUseCase::new(id_generator, password_hasher, time, repository);

    let input = john_doe_input("SuperSecret123", "SuperSecret1234");

    let result = use_case.perform(input);

    assert!(result.is_err());

    let result_err = result.unwrap_err();

    assert_eq!(result_err, DomainError::PasswordMismatch);
}

#[test]
fn should_return_error_if_user_already_exists() {
    let (id_generator, password_hasher, time) = fixed_ports();
    let repository = FixedUserRepository::new(
        Ok(Some(john_doe_entity())),
        Ok(john_doe_entity()),
    );

    let use_case = SignUpUseCase::new(id_generator, password_hasher, time, repository);

    let input = john_doe_input("SuperSecret123", "SuperSecret123");

    let result = use_case.perform(input);

    assert!(result.is_err());

    let result_err = result.unwrap_err();

    assert_eq!(result_err, DomainError::UserAlreadyExists);
}

#[test]
fn should_return_error_if_find_by_email_fails() {
    let (id_generator, password_hasher, time) = fixed_ports();
    let repository = FixedUserRepository::new(
        Err(DomainError::Internal("Find by e-mail failed".to_string())),
        Ok(john_doe_entity()),
    );

    let use_case = SignUpUseCase::new(id_generator, password_hasher, time, repository);

    let input = john_doe_input("SuperSecret123", "SuperSecret123");

    let result = use_case.perform(input);

    assert!(result.is_err());

    let result_err = result.unwrap_err();

    assert_eq!(
        result_err,
        DomainError::Internal("Something went wrong: Find by e-mail failed".to_string())
    );
}

#[test]
fn should_return_error_if_create_fails() {
    let (id_generator, password_hasher, time) = fixed_ports();
    let repository = FixedUserRepository::new(
        Ok(None),
        Err(DomainError::Internal("Create failed".to_string())),
    );

    let use_case = SignUpUseCase::new(id_generator, password_hasher, time, repository);

    let input = john_doe_input("SuperSecret123", "SuperSecret123");

    let result = use_case.perform(input);

    assert!(result.is_err());

    let result_err = result.unwrap_err();

    assert_eq!(
        result_err,
        DomainError::Internal("Something went wrong: Create failed".to_string())
    );
}

#[test]
fn successful_registration_has_equal_timestamps() {
    let (id_generator, password_hasher, time) = fixed_ports();
    let repository = FixedUserRepository::new(Ok(None), Ok(john_doe_entity()));

    let use_case = SignUpUseCase::new(id_generator, password_hasher, time, repository);

    let result = use_case.perform(john_doe_input("SuperSecret123", "SuperSecret123"));

    let user_entity = result.unwrap();

    assert_eq!(user_entity.created_at, user_entity.updated_at);
}

#[test]
fn mismatch_is_rejected_before_lookup_failures_matter() {
    let (id_generator, password_hasher, time) = fixed_ports();
    let repository = FixedUserRepository::new(
        Err(DomainError::Internal("Storage unreachable".to_string())),
        Err(DomainError::Internal("Storage unreachable".to_string())),
    );

    let use_case = SignUpUseCase::new(id_generator, password_hasher, time, repository);

    let result = use_case.perform(john_doe_input("a", "b"));

    assert_eq!(result.unwrap_err(), DomainError::PasswordMismatch);
}

#[test]
fn wrapped_lookup_error_of_each_kind_keeps_its_description() {
    let (id_generator, password_hasher, time) = fixed_ports();
    let repository = FixedUserRepository::new(
        Err(DomainError::UserAlreadyExists),
        Ok(john_doe_entity()),
    );

    let use_case = SignUpUseCase::new(id_generator, password_hasher, time, repository);

    let result = use_case.perform(john_doe_input("SuperSecret123", "SuperSecret123"));

    assert_eq!(
        result.unwrap_err(),
        DomainError::Internal("An user already exists with the given information".to_string())
    );
}

#[test]
fn domain_error_messages_are_exact() {
    assert_eq!(
        DomainError::PasswordMismatch.message(),
        "The provided passwords do not match".to_string()
    );
    assert_eq!(
        DomainError::UserAlreadyExists.message(),
        "An user already exists with the given information".to_string()
    );
    assert_eq!(
        DomainError::Internal("boom".to_string()).message(),
        "Something went wrong: boom".to_string()
    );
}

#[test]
fn user_entity_new_keeps_every_field() {
    let entity = john_doe_entity();
    assert_eq!(entity.id, "John");
    assert_eq!(entity.first_name, "Doe");
    assert_eq!(entity.last_name, "john.doe@mail.com");
    assert_eq!(entity.email, "SuperSecret123");
    assert_eq!(entity.created_at, 1_000_000);
    assert_eq!(entity.updated_at, 1_000_000);
}

#[test]
fn duplicated_values_compare_equal() {
    let entity = john_doe_entity();
    assert_eq!(entity.duplicate(), entity);
    let err = DomainError::Internal("boom".to_string());
    assert_eq!(err.duplicate(), err);
}
