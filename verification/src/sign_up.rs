use vstd::prelude::*;

use crate::domain::{
    CreateUserDto, CreateUserDtoView, DomainError, DomainErrorView, FindUserByEmailDto, UserEntity,
    UserEntityView, error_message, outcome_view,
};
use crate::ports::{IdGeneratorPort, PasswordHasherPort, TimePort, UserPersistencePort};

verus! {

/// A candidate registration, as supplied by the caller. Every field is
/// required; the core performs no format validation on any of them.
pub struct SignUpInput {
    pub first_name: String,
    pub last_name: String,
    pub email: String,
    pub password: String,
    pub password_confirmation: String,
}

/// Mathematical model of a `SignUpInput`.
pub struct SignUpInputView {
    pub first_name: Seq<char>,
    pub last_name: Seq<char>,
    pub email: Seq<char>,
    pub password: Seq<char>,
    pub password_confirmation: Seq<char>,
}

impl View for SignUpInput {
    type V = SignUpInputView;

    open spec fn view(&self) -> SignUpInputView {
        SignUpInputView {
            first_name: self.first_name@,
            last_name: self.last_name@,
            email: self.email@,
            password: self.password@,
            password_confirmation: self.password_confirmation@,
        }
    }
}

/// The registration operation as seen by the caller: one request in, the
/// created entity or a classified error out. An implementation models its
/// outcome with `perform_model`; a successful registration always returns an
/// entity whose two timestamps agree.
pub trait SignUpPort {
    /// The outcome of registering the given request.
    spec fn perform_model(&self, input: SignUpInputView) -> Result<UserEntityView, DomainErrorView>;

    fn perform(&self, input: SignUpInput) -> (r: Result<UserEntity, DomainError>)
        ensures
            outcome_view(r) == self.perform_model(input@),
            (r matches Ok(u) ==> u@.created_at == u@.updated_at),
    ;
}

/// The registration orchestrator: validates the request, enforces e-mail
/// uniqueness through the persistence port, and only then generates an
/// identifier, hashes the password, stamps the time and persists the record.
pub struct SignUpUseCase<I, P, T, R> {
    pub id_generator: I,
    pub password_hasher: P,
    pub time: T,
    pub repository: R,
}

/// The record the orchestrator assembles once the request has passed both
/// checks: the generated identifier, the request's name and e-mail fields,
/// the hash of the password — never the plaintext — and the clock's stamp.
pub open spec fn new_user_record_model<
    I: IdGeneratorPort,
    P: PasswordHasherPort,
    T: TimePort,
    R: UserPersistencePort,
>(uc: SignUpUseCase<I, P, T, R>, input: SignUpInputView) -> CreateUserDtoView {
    CreateUserDtoView {
        id: uc.id_generator.id_model(),
        first_name: input.first_name,
        last_name: input.last_name,
        email: input.email,
        password_hash: uc.password_hasher.hash_model(input.password),
        created_at: uc.time.now_model(),
    }
}

/// The whole registration decision, as a function of the request and of the
/// port models: fail fast on a password mismatch; translate a lookup failure
/// into `Internal` and a present user into `UserAlreadyExists`; otherwise
/// persist the assembled record, translating a creation failure into
/// `Internal` and handing a created entity back unchanged.
pub open spec fn register_model<
    I: IdGeneratorPort,
    P: PasswordHasherPort,
    T: TimePort,
    R: UserPersistencePort,
>(uc: SignUpUseCase<I, P, T, R>, input: SignUpInputView) -> Result<
    UserEntityView,
    DomainErrorView,
> {
    if input.password != input.password_confirmation {
        Err(DomainErrorView::PasswordMismatch)
    } else {
        match uc.repository.find_model(input.email) {
            Err(e) => Err(DomainErrorView::Internal(error_message(e))),
            Ok(Some(_)) => Err(DomainErrorView::UserAlreadyExists),
            Ok(None) => match uc.repository.create_model(new_user_record_model(uc, input)) {
                Ok(u) => Ok(u),
                Err(e) => Err(DomainErrorView::Internal(error_message(e))),
            },
        }
    }
}

impl<I: IdGeneratorPort, P: PasswordHasherPort, T: TimePort, R: UserPersistencePort> SignUpUseCase<
    I,
    P,
    T,
    R,
> {
    pub fn new(id_generator: I, password_hasher: P, time: T, repository: R) -> (r: Self)
        ensures
            r.id_generator == id_generator,
            r.password_hasher == password_hasher,
            r.time == time,
            r.repository == repository,
    {
        Self { id_generator, password_hasher, time, repository }
    }
}

impl<
    I: IdGeneratorPort,
    P: PasswordHasherPort,
    T: TimePort,
    R: UserPersistencePort,
> SignUpPort for SignUpUseCase<I, P, T, R> {
    open spec fn perform_model(&self, input: SignUpInputView) -> Result<
        UserEntityView,
        DomainErrorView,
    > {
        register_model(*self, input)
    }

    fn perform(&self, input: SignUpInput) -> (r: Result<UserEntity, DomainError>) {
        if input.password != input.password_confirmation {
            return Err(DomainError::PasswordMismatch);
        }
        let find_user_by_email_dto = FindUserByEmailDto { email: input.email.clone() };
        match self.repository.find_by_email(find_user_by_email_dto) {
            Err(err) => {
                return Err(DomainError::Internal(err.message()));
            },
            Ok(Some(_)) => {
                return Err(DomainError::UserAlreadyExists);
            },
            Ok(None) => {},
        }
        let create_user_dto = CreateUserDto {
            id: self.id_generator.generate_id(),
            first_name: input.first_name,
            last_name: input.last_name,
            email: input.email,
            password_hash: self.password_hasher.hash_password(input.password),
            created_at: self.time.utc_now(),
        };
        match self.repository.create(create_user_dto) {
            Ok(entity) => Ok(entity),
            Err(err) => Err(DomainError::Internal(err.message())),
        }
    }
}

/// Law: a request whose two password fields disagree is rejected with
/// `PasswordMismatch`, whatever the four ports would have answered — the
/// lemma holds for every use case, so no port's model bears on the outcome.
pub proof fn lemma_mismatched_passwords_fail_fast<
    I: IdGeneratorPort,
    P: PasswordHasherPort,
    T: TimePort,
    R: UserPersistencePort,
>(uc: SignUpUseCase<I, P, T, R>, input: SignUpInputView)
    requires
        input.password != input.password_confirmation,
    ensures
        register_model(uc, input) == Err::<UserEntityView, DomainErrorView>(
            DomainErrorView::PasswordMismatch,
        ),
{
}

/// Law: when the lookup finds a user already holding the request's e-mail
/// address, registration is rejected with `UserAlreadyExists`, whatever the
/// creation port would have answered — the lemma puts no hypothesis on
/// `create_model`, so the record is never persisted on this path.
pub proof fn lemma_existing_user_is_rejected<
    I: IdGeneratorPort,
    P: PasswordHasherPort,
    T: TimePort,
    R: UserPersistencePort,
>(uc: SignUpUseCase<I, P, T, R>, input: SignUpInputView, found: UserEntityView)
    requires
        input.password == input.password_confirmation,
        uc.repository.find_model(input.email) == Ok::<Option<UserEntityView>, DomainErrorView>(
            Some(found),
        ),
    ensures
        register_model(uc, input) == Err::<UserEntityView, DomainErrorView>(
            DomainErrorView::UserAlreadyExists,
        ),
{
}

/// Law: when the lookup itself fails, registration fails with `Internal`
/// wrapping that failure's description, whatever the creation port would
/// have answered — no hypothesis on `create_model`, so nothing is persisted.
pub proof fn lemma_lookup_failure_becomes_internal<
    I: IdGeneratorPort,
    P: PasswordHasherPort,
    T: TimePort,
    R: UserPersistencePort,
>(uc: SignUpUseCase<I, P, T, R>, input: SignUpInputView, failure: DomainErrorView)
    requires
        input.password == input.password_confirmation,
        uc.repository.find_model(input.email) == Err::<Option<UserEntityView>, DomainErrorView>(
            failure,
        ),
    ensures
        register_model(uc, input) == Err::<UserEntityView, DomainErrorView>(
            DomainErrorView::Internal(error_message(failure)),
        ),
{
}

/// Law: when the lookup finds nobody and persisting the assembled record
/// fails, registration fails with `Internal` wrapping that failure's
/// description.
pub proof fn lemma_create_failure_becomes_internal<
    I: IdGeneratorPort,
    P: PasswordHasherPort,
    T: TimePort,
    R: UserPersistencePort,
>(uc: SignUpUseCase<I, P, T, R>, input: SignUpInputView, failure: DomainErrorView)
    requires
        input.password == input.password_confirmation,
        uc.repository.find_model(input.email) == Ok::<Option<UserEntityView>, DomainErrorView>(
            None,
        ),
        uc.repository.create_model(new_user_record_model(uc, input)) == Err::<
            UserEntityView,
            DomainErrorView,
        >(failure),
    ensures
        register_model(uc, input) == Err::<UserEntityView, DomainErrorView>(
            DomainErrorView::Internal(error_message(failure)),
        ),
{
}

/// Law: when the passwords agree, the lookup finds nobody, and persisting
/// the assembled record succeeds, registration returns the stored entity
/// unchanged.
pub proof fn lemma_successful_registration_returns_created_entity<
    I: IdGeneratorPort,
    P: PasswordHasherPort,
    T: TimePort,
    R: UserPersistencePort,
>(uc: SignUpUseCase<I, P, T, R>, input: SignUpInputView, created: UserEntityView)
    requires
        input.password == input.password_confirmation,
        uc.repository.find_model(input.email) == Ok::<Option<UserEntityView>, DomainErrorView>(
            None,
        ),
        uc.repository.create_model(new_user_record_model(uc, input)) == Ok::<
            UserEntityView,
            DomainErrorView,
        >(created),
    ensures
        register_model(uc, input) == Ok::<UserEntityView, DomainErrorView>(created),
{
}

/// Law: the plaintext password reaches the rest of the system only through
/// the hasher. Two requests that agree on every field but the password (each
/// self-confirmed), and whose passwords hash to the same value, register to
/// exactly the same outcome — in particular, neither the persisted record
/// nor any returned entity or error detail can depend on the plaintext
/// itself.
pub proof fn lemma_plaintext_reaches_only_the_hasher<
    I: IdGeneratorPort,
    P: PasswordHasherPort,
    T: TimePort,
    R: UserPersistencePort,
>(uc: SignUpUseCase<I, P, T, R>, a: SignUpInputView, b: SignUpInputView)
    requires
        a.first_name == b.first_name,
        a.last_name == b.last_name,
        a.email == b.email,
        a.password == a.password_confirmation,
        b.password == b.password_confirmation,
        uc.password_hasher.hash_model(a.password) == uc.password_hasher.hash_model(b.password),
    ensures
        register_model(uc, a) == register_model(uc, b),
{
    assert(new_user_record_model(uc, a) == new_user_record_model(uc, b));
}

} // verus!
