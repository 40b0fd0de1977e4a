use vstd::prelude::*;

use crate::domain::{
    CreateUserDto, CreateUserDtoView, DomainError, DomainErrorView, FindUserByEmailDto, UserEntity,
    UserEntityView, lookup_view, outcome_view,
};
use crate::ports::{IdGeneratorPort, PasswordHasherPort, TimePort, UserPersistencePort};

verus! {

/// An identifier generator that always hands out one fixed identifier, for
/// exercising the orchestrator with a scripted outcome.
pub struct FixedIdGenerator {
    pub id: String,
}

impl IdGeneratorPort for FixedIdGenerator {
    open spec fn id_model(&self) -> Seq<char> {
        self.id@
    }

    fn generate_id(&self) -> (r: String) {
        self.id.clone()
    }
}

/// A password hasher that maps every plaintext to one fixed digest, for
/// exercising the orchestrator with a scripted outcome.
pub struct FixedPasswordHasher {
    pub hash: String,
}

impl PasswordHasherPort for FixedPasswordHasher {
    open spec fn hash_model(&self, plaintext: Seq<char>) -> Seq<char> {
        self.hash@
    }

    fn hash_password(&self, password: String) -> (r: String) {
        self.hash.clone()
    }
}

/// A clock stopped at one fixed instant, for exercising the orchestrator
/// with a scripted outcome.
pub struct FixedClock {
    pub now: i64,
}

impl TimePort for FixedClock {
    open spec fn now_model(&self) -> int {
        self.now as int
    }

    fn utc_now(&self) -> (r: i64) {
        self.now
    }
}

/// A user store with scripted answers: whatever the key or record, the
/// lookup resolves to `find_outcome` and the creation to `create_outcome`.
pub struct FixedUserRepository {
    find_outcome: Result<Option<UserEntity>, DomainError>,
    create_outcome: Result<UserEntity, DomainError>,
}

impl FixedUserRepository {
    /// A scripted creation outcome must respect the port's promise that a
    /// freshly created user carries equal timestamps.
    #[verifier::type_invariant]
    spec fn wf(self) -> bool {
        self.create_outcome matches Ok(u) ==> u@.created_at == u@.updated_at
    }

    pub fn new(
        find_outcome: Result<Option<UserEntity>, DomainError>,
        create_outcome: Result<UserEntity, DomainError>,
    ) -> (r: Self)
        requires
            (create_outcome matches Ok(u) ==> u@.created_at == u@.updated_at),
        ensures
            forall|email: Seq<char>| #[trigger] r.find_model(email) == lookup_view(find_outcome),
            forall|dto: CreateUserDtoView| #[trigger]
                r.create_model(dto) == outcome_view(create_outcome),
    {
        Self { find_outcome, create_outcome }
    }
}

impl UserPersistencePort for FixedUserRepository {
    closed spec fn find_model(&self, email: Seq<char>) -> Result<
        Option<UserEntityView>,
        DomainErrorView,
    > {
        lookup_view(self.find_outcome)
    }

    closed spec fn create_model(&self, dto: CreateUserDtoView) -> Result<
        UserEntityView,
        DomainErrorView,
    > {
        outcome_view(self.create_outcome)
    }

    fn find_by_email(&self, dto: FindUserByEmailDto) -> (r: Result<Option<UserEntity>, DomainError>)
    {
        match &self.find_outcome {
            Ok(None) => Ok(None),
            Ok(Some(user)) => Ok(Some(user.duplicate())),
            Err(err) => Err(err.duplicate()),
        }
    }

    fn create(&self, dto: CreateUserDto) -> (r: Result<UserEntity, DomainError>) {
        proof {
            use_type_invariant(&*self);
        }
        match &self.create_outcome {
            Ok(user) => Ok(user.duplicate()),
            Err(err) => Err(err.duplicate()),
        }
    }
}

} // verus!
