use vstd::prelude::*;

use crate::domain::{
    CreateUserDto, CreateUserDtoView, DomainError, DomainErrorView, FindUserByEmailDto, UserEntity,
    UserEntityView, lookup_view, outcome_view,
};

verus! {

/// Capability port for identity generation. An implementation models the
/// identifier it hands out with `id_model`, and `generate_id` must return
/// exactly that value. The port is infallible by contract: generation
/// failure is not a representable outcome at this boundary.
pub trait IdGeneratorPort {
    /// The identifier this generator hands out.
    spec fn id_model(&self) -> Seq<char>;

    fn generate_id(&self) -> (r: String)
        ensures
            r@ == self.id_model(),
    ;
}

/// Capability port for password hashing: a one-way transform from a
/// plaintext to its hash, modelled by `hash_model`. Infallible by contract.
pub trait PasswordHasherPort {
    /// The hash this hasher derives from a given plaintext.
    spec fn hash_model(&self, plaintext: Seq<char>) -> Seq<char>;

    fn hash_password(&self, password: String) -> (r: String)
        ensures
            r@ == self.hash_model(password@),
    ;
}

/// Capability port for clock access: wall-clock UTC seconds since the epoch,
/// used only to stamp `created_at`. Monotonicity is not required.
pub trait TimePort {
    /// The instant this clock reports.
    spec fn now_model(&self) -> int;

    fn utc_now(&self) -> (r: i64)
        ensures
            r as int == self.now_model(),
    ;
}

/// Abstraction over durable user storage. Absence of a user is an empty
/// result, never an error: only genuine storage failures travel on the error
/// channel. `create` persists the record and returns the canonical stored
/// representation; a freshly created user has never been updated, so its two
/// timestamps must agree.
pub trait UserPersistencePort {
    /// The outcome of looking the given e-mail address up.
    spec fn find_model(&self, email: Seq<char>) -> Result<Option<UserEntityView>, DomainErrorView>;

    /// The outcome of persisting the given record.
    spec fn create_model(&self, dto: CreateUserDtoView) -> Result<UserEntityView, DomainErrorView>;

    fn find_by_email(&self, dto: FindUserByEmailDto) -> (r: Result<Option<UserEntity>, DomainError>)
        ensures
            lookup_view(r) == self.find_model(dto@),
    ;

    fn create(&self, dto: CreateUserDto) -> (r: Result<UserEntity, DomainError>)
        ensures
            outcome_view(r) == self.create_model(dto@),
            (r matches Ok(u) ==> u@.created_at == u@.updated_at),
    ;
}

} // verus!
