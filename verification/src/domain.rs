use vstd::prelude::*;
use vstd::string::*;

verus! {

/// The canonical, persisted representation of a user, as handed back to
/// callers. It deliberately carries no credential material: there is no
/// password or password-hash field to leak.
#[derive(Debug, PartialEq, Eq)]
pub struct UserEntity {
    pub id: String,
    pub first_name: String,
    pub last_name: String,
    pub email: String,
    pub created_at: i64,
    pub updated_at: i64,
}

/// Mathematical model of a `UserEntity`: every text field as a sequence of
/// characters, every timestamp as an unbounded integer.
pub struct UserEntityView {
    pub id: Seq<char>,
    pub first_name: Seq<char>,
    pub last_name: Seq<char>,
    pub email: Seq<char>,
    pub created_at: int,
    pub updated_at: int,
}

impl View for UserEntity {
    type V = UserEntityView;

    open spec fn view(&self) -> UserEntityView {
        UserEntityView {
            id: self.id@,
            first_name: self.first_name@,
            last_name: self.last_name@,
            email: self.email@,
            created_at: self.created_at as int,
            updated_at: self.updated_at as int,
        }
    }
}

impl UserEntity {
    pub fn new(
        id: String,
        first_name: String,
        last_name: String,
        email: String,
        created_at: i64,
        updated_at: i64,
    ) -> (r: Self)
        ensures
            r.id == id,
            r.first_name == first_name,
            r.last_name == last_name,
            r.email == email,
            r.created_at == created_at,
            r.updated_at == updated_at,
    {
        Self { id, first_name, last_name, email, created_at, updated_at }
    }

    /// A field-for-field copy of the entity.
    pub fn duplicate(&self) -> (r: Self)
        ensures
            r == *self,
    {
        Self {
            id: self.id.clone(),
            first_name: self.first_name.clone(),
            last_name: self.last_name.clone(),
            email: self.email.clone(),
            created_at: self.created_at,
            updated_at: self.updated_at,
        }
    }
}

/// The record the orchestrator hands to the persistence port. It holds the
/// hash of the password, never the plaintext.
pub struct CreateUserDto {
    pub id: String,
    pub first_name: String,
    pub last_name: String,
    pub email: String,
    pub password_hash: String,
    pub created_at: i64,
}

/// Mathematical model of a `CreateUserDto`.
pub struct CreateUserDtoView {
    pub id: Seq<char>,
    pub first_name: Seq<char>,
    pub last_name: Seq<char>,
    pub email: Seq<char>,
    pub password_hash: Seq<char>,
    pub created_at: int,
}

impl View for CreateUserDto {
    type V = CreateUserDtoView;

    open spec fn view(&self) -> CreateUserDtoView {
        CreateUserDtoView {
            id: self.id@,
            first_name: self.first_name@,
            last_name: self.last_name@,
            email: self.email@,
            password_hash: self.password_hash@,
            created_at: self.created_at as int,
        }
    }
}

/// The lookup key the orchestrator hands to the persistence port. Its model
/// is the e-mail address itself.
pub struct FindUserByEmailDto {
    pub email: String,
}

impl View for FindUserByEmailDto {
    type V = Seq<char>;

    open spec fn view(&self) -> Seq<char> {
        self.email@
    }
}

/// Everything that can go wrong during a registration: a client handed two
/// different passwords, an account already exists for the e-mail, or a
/// downstream collaborator failed (`Internal` wraps its description).
#[derive(Debug, PartialEq, Eq)]
pub enum DomainError {
    Internal(String),
    PasswordMismatch,
    UserAlreadyExists,
}

/// Mathematical model of a `DomainError`.
pub enum DomainErrorView {
    Internal(Seq<char>),
    PasswordMismatch,
    UserAlreadyExists,
}

impl View for DomainError {
    type V = DomainErrorView;

    open spec fn view(&self) -> DomainErrorView {
        match self {
            DomainError::Internal(detail) => DomainErrorView::Internal(detail@),
            DomainError::PasswordMismatch => DomainErrorView::PasswordMismatch,
            DomainError::UserAlreadyExists => DomainErrorView::UserAlreadyExists,
        }
    }
}

/// The human-readable description of each error, as a sequence of characters.
pub open spec fn error_message(e: DomainErrorView) -> Seq<char> {
    match e {
        DomainErrorView::Internal(detail) => "Something went wrong: "@ + detail,
        DomainErrorView::PasswordMismatch => "The provided passwords do not match"@,
        DomainErrorView::UserAlreadyExists => "An user already exists with the given information"@,
    }
}

impl DomainError {
    /// The human-readable description of the error, for logging and for
    /// wrapping a downstream failure into `Internal`.
    pub fn message(&self) -> (r: String)
        ensures
            r@ == error_message(self@),
    {
        match self {
            DomainError::Internal(detail) => {
                let mut m = "Something went wrong: ".to_owned();
                m.append(detail.as_str());
                m
            },
            DomainError::PasswordMismatch => "The provided passwords do not match".to_owned(),
            DomainError::UserAlreadyExists => {
                "An user already exists with the given information".to_owned()
            },
        }
    }

    /// A variant-for-variant copy of the error.
    pub fn duplicate(&self) -> (r: Self)
        ensures
            r == *self,
    {
        match self {
            DomainError::Internal(detail) => DomainError::Internal(detail.clone()),
            DomainError::PasswordMismatch => DomainError::PasswordMismatch,
            DomainError::UserAlreadyExists => DomainError::UserAlreadyExists,
        }
    }
}

/// Model of a persistence lookup outcome: an entity may be present, absent,
/// or the lookup itself may have failed.
pub open spec fn lookup_view(r: Result<Option<UserEntity>, DomainError>) -> Result<
    Option<UserEntityView>,
    DomainErrorView,
> {
    match r {
        Ok(Some(u)) => Ok(Some(u@)),
        Ok(None) => Ok(None),
        Err(e) => Err(e@),
    }
}

/// Model of a registration outcome: the created entity, or the error.
pub open spec fn outcome_view(r: Result<UserEntity, DomainError>) -> Result<
    UserEntityView,
    DomainErrorView,
> {
    match r {
        Ok(u) => Ok(u@),
        Err(e) => Err(e@),
    }
}

} // verus!
