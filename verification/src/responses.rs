use vstd::prelude::*;
use crate::users::{User, UserModel, opt_view};

verus! {

/// A user record as returned to callers: everything but the password hash.
#[derive(Debug, Clone)]
pub struct UserResponse {
    pub id: String,
    pub email: String,
    pub display_name: String,
    pub bio: Option<String>,
    pub first_name: Option<String>,
    pub last_name: Option<String>,
    pub avatar_url: Option<String>,
    pub email_verified_at: Option<u64>,
    pub created_at: u64,
    pub updated_at: u64,
}

/// The mathematical value of a user response.
pub ghost struct UserResponseModel {
    pub id: Seq<char>,
    pub email: Seq<char>,
    pub display_name: Seq<char>,
    pub bio: Option<Seq<char>>,
    pub first_name: Option<Seq<char>>,
    pub last_name: Option<Seq<char>>,
    pub avatar_url: Option<Seq<char>>,
    pub email_verified_at: Option<u64>,
    pub created_at: u64,
    pub updated_at: u64,
}

impl View for UserResponse {
    type V = UserResponseModel;

    open spec fn view(&self) -> UserResponseModel {
        UserResponseModel {
            id: self.id@,
            email: self.email@,
            display_name: self.display_name@,
            bio: opt_view(self.bio),
            first_name: opt_view(self.first_name),
            last_name: opt_view(self.last_name),
            avatar_url: opt_view(self.avatar_url),
            email_verified_at: self.email_verified_at,
            created_at: self.created_at,
            updated_at: self.updated_at,
        }
    }
}

/// The response a user record maps to. Both timestamps expose the record's
/// creation instant; the update instant stays internal.
pub open spec fn user_response_of(u: UserModel) -> UserResponseModel {
    UserResponseModel {
        id: u.id,
        email: u.email,
        display_name: u.display_name,
        bio: u.bio,
        first_name: u.first_name,
        last_name: u.last_name,
        avatar_url: u.avatar_url,
        email_verified_at: u.email_verified_at,
        created_at: u.created_at,
        updated_at: u.created_at,
    }
}

impl From<User> for UserResponse {
    fn from(user: User) -> (r: UserResponse) {
        UserResponse {
            id: user.id,
            email: user.email,
            display_name: user.display_name,
            bio: user.bio,
            first_name: user.first_name,
            last_name: user.last_name,
            avatar_url: user.avatar_url,
            email_verified_at: user.email_verified_at,
            created_at: user.created_at,
            updated_at: user.created_at,
        }
    }
}

impl vstd::std_specs::convert::FromSpecImpl<User> for UserResponse {
    open spec fn obeys_from_spec() -> bool {
        true
    }

    open spec fn from_spec(user: User) -> UserResponse {
        UserResponse {
            id: user.id,
            email: user.email,
            display_name: user.display_name,
            bio: user.bio,
            first_name: user.first_name,
            last_name: user.last_name,
            avatar_url: user.avatar_url,
            email_verified_at: user.email_verified_at,
            created_at: user.created_at,
            updated_at: user.created_at,
        }
    }
}

/// A status and a human-readable message, with no further payload.
#[derive(Debug, Clone)]
pub struct ResponeOnlyMessage {
    pub status: String,
    pub message: String,
}

/// A user together with a credential.
#[derive(Debug, Clone)]
pub struct UserResponseWithToken {
    pub user: UserResponse,
    pub token: String,
    pub message: String,
}

/// A user together with a message.
#[derive(Debug, Clone)]
pub struct UserResponseWithMessage {
    pub user: UserResponse,
    pub message: String,
}

} // verus!
