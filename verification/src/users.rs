use vstd::prelude::*;
use crate::errors::AppError;

verus! {

/// A user record, as the auth flows see it. The password hash is absent for
/// federated-only accounts, and such accounts cannot log in with a password.
/// `email_verified_at` is the instant the address was verified, absent until
/// then. Instants are seconds since the epoch.
#[derive(Debug, Clone)]
pub struct User {
    pub id: String,
    pub email: String,
    pub password_hash: Option<String>,
    pub display_name: String,
    pub bio: Option<String>,
    pub first_name: Option<String>,
    pub last_name: Option<String>,
    pub avatar_url: Option<String>,
    pub email_verified_at: Option<u64>,
    pub created_at: u64,
    pub updated_at: u64,
}

/// The mathematical value of a user record.
pub ghost struct UserModel {
    pub id: Seq<char>,
    pub email: Seq<char>,
    pub password_hash: Option<Seq<char>>,
    pub display_name: Seq<char>,
    pub bio: Option<Seq<char>>,
    pub first_name: Option<Seq<char>>,
    pub last_name: Option<Seq<char>>,
    pub avatar_url: Option<Seq<char>>,
    pub email_verified_at: Option<u64>,
    pub created_at: u64,
    pub updated_at: u64,
}

/// The view of an optional owned string.
pub open spec fn opt_view(o: Option<String>) -> Option<Seq<char>> {
    match o {
        Some(s) => Some(s@),
        None => None,
    }
}

/// The view of an optional borrowed string.
pub open spec fn opt_str_view(o: Option<&str>) -> Option<Seq<char>> {
    match o {
        Some(s) => Some(s@),
        None => None,
    }
}

impl View for User {
    type V = UserModel;

    open spec fn view(&self) -> UserModel {
        UserModel {
            id: self.id@,
            email: self.email@,
            password_hash: opt_view(self.password_hash),
            display_name: self.display_name@,
            bio: opt_view(self.bio),
            first_name: opt_view(self.first_name),
            last_name: opt_view(self.last_name),
            avatar_url: opt_view(self.avatar_url),
            email_verified_at: self.email_verified_at,
            created_at: self.created_at,
            updated_at: self.updated_at,
        }
    }
}

/// The first index at which `pred` holds, or `-1` when it holds nowhere.
pub open spec fn first_index_where(users: Seq<UserModel>, pred: spec_fn(UserModel) -> bool) -> int
    decreases users.len(),
{
    if users.len() == 0 {
        -1
    } else if pred(users[0]) {
        0
    } else {
        let rest = first_index_where(users.drop_first(), pred);
        if rest == -1 {
            -1
        } else {
            rest + 1
        }
    }
}

/// What `first_index_where` means: `-1` exactly when no element satisfies the
/// predicate, and otherwise the least satisfying index.
pub proof fn lemma_first_index_where(users: Seq<UserModel>, pred: spec_fn(UserModel) -> bool)
    ensures
        first_index_where(users, pred) == -1 ==> forall|j: int|
            0 <= j < users.len() ==> !pred(#[trigger] users[j]),
        first_index_where(users, pred) != -1 ==> {
            let i = first_index_where(users, pred);
            &&& 0 <= i < users.len()
            &&& pred(users[i])
            &&& forall|j: int| 0 <= j < i ==> !pred(#[trigger] users[j])
        },
    decreases users.len(),
{
    if users.len() > 0 {
        lemma_first_index_where(users.drop_first(), pred);
        assert forall|j: int| 1 <= j < users.len() implies users.drop_first()[j - 1] == users[j] by {}
    }
}

/// When `pred` holds at `i` and nowhere before, `i` is the first index.
pub proof fn lemma_first_index_at(
    users: Seq<UserModel>,
    pred: spec_fn(UserModel) -> bool,
    i: int,
)
    requires
        0 <= i < users.len(),
        pred(users[i]),
        forall|j: int| 0 <= j < i ==> !pred(#[trigger] users[j]),
    ensures
        first_index_where(users, pred) == i,
{
    lemma_first_index_where(users, pred);
    let idx = first_index_where(users, pred);
    if idx == -1 {
        assert(!pred(users[i]));
    } else if idx < i {
        assert(!pred(users[idx]));
    } else if idx > i {
        assert(!pred(users[i]));
    }
}

/// When `pred` holds nowhere, there is no first index.
pub proof fn lemma_first_index_none(users: Seq<UserModel>, pred: spec_fn(UserModel) -> bool)
    requires
        forall|j: int| 0 <= j < users.len() ==> !pred(#[trigger] users[j]),
    ensures
        first_index_where(users, pred) == -1,
{
    lemma_first_index_where(users, pred);
    let idx = first_index_where(users, pred);
    if idx != -1 {
        assert(!pred(users[idx]));
    }
}

/// The first user whose email is `email`, if any.
pub open spec fn find_user_by_email(users: Seq<UserModel>, email: Seq<char>) -> Option<UserModel> {
    let i = first_index_where(users, |u: UserModel| u.email == email);
    if i == -1 {
        None
    } else {
        Some(users[i])
    }
}

/// The first user whose display name is `name`, if any.
pub open spec fn find_user_by_display_name(users: Seq<UserModel>, name: Seq<char>) -> Option<
    UserModel,
> {
    let i = first_index_where(users, |u: UserModel| u.display_name == name);
    if i == -1 {
        None
    } else {
        Some(users[i])
    }
}

/// The first user whose id is `id`, if any.
pub open spec fn find_user_by_id(users: Seq<UserModel>, id: Seq<char>) -> Option<UserModel> {
    let i = first_index_where(users, |u: UserModel| u.id == id);
    if i == -1 {
        None
    } else {
        Some(users[i])
    }
}

/// A record found by email is its own witness for the id lookup: looking its
/// id up finds a record too (the same one, once ids are unique).
pub proof fn lemma_found_by_email_found_by_id(users: Seq<UserModel>, email: Seq<char>, u: UserModel)
    requires
        find_user_by_email(users, email) == Some(u),
    ensures
        find_user_by_id(users, u.id) is Some,
{
    let pred_email = |m: UserModel| m.email == email;
    let pred_id = |m: UserModel| m.id == u.id;
    lemma_first_index_where(users, pred_email);
    let ie = first_index_where(users, pred_email);
    assert(pred_id(users[ie]));
    lemma_first_index_where(users, pred_id);
    if first_index_where(users, pred_id) == -1 {
        assert(!pred_id(users[ie]));
    }
}

/// The data-model invariant of the user collection: emails, display names and
/// ids are globally unique.
pub open spec fn users_wf(users: Seq<UserModel>) -> bool {
    forall|i: int, j: int|
        0 <= i < j < users.len() ==> {
            &&& (#[trigger] users[i]).email != (#[trigger] users[j]).email
            &&& users[i].display_name != users[j].display_name
            &&& users[i].id != users[j].id
        }
}

/// An in-memory user-record collection with the interface of the user
/// repository: lookups by email, display name and id, creation, and a
/// keep-if-absent partial update.
pub struct UserStore {
    users: Vec<User>,
}

impl View for UserStore {
    type V = Seq<UserModel>;

    closed spec fn view(&self) -> Seq<UserModel> {
        self.users@.map_values(|u: User| u@)
    }
}

/// Clones an optional string, keeping its value.
fn clone_opt_string(o: &Option<String>) -> (r: Option<String>)
    ensures
        opt_view(r) == opt_view(*o),
{
    match o {
        Some(s) => Some(s.clone()),
        None => None,
    }
}

/// Clones a user record, keeping its value.
fn clone_user(u: &User) -> (r: User)
    ensures
        r@ == u@,
{
    User {
        id: u.id.clone(),
        email: u.email.clone(),
        password_hash: clone_opt_string(&u.password_hash),
        display_name: u.display_name.clone(),
        bio: clone_opt_string(&u.bio),
        first_name: clone_opt_string(&u.first_name),
        last_name: clone_opt_string(&u.last_name),
        avatar_url: clone_opt_string(&u.avatar_url),
        email_verified_at: u.email_verified_at,
        created_at: u.created_at,
        updated_at: u.updated_at,
    }
}

impl UserStore {
    /// Creates an empty collection.
    pub fn new() -> (store: UserStore)
        ensures
            store@ == Seq::<UserModel>::empty(),
    {
        let store = UserStore { users: Vec::new() };
        proof {
            assert(store@ =~= Seq::<UserModel>::empty());
        }
        store
    }

    /// Looks a user up by email; absence is a distinct signal, not an error.
    #[verifier::loop_isolation(false)]
    pub fn get_user_by_email(&self, email: &str) -> (r: Option<User>)
        ensures
            match r {
                Some(u) => find_user_by_email(self@, email@) == Some(u@),
                None => find_user_by_email(self@, email@) is None,
            },
    {
        let ghost pred = |u: UserModel| u.email == email@;
        let q: String = email.to_owned();
        let mut i: usize = 0;
        while i < self.users.len()
            invariant
                i <= self.users.len(),
                self@.len() == self.users@.len(),
                q@ == email@,
                forall|j: int| 0 <= j < i ==> !pred(#[trigger] self@[j]),
            decreases self.users.len() - i,
        {
            if self.users[i].email == q {
                let found = clone_user(&self.users[i]);
                proof {
                    assert(self@[i as int] == self.users@[i as int]@);
                    assert(pred(self@[i as int]));
                    lemma_first_index_at(self@, pred, i as int);
                }
                return Some(found);
            }
            proof {
                assert(self@[i as int] == self.users@[i as int]@);
            }
            i = i + 1;
        }
        proof {
            lemma_first_index_none(self@, pred);
        }
        None
    }

    /// Looks a user up by display name.
    #[verifier::loop_isolation(false)]
    pub fn get_user_by_display_name(&self, name: &str) -> (r: Option<User>)
        ensures
            match r {
                Some(u) => find_user_by_display_name(self@, name@) == Some(u@),
                None => find_user_by_display_name(self@, name@) is None,
            },
    {
        let ghost pred = |u: UserModel| u.display_name == name@;
        let q: String = name.to_owned();
        let mut i: usize = 0;
        while i < self.users.len()
            invariant
                i <= self.users.len(),
                self@.len() == self.users@.len(),
                q@ == name@,
                forall|j: int| 0 <= j < i ==> !pred(#[trigger] self@[j]),
            decreases self.users.len() - i,
        {
            if self.users[i].display_name == q {
                let found = clone_user(&self.users[i]);
                proof {
                    assert(self@[i as int] == self.users@[i as int]@);
                    assert(pred(self@[i as int]));
                    lemma_first_index_at(self@, pred, i as int);
                }
                return Some(found);
            }
            proof {
                assert(self@[i as int] == self.users@[i as int]@);
            }
            i = i + 1;
        }
        proof {
            lemma_first_index_none(self@, pred);
        }
        None
    }

    /// Looks a user up by id.
    #[verifier::loop_isolation(false)]
    pub fn get_user_by_id(&self, id: &str) -> (r: Option<User>)
        ensures
            match r {
                Some(u) => find_user_by_id(self@, id@) == Some(u@),
                None => find_user_by_id(self@, id@) is None,
            },
    {
        let ghost pred = |u: UserModel| u.id == id@;
        let q: String = id.to_owned();
        let mut i: usize = 0;
        while i < self.users.len()
            invariant
                i <= self.users.len(),
                self@.len() == self.users@.len(),
                q@ == id@,
                forall|j: int| 0 <= j < i ==> !pred(#[trigger] self@[j]),
            decreases self.users.len() - i,
        {
            if self.users[i].id == q {
                let found = clone_user(&self.users[i]);
                proof {
                    assert(self@[i as int] == self.users@[i as int]@);
                    assert(pred(self@[i as int]));
                    lemma_first_index_at(self@, pred, i as int);
                }
                return Some(found);
            }
            proof {
                assert(self@[i as int] == self.users@[i as int]@);
            }
            i = i + 1;
        }
        proof {
            lemma_first_index_none(self@, pred);
        }
        None
    }

    /// Creates a user record. The email, display name and id must be new;
    /// a clash is reported as `DuplicateEntry`, mirroring a unique-constraint
    /// violation, and leaves the collection unchanged.
    pub fn create_user(
        &mut self,
        id: &str,
        email: &str,
        password_hash: Option<&str>,
        display_name: &str,
        bio: Option<&str>,
        first_name: Option<&str>,
        last_name: Option<&str>,
        avatar_url: Option<&str>,
        email_verified_at: Option<u64>,
        now: u64,
    ) -> (r: Result<User, AppError>)
        ensures
            match r {
                Ok(u) => {
                    &&& find_user_by_email(old(self)@, email@) is None
                    &&& find_user_by_display_name(old(self)@, display_name@) is None
                    &&& find_user_by_id(old(self)@, id@) is None
                    &&& u@ == (UserModel {
                        id: id@,
                        email: email@,
                        password_hash: opt_str_view(password_hash),
                        display_name: display_name@,
                        bio: opt_str_view(bio),
                        first_name: opt_str_view(first_name),
                        last_name: opt_str_view(last_name),
                        avatar_url: opt_str_view(avatar_url),
                        email_verified_at,
                        created_at: now,
                        updated_at: now,
                    })
                    &&& final(self)@ == old(self)@.push(u@)
                    &&& users_wf(old(self)@) ==> users_wf(final(self)@)
                },
                Err(e) => {
                    &&& e matches AppError::DuplicateEntry(_)
                    &&& final(self)@ == old(self)@
                    &&& !{
                        &&& find_user_by_email(old(self)@, email@) is None
                        &&& find_user_by_display_name(old(self)@, display_name@) is None
                        &&& find_user_by_id(old(self)@, id@) is None
                    }
                },
            },
    {
        if self.get_user_by_email(email).is_some() {
            return Err(AppError::DuplicateEntry("Duplicate entry: users_email_key".to_owned()));
        }
        if self.get_user_by_display_name(display_name).is_some() {
            return Err(
                AppError::DuplicateEntry("Duplicate entry: users_display_name_key".to_owned()),
            );
        }
        if self.get_user_by_id(id).is_some() {
            return Err(AppError::DuplicateEntry("Duplicate entry: users_pkey".to_owned()));
        }
        let user = User {
            id: id.to_owned(),
            email: email.to_owned(),
            password_hash: copy_opt_str(password_hash),
            display_name: display_name.to_owned(),
            bio: copy_opt_str(bio),
            first_name: copy_opt_str(first_name),
            last_name: copy_opt_str(last_name),
            avatar_url: copy_opt_str(avatar_url),
            email_verified_at,
            created_at: now,
            updated_at: now,
        };
        let result = clone_user(&user);
        proof {
            let ghost prior = self@;
            lemma_first_index_where(prior, |u: UserModel| u.email == email@);
            lemma_first_index_where(prior, |u: UserModel| u.display_name == display_name@);
            lemma_first_index_where(prior, |u: UserModel| u.id == id@);
        }
        self.users.push(user);
        proof {
            assert(self@ =~= old(self)@.push(self.users@[self.users@.len() - 1]@));
        }
        Ok(result)
    }

    /// Partial update with keep-if-absent semantics: every field given as
    /// `None` keeps its stored value. Returns the updated record, or
    /// `NotFound` when no user has the given id.
    #[verifier::loop_isolation(false)]
    pub fn update_user(
        &mut self,
        user_id: &str,
        email: Option<&str>,
        password_hash: Option<&str>,
        display_name: Option<&str>,
        bio: Option<&str>,
        first_name: Option<&str>,
        last_name: Option<&str>,
        avatar_url: Option<&str>,
        email_verified_at: Option<u64>,
        now: u64,
    ) -> (r: Result<User, AppError>)
        ensures
            match r {
                Ok(u) => {
                    let i = first_index_where(old(self)@, |m: UserModel| m.id == user_id@);
                    &&& find_user_by_id(old(self)@, user_id@) matches Some(prior) && u@ == (
                    coalesce_user(
                        prior,
                        opt_str_view(email),
                        opt_str_view(password_hash),
                        opt_str_view(display_name),
                        opt_str_view(bio),
                        opt_str_view(first_name),
                        opt_str_view(last_name),
                        opt_str_view(avatar_url),
                        email_verified_at,
                        now,
                    ))
                    &&& final(self)@ == old(self)@.update(i, u@)
                },
                Err(e) => {
                    &&& e matches AppError::NotFound(_)
                    &&& find_user_by_id(old(self)@, user_id@) is None
                    &&& final(self)@ == old(self)@
                },
            },
    {
        let ghost pred = |m: UserModel| m.id == user_id@;
        let q: String = user_id.to_owned();
        let mut i: usize = 0;
        while i < self.users.len()
            invariant
                i <= self.users.len(),
                self@.len() == self.users@.len(),
                q@ == user_id@,
                self@ == old(self)@,
                forall|j: int| 0 <= j < i ==> !pred(#[trigger] self@[j]),
            decreases self.users.len() - i,
        {
            if self.users[i].id == q {
                proof {
                    assert(self@[i as int] == self.users@[i as int]@);
                    assert(pred(self@[i as int]));
                    lemma_first_index_at(self@, pred, i as int);
                }
                let prior = clone_user(&self.users[i]);
                let updated = User {
                    id: prior.id,
                    email: keep_or_replace(prior.email, email),
                    password_hash: keep_or_replace_opt(prior.password_hash, password_hash),
                    display_name: keep_or_replace(prior.display_name, display_name),
                    bio: keep_or_replace_opt(prior.bio, bio),
                    first_name: keep_or_replace_opt(prior.first_name, first_name),
                    last_name: keep_or_replace_opt(prior.last_name, last_name),
                    avatar_url: keep_or_replace_opt(prior.avatar_url, avatar_url),
                    email_verified_at: match email_verified_at {
                        Some(t) => Some(t),
                        None => prior.email_verified_at,
                    },
                    created_at: prior.created_at,
                    updated_at: now,
                };
                let result = clone_user(&updated);
                self.users.set(i, updated);
                proof {
                    assert(self@ =~= old(self)@.update(i as int, self.users@[i as int]@));
                }
                return Ok(result);
            }
            proof {
                assert(self@[i as int] == self.users@[i as int]@);
            }
            i = i + 1;
        }
        proof {
            lemma_first_index_none(self@, pred);
        }
        Err(AppError::NotFound("Resource not found".to_owned()))
    }
}

/// The keep-if-absent update of a user record: fields given as `None` keep
/// their stored value, and `updated_at` becomes `now`.
pub open spec fn coalesce_user(
    prior: UserModel,
    email: Option<Seq<char>>,
    password_hash: Option<Seq<char>>,
    display_name: Option<Seq<char>>,
    bio: Option<Seq<char>>,
    first_name: Option<Seq<char>>,
    last_name: Option<Seq<char>>,
    avatar_url: Option<Seq<char>>,
    email_verified_at: Option<u64>,
    now: u64,
) -> UserModel {
    UserModel {
        id: prior.id,
        email: or_else(email, Some(prior.email)).unwrap(),
        password_hash: or_else(password_hash, prior.password_hash),
        display_name: or_else(display_name, Some(prior.display_name)).unwrap(),
        bio: or_else(bio, prior.bio),
        first_name: or_else(first_name, prior.first_name),
        last_name: or_else(last_name, prior.last_name),
        avatar_url: or_else(avatar_url, prior.avatar_url),
        email_verified_at: match email_verified_at {
            Some(t) => Some(t),
            None => prior.email_verified_at,
        },
        created_at: prior.created_at,
        updated_at: now,
    }
}

/// `given` when present, otherwise `stored`.
pub open spec fn or_else(given: Option<Seq<char>>, stored: Option<Seq<char>>) -> Option<Seq<char>> {
    match given {
        Some(s) => Some(s),
        None => stored,
    }
}

/// Turns an optional borrowed string into an owned one, keeping its value.
fn copy_opt_str(o: Option<&str>) -> (r: Option<String>)
    ensures
        opt_view(r) == opt_str_view(o),
{
    match o {
        Some(s) => Some(s.to_owned()),
        None => None,
    }
}

/// The stored string, or the replacement when one is given.
fn keep_or_replace(stored: String, given: Option<&str>) -> (r: String)
    ensures
        Some(r@) == or_else(opt_str_view(given), Some(stored@)),
{
    match given {
        Some(s) => s.to_owned(),
        None => stored,
    }
}

/// The stored optional string, or the replacement when one is given.
fn keep_or_replace_opt(stored: Option<String>, given: Option<&str>) -> (r: Option<String>)
    ensures
        opt_view(r) == or_else(opt_str_view(given), opt_view(stored)),
{
    match given {
        Some(s) => Some(s.to_owned()),
        None => stored,
    }
}

} // verus!
