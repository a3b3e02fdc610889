//! The authentication service: registration with duplicate checks,
//! credential login backed by the credential worker's verification, and
//! the persistent-login lookup behind a verified token.
use vstd::prelude::*;

use crate::credential::{bcrypt_digest_wf, bcrypt_verifies, validate_password};
use crate::entities::User;
use crate::errors::{ApiResult, AppError};
use crate::store::{agrees_outside_users, has_user_id, user_index, Store};

verus! {

/// Some user already carries this username.
pub open spec fn username_taken(us: Seq<User>, username: Seq<char>) -> bool {
    exists|j: int| 0 <= j < us.len() && #[trigger] us[j].username@ == username
}

/// Some user already carries this email.
pub open spec fn email_taken(us: Seq<User>, email: Seq<char>) -> bool {
    exists|j: int| 0 <= j < us.len() && #[trigger] us[j].email@ == email
}

/// Why a registration is rejected, in the order the checks run:
/// username first, then email, then id space.
pub open spec fn register_error(store: Store, username: Seq<char>, email: Seq<char>) -> Option<
    AppError,
> {
    if username_taken(store.users@, username) {
        Some(AppError::DuplicateUsername)
    } else if email_taken(store.users@, email) {
        Some(AppError::DuplicateEmail)
    } else if store.next_user_id == i32::MAX {
        Some(AppError::ServerError)
    } else {
        None
    }
}

fn any_user_named(us: &Vec<User>, username: &String) -> (r: bool)
    ensures
        r == username_taken(us@, username@),
{
    let mut i: usize = 0;
    while i < us.len()
        invariant
            i <= us@.len(),
            forall|k: int| 0 <= k < i ==> #[trigger] us@[k].username@ != username@,
        decreases us@.len() - i,
    {
        if us[i].username == *username {
            return true;
        }
        i = i + 1;
    }
    false
}

/// The login outcome over the user table: the first user carrying the
/// email decides. A stored digest the hash routine cannot parse is an
/// internal failure; a verifying password yields exactly that user's
/// row; anything else — a non-verifying password or an email no user
/// carries — is the same wrong-credentials value.
pub open spec fn spec_login(us: Seq<User>, email: Seq<char>, password: Seq<char>) -> Result<
    User,
    AppError,
>
    decreases us.len(),
{
    if us.len() == 0 {
        Err(AppError::WrongCredentials)
    } else if us[0].email@ == email {
        if !bcrypt_digest_wf(us[0].password@) {
            Err(AppError::HashingFailure)
        } else if bcrypt_verifies(password, us[0].password@) {
            Ok(us[0])
        } else {
            Err(AppError::WrongCredentials)
        }
    } else {
        spec_login(us.subrange(1, us.len() as int), email, password)
    }
}

/// When no user carries the email, login is the wrong-credentials
/// failure.
pub proof fn lemma_spec_login_no_match(us: Seq<User>, email: Seq<char>, password: Seq<char>)
    requires
        forall|k: int| 0 <= k < us.len() ==> #[trigger] us[k].email@ != email,
    ensures
        spec_login(us, email, password) == Err::<User, AppError>(AppError::WrongCredentials),
    decreases us.len(),
{
    if us.len() > 0 {
        let tail = us.subrange(1, us.len() as int);
        assert forall|k: int| 0 <= k < tail.len() implies #[trigger] tail[k].email@ != email by {
            assert(tail[k] == us[k + 1]);
        }
        lemma_spec_login_no_match(tail, email, password);
    }
}

/// The first user carrying the email decides the login outcome.
pub proof fn lemma_spec_login_first_match(
    us: Seq<User>,
    email: Seq<char>,
    password: Seq<char>,
    i: int,
)
    requires
        0 <= i < us.len(),
        us[i].email@ == email,
        forall|k: int| 0 <= k < i ==> #[trigger] us[k].email@ != email,
    ensures
        spec_login(us, email, password) == (if !bcrypt_digest_wf(us[i].password@) {
            Err::<User, AppError>(AppError::HashingFailure)
        } else if bcrypt_verifies(password, us[i].password@) {
            Ok::<User, AppError>(us[i])
        } else {
            Err::<User, AppError>(AppError::WrongCredentials)
        }),
    decreases i,
{
    if i > 0 {
        let tail = us.subrange(1, us.len() as int);
        assert(tail[i - 1] == us[i]);
        assert forall|k: int| 0 <= k < i - 1 implies #[trigger] tail[k].email@ != email by {
            assert(tail[k] == us[k + 1]);
        }
        lemma_spec_login_first_match(tail, email, password, i - 1);
    }
}

/// Login reveals nothing about whether an email is registered: an
/// unknown email and a registered email whose (well-formed) stored
/// digest does not verify the password produce one and the same
/// wrong-credentials value.
pub proof fn lemma_login_no_account_enumeration(
    us1: Seq<User>,
    email1: Seq<char>,
    password1: Seq<char>,
    us2: Seq<User>,
    email2: Seq<char>,
    password2: Seq<char>,
    i: int,
)
    requires
        !email_taken(us1, email1),
        0 <= i < us2.len(),
        us2[i].email@ == email2,
        forall|k: int| 0 <= k < i ==> #[trigger] us2[k].email@ != email2,
        bcrypt_digest_wf(us2[i].password@),
        !bcrypt_verifies(password2, us2[i].password@),
    ensures
        spec_login(us1, email1, password1) == spec_login(us2, email2, password2),
        spec_login(us1, email1, password1) == Err::<User, AppError>(AppError::WrongCredentials),
{
    assert forall|k: int| 0 <= k < us1.len() implies #[trigger] us1[k].email@ != email1 by {
        if us1[k].email@ == email1 {
            assert(email_taken(us1, email1));
        }
    }
    lemma_spec_login_no_match(us1, email1, password1);
    lemma_spec_login_first_match(us2, email2, password2, i);
}

/// Find the position of the first user carrying this email.
fn find_by_email(us: &Vec<User>, email: &String) -> (r: Option<usize>)
    ensures
        match r {
            Some(i) => i < us@.len() && us@[i as int].email@ == email@ && (forall|k: int|
                0 <= k < i ==> #[trigger] us@[k].email@ != email@),
            None => !email_taken(us@, email@) && (forall|k: int|
                0 <= k < us@.len() ==> #[trigger] us@[k].email@ != email@),
        },
{
    let mut i: usize = 0;
    while i < us.len()
        invariant
            i <= us@.len(),
            forall|k: int| 0 <= k < i ==> #[trigger] us@[k].email@ != email@,
        decreases us@.len() - i,
    {
        if us[i].email == *email {
            return Some(i);
        }
        i = i + 1;
    }
    None
}

/// Authentication operations. The password a registration stores is
/// the digest the credential worker produced, never the plaintext.
pub struct AuthService;

impl AuthService {
    /// Register a user: usernames and emails are unique among all
    /// users, and users are never soft-deleted.
    pub fn register_user(
        store: &mut Store,
        username: String,
        email: String,
        password: String,
        now: i64,
    ) -> (r: ApiResult<User>)
        requires
            old(store).wf(),
        ensures
            final(store).wf(),
            agrees_outside_users(*final(store), *old(store)),
            register_error(*old(store), username@, email@) matches Some(e) ==> r == Err::<
                User,
                AppError,
            >(e) && *final(store) == *old(store),
            register_error(*old(store), username@, email@) is None ==> (r matches Ok(u) && u.id
                == old(store).next_user_id && u.username == username && u.email == email
                && u.password == password && u.created_at == now && u.updated_at == now
                && final(store).users@ == old(store).users@.push(u)
                && final(store).next_user_id == old(store).next_user_id + 1),
    {
        if any_user_named(&store.users, &username) {
            return Err(AppError::DuplicateUsername);
        }
        if find_by_email(&store.users, &email).is_some() {
            return Err(AppError::DuplicateEmail);
        }
        if store.next_user_id == i32::MAX {
            return Err(AppError::ServerError);
        }
        let id = store.next_user_id;
        let user = User { id, username, email, password, created_at: now, updated_at: now };
        let created = user.clone();
        store.users.push(user);
        store.next_user_id = id + 1;
        proof {
            assert forall|k: int| 0 <= k < store.carts@.len() implies has_user_id(
                store.users@,
                #[trigger] store.carts@[k].user_id,
            ) by {
                assert(has_user_id(old(store).users@, store.carts@[k].user_id));
                let m = choose|m: int|
                    0 <= m < old(store).users@.len() && #[trigger] old(store).users@[m].id
                        == store.carts@[k].user_id;
                assert(store.users@[m].id == store.carts@[k].user_id);
            }
        }
        Ok(created)
    }

    /// Log a user in: the result is exactly [`spec_login`] over the
    /// user table — an unknown email and a wrong password fail alike,
    /// deliberately, with `WrongCredentials`; a verifying password
    /// yields the user's row; only a stored digest the hash routine
    /// cannot parse surfaces as `HashingFailure`.
    pub fn login_user(store: &Store, email: String, password: String) -> (r: ApiResult<User>)
        ensures
            r == spec_login(store.users@, email@, password@),
    {
        match find_by_email(&store.users, &email) {
            None => {
                proof {
                    lemma_spec_login_no_match(store.users@, email@, password@);
                }
                Err(AppError::WrongCredentials)
            },
            Some(i) => {
                proof {
                    lemma_spec_login_first_match(store.users@, email@, password@, i as int);
                }
                let user = &store.users[i];
                match validate_password(password.as_str(), user.password.as_str()) {
                    Err(e) => Err(e),
                    Ok(false) => Err(AppError::WrongCredentials),
                    Ok(true) => Ok(user.clone()),
                }
            },
        }
    }

    /// Resolve the user a verified token's id names; an id no user
    /// carries means the token no longer stands for anyone.
    pub fn persistent_login(store: &Store, id: i32) -> (r: ApiResult<User>)
        requires
            store.wf(),
        ensures
            !has_user_id(store.users@, id) ==> r == Err::<User, AppError>(AppError::InvalidToken),
            has_user_id(store.users@, id) ==> (r matches Ok(u) && u == store.users@[user_index(
                store.users@,
                id,
            )]),
    {
        match crate::store::find_user_index(&store.users, id) {
            None => Err(AppError::InvalidToken),
            Some(i) => {
                proof {
                    let j = user_index(store.users@, id);
                    assert(0 <= j < store.users@.len() && store.users@[j].id == id);
                    assert(j == i);
                }
                Ok(store.users[i].clone())
            },
        }
    }
}

/// The bare registration write: an unconditional insert, used where the
/// duplicate checks have already run.
pub struct AuthMutation;

impl AuthMutation {
    /// Insert a user row without any duplicate check.
    pub fn register_user(
        store: &mut Store,
        username: String,
        email: String,
        password: String,
        now: i64,
    ) -> (r: ApiResult<User>)
        requires
            old(store).wf(),
        ensures
            final(store).wf(),
            agrees_outside_users(*final(store), *old(store)),
            old(store).next_user_id == i32::MAX ==> r == Err::<User, AppError>(
                AppError::ServerError,
            ) && *final(store) == *old(store),
            old(store).next_user_id < i32::MAX ==> (r matches Ok(u)
                && u.id == old(store).next_user_id && u.username == username && u.email == email
                && u.password == password && u.created_at == now && u.updated_at == now
                && final(store).users@ == old(store).users@.push(u)
                && final(store).next_user_id == old(store).next_user_id + 1),
    {
        if store.next_user_id == i32::MAX {
            return Err(AppError::ServerError);
        }
        let id = store.next_user_id;
        let user = User { id, username, email, password, created_at: now, updated_at: now };
        let created = user.clone();
        store.users.push(user);
        store.next_user_id = id + 1;
        proof {
            assert forall|k: int| 0 <= k < store.carts@.len() implies has_user_id(
                store.users@,
                #[trigger] store.carts@[k].user_id,
            ) by {
                assert(has_user_id(old(store).users@, store.carts@[k].user_id));
                let m = choose|m: int|
                    0 <= m < old(store).users@.len() && #[trigger] old(store).users@[m].id
                        == store.carts@[k].user_id;
                assert(store.users@[m].id == store.carts@[k].user_id);
            }
        }
        Ok(created)
    }
}

} // verus!
