//! Users: the record type, the request types, the credential service
//! (salted hashing and verification through an outside crate), and the
//! in-memory users table with lookup, creation and authentication.

use argon2::{
    password_hash::{rand_core::OsRng, PasswordHash, PasswordHasher, PasswordVerifier, SaltString},
    Argon2,
};
use vstd::prelude::*;

verus! {

/// A persisted user. The password hash is derived secret material: it is
/// never the plaintext and is left out of every external representation.
/// Timestamps are microseconds since the Unix epoch.
#[derive(Debug)]
pub struct User {
    pub id: i64,
    pub username: String,
    pub email: String,
    pub password_hash: String,
    pub created_at: i64,
    pub updated_at: i64,
}

/// Fields supplied by the caller when creating a user; the plaintext
/// password is hashed at once and never stored.
pub struct CreateUser {
    pub username: String,
    pub email: String,
    pub password: String,
}

/// Credentials presented for authentication.
pub struct LoginUser {
    pub email: String,
    pub password: String,
}

impl Clone for User {
    fn clone(&self) -> (r: Self)
        ensures
            r == *self,
    {
        User {
            id: self.id,
            username: self.username.clone(),
            email: self.email.clone(),
            password_hash: self.password_hash.clone(),
            created_at: self.created_at,
            updated_at: self.updated_at,
        }
    }
}

/// How a credential operation can fail.
#[derive(Clone, Copy, Debug, PartialEq, Eq, Structural)]
pub enum CredentialError {
    /// The hashing primitive itself failed; unexpected and internal.
    HashFailed,
    /// A stored hash string could not be parsed. Distinct from a password
    /// that merely does not match, which is a normal `false`.
    MalformedHash,
}

/// Whether a stored hash string parses as a self-describing encoded hash.
/// Named result of password_hash::PasswordHash::new, which depends on the
/// string alone.
pub uninterp spec fn hash_parses(hash: Seq<char>) -> bool;

/// Whether a plaintext verifies against a stored hash string. Named result
/// of argon2::Argon2::verify_password with default parameters, which
/// recomputes the digest from the plaintext and the salt and parameters
/// embedded in the hash string, so it depends on the two arguments alone.
pub uninterp spec fn verify_of(password: Seq<char>, hash: Seq<char>) -> bool;

/// The in-memory users table: the rows in insertion order, and the next
/// identifier to hand out.
pub struct UserTable {
    pub rows: Vec<User>,
    pub next_id: i64,
}

impl UserTable {
    /// Well-formedness: identifiers are positive, unique, and below the
    /// next one to be assigned, and no row's update timestamp precedes its
    /// creation timestamp.
    pub open spec fn wf(self) -> bool {
        &&& self.next_id >= 1
        &&& forall|i: int|
            0 <= i < self.rows@.len() ==> {
                &&& (#[trigger] self.rows@[i]).updated_at >= self.rows@[i].created_at
                &&& 0 < self.rows@[i].id < self.next_id
            }
        &&& forall|i: int, j: int|
            0 <= i < j < self.rows@.len()
                ==> #[trigger] self.rows@[i].id != #[trigger] self.rows@[j].id
    }

    /// An empty table, ready to assign identifier 1 first.
    pub fn new() -> (r: Self)
        ensures
            r.wf(),
            r.rows@.len() == 0,
            r.next_id == 1,
    {
        UserTable { rows: Vec::new(), next_id: 1 }
    }
}

/// The string key a lookup goes by: the email field.
pub open spec fn user_email_key() -> spec_fn(User) -> Seq<char> {
    |u: User| u.email@
}

/// The string key a lookup goes by: the username field.
pub open spec fn user_username_key() -> spec_fn(User) -> Seq<char> {
    |u: User| u.username@
}

/// Index of the first row whose key reads `key`, or past the end when none
/// does.
pub open spec fn spec_user_key_index(
    rows: Seq<User>,
    keyf: spec_fn(User) -> Seq<char>,
    key: Seq<char>,
) -> int
    decreases rows.len(),
{
    if rows.len() == 0 {
        0
    } else if keyf(rows[0]) == key {
        0
    } else {
        1 + spec_user_key_index(rows.drop_first(), keyf, key)
    }
}

/// The first row whose key reads `key`, if any.
pub open spec fn spec_find_user_by_key(
    rows: Seq<User>,
    keyf: spec_fn(User) -> Seq<char>,
    key: Seq<char>,
) -> Option<User> {
    if spec_user_key_index(rows, keyf, key) < rows.len() {
        Some(rows[spec_user_key_index(rows, keyf, key)])
    } else {
        None
    }
}

/// The first row carrying this email, if any.
pub open spec fn spec_find_user_by_email(rows: Seq<User>, email: Seq<char>) -> Option<User> {
    spec_find_user_by_key(rows, user_email_key(), email)
}

/// The first row carrying this username, if any.
pub open spec fn spec_find_user_by_username(rows: Seq<User>, username: Seq<char>) -> Option<
    User,
> {
    spec_find_user_by_key(rows, user_username_key(), username)
}

/// Index of the first row carrying `id`, or past the end when none does.
pub open spec fn spec_user_index(rows: Seq<User>, id: i64) -> int
    decreases rows.len(),
{
    if rows.len() == 0 {
        0
    } else if rows[0].id == id {
        0
    } else {
        1 + spec_user_index(rows.drop_first(), id)
    }
}

/// The first row carrying `id`, if any.
pub open spec fn spec_find_user(rows: Seq<User>, id: i64) -> Option<User> {
    if spec_user_index(rows, id) < rows.len() {
        Some(rows[spec_user_index(rows, id)])
    } else {
        None
    }
}

/// Pins `spec_user_key_index` down from what a left-to-right scan saw.
pub proof fn lemma_user_key_index_at(
    rows: Seq<User>,
    keyf: spec_fn(User) -> Seq<char>,
    key: Seq<char>,
    i: int,
)
    requires
        0 <= i <= rows.len(),
        forall|j: int| 0 <= j < i ==> keyf(rows[j]) != key,
        i < rows.len() ==> keyf(rows[i]) == key,
    ensures
        i < rows.len() ==> spec_user_key_index(rows, keyf, key) == i,
        i == rows.len() ==> spec_user_key_index(rows, keyf, key) >= rows.len(),
    decreases rows.len(),
{
    if rows.len() > 0 {
        if i == 0 {
        } else {
            assert(keyf(rows[0]) != key);
            lemma_user_key_index_at(rows.drop_first(), keyf, key, i - 1);
        }
    }
}

/// Pins `spec_user_index` down from what a left-to-right scan saw.
pub proof fn lemma_user_index_at(rows: Seq<User>, id: i64, i: int)
    requires
        0 <= i <= rows.len(),
        forall|j: int| 0 <= j < i ==> rows[j].id != id,
        i < rows.len() ==> rows[i].id == id,
    ensures
        i < rows.len() ==> spec_user_index(rows, id) == i,
        i == rows.len() ==> spec_user_index(rows, id) >= rows.len(),
    decreases rows.len(),
{
    if rows.len() > 0 {
        if i == 0 {
        } else {
            assert(rows[0].id != id);
            lemma_user_index_at(rows.drop_first(), id, i - 1);
        }
    }
}

impl User {
    /// Relies on argon2::Argon2::hash_password (the PasswordHasher trait)
    /// with a fresh random salt drawn from OsRng. On success the returned
    /// string is a PHC encoding — it begins with the `$` separator and
    /// parses back (PasswordHash::new accepts the encoding it produced) —
    /// and it verifies against the hashed password: the verifier recomputes
    /// the digest with the salt and parameters embedded in the string.
    /// Nothing is claimed of other plaintexts against this hash.
    #[verifier::external_body]
    pub fn hash_password(password: &str) -> (r: Result<String, CredentialError>)
        ensures
            r is Ok ==> hash_parses(r->Ok_0@),
            r is Ok ==> verify_of(password@, r->Ok_0@),
            r is Ok ==> r->Ok_0@.len() > 0 && r->Ok_0@[0] == '$',
            r is Err ==> r->Err_0 == CredentialError::HashFailed,
    {
        let salt = SaltString::generate(&mut OsRng);
        let argon2 = Argon2::default();
        match argon2.hash_password(password.as_bytes(), &salt) {
            Ok(h) => Ok(h.to_string()),
            Err(_) => Err(CredentialError::HashFailed),
        }
    }

    /// Relies on password_hash::PasswordHash::new to parse the stored
    /// string, and on argon2::Argon2::verify_password (the PasswordVerifier
    /// trait) to recompute and compare the digest. A string that does not
    /// parse is an error of its own; a password that does not match is the
    /// normal `false`.
    #[verifier::external_body]
    pub fn verify_password(password: &str, password_hash: &str) -> (r: Result<
        bool,
        CredentialError,
    >)
        ensures
            r is Ok <==> hash_parses(password_hash@),
            r is Ok ==> r->Ok_0 == verify_of(password@, password_hash@),
            r is Err ==> r->Err_0 == CredentialError::MalformedHash,
    {
        let parsed_hash = match PasswordHash::new(password_hash) {
            Ok(h) => h,
            Err(_) => return Err(CredentialError::MalformedHash),
        };
        let argon2 = Argon2::default();
        Ok(argon2.verify_password(password.as_bytes(), &parsed_hash).is_ok())
    }

    /// Look a user up by identifier; absence is a normal outcome.
    pub fn find_by_id(db: &UserTable, id: i64) -> (r: Option<User>)
        ensures
            r == spec_find_user(db.rows@, id),
    {
        let n = db.rows.len();
        let mut i: usize = 0;
        while i < n
            invariant
                n == db.rows@.len(),
                i <= n,
                forall|j: int| 0 <= j < i ==> db.rows@[j].id != id,
            decreases n - i,
        {
            if db.rows[i].id == id {
                proof {
                    lemma_user_index_at(db.rows@, id, i as int);
                }
                return Some(db.rows[i].clone());
            }
            i += 1;
        }
        proof {
            lemma_user_index_at(db.rows@, id, n as int);
        }
        None
    }

    /// Look a user up by email; the first row in insertion order wins when
    /// duplicates exist (uniqueness is not enforced at this layer).
    pub fn find_by_email(db: &UserTable, email: &str) -> (r: Option<User>)
        ensures
            r == spec_find_user_by_email(db.rows@, email@),
    {
        let key: String = email.to_owned();
        let n = db.rows.len();
        let mut i: usize = 0;
        while i < n
            invariant
                n == db.rows@.len(),
                i <= n,
                key@ == email@,
                forall|j: int| 0 <= j < i ==> db.rows@[j].email@ != email@,
            decreases n - i,
        {
            if db.rows[i].email == key {
                proof {
                    lemma_user_key_index_at(db.rows@, user_email_key(), email@, i as int);
                }
                return Some(db.rows[i].clone());
            }
            i += 1;
        }
        proof {
            lemma_user_key_index_at(db.rows@, user_email_key(), email@, n as int);
        }
        None
    }

    /// Look a user up by username; the first row in insertion order wins
    /// when duplicates exist.
    pub fn find_by_username(db: &UserTable, username: &str) -> (r: Option<User>)
        ensures
            r == spec_find_user_by_username(db.rows@, username@),
    {
        let key: String = username.to_owned();
        let n = db.rows.len();
        let mut i: usize = 0;
        while i < n
            invariant
                n == db.rows@.len(),
                i <= n,
                key@ == username@,
                forall|j: int| 0 <= j < i ==> db.rows@[j].username@ != username@,
            decreases n - i,
        {
            if db.rows[i].username == key {
                proof {
                    lemma_user_key_index_at(db.rows@, user_username_key(), username@, i as int);
                }
                return Some(db.rows[i].clone());
            }
            i += 1;
        }
        proof {
            lemma_user_key_index_at(db.rows@, user_username_key(), username@, n as int);
        }
        None
    }

    /// Insert a user whose password hash is already derived, at clock
    /// value `now`: the next identifier is assigned and both timestamps are
    /// set to `now`.
    pub fn create_with(
        db: &mut UserTable,
        username: String,
        email: String,
        password_hash: String,
        now: i64,
    ) -> (r: User)
        requires
            old(db).wf(),
            old(db).next_id < i64::MAX,
        ensures
            final(db).wf(),
            r == (User {
                id: old(db).next_id,
                username: username,
                email: email,
                password_hash: password_hash,
                created_at: now,
                updated_at: now,
            }),
            r.created_at == r.updated_at,
            final(db).rows@ == old(db).rows@.push(r),
            final(db).next_id == old(db).next_id + 1,
    {
        let id = db.next_id;
        let user = User { id, username, email, password_hash, created_at: now, updated_at: now };
        let r = user.clone();
        db.rows.push(user);
        db.next_id = id + 1;
        r
    }

    /// Create a user from a plaintext password: the password is hashed
    /// with a fresh random salt and only the hash is stored. On success the
    /// stored hash verifies against the given password and, being a
    /// `$`-led PHC encoding, is never the plaintext itself (for any
    /// plaintext that is not `$`-led); on a hashing failure the table is
    /// left untouched.
    pub fn create(db: &mut UserTable, create_user: CreateUser) -> (r: Result<
        User,
        CredentialError,
    >)
        requires
            old(db).wf(),
            old(db).next_id < i64::MAX,
        ensures
            final(db).wf(),
            r is Err ==> {
                &&& r->Err_0 == CredentialError::HashFailed
                &&& final(db).rows@ == old(db).rows@
                &&& final(db).next_id == old(db).next_id
            },
            r is Ok ==> {
                let u = r->Ok_0;
                &&& final(db).rows@ == old(db).rows@.push(u)
                &&& final(db).next_id == old(db).next_id + 1
                &&& u.id == old(db).next_id
                &&& u.username == create_user.username
                &&& u.email == create_user.email
                &&& u.created_at == u.updated_at
                &&& hash_parses(u.password_hash@)
                &&& verify_of(create_user.password@, u.password_hash@)
                &&& u.password_hash@.len() > 0 && u.password_hash@[0] == '$'
                &&& (create_user.password@.len() == 0 || create_user.password@[0] != '$')
                    ==> u.password_hash@ != create_user.password@
            },
    {
        let hash = match Self::hash_password(create_user.password.as_str()) {
            Ok(h) => h,
            Err(e) => {
                return Err(e);
            },
        };
        proof {
            if create_user.password@.len() == 0 || create_user.password@[0] != '$' {
                lemma_hash_not_plaintext(create_user.password@, hash@);
            }
        }
        let now = crate::clock::now_micros();
        Ok(Self::create_with(db, create_user.username, create_user.email, hash, now))
    }

    /// Authenticate by email and password. The user comes back only on a
    /// full match; an unregistered email and a wrong password both come
    /// back as the same `None`, so the caller cannot tell the two apart. A
    /// malformed stored hash is the one error.
    pub fn authenticate(db: &UserTable, login: LoginUser) -> (r: Result<
        Option<User>,
        CredentialError,
    >)
        ensures
            match spec_find_user_by_email(db.rows@, login.email@) {
                Option::None => r == Result::<Option<User>, CredentialError>::Ok(None),
                Option::Some(u) => {
                    &&& (r is Ok <==> hash_parses(u.password_hash@))
                    &&& r is Ok ==> r->Ok_0 == spec_authenticate(
                        db.rows@,
                        login.email@,
                        login.password@,
                    )
                    &&& r is Err ==> r->Err_0 == CredentialError::MalformedHash
                },
            },
    {
        match Self::find_by_email(db, login.email.as_str()) {
            None => Ok(None),
            Some(u) => {
                match Self::verify_password(login.password.as_str(), u.password_hash.as_str()) {
                    Err(e) => Err(e),
                    Ok(true) => Ok(Some(u)),
                    Ok(false) => Ok(None),
                }
            },
        }
    }
}

/// What authentication comes to: the user stored under the email, if its
/// hash verifies the presented password; `None` otherwise, whether because
/// no row carries the email or because the password does not match.
pub open spec fn spec_authenticate(rows: Seq<User>, email: Seq<char>, password: Seq<char>) -> Option<
    User,
> {
    match spec_find_user_by_email(rows, email) {
        Option::None => None,
        Option::Some(u) => if verify_of(password, u.password_hash@) {
            Some(u)
        } else {
            None
        },
    }
}

/// A stored hash is never the plaintext it was derived from: every hash
/// `hash_password` returns is a PHC encoding beginning with the `$`
/// separator, so it differs from any plaintext that is empty or does not
/// itself begin with `$`.
pub proof fn lemma_hash_not_plaintext(password: Seq<char>, h: Seq<char>)
    requires
        h.len() > 0,
        h[0] == '$',
        password.len() == 0 || password[0] != '$',
    ensures
        h != password,
{
    if h == password {
        assert(password.len() > 0);
        assert(password[0] == '$');
    }
}

/// An unregistered email and a registered email with a wrong password
/// authenticate to the very same value, `None`: the return value leaks
/// nothing about whether the account exists.
pub proof fn lemma_authenticate_indistinguishable(
    rows: Seq<User>,
    email1: Seq<char>,
    password1: Seq<char>,
    email2: Seq<char>,
    password2: Seq<char>,
)
    requires
        spec_find_user_by_email(rows, email1) is None,
        spec_find_user_by_email(rows, email2) is Some ==> !verify_of(
            password2,
            spec_find_user_by_email(rows, email2)->0.password_hash@,
        ),
    ensures
        spec_authenticate(rows, email1, password1) == Option::<User>::None,
        spec_authenticate(rows, email2, password2) == Option::<User>::None,
        spec_authenticate(rows, email1, password1) == spec_authenticate(
            rows,
            email2,
            password2,
        ),
{
}

} // verus!
