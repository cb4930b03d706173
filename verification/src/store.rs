//! The account service: a user table with unique identifiers and unique
//! usernames, and the lifecycle operations over it.
//!
//! The table is the in-memory model of the relational `users` table: one row
//! per account, no row ever hard-deleted. Each operation is a single
//! round-trip against it and returns the typed outcome of the corresponding
//! request.

use vstd::prelude::*;
use crate::hashing::{hash_password, verify_matches, verify_ok, MAX_PLAINTEXT_LEN};
use crate::user::{Credentials, SignUpPayload, User, UserError, UserView};

verus! {

/// Rows carry pairwise distinct identifiers.
pub open spec fn unique_ids(rows: Seq<UserView>) -> bool {
    forall|i: int, j: int|
        #![trigger rows[i].id, rows[j].id]
        0 <= i < rows.len() && 0 <= j < rows.len() && i != j ==> rows[i].id != rows[j].id
}

/// Rows carry pairwise distinct usernames.
pub open spec fn unique_usernames(rows: Seq<UserView>) -> bool {
    forall|i: int, j: int|
        #![trigger rows[i].username, rows[j].username]
        0 <= i < rows.len() && 0 <= j < rows.len() && i != j ==> rows[i].username
            != rows[j].username
}

/// Rows carry pairwise distinct identifiers and pairwise distinct usernames.
pub open spec fn unique_rows(rows: Seq<UserView>) -> bool {
    unique_ids(rows) && unique_usernames(rows)
}

/// Every identifier in `rows` lies below `bound`; fresh identifiers are
/// drawn at the row count, so this keeps them fresh.
pub open spec fn ids_below(rows: Seq<UserView>, bound: int) -> bool {
    forall|i: int| 0 <= i < rows.len() ==> #[trigger] rows[i].id < bound
}

pub open spec fn has_id(rows: Seq<UserView>, id: u128) -> bool {
    exists|i: int| 0 <= i < rows.len() && (#[trigger] rows[i]).id == id
}

pub open spec fn idx_of_id(rows: Seq<UserView>, id: u128) -> int {
    choose|i: int| 0 <= i < rows.len() && (#[trigger] rows[i]).id == id
}

/// The row with identifier `id`, if any.
pub open spec fn lookup_id(rows: Seq<UserView>, id: u128) -> Option<UserView> {
    if has_id(rows, id) {
        Some(rows[idx_of_id(rows, id)])
    } else {
        None
    }
}

pub open spec fn has_username(rows: Seq<UserView>, name: Seq<char>) -> bool {
    exists|i: int| 0 <= i < rows.len() && (#[trigger] rows[i]).username == name
}

pub open spec fn idx_of_username(rows: Seq<UserView>, name: Seq<char>) -> int {
    choose|i: int| 0 <= i < rows.len() && (#[trigger] rows[i]).username == name
}

/// The row with username `name`, if any.
pub open spec fn lookup_username(rows: Seq<UserView>, name: Seq<char>) -> Option<UserView> {
    if has_username(rows, name) {
        Some(rows[idx_of_username(rows, name)])
    } else {
        None
    }
}

/// `row` with its email replaced and its update time stamped.
pub open spec fn with_email(row: UserView, email: Seq<char>, now: i64) -> UserView {
    UserView { email: Some(email), updated_at: Some(now), ..row }
}

/// `row` with its password hash replaced and its update time stamped.
pub open spec fn with_password(row: UserView, hash: Seq<char>, now: i64) -> UserView {
    UserView { password: hash, updated_at: Some(now), ..row }
}

/// `row` with its active flag set.
pub open spec fn with_active(row: UserView, active: bool) -> UserView {
    UserView { active: active, ..row }
}

/// What a sign-in request decides, given the table: the matched row when the
/// username is present and the verifier accepts the password against its
/// hash, and no row — with no hint as to which check failed — otherwise.
pub open spec fn sign_in_outcome(
    rows: Seq<UserView>,
    username: Seq<char>,
    password: Seq<char>,
) -> Option<UserView> {
    match lookup_username(rows, username) {
        Some(row) => if verify_ok(password, row.password) {
            Some(row)
        } else {
            None
        },
        None => None,
    }
}

/// The account service over the user table.
pub struct UserStore {
    users: Vec<User>,
}

impl View for UserStore {
    type V = Seq<UserView>;

    closed spec fn view(&self) -> Seq<UserView> {
        Seq::new(self.users@.len(), |i: int| self.users@[i]@)
    }
}

impl UserStore {
    /// Table well-formedness: unique rows, identifiers below the row count.
    pub open spec fn wf(&self) -> bool {
        unique_rows(self@) && ids_below(self@, self@.len() as int)
    }

    /// An empty table.
    pub fn new() -> (s: Self)
        ensures
            s.wf(),
            s@.len() == 0,
    {
        UserStore { users: Vec::new() }
    }

    /// How many accounts the table holds.
    pub fn len(&self) -> (n: usize)
        ensures
            n == self@.len(),
    {
        self.users.len()
    }

    fn find_by_id(&self, id: u128) -> (r: Option<usize>)
        ensures
            match r {
                Some(i) => i < self@.len() && self@[i as int].id == id && has_id(self@, id),
                None => !has_id(self@, id),
            },
    {
        let n = self.users.len();
        let mut i: usize = 0;
        while i < n
            invariant
                n == self@.len(),
                0 <= i <= n,
                forall|j: int| 0 <= j < i ==> (#[trigger] self@[j]).id != id,
            decreases n - i,
        {
            if self.users[i].id == id {
                return Some(i);
            }
            i += 1;
        }
        None
    }

    fn find_by_username(&self, name: &String) -> (r: Option<usize>)
        ensures
            match r {
                Some(i) => i < self@.len() && self@[i as int].username == name@ && has_username(
                    self@,
                    name@,
                ),
                None => !has_username(self@, name@),
            },
    {
        let n = self.users.len();
        let mut i: usize = 0;
        while i < n
            invariant
                n == self@.len(),
                0 <= i <= n,
                forall|j: int| 0 <= j < i ==> (#[trigger] self@[j]).username != name@,
            decreases n - i,
        {
            if self.users[i].username.eq(name) {
                return Some(i);
            }
            i += 1;
        }
        None
    }

    /// Register a new account: one insert, rejected only when the table's
    /// username-uniqueness constraint is violated. The plaintext is replaced
    /// by its hash before the row is written, and the new row starts active,
    /// with no update or login time.
    pub fn sign_up(&mut self, payload: SignUpPayload, now: i64) -> (r: Result<
        u128,
        UserError,
    >)
        requires
            old(self).wf(),
            payload.password@.len() < MAX_PLAINTEXT_LEN,
        ensures
            final(self).wf(),
            has_username(old(self)@, payload.username@) ==> (r matches Err(
                UserError::Registeration(_),
            )) && final(self)@ == old(self)@,
            !has_username(old(self)@, payload.username@) ==> ({
                let nu = final(self)@.last();
                &&& r matches Ok(id) && id == nu.id
                &&& final(self)@ == old(self)@.push(nu)
                &&& !has_id(old(self)@, nu.id)
                &&& nu.username == payload.username@
                &&& nu.email == (match payload.email {
                    Some(e) => Some(e@),
                    None => None,
                })
                &&& verify_ok(payload.password@, nu.password)
                &&& nu.password.len() > 0 && nu.password[0] == '$'
                &&& nu.created_at == now
                &&& nu.updated_at is None
                &&& nu.last_login is None
                &&& nu.active == true
            }),
    {
        if self.find_by_username(&payload.username).is_some() {
            return Err(UserError::Registeration(String::from_str("duplicate username")));
        }
        let id = self.users.len() as u128;
        assert(!has_id(self@, id));
        let hash = hash_password(payload.password.as_str());
        let user = User {
            id,
            username: payload.username,
            email: payload.email,
            password: hash,
            created_at: now,
            updated_at: None,
            last_login: None,
            active: true,
        };
        self.users.push(user);
        proof {
            assert(self@ =~= old(self)@.push(self@.last()));
            assert forall|i: int, j: int|
                0 <= i < self@.len() && 0 <= j < self@.len() && i != j implies #[trigger] self@[i].username
                != #[trigger] self@[j].username by {
                if i == self@.len() - 1 {
                    assert(self@[j] == old(self)@[j]);
                } else if j == self@.len() - 1 {
                    assert(self@[i] == old(self)@[i]);
                }
            }
        }
        Ok(id)
    }

    /// Sign an account in: look the username up, then check the plaintext
    /// against the stored hash. An unknown username and a rejected password
    /// produce the same undifferentiated rejection.
    pub fn sign_in(&self, creds: Credentials) -> (r: Result<User, UserError>)
        requires
            self.wf(),
        ensures
            match sign_in_outcome(self@, creds.username@, creds.password@) {
                Some(row) => r matches Ok(u) && u@ == row,
                None => r matches Err(UserError::BadCredientials(_)),
            },
    {
        match self.find_by_username(&creds.username) {
            Some(i) => {
                proof {
                    lemma_username_index(self@, i as int, creds.username@);
                }
                let user = &self.users[i];
                assert(user@ == self@[i as int]);
                if verify_matches(creds.password.as_str(), user.password.as_str()) {
                    Ok(user.clone())
                } else {
                    Err(UserError::BadCredientials(String::from_str("password mismatch")))
                }
            },
            None => Err(UserError::BadCredientials(String::from_str("no such user"))),
        }
    }

    /// Fetch an account by identifier; fails when no row carries it.
    pub fn get(&self, id: u128) -> (r: Result<User, UserError>)
        requires
            self.wf(),
        ensures
            match lookup_id(self@, id) {
                Some(row) => r matches Ok(u) && u@ == row,
                None => r matches Err(UserError::Fetching(_)),
            },
    {
        match self.find_by_id(id) {
            Some(i) => {
                proof {
                    lemma_id_index(self@, i as int, id);
                }
                let user = &self.users[i];
                assert(user@ == self@[i as int]);
                Ok(user.clone())
            },
            None => Err(UserError::Fetching(String::from_str("no such user"))),
        }
    }

    /// Replace the email of the account with identifier `id` and stamp its
    /// update time. Success is reported even when no row matches: the
    /// underlying statement is a targeted update with no existence check.
    pub fn update_email(&mut self, id: u128, new_email: String, now: i64) -> (r: Result<
        bool,
        UserError,
    >)
        requires
            old(self).wf(),
        ensures
            final(self).wf(),
            r matches Ok(b) && b == true,
            has_id(old(self)@, id) ==> final(self)@ == old(self)@.update(
                idx_of_id(old(self)@, id),
                with_email(old(self)@[idx_of_id(old(self)@, id)], new_email@, now),
            ),
            !has_id(old(self)@, id) ==> final(self)@ == old(self)@,
    {
        match self.find_by_id(id) {
            Some(i) => {
                proof {
                    lemma_id_index(self@, i as int, id);
                }
                self.users[i].email = Some(new_email);
                self.users[i].updated_at = Some(now);
                proof {
                    let nr = with_email(old(self)@[i as int], new_email@, now);
                    assert(self@ =~= old(self)@.update(i as int, nr));
                    lemma_update_same_keys(old(self)@, i as int, nr, old(self)@.len() as int);
                }
                Ok(true)
            },
            None => Ok(true),
        }
    }

    /// Replace the password of the account with identifier `id` by the hash
    /// of `new_password`, and stamp its update time. Success is reported even
    /// when no row matches, as with the email update.
    pub fn update_password(&mut self, id: u128, new_password: String, now: i64) -> (r: Result<
        bool,
        UserError,
    >)
        requires
            old(self).wf(),
            new_password@.len() < MAX_PLAINTEXT_LEN,
        ensures
            final(self).wf(),
            r matches Ok(b) && b == true,
            has_id(old(self)@, id) ==> ({
                let idx = idx_of_id(old(self)@, id);
                let nr = final(self)@[idx];
                &&& final(self)@ == old(self)@.update(idx, nr)
                &&& nr == with_password(old(self)@[idx], nr.password, now)
                &&& verify_ok(new_password@, nr.password)
                &&& nr.password.len() > 0 && nr.password[0] == '$'
            }),
            !has_id(old(self)@, id) ==> final(self)@ == old(self)@,
    {
        match self.find_by_id(id) {
            Some(i) => {
                proof {
                    lemma_id_index(self@, i as int, id);
                }
                let hash = hash_password(new_password.as_str());
                let ghost hash_view = hash@;
                self.users[i].password = hash;
                self.users[i].updated_at = Some(now);
                proof {
                    let nr = with_password(old(self)@[i as int], hash_view, now);
                    assert(self@ =~= old(self)@.update(i as int, nr));
                    lemma_update_same_keys(old(self)@, i as int, nr, old(self)@.len() as int);
                }
                Ok(true)
            },
            None => Ok(true),
        }
    }

    /// Set the active flag of the account with identifier `id`. Success is
    /// reported even when no row matches.
    pub fn activate(&mut self, id: u128) -> (r: Result<(), UserError>)
        requires
            old(self).wf(),
        ensures
            final(self).wf(),
            r is Ok,
            has_id(old(self)@, id) ==> final(self)@ == old(self)@.update(
                idx_of_id(old(self)@, id),
                with_active(old(self)@[idx_of_id(old(self)@, id)], true),
            ),
            !has_id(old(self)@, id) ==> final(self)@ == old(self)@,
    {
        self.set_active(id, true)
    }

    /// Clear the active flag of the account with identifier `id`. Success is
    /// reported even when no row matches.
    pub fn de_activate(&mut self, id: u128) -> (r: Result<(), UserError>)
        requires
            old(self).wf(),
        ensures
            final(self).wf(),
            r is Ok,
            has_id(old(self)@, id) ==> final(self)@ == old(self)@.update(
                idx_of_id(old(self)@, id),
                with_active(old(self)@[idx_of_id(old(self)@, id)], false),
            ),
            !has_id(old(self)@, id) ==> final(self)@ == old(self)@,
    {
        self.set_active(id, false)
    }

    fn set_active(&mut self, id: u128, active: bool) -> (r: Result<(), UserError>)
        requires
            old(self).wf(),
        ensures
            final(self).wf(),
            r is Ok,
            has_id(old(self)@, id) ==> final(self)@ == old(self)@.update(
                idx_of_id(old(self)@, id),
                with_active(old(self)@[idx_of_id(old(self)@, id)], active),
            ),
            !has_id(old(self)@, id) ==> final(self)@ == old(self)@,
    {
        match self.find_by_id(id) {
            Some(i) => {
                proof {
                    lemma_id_index(self@, i as int, id);
                }
                self.users[i].active = active;
                proof {
                    let nr = with_active(old(self)@[i as int], active);
                    assert(self@ =~= old(self)@.update(i as int, nr));
                    lemma_update_same_keys(old(self)@, i as int, nr, old(self)@.len() as int);
                }
                Ok(())
            },
            None => Ok(()),
        }
    }

    /// Read the active flag of an account, through a fetch by identifier.
    pub fn is_active(&self, id: u128) -> (r: Result<bool, UserError>)
        requires
            self.wf(),
        ensures
            match lookup_id(self@, id) {
                Some(row) => r matches Ok(b) && b == row.active,
                None => r matches Err(UserError::ActivationCheck(_)),
            },
    {
        match self.get(id) {
            Ok(user) => Ok(user.active),
            Err(e) => Err(UserError::ActivationCheck(e.message())),
        }
    }
}

/// Replacing a row by one that keeps its identifier and username preserves
/// the table's well-formedness.
pub proof fn lemma_update_same_keys(rows: Seq<UserView>, i: int, nr: UserView, bound: int)
    requires
        unique_rows(rows),
        ids_below(rows, bound),
        0 <= i < rows.len(),
        nr.id == rows[i].id,
        nr.username == rows[i].username,
    ensures
        unique_rows(rows.update(i, nr)),
        ids_below(rows.update(i, nr), bound),
{
    let rows2 = rows.update(i, nr);
    assert forall|p: int, q: int|
        0 <= p < rows2.len() && 0 <= q < rows2.len() && p != q implies #[trigger] rows2[p].id
        != #[trigger] rows2[q].id by {
        assert(rows2[p].id == rows[p].id);
        assert(rows2[q].id == rows[q].id);
    }
    assert forall|p: int, q: int|
        0 <= p < rows2.len() && 0 <= q < rows2.len() && p != q implies #[trigger] rows2[p].username
        != #[trigger] rows2[q].username by {
        assert(rows2[p].username == rows[p].username);
        assert(rows2[q].username == rows[q].username);
    }
    assert forall|p: int| 0 <= p < rows2.len() implies #[trigger] rows2[p].id < bound by {
        assert(rows2[p].id == rows[p].id);
    }
}

/// Under unique usernames, the row found at `i` is the row the lookup names.
pub proof fn lemma_username_index(rows: Seq<UserView>, i: int, name: Seq<char>)
    requires
        unique_usernames(rows),
        0 <= i < rows.len(),
        rows[i].username == name,
    ensures
        has_username(rows, name),
        idx_of_username(rows, name) == i,
        lookup_username(rows, name) == Some(rows[i]),
{
    assert(has_username(rows, name));
    let j = idx_of_username(rows, name);
    assert(0 <= j < rows.len() && rows[j].username == name);
    assert(rows[i].username == rows[j].username);
    assert(j == i);
}

/// Under unique identifiers, the row found at `i` is the row the lookup names.
pub proof fn lemma_id_index(rows: Seq<UserView>, i: int, id: u128)
    requires
        unique_ids(rows),
        0 <= i < rows.len(),
        rows[i].id == id,
    ensures
        has_id(rows, id),
        idx_of_id(rows, id) == i,
        lookup_id(rows, id) == Some(rows[i]),
{
    assert(has_id(rows, id));
    let j = idx_of_id(rows, id);
    assert(0 <= j < rows.len() && rows[j].id == id);
    assert(rows[i].id == rows[j].id);
    assert(j == i);
}

} // verus!
