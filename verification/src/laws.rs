//! Laws of the account service: how registration, sign-in, the activity
//! toggles and the password update compose, stated over the table model that
//! the operations' contracts use.

use vstd::prelude::*;
use crate::hashing::verify_ok;
use crate::store::{
    has_id, has_username, idx_of_id, ids_below, lemma_id_index, lemma_update_same_keys,
    lemma_username_index, lookup_id, lookup_username, sign_in_outcome, unique_rows,
    unique_usernames, with_active, with_password,
};
use crate::user::UserView;
use crate::validation::{is_password_char, valid_password};

verus! {

/// Registering a fresh username, then fetching by the returned identifier,
/// yields exactly the new row; and when the submitted plaintext obeys the
/// password rules, the stored hash is never that plaintext.
pub proof fn lemma_sign_up_then_get(rows: Seq<UserView>, nu: UserView, password: Seq<char>)
    requires
        unique_rows(rows),
        !has_username(rows, nu.username),
        !has_id(rows, nu.id),
        verify_ok(password, nu.password),
        nu.password.len() > 0,
        nu.password[0] == '$',
        valid_password(password),
    ensures
        unique_rows(rows.push(nu)),
        lookup_id(rows.push(nu), nu.id) == Some(nu),
        nu.password != password,
{
    let rows2 = rows.push(nu);
    assert forall|i: int, j: int|
        0 <= i < rows2.len() && 0 <= j < rows2.len() && i != j implies #[trigger] rows2[i].id
        != #[trigger] rows2[j].id by {
        if i == rows.len() {
            assert(rows2[j] == rows[j]);
        } else if j == rows.len() {
            assert(rows2[i] == rows[i]);
        }
    }
    assert forall|i: int, j: int|
        0 <= i < rows2.len() && 0 <= j < rows2.len() && i != j implies #[trigger] rows2[i].username
        != #[trigger] rows2[j].username by {
        if i == rows.len() {
            assert(rows2[j] == rows[j]);
        } else if j == rows.len() {
            assert(rows2[i] == rows[i]);
        }
    }
    lemma_id_index(rows2, rows.len() as int, nu.id);
    if nu.password == password {
        assert(is_password_char(password[0]));
        assert(false);
    }
}

/// What a sign-in decides, for every table: an unknown username is rejected;
/// a known username is accepted exactly when the verifier accepts the
/// plaintext against the stored hash, and then yields that account.
pub proof fn lemma_sign_in_cases(rows: Seq<UserView>, username: Seq<char>, password: Seq<char>)
    requires
        unique_usernames(rows),
    ensures
        !has_username(rows, username) ==> sign_in_outcome(rows, username, password) is None,
        has_username(rows, username) ==> ({
            let row = lookup_username(rows, username)->Some_0;
            &&& verify_ok(password, row.password) ==> sign_in_outcome(rows, username, password)
                == Some(row)
            &&& !verify_ok(password, row.password) ==> sign_in_outcome(
                rows,
                username,
                password,
            ) is None
        }),
{
}

/// Registering a fresh username, then signing in under it, succeeds with the
/// new row whenever the verifier accepts the plaintext against its hash — in
/// particular for the plaintext that was signed up, by the hashing contract —
/// and is rejected for every plaintext the verifier refuses.
pub proof fn lemma_sign_up_then_sign_in(rows: Seq<UserView>, nu: UserView, password: Seq<char>)
    requires
        unique_usernames(rows),
        !has_username(rows, nu.username),
        verify_ok(password, nu.password),
    ensures
        sign_in_outcome(rows.push(nu), nu.username, password) == Some(nu),
        forall|p: Seq<char>| !verify_ok(p, nu.password) ==> sign_in_outcome(
            rows.push(nu),
            nu.username,
            p,
        ) is None,
{
    let rows2 = rows.push(nu);
    assert forall|i: int, j: int|
        0 <= i < rows2.len() && 0 <= j < rows2.len() && i != j implies #[trigger] rows2[i].username
        != #[trigger] rows2[j].username by {
        if i == rows.len() {
            assert(rows2[j] == rows[j]);
        } else if j == rows.len() {
            assert(rows2[i] == rows[i]);
        }
    }
    lemma_username_index(rows2, rows.len() as int, nu.username);
}

/// Setting the active flag, then asking whether the account is active,
/// reads back exactly the flag that was set, and the toggle touches no other
/// field and no other row.
pub proof fn lemma_toggle_then_is_active(rows: Seq<UserView>, id: u128, active: bool)
    requires
        unique_rows(rows),
        ids_below(rows, rows.len() as int),
        has_id(rows, id),
    ensures
        ({
            let idx = idx_of_id(rows, id);
            let rows2 = rows.update(idx, with_active(rows[idx], active));
            &&& unique_rows(rows2)
            &&& lookup_id(rows2, id) == Some(with_active(rows[idx], active))
            &&& lookup_id(rows2, id)->Some_0.active == active
            &&& forall|j: int| 0 <= j < rows2.len() && j != idx ==> rows2[j] == rows[j]
        }),
{
    let idx = idx_of_id(rows, id);
    assert(0 <= idx < rows.len() && rows[idx].id == id);
    let nr = with_active(rows[idx], active);
    lemma_update_same_keys(rows, idx, nr, rows.len() as int);
    let rows2 = rows.update(idx, nr);
    lemma_id_index(rows2, idx, id);
}

/// Replacing an account's password hash, then signing in under its username,
/// succeeds for every plaintext the verifier accepts against the new hash —
/// in particular for the plaintext that was handed to the update, by the
/// hashing contract — and is rejected for every plaintext the verifier
/// refuses against the new hash, the old plaintext among them whenever the
/// verifier does not also accept it against the new hash.
pub proof fn lemma_update_password_then_sign_in(
    rows: Seq<UserView>,
    id: u128,
    hash: Seq<char>,
    new_password: Seq<char>,
    old_password: Seq<char>,
    now: i64,
)
    requires
        unique_rows(rows),
        ids_below(rows, rows.len() as int),
        has_id(rows, id),
        verify_ok(new_password, hash),
        !verify_ok(old_password, hash),
    ensures
        ({
            let idx = idx_of_id(rows, id);
            let nr = with_password(rows[idx], hash, now);
            let rows2 = rows.update(idx, nr);
            &&& unique_rows(rows2)
            &&& sign_in_outcome(rows2, rows[idx].username, new_password) == Some(nr)
            &&& sign_in_outcome(rows2, rows[idx].username, old_password) is None
        }),
{
    let idx = idx_of_id(rows, id);
    assert(0 <= idx < rows.len() && rows[idx].id == id);
    let nr = with_password(rows[idx], hash, now);
    lemma_update_same_keys(rows, idx, nr, rows.len() as int);
    let rows2 = rows.update(idx, nr);
    lemma_username_index(rows2, idx, rows[idx].username);
}

} // verus!
