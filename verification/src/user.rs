//! The account record and the transient request payloads.

use vstd::prelude::*;
use crate::validation::{valid_password, valid_username, validate_password, validate_username};

verus! {

/// Mathematical model of one account row.
#[verifier::ext_equal]
pub ghost struct UserView {
    pub id: u128,
    pub username: Seq<char>,
    pub email: Option<Seq<char>>,
    pub password: Seq<char>,
    pub created_at: i64,
    pub updated_at: Option<i64>,
    pub last_login: Option<i64>,
    pub active: bool,
}

/// One registered account. The identifier is the 128-bit value of the row's
/// UUID, timestamps are seconds, and `password` holds only the opaque hash,
/// never the plaintext.
pub struct User {
    pub id: u128,
    pub username: String,
    pub email: Option<String>,
    pub password: String,
    pub created_at: i64,
    pub updated_at: Option<i64>,
    pub last_login: Option<i64>,
    pub active: bool,
}

impl View for User {
    type V = UserView;

    open spec fn view(&self) -> UserView {
        UserView {
            id: self.id,
            username: self.username@,
            email: match self.email {
                Some(e) => Some(e@),
                None => None,
            },
            password: self.password@,
            created_at: self.created_at,
            updated_at: self.updated_at,
            last_login: self.last_login,
            active: self.active,
        }
    }
}

/// How an account renders as text: the password hash is replaced by a
/// placeholder, so the stored hash never appears.
pub open spec fn redacted_spec(u: UserView) -> Seq<char> {
    "User { id: "@ + decimal(u.id) + ", username: "@ + u.username + ", password: [redacted] }"@
}

impl User {
    /// The account as display text, with the password field redacted.
    pub fn redacted(&self) -> (r: String)
        ensures
            r@ == redacted_spec(self@),
    {
        let mut s = String::from_str("User { id: ");
        let id_text = u128_to_decimal(self.id);
        s.append(id_text.as_str());
        s.append(", username: ");
        s.append(self.username.as_str());
        s.append(", password: [redacted] }");
        s
    }
}

impl Clone for User {
    fn clone(&self) -> (r: Self)
        ensures
            r@ == self@,
    {
        User {
            id: self.id,
            username: self.username.clone(),
            email: match &self.email {
                Some(e) => Some(e.clone()),
                None => None,
            },
            password: self.password.clone(),
            created_at: self.created_at,
            updated_at: self.updated_at,
            last_login: self.last_login,
            active: self.active,
        }
    }
}

/// The character for one decimal digit.
pub open spec fn digit_char(d: int) -> char {
    if d == 0 {
        '0'
    } else if d == 1 {
        '1'
    } else if d == 2 {
        '2'
    } else if d == 3 {
        '3'
    } else if d == 4 {
        '4'
    } else if d == 5 {
        '5'
    } else if d == 6 {
        '6'
    } else if d == 7 {
        '7'
    } else if d == 8 {
        '8'
    } else {
        '9'
    }
}

/// The decimal rendering of `n`, most significant digit first.
pub open spec fn decimal(n: u128) -> Seq<char>
    decreases n,
{
    if n < 10 {
        seq![digit_char(n as int)]
    } else {
        decimal(n / 10) + seq![digit_char((n % 10) as int)]
    }
}

fn digit_str(d: u128) -> (r: &'static str)
    requires
        d < 10,
    ensures
        r@ == seq![digit_char(d as int)],
{
    proof {
        reveal_strlit("0");
        reveal_strlit("1");
        reveal_strlit("2");
        reveal_strlit("3");
        reveal_strlit("4");
        reveal_strlit("5");
        reveal_strlit("6");
        reveal_strlit("7");
        reveal_strlit("8");
        reveal_strlit("9");
    }
    let r: &'static str = if d == 0 {
        "0"
    } else if d == 1 {
        "1"
    } else if d == 2 {
        "2"
    } else if d == 3 {
        "3"
    } else if d == 4 {
        "4"
    } else if d == 5 {
        "5"
    } else if d == 6 {
        "6"
    } else if d == 7 {
        "7"
    } else if d == 8 {
        "8"
    } else {
        "9"
    };
    proof {
        assert(r@ =~= seq![digit_char(d as int)]);
    }
    r
}

/// Render `n` in decimal.
pub fn u128_to_decimal(n: u128) -> (r: String)
    ensures
        r@ == decimal(n),
    decreases n,
{
    if n < 10 {
        String::from_str(digit_str(n))
    } else {
        let mut s = u128_to_decimal(n / 10);
        s.append(digit_str(n % 10));
        s
    }
}

/// Transient sign-in input: a username and the plaintext password.
pub struct Credentials {
    pub username: String,
    pub password: String,
}

impl Credentials {
    pub open spec fn valid(&self) -> bool {
        valid_username(self.username@) && valid_password(self.password@)
    }

    /// Input-boundary check: username and password rules both hold.
    pub fn validate(&self) -> (r: bool)
        ensures
            r == self.valid(),
    {
        let u = validate_username(self.username.as_str());
        let p = validate_password(self.password.as_str());
        u && p
    }
}

/// Transient registration input: username, optional email, and the plaintext
/// password.
pub struct SignUpPayload {
    pub username: String,
    pub email: Option<String>,
    pub password: String,
}

impl SignUpPayload {
    pub open spec fn valid(&self) -> bool {
        valid_username(self.username@) && valid_password(self.password@)
    }

    /// Input-boundary check: username and password rules both hold.
    pub fn validate(&self) -> (r: bool)
        ensures
            r == self.valid(),
    {
        let u = validate_username(self.username.as_str());
        let p = validate_password(self.password.as_str());
        u && p
    }
}

/// One failure kind per operation, each carrying the underlying message as an
/// opaque string.
#[derive(Debug)]
pub enum UserError {
    BadCredientials(String),
    Registeration(String),
    Fetching(String),
    Activation(String),
    DeActivation(String),
    ActivationCheck(String),
    UpdateingEmail(String),
    UpdateingPassword(String),
}

impl UserError {
    pub open spec fn message_spec(&self) -> Seq<char> {
        match self {
            UserError::BadCredientials(_) => "Credentials do not match our records"@,
            UserError::Registeration(_) => "Error while saving user"@,
            UserError::Fetching(_) => "Error while getting user"@,
            UserError::Activation(_) => "Error while activating user"@,
            UserError::DeActivation(_) => "Error while deactivating user"@,
            UserError::ActivationCheck(_) => "Error while checking user activity"@,
            UserError::UpdateingEmail(_) => "Error while updating user email"@,
            UserError::UpdateingPassword(_) => "Error while updating user password"@,
        }
    }

    /// The user-facing description of this failure kind. It never exposes the
    /// wrapped payload, so a sign-in rejection reads the same whether the
    /// username was unknown or the password wrong.
    pub fn message(&self) -> (r: String)
        ensures
            r@ == self.message_spec(),
    {
        match self {
            UserError::BadCredientials(_) => String::from_str("Credentials do not match our records"),
            UserError::Registeration(_) => String::from_str("Error while saving user"),
            UserError::Fetching(_) => String::from_str("Error while getting user"),
            UserError::Activation(_) => String::from_str("Error while activating user"),
            UserError::DeActivation(_) => String::from_str("Error while deactivating user"),
            UserError::ActivationCheck(_) => String::from_str("Error while checking user activity"),
            UserError::UpdateingEmail(_) => String::from_str("Error while updating user email"),
            UserError::UpdateingPassword(_) => String::from_str("Error while updating user password"),
        }
    }
}

} // verus!
