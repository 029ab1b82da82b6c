use vstd::prelude::*;

use crate::containers::entity::player_data::{LoginHandShake, PlayerConnectionTimer, ReloginCode};
use crate::gametypes::error::AscendingError;
use crate::gametypes::{APP_MAJOR, APP_MINOR, APP_REVISION};
use crate::identity::GlobalKey;
use crate::time_ext::MyInstant;

verus! {

/// What `regex::Regex::new(pattern)` followed by `Regex::is_match(haystack)`
/// gives: `None` when the pattern does not compile, else whether the
/// haystack holds a match.
pub uninterp spec fn regex_match_outcome(pattern: Seq<char>, haystack: Seq<char>) -> Option<bool>;

/// Compiles `pattern` with `regex::Regex::new` and, when that succeeds,
/// asks `Regex::is_match` about `haystack`. The contract claims only that
/// the outcome is a function of the two strings: which patterns compile and
/// which haystacks match is the regex crate's business and is not stated
/// here.
#[verifier::external_body]
fn regex_is_match(pattern: &str, haystack: &str) -> (r: Result<bool, regex::Error>)
    ensures
        r is Ok <==> regex_match_outcome(pattern@, haystack@) is Some,
        r is Ok ==> regex_match_outcome(pattern@, haystack@) == Some(r->Ok_0),
{
    match regex::Regex::new(pattern) {
        Ok(re) => Ok(re.is_match(haystack)),
        Err(e) => Err(e),
    }
}

/// The pattern an e-mail address must match to register.
pub open spec fn email_pattern() -> Seq<char> {
    r"^([a-z0-9_+]([a-z0-9_+.]*[a-z0-9_+])?)@([a-z0-9]+([\-\.]{1}[a-z0-9]+)*\.[a-z]{2,6})"@
}

/// A client is outdated when each part of its version is below the
/// server's.
pub open spec fn spec_outdated(appmajor: u16, appminor: u16, apprevision: u16) -> bool {
    APP_MAJOR > appmajor && APP_MINOR > appminor && APP_REVISION > apprevision
}

pub fn is_outdated(appmajor: u16, appminor: u16, apprevision: u16) -> (r: bool)
    ensures
        r == spec_outdated(appmajor, appminor, apprevision),
{
    APP_MAJOR > appmajor as usize && APP_MINOR > appminor as usize && APP_REVISION > apprevision as usize
}

/// The answer to a registration request that passed the socket checks.
#[derive(Copy, Clone, Debug, PartialEq, Eq, Structural)]
pub enum RegisterCheck {
    /// "Client needs to be updated." (code 1)
    NeedsUpdate,
    /// "Username or Password contains unaccepted Characters" (code 0)
    BadCharacters,
    /// "Username has too many Characters, 64 Characters Max" (code 0)
    NameTooLong,
    /// "Password has too many Characters, 128 Characters Max" (code 0)
    PasswordTooLong,
    /// "Email must be an actual email." (code 0)
    BadEmail,
    /// Go on to the account lookup.
    Proceed,
}

/// The answer to a login request that passed the socket checks.
#[derive(Copy, Clone, Debug, PartialEq, Eq, Structural)]
pub enum LoginCheck {
    /// "Client needs to be updated." (code 1)
    NeedsUpdate,
    /// "Account does not Exist or Password is not Correct." (code 0)
    BadCredentials,
    /// Go on to the account lookup.
    Proceed,
}

impl RegisterCheck {
    /// The notice the client gets, with its code, when the registration stops here.
    pub fn info(self) -> (r: Option<(&'static str, u8)>)
        ensures
            match self {
                RegisterCheck::NeedsUpdate => r matches Some((t, c)) && t@ == "Client needs to be updated."@ && c == 1,
                RegisterCheck::BadCharacters => r matches Some((t, c))
                    && t@ == "Username or Password contains unaccepted Characters"@ && c == 0,
                RegisterCheck::NameTooLong => r matches Some((t, c))
                    && t@ == "Username has too many Characters, 64 Characters Max"@ && c == 0,
                RegisterCheck::PasswordTooLong => r matches Some((t, c))
                    && t@ == "Password has too many Characters, 128 Characters Max"@ && c == 0,
                RegisterCheck::BadEmail => r matches Some((t, c)) && t@ == "Email must be an actual email."@ && c == 0,
                RegisterCheck::Proceed => r is None,
            },
    {
        match self {
            RegisterCheck::NeedsUpdate => Some(("Client needs to be updated.", 1)),
            RegisterCheck::BadCharacters => Some(("Username or Password contains unaccepted Characters", 0)),
            RegisterCheck::NameTooLong => Some(("Username has too many Characters, 64 Characters Max", 0)),
            RegisterCheck::PasswordTooLong => Some(("Password has too many Characters, 128 Characters Max", 0)),
            RegisterCheck::BadEmail => Some(("Email must be an actual email.", 0)),
            RegisterCheck::Proceed => None,
        }
    }
}

impl LoginCheck {
    /// The notice the client gets, with its code, when the login stops here.
    pub fn info(self) -> (r: Option<(&'static str, u8)>)
        ensures
            match self {
                LoginCheck::NeedsUpdate => r matches Some((t, c)) && t@ == "Client needs to be updated."@ && c == 1,
                LoginCheck::BadCredentials => r matches Some((t, c))
                    && t@ == "Account does not Exist or Password is not Correct."@ && c == 0,
                LoginCheck::Proceed => r is None,
            },
    {
        match self {
            LoginCheck::NeedsUpdate => Some(("Client needs to be updated.", 1)),
            LoginCheck::BadCredentials => Some(("Account does not Exist or Password is not Correct.", 0)),
            LoginCheck::Proceed => None,
        }
    }
}

/// What the account lookup of a registration answered: `Some(0)` for a
/// free name and e-mail, `Some(1)` when the name is taken, `Some(2)` when
/// the e-mail is taken, another number on a broken lookup; `None` when the
/// lookup failed. Gives the notice that stops the registration (code 0), or
/// none to go on.
pub fn existence_answer(found: Option<i64>) -> (r: Result<Option<(&'static str, u8)>, AscendingError>)
    ensures
        match found {
            None => r matches Err(AscendingError::UserNotFound),
            Some(0) => r matches Ok(None),
            Some(1) => r matches Ok(Some((t, c))) && t@ == "Username Exists. Please try Another."@ && c == 0,
            Some(2) => r matches Ok(Some((t, c))) && t@ == "Email Already Exists. Please Try Another."@ && c == 0,
            Some(_) => r matches Err(AscendingError::RegisterFail),
        },
{
    match found {
        None => Err(AscendingError::UserNotFound),
        Some(0) => Ok(None),
        Some(1) => Ok(Some(("Username Exists. Please try Another.", 0))),
        Some(2) => Ok(Some(("Email Already Exists. Please Try Another.", 0))),
        Some(_) => Err(AscendingError::RegisterFail),
    }
}

/// What the account lookup of a login found: the account id to log in, or
/// the notice (code 1) when no account has that name and password.
pub fn login_account(found: Option<i64>) -> (r: Result<i64, (&'static str, u8)>)
    ensures
        match found {
            Some(id) => r == Ok::<i64, (&'static str, u8)>(id),
            None => r matches Err((t, c)) && t@ == "Account does not Exist or Password is not Correct."@ && c == 1,
        },
{
    match found {
        Some(id) => Ok(id),
        None => Err(("Account does not Exist or Password is not Correct.", 1)),
    }
}

/// An ASCII letter or digit.
pub open spec fn ascii_alphanumeric(c: char) -> bool {
    ('a' <= c <= 'z') || ('A' <= c <= 'Z') || ('0' <= c <= '9')
}

/// A code of `len` ASCII letters and digits.
pub open spec fn alphanumeric_code(s: Seq<char>, len: int) -> bool {
    &&& s.len() == len
    &&& forall|i: int| 0 <= i < len ==> ascii_alphanumeric(#[trigger] s[i])
}

/// `rand::distr::Alphanumeric.sample_string(&mut rand::rng(), len)`: `len`
/// characters, each an ASCII letter or digit drawn by chance from the
/// thread's generator. Which characters come out is left open.
#[verifier::external_body]
fn random_alphanumeric(len: usize) -> (r: String)
    ensures
        alphanumeric_code(r@, len as int),
{
    rand::distr::SampleString::sample_string(&rand::distr::Alphanumeric, &mut rand::rng(), len)
}

/// The reconnect code and the login handshake a new session gets: each
/// thirty-two random ASCII letters and digits.
pub fn new_session_codes() -> (r: (String, String))
    ensures
        alphanumeric_code(r.0@, 32),
        alphanumeric_code(r.1@, 32),
{
    let code = random_alphanumeric(32);
    let handshake = random_alphanumeric(32);
    (code, handshake)
}

/// The notice for a login whose account is already in use and cannot be
/// taken over, and for one whose player could not be loaded (code 1).
pub fn error_loading_user() -> (r: (&'static str, u8))
    ensures
        r.0@ == "Error Loading User."@,
        r.1 == 1,
{
    ("Error Loading User.", 1)
}

/// Registration rules after the e-mail has been tested: characters first,
/// then the name's length (under 64 bytes), the password's (under 128), and
/// last a matching e-mail and one of the six sprites.
pub open spec fn spec_register_gate(
    chars_accepted: bool,
    username_len: int,
    password_len: int,
    email_matches: bool,
    sprite_id: u8,
) -> RegisterCheck {
    if !chars_accepted {
        RegisterCheck::BadCharacters
    } else if username_len >= 64 {
        RegisterCheck::NameTooLong
    } else if password_len >= 128 {
        RegisterCheck::PasswordTooLong
    } else if !email_matches || sprite_id >= 6 {
        RegisterCheck::BadEmail
    } else {
        RegisterCheck::Proceed
    }
}

pub fn register_gate(
    chars_accepted: bool,
    username: &str,
    password: &str,
    email_matches: bool,
    sprite_id: u8,
) -> (r: RegisterCheck)
    ensures
        r == spec_register_gate(chars_accepted, username.len() as int, password.len() as int, email_matches, sprite_id),
{
    if !chars_accepted {
        RegisterCheck::BadCharacters
    } else if username.len() >= 64 {
        RegisterCheck::NameTooLong
    } else if password.len() >= 128 {
        RegisterCheck::PasswordTooLong
    } else if !email_matches || sprite_id >= 6 {
        RegisterCheck::BadEmail
    } else {
        RegisterCheck::Proceed
    }
}

/// Screening a registration: a socket that already has an entity, or that
/// the server does not know, is refused; an outdated client is told so;
/// then the e-mail pattern is compiled (a failure is an error) and the
/// rules of `spec_register_gate` apply. `chars_accepted` says whether every
/// character of the name and of the password is acceptable.
pub fn check_register(
    entity: Option<GlobalKey>,
    client_known: bool,
    username: &str,
    password: &str,
    email: &str,
    sprite_id: u8,
    appmajor: u16,
    appminor: u16,
    apprevision: u16,
    chars_accepted: bool,
) -> (r: Result<RegisterCheck, AscendingError>)
    ensures
        entity is Some || !client_known ==> r matches Err(AscendingError::InvalidSocket),
        entity is None && client_known && spec_outdated(appmajor, appminor, apprevision)
            ==> r matches Ok(RegisterCheck::NeedsUpdate),
        entity is None && client_known && !spec_outdated(appmajor, appminor, apprevision) ==> {
            match regex_match_outcome(email_pattern(), email@) {
                None => r matches Err(AscendingError::RegexError { .. }),
                Some(matched) => (r matches Ok(c) && c == spec_register_gate(
                    chars_accepted,
                    username.len() as int,
                    password.len() as int,
                    matched,
                    sprite_id,
                )),
            }
        },
{
    if entity.is_some() || !client_known {
        return Err(AscendingError::InvalidSocket);
    }
    if is_outdated(appmajor, appminor, apprevision) {
        return Ok(RegisterCheck::NeedsUpdate);
    }
    let matched = match regex_is_match(
        r"^([a-z0-9_+]([a-z0-9_+.]*[a-z0-9_+])?)@([a-z0-9]+([\-\.]{1}[a-z0-9]+)*\.[a-z]{2,6})",
        email,
    ) {
        Ok(m) => m,
        Err(error) => return Err(AscendingError::RegexError { error }),
    };
    Ok(register_gate(chars_accepted, username, password, matched, sprite_id))
}

/// Screening a login: the same socket checks as a registration, then an
/// outdated client is told so, and a name of 64 bytes or more or a password
/// of 128 or more is answered as a wrong account or password.
pub fn check_login(
    entity: Option<GlobalKey>,
    client_known: bool,
    username: &str,
    password: &str,
    appmajor: u16,
    appminor: u16,
    apprevision: u16,
) -> (r: Result<LoginCheck, AscendingError>)
    ensures
        entity is Some || !client_known ==> r matches Err(AscendingError::InvalidSocket),
        entity is None && client_known ==> (r matches Ok(c) && c == (if spec_outdated(appmajor, appminor, apprevision) {
            LoginCheck::NeedsUpdate
        } else if username.len() >= 64 || password.len() >= 128 {
            LoginCheck::BadCredentials
        } else {
            LoginCheck::Proceed
        })),
{
    if entity.is_some() || !client_known {
        return Err(AscendingError::InvalidSocket);
    }
    if is_outdated(appmajor, appminor, apprevision) {
        return Ok(LoginCheck::NeedsUpdate);
    }
    if username.len() >= 64 || password.len() >= 128 {
        return Ok(LoginCheck::BadCredentials);
    }
    Ok(LoginCheck::Proceed)
}

/// What a login does with the player that its reconnect code names.
#[derive(Copy, Clone, Debug, PartialEq, Eq, Structural)]
pub enum CodeLogin {
    /// The player waits among the disconnected: take it back on this socket.
    Reconnect,
    /// The player holds no codes: forget its name and log in anew.
    DropStaleName,
    /// The code is still held on another socket: disconnect that player,
    /// close its sockets and log in anew.
    KickAndLogin,
    /// The code is still held on this very socket: send the reconnect data again.
    ResendReconnect,
    /// "Error Loading User." (code 1)
    Refuse,
}

/// A non-empty reconnect code that the player still holds.
pub open spec fn code_still_held(old: ReloginCode, reconnect_code: Seq<char>) -> bool {
    reconnect_code.len() > 0 && old.codes().contains(reconnect_code)
}

pub fn decide_code_login(
    disconnected: bool,
    old: &ReloginCode,
    reconnect_code: &String,
    same_socket: bool,
) -> (r: CodeLogin)
    ensures
        r == (if disconnected {
            CodeLogin::Reconnect
        } else if old.codes().len() == 0 {
            CodeLogin::DropStaleName
        } else if code_still_held(*old, reconnect_code@) {
            if same_socket { CodeLogin::ResendReconnect } else { CodeLogin::KickAndLogin }
        } else {
            CodeLogin::Refuse
        }),
{
    if disconnected {
        return CodeLogin::Reconnect;
    }
    if old.is_empty() {
        return CodeLogin::DropStaleName;
    }
    if !reconnect_code.as_str().is_empty() && old.contains(reconnect_code) {
        if same_socket { CodeLogin::ResendReconnect } else { CodeLogin::KickAndLogin }
    } else {
        CodeLogin::Refuse
    }
}

/// What a login does with another player already in the world under the
/// same account name.
#[derive(Copy, Clone, Debug, PartialEq, Eq, Structural)]
pub enum NameLogin {
    /// That player holds no codes: forget its name.
    DropStaleName,
    /// The login carries a code that player holds: disconnect it.
    KickOld,
    /// "Error Loading User." (code 1)
    Refuse,
}

pub fn decide_name_login(old: &ReloginCode, reconnect_code: &String) -> (r: NameLogin)
    ensures
        r == (if old.codes().len() == 0 {
            NameLogin::DropStaleName
        } else if code_still_held(*old, reconnect_code@) {
            NameLogin::KickOld
        } else {
            NameLogin::Refuse
        }),
{
    if old.is_empty() {
        NameLogin::DropStaleName
    } else if !reconnect_code.as_str().is_empty() && old.contains(reconnect_code) {
        NameLogin::KickOld
    } else {
        NameLogin::Refuse
    }
}

/// A new connection must finish its handshake within a minute of `tick`.
pub fn connection_deadline(tick: MyInstant) -> (r: PlayerConnectionTimer)
    requires
        tick.0 + 60000 <= u64::MAX,
    ensures
        r.0.0 == tick.0 + 60000,
{
    PlayerConnectionTimer(tick.add_millis(60000))
}

/// Completing a login handshake: the socket's player must exist and hold
/// exactly the handshake sent; anything else is an invalid socket.
pub fn check_handshake(stored: Option<&LoginHandShake>, given: &String) -> (r: Result<(), AscendingError>)
    ensures
        r is Ok <==> (stored matches Some(h) && h.handshake@ == given@),
        r is Err ==> r matches Err(AscendingError::InvalidSocket),
{
    match stored {
        Some(h) => {
            if h.handshake == *given {
                Ok(())
            } else {
                Err(AscendingError::InvalidSocket)
            }
        },
        None => Err(AscendingError::InvalidSocket),
    }
}

/// What a player's request to leave does.
#[derive(Copy, Clone, Debug, PartialEq, Eq, Structural)]
pub enum LeaveGame {
    /// Out of combat: its sockets let go of the player at once.
    Detach,
    /// In combat: the player stays until its connection times out, now.
    WaitForTimeout,
}

pub fn decide_leave(in_combat: bool) -> (r: LeaveGame)
    ensures
        r == (if in_combat { LeaveGame::WaitForTimeout } else { LeaveGame::Detach }),
{
    if in_combat { LeaveGame::WaitForTimeout } else { LeaveGame::Detach }
}

/// Taking a disconnected player back with its reconnect code: the code must
/// name a player in the world who waits among the disconnected, and the
/// socket must be known; else the socket is invalid.
pub fn check_reconnect(code_owner: Option<GlobalKey>, player_exists: bool, disconnected: bool, client_known: bool) -> (r: Result<GlobalKey, AscendingError>)
    ensures
        match code_owner {
            Some(k) => if player_exists && disconnected && client_known {
                r matches Ok(e) && e == k
            } else {
                r matches Err(AscendingError::InvalidSocket)
            },
            None => r matches Err(AscendingError::InvalidSocket),
        },
{
    match code_owner {
        Some(k) => {
            if player_exists && disconnected && client_known {
                Ok(k)
            } else {
                Err(AscendingError::InvalidSocket)
            }
        },
        None => Err(AscendingError::InvalidSocket),
    }
}

} // verus!
