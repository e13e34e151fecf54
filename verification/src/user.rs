//! Rules of user accounts: password strength, username normalization, the default workspace of
//! a new user, and the decisions of creating users, authenticating them and changing passwords.

use crate::domain::ids::{DirectoryId, UserId};
use crate::domain::path::DirectoryPath;
use crate::error::{Conflict, CoreError};
use crate::text::{chars_of, join2, substring};
use vstd::prelude::*;
use vstd::string::*;

verus! {

/// What a user may do: everything, or work within its workspace.
#[derive(Debug, Clone, Copy, PartialEq, Eq, Structural)]
pub enum UserRole {
    Administrator,
    Member,
}

/// The shortest accepted password, in bytes.
pub const MIN_PASSWORD_LEN: usize = 4;

/// Refuse a password shorter than four bytes of UTF-8.
pub fn validate_password(password: &str) -> (r: Result<(), CoreError>)
    ensures
        match r {
            Ok(_) => password.spec_bytes().len() >= MIN_PASSWORD_LEN,
            Err(e) => password.spec_bytes().len() < MIN_PASSWORD_LEN && e == CoreError::WeakPassword,
        },
{
    let bytes = password.as_bytes_vec();
    if bytes.len() < MIN_PASSWORD_LEN {
        return Err(CoreError::WeakPassword);
    }
    Ok(())
}

/// A character with the Unicode `White_Space` property.
pub open spec fn is_white_space(c: char) -> bool {
    ||| ('\u{9}' <= c && c <= '\u{d}')
    ||| c == ' '
    ||| c == '\u{85}'
    ||| c == '\u{a0}'
    ||| c == '\u{1680}'
    ||| ('\u{2000}' <= c && c <= '\u{200a}')
    ||| c == '\u{2028}'
    ||| c == '\u{2029}'
    ||| c == '\u{202f}'
    ||| c == '\u{205f}'
    ||| c == '\u{3000}'
}

pub(crate) fn white_space(c: char) -> (r: bool)
    ensures
        r == is_white_space(c),
{
    ('\u{9}' <= c && c <= '\u{d}') || c == ' ' || c == '\u{85}' || c == '\u{a0}' || c == '\u{1680}'
        || ('\u{2000}' <= c && c <= '\u{200a}') || c == '\u{2028}' || c == '\u{2029}' || c
        == '\u{202f}' || c == '\u{205f}' || c == '\u{3000}'
}

/// `t` is `s` without its leading and trailing white space.
pub open spec fn trimmed(s: Seq<char>, t: Seq<char>) -> bool {
    exists|a: int, b: int|
        0 <= a <= b <= s.len() && t == s.subrange(a, b) && (forall|i: int|
            0 <= i < a ==> is_white_space(#[trigger] s[i])) && (forall|i: int|
            b <= i < s.len() ==> is_white_space(#[trigger] s[i])) && (a < b ==> !is_white_space(s[a])
            && !is_white_space(s[b - 1]))
}

/// The username as stored and looked up: without leading and trailing white space.
pub fn normalize_username(username: &str) -> (r: String)
    ensures
        trimmed(username@, r@),
{
    let chars = chars_of(username);
    let n = chars.len();
    let mut a: usize = 0;
    while a < n && white_space(chars[a])
        invariant
            a <= n,
            n == chars@.len(),
            chars@ == username@,
            forall|i: int| 0 <= i < a ==> is_white_space(#[trigger] username@[i]),
        decreases n - a,
    {
        a = a + 1;
    }
    let mut b: usize = n;
    while b > a && white_space(chars[b - 1])
        invariant
            a <= b <= n,
            n == chars@.len(),
            chars@ == username@,
            forall|i: int| b <= i < n ==> is_white_space(#[trigger] username@[i]),
        decreases b - a,
    {
        b = b - 1;
    }
    proof {
        assert(a < b ==> !is_white_space(username@[a as int]));
        assert(a < b ==> !is_white_space(username@[b - 1]));
    }
    substring(username, a, b)
}

/// The workspace path of a new user: the one asked for, else the root for an administrator
/// and `users/<username>` for a member.
pub open spec fn workspace_path_text(username: Seq<char>, role: UserRole, requested: Option<Seq<char>>) -> Seq<char> {
    match requested {
        Some(p) => p,
        None => if role == UserRole::Administrator {
            Seq::empty()
        } else {
            seq!['u', 's', 'e', 'r', 's', '/'] + username
        },
    }
}

/// The view of an optional Directory path.
pub open spec fn opt_path(o: Option<DirectoryPath>) -> Option<Seq<char>> {
    match o {
        Some(p) => Some(p@),
        None => None,
    }
}

/// The workspace Directory path of a new user; a username that makes no valid path is refused.
pub fn workspace_path(username: &str, role: UserRole, requested: Option<DirectoryPath>) -> (r: Result<
    DirectoryPath,
    CoreError,
>)
    ensures
        match r {
            Ok(p) => p@ == workspace_path_text(username@, role, opt_path(requested)),
            Err(e) => requested is None && role != UserRole::Administrator
                && !crate::domain::path::valid_directory_path(
                workspace_path_text(username@, role, None),
            ) && e == CoreError::InvalidDirectoryPath,
        },
{
    match requested {
        Some(p) => {
            Ok(p)
        },
        None => {
            if role == UserRole::Administrator {
                return Ok(DirectoryPath::root());
            }
            let prefix = "users/";
            proof {
                reveal_strlit("users/");
                assert(prefix@ =~= seq!['u', 's', 'e', 'r', 's', '/']);
            }
            let path = join2(prefix, username);
            DirectoryPath::from_path(path.as_str())
        },
    }
}

/// What the user store holds of a user that the account rules read: its identity, its stored
/// username, whether it is active, and its credential hash.
#[derive(Debug, Clone)]
pub struct StoredUser {
    pub id: UserId,
    pub username: String,
    pub active: bool,
    pub credential_hash: String,
}

/// The outcome of the last performed account operation.
#[derive(Debug)]
pub enum UserEvent {
    /// No operation was performed yet.
    Started,
    /// The user store returned this user for the username.
    UserFound(Option<StoredUser>),
    /// The workspace Directory path exists; this is its Directory.
    WorkspaceEnsured(DirectoryId),
    /// The password hasher returned this credential hash.
    Hashed(String),
    /// Whether the password matches the stored credential hash.
    Verified(bool),
    /// The write completed.
    Completed,
    /// The operation failed.
    Failed(CoreError),
}

/// What an account workflow answers.
#[derive(Debug)]
pub enum UserOutcome {
    /// The user was created.
    Created,
    /// The user the credentials belong to, if they are valid and the user is active.
    Authenticated(Option<StoredUser>),
    /// The user whose password changed, if it exists.
    PasswordChanged(Option<StoredUser>),
}

/// The next account operation to perform.
#[derive(Debug)]
pub enum UserAction {
    /// Find the user with this (normalized) username.
    FindByUsername(String),
    /// Make sure the Directory path exists and answer its Directory.
    EnsureWorkspace(DirectoryPath),
    /// Hash the password of the run.
    HashPassword,
    /// Check the password of the run against this credential hash.
    VerifyPassword(String),
    /// Create the user; its workspace Directory is granted to it in full.
    CreateUser { username: String, credential_hash: String, role: UserRole, workspace: DirectoryId },
    /// Store the user with a new credential hash.
    SaveUser(StoredUser),
    /// The workflow ended with this result.
    Finish(Result<UserOutcome, CoreError>),
}

/// The inputs of creating a user.
#[derive(Debug)]
pub struct CreateUserRun {
    pub username: String,
    pub password: String,
    pub role: UserRole,
    pub workspace: Option<DirectoryPath>,
}

/// Phases of creating a user.
#[derive(Debug)]
pub enum UserCreation {
    Start,
    AwaitExisting { username: String },
    AwaitWorkspace { username: String },
    AwaitHash { username: String, workspace: DirectoryId },
    AwaitCreated,
    Finished,
}

fn user_end(e: CoreError) -> (r: (UserCreation, UserAction))
    ensures
        r.0 is Finished && r.1 == UserAction::Finish(Err(e)),
{
    (UserCreation::Finished, UserAction::Finish(Err(e)))
}

/// The username a workflow carries is the run's username without surrounding white space.
pub open spec fn user_creation_wf(run: CreateUserRun, state: UserCreation) -> bool {
    match state {
        UserCreation::AwaitExisting { username } => trimmed(run.username@, username@),
        UserCreation::AwaitWorkspace { username } => trimmed(run.username@, username@),
        UserCreation::AwaitHash { username, .. } => trimmed(run.username@, username@),
        _ => true,
    }
}

/// One step of creating a user.
///
/// The password must be long enough. The username is stored without surrounding white space
/// and must be free. The workspace is the one asked for, else the root for an administrator and
/// `users/<username>` for a member; its path is made to exist before the password is hashed and
/// the user created with it.
pub fn user_creation_step(run: &CreateUserRun, state: UserCreation, event: UserEvent) -> (r: (
    UserCreation,
    UserAction,
))
    requires
        user_creation_wf(*run, state),
    ensures
        user_creation_wf(*run, r.0),
        match r.1 {
            UserAction::CreateUser { username, role, workspace, .. } => role == run.role
                && trimmed(run.username@, username@) && (state matches UserCreation::AwaitHash {
                workspace: w,
                ..
            } && w == workspace) && event is Hashed,
            UserAction::Finish(Ok(o)) => o is Created && state is AwaitCreated && event is Completed,
            _ => true,
        },
        match (state, event) {
            (_, UserEvent::Failed(e)) => r.0 is Finished && r.1 == UserAction::Finish(Err(e)),
            (UserCreation::Start, _) => if vstd::utf8::encode_utf8(run.password@).len() < MIN_PASSWORD_LEN {
                r.0 is Finished && r.1 == UserAction::Finish(Err(CoreError::WeakPassword))
            } else {
                r.0 is AwaitExisting && (r.1 matches UserAction::FindByUsername(n) && trimmed(
                    run.username@,
                    n@,
                ))
            },
            (UserCreation::AwaitExisting { username }, UserEvent::UserFound(found)) => match found {
                Some(_) => r.0 is Finished && r.1 == UserAction::Finish(
                    Err(CoreError::Conflict(Conflict::UsernameTaken)),
                ),
                None => if run.workspace is None && run.role != UserRole::Administrator
                    && !crate::domain::path::valid_directory_path(
                    workspace_path_text(username@, run.role, None),
                ) {
                    r.0 is Finished && r.1 == UserAction::Finish(Err(CoreError::InvalidDirectoryPath))
                } else {
                    r.0 is AwaitWorkspace && (r.1 matches UserAction::EnsureWorkspace(p) && p@
                        == workspace_path_text(username@, run.role, opt_path(run.workspace)))
                },
            },
            (UserCreation::AwaitWorkspace { username }, UserEvent::WorkspaceEnsured(id)) => (r.0 matches UserCreation::AwaitHash {
                username: u,
                workspace,
            } && u@ == username@ && workspace == id) && r.1 == UserAction::HashPassword,
            (UserCreation::AwaitHash { username, workspace }, UserEvent::Hashed(h)) => r.0
                is AwaitCreated && (r.1 matches UserAction::CreateUser {
                username: u,
                credential_hash,
                role,
                workspace: w,
            } && u@ == username@ && credential_hash@ == h@ && role == run.role && w == workspace),
            (UserCreation::AwaitCreated, UserEvent::Completed) => r.0 is Finished && r.1
                == UserAction::Finish(Ok(UserOutcome::Created)),
            _ => r.0 is Finished && r.1 == UserAction::Finish(
                Err(CoreError::Invariant(crate::error::Invariant::UnexpectedRecoveryEvent)),
            ),
        },
{
    if let UserEvent::Failed(e) = event {
        return user_end(e);
    }
    match state {
        UserCreation::Start => {
            if let Err(e) = validate_password(run.password.as_str()) {
                return user_end(e);
            }
            let username = normalize_username(run.username.as_str());
            let probe = username.clone();
            (UserCreation::AwaitExisting { username }, UserAction::FindByUsername(probe))
        },
        UserCreation::AwaitExisting { username } => match event {
            UserEvent::UserFound(found) => {
                if found.is_some() {
                    return user_end(CoreError::Conflict(Conflict::UsernameTaken));
                }
                let requested = match &run.workspace {
                    Some(p) => Some(p.clone()),
                    None => None,
                };
                match workspace_path(username.as_str(), run.role, requested) {
                    Ok(path) => {
                        proof {
                            use_type_invariant(&path);
                        }
                        (UserCreation::AwaitWorkspace { username }, UserAction::EnsureWorkspace(path))
                    },
                    Err(e) => user_end(e),
                }
            },
            _ => user_end(CoreError::Invariant(crate::error::Invariant::UnexpectedRecoveryEvent)),
        },
        UserCreation::AwaitWorkspace { username } => match event {
            UserEvent::WorkspaceEnsured(workspace) => (
                UserCreation::AwaitHash { username, workspace },
                UserAction::HashPassword,
            ),
            _ => user_end(CoreError::Invariant(crate::error::Invariant::UnexpectedRecoveryEvent)),
        },
        UserCreation::AwaitHash { username, workspace } => match event {
            UserEvent::Hashed(credential_hash) => (
                UserCreation::AwaitCreated,
                UserAction::CreateUser { username, credential_hash, role: run.role, workspace },
            ),
            _ => user_end(CoreError::Invariant(crate::error::Invariant::UnexpectedRecoveryEvent)),
        },
        UserCreation::AwaitCreated => match event {
            UserEvent::Completed => (UserCreation::Finished, UserAction::Finish(Ok(UserOutcome::Created))),
            _ => user_end(CoreError::Invariant(crate::error::Invariant::UnexpectedRecoveryEvent)),
        },
        UserCreation::Finished => user_end(
            CoreError::Invariant(crate::error::Invariant::UnexpectedRecoveryEvent),
        ),
    }
}

/// Phases of authenticating a user.
#[derive(Debug)]
pub enum Authentication {
    Start,
    AwaitUser,
    AwaitVerification { user: StoredUser },
    Finished,
}

/// A user awaiting password verification is active.
pub open spec fn authentication_wf(state: Authentication) -> bool {
    state matches Authentication::AwaitVerification { user } ==> user.active
}

/// One step of authenticating a user by username and password. The username is looked up
/// without surrounding white space; an unknown or inactive user, or a wrong password, is
/// answered with no user, and the password of an inactive user is not checked.
pub fn authentication_step(username: &str, state: Authentication, event: UserEvent) -> (r: (
    Authentication,
    UserAction,
))
    requires
        authentication_wf(state),
    ensures
        authentication_wf(r.0),
        match r.1 {
            UserAction::Finish(Ok(UserOutcome::Authenticated(Some(u)))) => state matches Authentication::AwaitVerification {
                user,
            } && u == user && user.active && event == UserEvent::Verified(true),
            UserAction::VerifyPassword(h) => state is AwaitUser && (event matches UserEvent::UserFound(
                Some(u),
            ) && u.active && h@ == u.credential_hash@),
            _ => true,
        },
        match (state, event) {
            (_, UserEvent::Failed(e)) => r.0 is Finished && r.1 == UserAction::Finish(Err(e)),
            (Authentication::Start, _) => r.0 is AwaitUser && (r.1 matches UserAction::FindByUsername(n)
                && trimmed(username@, n@)),
            (Authentication::AwaitUser, UserEvent::UserFound(found)) => match found {
                Some(u) => if u.active {
                    r.0 == (Authentication::AwaitVerification { user: u }) && r.1 is VerifyPassword
                } else {
                    r.0 is Finished && r.1 == UserAction::Finish(Ok(UserOutcome::Authenticated(None)))
                },
                None => r.0 is Finished && r.1 == UserAction::Finish(Ok(UserOutcome::Authenticated(None))),
            },
            (Authentication::AwaitVerification { user }, UserEvent::Verified(ok)) => r.0 is Finished
                && r.1 == UserAction::Finish(
                Ok(UserOutcome::Authenticated(if ok { Some(user) } else { None })),
            ),
            _ => r.0 is Finished && r.1 == UserAction::Finish(
                Err(CoreError::Invariant(crate::error::Invariant::UnexpectedRecoveryEvent)),
            ),
        },
{
    if let UserEvent::Failed(e) = event {
        return (Authentication::Finished, UserAction::Finish(Err(e)));
    }
    match state {
        Authentication::Start => (
            Authentication::AwaitUser,
            UserAction::FindByUsername(normalize_username(username)),
        ),
        Authentication::AwaitUser => match event {
            UserEvent::UserFound(found) => match found {
                Some(user) => {
                    if user.active {
                        let hash = user.credential_hash.clone();
                        (Authentication::AwaitVerification { user }, UserAction::VerifyPassword(hash))
                    } else {
                        (Authentication::Finished, UserAction::Finish(Ok(UserOutcome::Authenticated(None))))
                    }
                },
                None => (Authentication::Finished, UserAction::Finish(Ok(UserOutcome::Authenticated(None)))),
            },
            _ => (
                Authentication::Finished,
                UserAction::Finish(Err(CoreError::Invariant(crate::error::Invariant::UnexpectedRecoveryEvent))),
            ),
        },
        Authentication::AwaitVerification { user } => match event {
            UserEvent::Verified(ok) => {
                let answer = if ok { Some(user) } else { None };
                (Authentication::Finished, UserAction::Finish(Ok(UserOutcome::Authenticated(answer))))
            },
            _ => (
                Authentication::Finished,
                UserAction::Finish(Err(CoreError::Invariant(crate::error::Invariant::UnexpectedRecoveryEvent))),
            ),
        },
        Authentication::Finished => (
            Authentication::Finished,
            UserAction::Finish(Err(CoreError::Invariant(crate::error::Invariant::UnexpectedRecoveryEvent))),
        ),
    }
}

/// Phases of changing a user's password.
#[derive(Debug)]
pub enum PasswordChange {
    Start,
    AwaitUser,
    AwaitHash { user: StoredUser },
    AwaitSaved { user: StoredUser },
    Finished,
}

/// One step of changing the password of the user with a username. The new password must be
/// long enough; an unknown user is answered with no user; otherwise the user is stored with
/// the hash of the new password and answered.
pub fn password_change_step(username: &str, password: &str, state: PasswordChange, event: UserEvent) -> (r: (
    PasswordChange,
    UserAction,
))
    ensures
        match r.1 {
            UserAction::SaveUser(u) => (state matches PasswordChange::AwaitHash { user } && u.id == user.id
                && u.username == user.username && u.active == user.active) && (event matches UserEvent::Hashed(
                h,
            ) && u.credential_hash@ == h@),
            _ => true,
        },
        match (state, event) {
            (_, UserEvent::Failed(e)) => r.0 is Finished && r.1 == UserAction::Finish(Err(e)),
            (PasswordChange::Start, _) => if password.spec_bytes().len() < MIN_PASSWORD_LEN {
                r.0 is Finished && r.1 == UserAction::Finish(Err(CoreError::WeakPassword))
            } else {
                r.0 is AwaitUser && (r.1 matches UserAction::FindByUsername(n) && trimmed(
                    username@,
                    n@,
                ))
            },
            (PasswordChange::AwaitUser, UserEvent::UserFound(found)) => match found {
                Some(u) => r.0 == (PasswordChange::AwaitHash { user: u }) && r.1 == UserAction::HashPassword,
                None => r.0 is Finished && r.1 == UserAction::Finish(Ok(UserOutcome::PasswordChanged(None))),
            },
            (PasswordChange::AwaitSaved { user }, UserEvent::Completed) => r.0 is Finished && r.1
                == UserAction::Finish(Ok(UserOutcome::PasswordChanged(Some(user)))),
            (PasswordChange::AwaitHash { user }, UserEvent::Hashed(h)) => (r.0 matches PasswordChange::AwaitSaved {
                user: s,
            } && s.id == user.id && s.username@ == user.username@ && s.active == user.active
                && s.credential_hash@ == h@) && r.1 is SaveUser,
            _ => r.0 is Finished && r.1 == UserAction::Finish(
                Err(CoreError::Invariant(crate::error::Invariant::UnexpectedRecoveryEvent)),
            ),
        },
{
    if let UserEvent::Failed(e) = event {
        return (PasswordChange::Finished, UserAction::Finish(Err(e)));
    }
    match state {
        PasswordChange::Start => {
            if let Err(e) = validate_password(password) {
                return (PasswordChange::Finished, UserAction::Finish(Err(e)));
            }
            (PasswordChange::AwaitUser, UserAction::FindByUsername(normalize_username(username)))
        },
        PasswordChange::AwaitUser => match event {
            UserEvent::UserFound(found) => match found {
                Some(user) => (PasswordChange::AwaitHash { user }, UserAction::HashPassword),
                None => (PasswordChange::Finished, UserAction::Finish(Ok(UserOutcome::PasswordChanged(None)))),
            },
            _ => (
                PasswordChange::Finished,
                UserAction::Finish(Err(CoreError::Invariant(crate::error::Invariant::UnexpectedRecoveryEvent))),
            ),
        },
        PasswordChange::AwaitHash { user } => match event {
            UserEvent::Hashed(credential_hash) => {
                let updated = StoredUser {
                    id: user.id,
                    username: user.username.clone(),
                    active: user.active,
                    credential_hash,
                };
                let saved = StoredUser {
                    id: updated.id,
                    username: updated.username.clone(),
                    active: updated.active,
                    credential_hash: updated.credential_hash.clone(),
                };
                (PasswordChange::AwaitSaved { user: updated }, UserAction::SaveUser(saved))
            },
            _ => (
                PasswordChange::Finished,
                UserAction::Finish(Err(CoreError::Invariant(crate::error::Invariant::UnexpectedRecoveryEvent))),
            ),
        },
        PasswordChange::AwaitSaved { user } => match event {
            UserEvent::Completed => (
                PasswordChange::Finished,
                UserAction::Finish(Ok(UserOutcome::PasswordChanged(Some(user)))),
            ),
            _ => (
                PasswordChange::Finished,
                UserAction::Finish(Err(CoreError::Invariant(crate::error::Invariant::UnexpectedRecoveryEvent))),
            ),
        },
        PasswordChange::Finished => (
            PasswordChange::Finished,
            UserAction::Finish(Err(CoreError::Invariant(crate::error::Invariant::UnexpectedRecoveryEvent))),
        ),
    }
}

} // verus!
