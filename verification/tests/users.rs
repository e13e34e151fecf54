use asset_core::domain::ids::{DirectoryId, UserId};
use asset_core::domain::path::DirectoryPath;
use asset_core::error::{Conflict, CoreError};
use asset_core::user::{
    authentication_step, password_change_step, user_creation_step, Authentication, CreateUserRun,
    PasswordChange, StoredUser, UserAction, UserCreation, UserEvent, UserOutcome, UserRole,
};

/// Users, workspace Directories and a password hasher held in memory.
struct Accounts {
    users: Vec<(StoredUser, UserRole, DirectoryId)>,
    workspaces: Vec<(String, DirectoryId)>,
    password: String,
}

impl Accounts {
    fn new() -> Accounts {
        Accounts { users: Vec::new(), workspaces: vec![(String::new(), DirectoryId::root())], password: String::new() }
    }

    fn hash(password: &str) -> String {
        format!("hashed:{password}")
    }

    fn perform(&mut self, action: UserAction) -> Result<UserEvent, Result<UserOutcome, CoreError>> {
        Ok(match action {
            UserAction::FindByUsername(name) => {
                UserEvent::UserFound(self.users.iter().find(|(u, _, _)| u.username == name).map(|(u, _, _)| u.clone()))
            }
            UserAction::EnsureWorkspace(path) => {
                let existing = self.workspaces.iter().find(|(p, _)| p == path.path()).map(|(_, id)| *id);
                let id = existing.unwrap_or_else(|| {
                    let id = DirectoryId::new();
                    self.workspaces.push((path.path().to_string(), id));
                    id
                });
                UserEvent::WorkspaceEnsured(id)
            }
            UserAction::HashPassword => UserEvent::Hashed(Self::hash(&self.password)),
            UserAction::VerifyPassword(hash) => UserEvent::Verified(hash == Self::hash(&self.password)),
            UserAction::CreateUser { username, credential_hash, role, workspace } => {
                let user = StoredUser { id: UserId::new(), username, active: true, credential_hash };
                self.users.push((user, role, workspace));
                UserEvent::Completed
            }
            UserAction::SaveUser(user) => {
                for entry in self.users.iter_mut() {
                    if entry.0.id == user.id {
                        entry.0 = user.clone();
                    }
                }
                UserEvent::Completed
            }
            UserAction::Finish(result) => return Err(result),
        })
    }

    fn create(&mut self, username: &str, password: &str, role: UserRole, workspace: Option<&str>) -> Result<(), CoreError> {
        self.password = password.to_string();
        let run = CreateUserRun {
            username: username.to_string(),
            password: password.to_string(),
            role,
            workspace: workspace.map(|p| DirectoryPath::from_path(p).unwrap()),
        };
        let (mut state, mut action) = user_creation_step(&run, UserCreation::Start, UserEvent::Started);
        loop {
            match self.perform(action) {
                Ok(event) => (state, action) = user_creation_step(&run, state, event),
                Err(Ok(UserOutcome::Created)) => return Ok(()),
                Err(Ok(other)) => panic!("creation answered {other:?}"),
                Err(Err(e)) => return Err(e),
            }
        }
    }

    fn authenticate(&mut self, username: &str, password: &str) -> Option<StoredUser> {
        self.password = password.to_string();
        let (mut state, mut action) = authentication_step(username, Authentication::Start, UserEvent::Started);
        loop {
            match self.perform(action) {
                Ok(event) => (state, action) = authentication_step(username, state, event),
                Err(Ok(UserOutcome::Authenticated(user))) => return user,
                Err(other) => panic!("authentication answered {other:?}"),
            }
        }
    }

    fn change_password(&mut self, username: &str, password: &str) -> Result<Option<StoredUser>, CoreError> {
        self.password = password.to_string();
        let (mut state, mut action) =
            password_change_step(username, password, PasswordChange::Start, UserEvent::Started);
        loop {
            match self.perform(action) {
                Ok(event) => (state, action) = password_change_step(username, password, state, event),
                Err(Ok(UserOutcome::PasswordChanged(user))) => return Ok(user),
                Err(Ok(other)) => panic!("password change answered {other:?}"),
                Err(Err(e)) => return Err(e),
            }
        }
    }

    fn workspace_of(&self, username: &str) -> String {
        let id = self.users.iter().find(|(u, _, _)| u.username == username).unwrap().2;
        self.workspaces.iter().find(|(_, w)| *w == id).unwrap().0.clone()
    }
}

#[test]
fn users_are_created_with_trimmed_names_and_their_workspace() {
    let mut accounts = Accounts::new();
    accounts.create("  alice ", "secret", UserRole::Member, None).unwrap();
    assert_eq!(accounts.users[0].0.username, "alice");
    assert_eq!(accounts.users[0].0.credential_hash, "hashed:secret");
    assert_eq!(accounts.workspace_of("alice"), "users/alice");

    accounts.create("root", "secret", UserRole::Administrator, None).unwrap();
    assert_eq!(accounts.workspace_of("root"), "");
    accounts.create("bob", "secret", UserRole::Member, Some("teams/bob")).unwrap();
    assert_eq!(accounts.workspace_of("bob"), "teams/bob");

    assert!(matches!(
        accounts.create("alice", "secret", UserRole::Member, None),
        Err(CoreError::Conflict(Conflict::UsernameTaken))
    ));
    assert!(matches!(accounts.create("carol", "abc", UserRole::Member, None), Err(CoreError::WeakPassword)));
    assert!(matches!(
        accounts.create("a/../b", "secret", UserRole::Member, None),
        Err(CoreError::InvalidDirectoryPath)
    ));
    assert_eq!(accounts.users.len(), 3);
}

#[test]
fn only_active_users_with_the_right_password_authenticate() {
    let mut accounts = Accounts::new();
    accounts.create("alice", "secret", UserRole::Member, None).unwrap();
    assert_eq!(accounts.authenticate(" alice ", "secret").unwrap().username, "alice");
    assert!(accounts.authenticate("alice", "wrong").is_none());
    assert!(accounts.authenticate("nobody", "secret").is_none());
    accounts.users[0].0.active = false;
    assert!(accounts.authenticate("alice", "secret").is_none());
}

#[test]
fn password_changes_store_the_new_hash() {
    let mut accounts = Accounts::new();
    accounts.create("alice", "secret", UserRole::Member, None).unwrap();
    let changed = accounts.change_password("alice", "better secret").unwrap().unwrap();
    assert_eq!(changed.credential_hash, "hashed:better secret");
    assert_eq!(accounts.users[0].0.credential_hash, "hashed:better secret");
    assert!(accounts.authenticate("alice", "better secret").is_some());
    assert!(accounts.change_password("nobody", "better secret").unwrap().is_none());
    assert!(matches!(accounts.change_password("alice", "no"), Err(CoreError::WeakPassword)));
}
