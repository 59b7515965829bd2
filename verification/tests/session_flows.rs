use relatum::errors::DomainError;
use relatum::models::auth::SessionToken;
use relatum::models::department::DepartmentRegistry;
use relatum::models::ids::{DepartmentId, UserId};
use relatum::models::users::{DirectoryMarker, User};
use relatum::ports::sso_connector::SsoIdentity;
use relatum::services::admin::{AdminAction, AdminEvent, AdminFlow, UserAdmin};
use relatum::services::auth::{SessionAction, SessionEvent, SessionFlow};

/// In-memory users, sessions and an SSO provider that knows some tokens.
#[derive(Default)]
struct World {
    users: Vec<User>,
    sessions: Vec<SessionToken>,
    attested: Vec<(String, UserId)>,
    next_value: u32,
}

impl World {
    fn seed_user(&mut self, name: &str) {
        self.users.push(User::new(
            UserId::new(name),
            name.to_string(),
            DirectoryMarker::Instructor,
            Some(DepartmentId::new("blue")),
        ));
    }

    fn register(&mut self, token: &str, name: &str) {
        self.attested.push((token.to_string(), UserId::new(name)));
    }

    fn lookup_user(&self, who: &UserId) -> Option<User> {
        self.users.iter().find(|u| u.id() == who).cloned()
    }

    fn lookup_session(&self, value: &str) -> Option<SessionToken> {
        self.sessions.iter().find(|s| s.value == value).cloned()
    }

    fn run(&mut self, begun: (SessionFlow, SessionAction)) -> Result<SessionToken, DomainError> {
        let (mut flow, mut action) = begun;
        loop {
            let event = match action {
                SessionAction::CheckToken(token) => SessionEvent::Attested(
                    self.attested
                        .iter()
                        .find(|(t, _)| *t == token)
                        .map(|(_, id)| SsoIdentity { id: id.clone() }),
                ),
                SessionAction::LookupUser(id) => SessionEvent::User(self.lookup_user(&id)),
                SessionAction::LookupSession(value) => {
                    SessionEvent::Session(self.lookup_session(&value))
                }
                SessionAction::IssueValue => {
                    self.next_value += 1;
                    SessionEvent::Value(format!("tok-{}", self.next_value))
                }
                SessionAction::StoreSession(token) => {
                    self.sessions.push(token);
                    SessionEvent::Stored
                }
                SessionAction::Revoke(value) => {
                    self.sessions.retain(|s| s.value != value);
                    SessionEvent::Revoked
                }
                SessionAction::Finish(result) => return result,
            };
            (flow, action) = flow.step(event);
        }
    }

    fn login(&mut self, token: &str) -> Result<SessionToken, DomainError> {
        self.run(SessionFlow::login(token.to_string()))
    }

    fn refresh(&mut self, token: &str) -> Result<SessionToken, DomainError> {
        self.run(SessionFlow::refresh(token.to_string()))
    }
}

#[test]
fn login_succeeds_for_a_synced_user_and_persists_the_token() {
    let mut world = World::default();
    world.seed_user("alice");
    world.register("good-token", "alice");
    let token = world.login("good-token").unwrap();
    assert!(world.lookup_session(&token.value).is_some());
    assert_eq!(token.subject, UserId::new("alice"));
}

#[test]
fn login_rejects_an_invalid_token() {
    let mut world = World::default();
    world.seed_user("alice");
    let err = world.login("forged").unwrap_err();
    assert!(matches!(err, DomainError::Unauthorized(_)));
}

#[test]
fn login_rejects_an_attested_user_that_was_never_synced() {
    let mut world = World::default();
    world.register("good-token", "carol");
    let err = world.login("good-token").unwrap_err();
    assert!(matches!(err, DomainError::Unauthorized(_)));
    assert!(world.lookup_user(&UserId::new("carol")).is_none(), "login must never provision a user");
}

#[test]
fn refresh_rotates_the_token() {
    let mut world = World::default();
    world.seed_user("alice");
    world.register("good-token", "alice");
    let first = world.login("good-token").unwrap();
    let second = world.refresh(&first.value).unwrap();
    assert_ne!(first.value, second.value);
    assert!(world.lookup_session(&first.value).is_none());
    assert!(world.lookup_session(&second.value).is_some());
}

#[test]
fn refresh_rejects_an_unknown_token() {
    let err = World::default().refresh("not-a-token").unwrap_err();
    assert!(matches!(err, DomainError::Unauthorized(_)));
}

fn admin() -> UserAdmin<()> {
    UserAdmin::new((), DepartmentRegistry::new(vec![DepartmentId::new("blue"), DepartmentId::new("red")]))
}

fn regular_user(users: &mut Vec<User>, name: &str) {
    users.push(User::new(UserId::new(name), name.to_string(), DirectoryMarker::Regular, None));
}

fn run_admin(users: &mut Vec<User>, begun: (AdminFlow, AdminAction)) -> Result<(), DomainError> {
    let (mut flow, mut action) = begun;
    loop {
        let event = match action {
            AdminAction::LookupUser(id) => {
                AdminEvent::User(users.iter().find(|u| u.id() == &id).cloned())
            }
            AdminAction::Store(user) => {
                users.retain(|u| u.id() != user.id());
                users.push(user);
                AdminEvent::Stored
            }
            AdminAction::Finish(result) => return result,
        };
        (flow, action) = flow.step(event);
    }
}

fn find<'a>(users: &'a [User], name: &str) -> &'a User {
    users.iter().find(|u| u.id().as_str() == name).unwrap()
}

#[test]
fn assigning_a_known_department_activates_the_user_as_a_signer() {
    let mut users = Vec::new();
    regular_user(&mut users, "alice");
    let begun = admin().begin_assign(UserId::new("alice"), DepartmentId::new("blue"));
    run_admin(&mut users, begun).unwrap();
    let alice = find(&users, "alice");
    assert_eq!(alice.department().unwrap().as_str(), "blue");
    assert!(alice.role().unwrap().is_signer());
}

#[test]
fn admin_assigning_an_unknown_department_is_rejected() {
    let mut users = Vec::new();
    regular_user(&mut users, "alice");
    let begun = admin().begin_assign(UserId::new("alice"), DepartmentId::new("green"));
    let err = run_admin(&mut users, begun).unwrap_err();
    assert!(matches!(err, DomainError::Invalid(_)));
}

#[test]
fn assigning_to_an_unknown_user_is_not_found() {
    let mut users = Vec::new();
    let begun = admin().begin_assign(UserId::new("ghost"), DepartmentId::new("blue"));
    let err = run_admin(&mut users, begun).unwrap_err();
    assert!(matches!(err, DomainError::NotFound(_)));
}

#[test]
fn clearing_a_department_renders_the_user_inert() {
    let mut users = Vec::new();
    regular_user(&mut users, "alice");
    let begun = admin().begin_assign(UserId::new("alice"), DepartmentId::new("blue"));
    run_admin(&mut users, begun).unwrap();
    run_admin(&mut users, UserAdmin::<()>::begin_clear(UserId::new("alice"))).unwrap();
    let alice = find(&users, "alice");
    assert!(alice.department().is_none());
    assert!(alice.role().is_none());
}
