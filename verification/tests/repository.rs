use user_registry::error::{UserError, ValidationError};
use user_registry::repository::{user_matches, InMemoryUserRepository, Repository};
use user_registry::role::UserRole;
use user_registry::status::UserStatus;
use user_registry::string_map::StringMap;
use user_registry::user::User;

fn person(name: &str, email: &str) -> User {
    User::new_at(0, name.to_string(), email.to_string(), 5)
}

fn criteria(pairs: &[(&str, &str)]) -> StringMap<String> {
    let mut map = StringMap::new();
    for (key, value) in pairs {
        map.insert(key.to_string(), value.to_string());
    }
    map
}

fn names(users: &[User]) -> Vec<String> {
    let mut names: Vec<String> = users.iter().map(|user| user.name.clone()).collect();
    names.sort();
    names
}

#[test]
fn new_repository_is_empty() {
    let repo = InMemoryUserRepository::new();
    assert_eq!(repo.len(), 0);
    assert_eq!(repo.next_id(), 1);
    assert_eq!(repo.find_by_id(1), None);
    assert!(repo.find_all().is_empty());
}

#[test]
fn generate_id_counts_up_from_one() {
    let mut repo = InMemoryUserRepository::new();
    assert_eq!(repo.generate_id(), 1);
    assert_eq!(repo.generate_id(), 2);
    assert_eq!(repo.next_id(), 3);
    assert_eq!(repo.len(), 0);
}

#[test]
fn save_assigns_the_id_and_the_times() {
    let mut repo = InMemoryUserRepository::new();
    let mut given = person("Ann", "ann@example.com").with_age_at(30, 6);
    given.id = 99;
    let stored = repo.save_at(given.clone(), 100).unwrap();
    assert_eq!(stored.id, 1);
    assert_eq!(stored.created_at, 100);
    assert_eq!(stored.updated_at, 100);
    assert_eq!(stored.name, given.name);
    assert_eq!(stored.email, given.email);
    assert_eq!(stored.age, given.age);
    assert_eq!(stored.status, given.status);
    assert_eq!(stored.roles, given.roles);
    assert_eq!(stored.profile, given.profile);
    assert_eq!(repo.find_by_id(1), Some(stored));
    assert_eq!(repo.find_by_id(99), None);
    assert_eq!(repo.len(), 1);
    assert_eq!(repo.next_id(), 2);
}

#[test]
fn saved_ids_are_fresh() {
    let mut repo = InMemoryUserRepository::new();
    let a = repo.save(person("A", "a@x.y")).unwrap();
    let b = repo.save(person("B", "b@x.y")).unwrap();
    assert!(repo.delete(b.id));
    let c = repo.save(person("C", "c@x.y")).unwrap();
    assert_eq!((a.id, b.id, c.id), (1, 2, 3));
    assert_eq!(a.created_at, a.updated_at);
}

#[test]
fn save_refuses_invalid_users_and_keeps_the_state() {
    let mut repo = InMemoryUserRepository::new();
    assert_eq!(
        repo.save_at(person(" ", "a@x.y"), 1),
        Err(ValidationError::EmptyField("name".to_string()))
    );
    assert_eq!(
        repo.save_at(person("A", "a-x.y"), 1),
        Err(ValidationError::InvalidEmail("a-x.y".to_string()))
    );
    assert_eq!(
        repo.save_at(person("A", "a@x.y").with_age_at(151, 1), 1),
        Err(ValidationError::InvalidAge(151))
    );
    assert_eq!(repo.len(), 0);
    assert_eq!(repo.next_id(), 1);
}

#[test]
fn second_save_with_the_same_email_fails() {
    let mut repo = InMemoryUserRepository::new();
    repo.save_at(person("A", "same@x.y"), 1).unwrap();
    assert_eq!(
        repo.save_at(person("B", "same@x.y"), 2),
        Err(ValidationError::DuplicateEmail("same@x.y".to_string()))
    );
    assert_eq!(repo.len(), 1);
    assert_eq!(repo.next_id(), 2);
    assert_eq!(repo.find_by_id(1).unwrap().name, "A");
    assert_eq!(
        repo.save_at(person(" ", "same@x.y"), 2),
        Err(ValidationError::EmptyField("name".to_string()))
    );
    assert!(repo.save_at(person("B", "Same@x.y"), 2).is_ok());
}

#[test]
fn update_replaces_the_record_and_keeps_identity() {
    let mut repo = InMemoryUserRepository::new();
    let stored = repo.save_at(person("A", "a@x.y"), 10).unwrap();
    let mut change = person("A2", "a2@x.y").with_roles_at(vec![UserRole::Admin], 1);
    change.id = 77;
    change.created_at = 1;
    change.status = UserStatus::Inactive;
    let updated = repo.update_at(stored.id, change, 20).unwrap();
    assert_eq!(updated.id, stored.id);
    assert_eq!(updated.created_at, 10);
    assert_eq!(updated.updated_at, 20);
    assert_eq!(updated.name, "A2");
    assert_eq!(updated.email, "a2@x.y");
    assert_eq!(updated.status, UserStatus::Inactive);
    assert!(updated.is_admin());
    assert_eq!(repo.find_by_id(stored.id), Some(updated));
    assert_eq!(repo.len(), 1);
    assert!(repo.save_at(person("B", "a@x.y"), 30).is_ok());
    assert_eq!(
        repo.save_at(person("C", "a2@x.y"), 30),
        Err(ValidationError::DuplicateEmail("a2@x.y".to_string()))
    );
}

#[test]
fn update_checks_fields_then_presence_then_email() {
    let mut repo = InMemoryUserRepository::new();
    let a = repo.save_at(person("A", "a@x.y"), 1).unwrap();
    let b = repo.save_at(person("B", "b@x.y"), 1).unwrap();
    assert_eq!(
        repo.update_at(9, person("", "z@x.y"), 2),
        Err(UserError::Validation(ValidationError::EmptyField(
            "name".to_string()
        )))
    );
    assert_eq!(
        repo.update_at(9, person("Z", "a@x.y"), 2),
        Err(UserError::NotFound(9))
    );
    assert_eq!(
        repo.update_at(b.id, person("B", "a@x.y"), 2),
        Err(UserError::Validation(ValidationError::DuplicateEmail(
            "a@x.y".to_string()
        )))
    );
    assert_eq!(repo.find_by_id(a.id), Some(a.clone()));
    assert_eq!(repo.find_by_id(b.id), Some(b.clone()));
    let same = repo.update_at(b.id, person("B again", "b@x.y"), 3).unwrap();
    assert_eq!(same.name, "B again");
    assert_eq!(same.created_at, 1);
    assert_eq!(same.updated_at, 3);
    let by_clock = repo.update(a.id, person("A again", "a@x.y")).unwrap();
    assert_eq!(by_clock.created_at, 1);
    assert_eq!(by_clock.id, a.id);
}

#[test]
fn delete_removes_the_user_and_frees_the_email() {
    let mut repo = InMemoryUserRepository::new();
    let a = repo.save_at(person("A", "a@x.y"), 1).unwrap();
    repo.save_at(person("B", "b@x.y"), 1).unwrap();
    assert!(!repo.delete(9));
    assert_eq!(repo.len(), 2);
    assert!(repo.delete(a.id));
    assert!(!repo.delete(a.id));
    assert_eq!(repo.len(), 1);
    assert_eq!(repo.find_by_id(a.id), None);
    let again = repo.save_at(person("A", "a@x.y"), 2).unwrap();
    assert_eq!(again.id, 3);
    assert_eq!(repo.len(), 2);
}

#[test]
fn find_all_returns_every_user_once() {
    let mut repo = InMemoryUserRepository::new();
    for i in 0..20 {
        repo.save_at(person(&format!("user{:02}", i), &format!("u{}@x.y", i)), 1)
            .unwrap();
    }
    repo.delete(4);
    let all = repo.find_all();
    assert_eq!(all.len(), 19);
    let mut ids: Vec<u32> = all.iter().map(|user| user.id).collect();
    ids.sort();
    let expected: Vec<u32> = (1..=20).filter(|id| *id != 4).collect();
    assert_eq!(ids, expected);
    for user in &all {
        assert_eq!(repo.find_by_id(user.id).as_ref(), Some(user));
    }
    let again: Vec<u32> = repo.find_all().iter().map(|user| user.id).collect();
    let first: Vec<u32> = all.iter().map(|user| user.id).collect();
    assert_eq!(again, first);
}

#[test]
fn criteria_match_by_name_email_and_status() {
    let mut repo = InMemoryUserRepository::new();
    repo.save_at(person("John Doe", "john@example.com"), 1).unwrap();
    repo.save_at(person("Jane Smith", "jane@example.org"), 1).unwrap();
    let mut idle = person("Johnny Idle", "idle@example.com");
    idle.status = UserStatus::Inactive;
    repo.save_at(idle, 1).unwrap();

    assert_eq!(
        names(&repo.find_by_criteria(&criteria(&[("name", "JOHN")]))),
        vec!["John Doe", "Johnny Idle"]
    );
    assert_eq!(
        names(&repo.find_by_criteria(&criteria(&[("email", "Example.COM")]))),
        vec!["John Doe", "Johnny Idle"]
    );
    assert_eq!(
        names(&repo.find_by_criteria(&criteria(&[("status", "inactive")]))),
        vec!["Johnny Idle"]
    );
    assert!(repo
        .find_by_criteria(&criteria(&[("status", "Inactive")]))
        .is_empty());
    assert_eq!(
        names(&repo.find_by_criteria(&criteria(&[("name", "john"), ("status", "active")]))),
        vec!["John Doe"]
    );
    assert!(repo
        .find_by_criteria(&criteria(&[("name", "john"), ("email", "jane")]))
        .is_empty());
    assert_eq!(repo.find_by_criteria(&criteria(&[])).len(), 3);
    assert_eq!(repo.find_by_criteria(&criteria(&[("name", "")])).len(), 3);
}

#[test]
fn unknown_criteria_are_ignored() {
    let mut repo = InMemoryUserRepository::new();
    repo.save_at(person("John Doe", "john@example.com"), 1).unwrap();
    repo.save_at(person("Jane Smith", "jane@example.org"), 1).unwrap();
    assert_eq!(
        repo.find_by_criteria(&criteria(&[("age", "30"), ("Name", "nobody")]))
            .len(),
        2
    );
    assert_eq!(
        names(&repo.find_by_criteria(&criteria(&[("role", "admin"), ("name", "jane")]))),
        vec!["Jane Smith"]
    );
}

#[test]
fn user_matches_one_user() {
    let user = person("John Doe", "john@example.com");
    assert!(user_matches(&user, &criteria(&[])));
    assert!(user_matches(&user, &criteria(&[("name", "doe"), ("email", "@"), ("status", "active")])));
    assert!(!user_matches(&user, &criteria(&[("name", "doe"), ("status", "pending")])));
    assert!(!user_matches(&user, &criteria(&[("email", "doe")])));
}
