use user_registry::error::{UserError, ValidationError};
use user_registry::role::{RoleSet, UserRole};
use user_registry::service::{
    ApiResponse, CreateUserData, PaginationInfo, Service, UpdateUserData, UserService,
};
use user_registry::status::UserStatus;
use user_registry::user::User;

fn data(name: &str, email: &str) -> CreateUserData {
    CreateUserData {
        name: name.to_string(),
        email: email.to_string(),
        age: Some(30),
        roles: vec![UserRole::User],
    }
}

fn no_change() -> UpdateUserData {
    UpdateUserData {
        name: None,
        email: None,
        age: None,
        status: None,
        roles: None,
    }
}

fn filled(count: u32) -> UserService {
    let mut service = UserService::new();
    for i in 0..count {
        service
            .create_at(data(&format!("user{}", i), &format!("u{}@x.y", i)), 1)
            .unwrap();
    }
    service
}

fn ids(users: &[User]) -> Vec<u32> {
    users.iter().map(|user| user.id).collect()
}

#[test]
fn create_fills_in_the_defaults() {
    let mut service = UserService::new();
    let created = service
        .create_at(
            CreateUserData {
                name: "Ann".to_string(),
                email: "ann@example.com".to_string(),
                age: None,
                roles: Vec::new(),
            },
            50,
        )
        .unwrap();
    assert_eq!(created.id, 1);
    assert_eq!(created.age, Some(0));
    assert_eq!(created.roles, RoleSet::single(UserRole::User));
    assert_eq!(created.status, UserStatus::Active);
    assert_eq!(created.profile, None);
    assert_eq!(created.created_at, 50);
    assert_eq!(created.updated_at, 50);
    assert_eq!(service.get(1), Ok(created));
    assert_eq!(service.next_id(), 2);
}

#[test]
fn create_takes_the_given_age_and_roles() {
    let mut service = UserService::new();
    let created = service
        .create(CreateUserData {
            name: "Jane Smith".to_string(),
            email: "jane@example.com".to_string(),
            age: Some(25),
            roles: vec![UserRole::Admin, UserRole::User],
        })
        .unwrap();
    assert_eq!(created.age, Some(25));
    assert_eq!(created.roles.to_vec(), vec![UserRole::Admin, UserRole::User]);
    assert_eq!(created.created_at, created.updated_at);
}

#[test]
fn create_reports_what_save_reports() {
    let mut service = UserService::new();
    assert_eq!(
        service.create_at(data("", "a@x.y"), 1),
        Err(ValidationError::EmptyField("name".to_string()))
    );
    assert_eq!(
        service.create_at(data("A", ""), 1),
        Err(ValidationError::EmptyField("email".to_string()))
    );
    assert_eq!(
        service.create_at(data("A", "a.x.y"), 1),
        Err(ValidationError::InvalidEmail("a.x.y".to_string()))
    );
    let mut old = data("A", "a@x.y");
    old.age = Some(151);
    assert_eq!(service.create_at(old, 1), Err(ValidationError::InvalidAge(151)));
    assert!(service.create_at(data("A", "a@x.y"), 1).is_ok());
    assert_eq!(
        service.create_at(data("B", "a@x.y"), 1),
        Err(ValidationError::DuplicateEmail("a@x.y".to_string()))
    );
    assert_eq!(service.list(0, 10).len(), 1);
}

#[test]
fn get_turns_absence_into_an_error() {
    let mut service = UserService::new();
    assert_eq!(service.get(1), Err(UserError::NotFound(1)));
    let created = service.create_at(data("A", "a@x.y"), 1).unwrap();
    assert_eq!(service.get(created.id), Ok(created));
    assert_eq!(service.get(2), Err(UserError::NotFound(2)));
}

#[test]
fn update_changes_only_the_given_fields() {
    let mut service = UserService::new();
    let created = service.create_at(data("John Doe", "john@example.com"), 10).unwrap();
    let updated = service
        .update_at(
            created.id,
            UpdateUserData {
                name: Some("John Updated".to_string()),
                age: Some(31),
                ..no_change()
            },
            20,
        )
        .unwrap();
    assert_eq!(updated.name, "John Updated");
    assert_eq!(updated.age, Some(31));
    assert_eq!(updated.email, "john@example.com");
    assert_eq!(updated.status, UserStatus::Active);
    assert_eq!(updated.roles, created.roles);
    assert_eq!(updated.id, created.id);
    assert_eq!(updated.created_at, 10);
    assert_eq!(updated.updated_at, 20);
    assert_eq!(service.get(created.id), Ok(updated));

    let same = service.update_at(created.id, no_change(), 30).unwrap();
    assert_eq!(same.name, "John Updated");
    assert_eq!(same.age, Some(31));
    assert_eq!(same.created_at, 10);
    assert_eq!(same.updated_at, 30);
}

#[test]
fn update_of_status_or_roles_keeps_the_time_of_creation() {
    let mut service = UserService::new();
    let created = service.create_at(data("A", "a@x.y"), 10).unwrap();
    let suspended = service
        .update_at(
            created.id,
            UpdateUserData {
                status: Some(UserStatus::Suspended),
                ..no_change()
            },
            15,
        )
        .unwrap();
    assert_eq!(suspended.status, UserStatus::Suspended);
    assert_eq!(suspended.created_at, 10);
    assert_eq!(suspended.updated_at, 15);
    assert!(suspended.updated_at >= created.updated_at);
    let ruled = service
        .update_at(
            created.id,
            UpdateUserData {
                roles: Some(vec![UserRole::Moderator, UserRole::Guest]),
                ..no_change()
            },
            25,
        )
        .unwrap();
    assert_eq!(ruled.roles.to_vec(), vec![UserRole::Moderator, UserRole::Guest]);
    assert_eq!(ruled.status, UserStatus::Suspended);
    assert_eq!(ruled.created_at, 10);
    assert_eq!(ruled.updated_at, 25);
    let emptied = service
        .update_at(
            created.id,
            UpdateUserData {
                roles: Some(Vec::new()),
                ..no_change()
            },
            26,
        )
        .unwrap();
    assert!(emptied.roles.is_empty());
    let by_clock = service
        .update(
            created.id,
            UpdateUserData {
                status: Some(UserStatus::Active),
                ..no_change()
            },
        )
        .unwrap();
    assert_eq!(by_clock.created_at, 10);
    assert!(by_clock.updated_at >= 26);
}

#[test]
fn update_reports_absence_before_anything_else() {
    let mut service = UserService::new();
    assert_eq!(
        service.update_at(
            5,
            UpdateUserData {
                name: Some("".to_string()),
                ..no_change()
            },
            1
        ),
        Err(UserError::NotFound(5))
    );
    let a = service.create_at(data("A", "a@x.y"), 1).unwrap();
    let b = service.create_at(data("B", "b@x.y"), 1).unwrap();
    assert_eq!(
        service.update_at(
            a.id,
            UpdateUserData {
                name: Some(" ".to_string()),
                ..no_change()
            },
            2
        ),
        Err(UserError::Validation(ValidationError::EmptyField(
            "name".to_string()
        )))
    );
    assert_eq!(
        service.update_at(
            a.id,
            UpdateUserData {
                age: Some(500),
                ..no_change()
            },
            2
        ),
        Err(UserError::Validation(ValidationError::InvalidAge(500)))
    );
    assert_eq!(
        service.update_at(
            b.id,
            UpdateUserData {
                email: Some("a@x.y".to_string()),
                ..no_change()
            },
            2
        ),
        Err(UserError::Validation(ValidationError::DuplicateEmail(
            "a@x.y".to_string()
        )))
    );
    assert_eq!(service.get(a.id), Ok(a));
    assert_eq!(service.get(b.id), Ok(b));
}

#[test]
fn delete_tells_whether_a_user_was_there() {
    let mut service = filled(2);
    assert!(!service.delete(3));
    assert!(service.delete(1));
    assert!(!service.delete(1));
    assert_eq!(service.get(1), Err(UserError::NotFound(1)));
    assert_eq!(service.list(0, 10).len(), 1);
    assert!(service.create_at(data("again", "u0@x.y"), 2).is_ok());
}

#[test]
fn pages_have_the_promised_length() {
    let service = filled(7);
    let total = 7;
    for limit in 0..10u32 {
        for page in 0..10u32 {
            let start = page * limit;
            let left = if total > start { total - start } else { 0 };
            let expected = limit.min(left);
            assert_eq!(service.list(page, limit).len() as u32, expected);
        }
    }
    assert!(service.list(u32::MAX, u32::MAX).is_empty());
    assert_eq!(service.list(0, u32::MAX).len(), 7);
    assert!(service.list(1, u32::MAX).is_empty());
    assert!(service.list(u32::MAX, 1).is_empty());
}

#[test]
fn pages_join_to_the_whole_listing() {
    let service = filled(10);
    let whole = ids(&service.list(0, 100));
    assert_eq!(whole.len(), 10);
    let mut sorted = whole.clone();
    sorted.sort();
    assert_eq!(sorted, (1..=10).collect::<Vec<u32>>());
    for limit in [1u32, 3, 4, 10, 11] {
        let pages = (10 + limit - 1) / limit;
        let mut joined = Vec::new();
        for page in 0..pages {
            joined.extend(ids(&service.list(page, limit)));
        }
        assert_eq!(joined, whole);
    }
    assert_eq!(ids(&service.list(1, 3)), whole[3..6].to_vec());
    assert_eq!(ids(&service.list(3, 3)), whole[9..].to_vec());
    assert!(service.list(4, 3).is_empty());
}

#[test]
fn a_page_that_ends_at_the_last_user_is_full() {
    let service = filled(6);
    assert_eq!(service.list(1, 3).len(), 3);
    assert_eq!(service.list(2, 3).len(), 0);
    assert_eq!(service.list(0, 6).len(), 6);
    assert_eq!(service.list(0, 0).len(), 0);
    assert_eq!(UserService::new().list(0, 5).len(), 0);
}

#[test]
fn search_looks_in_the_name_only() {
    let mut service = UserService::new();
    service.create_at(data("John Doe", "john@example.com"), 1).unwrap();
    service.create_at(data("Jane Smith", "jane@example.com"), 1).unwrap();
    service.create_at(data("Bob", "johnson@example.com"), 1).unwrap();
    let found = service.search("John");
    assert_eq!(found.len(), 1);
    assert_eq!(found[0].name, "John Doe");
    assert_eq!(service.search("jOhN").len(), 1);
    assert_eq!(service.search("example").len(), 0);
    assert_eq!(service.search("").len(), 3);
    assert_eq!(service.search("j").len(), 2);
}

#[test]
fn plain_response_types_hold_their_fields() {
    let pagination = PaginationInfo {
        page: 1,
        limit: 10,
        total: 35,
        total_pages: 4,
    };
    let response = ApiResponse {
        data: vec![1, 2, 3],
        status: 200,
        message: "ok".to_string(),
        timestamp: 99,
        pagination: Some(pagination),
    };
    assert_eq!(response.data, vec![1, 2, 3]);
    assert_eq!(response.status, 200);
    assert_eq!(response.message, "ok");
    assert_eq!(response.timestamp, 99);
    assert_eq!(response.pagination, Some(pagination));
    assert_eq!(pagination.total_pages, 4);
}
