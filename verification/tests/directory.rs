use authcore::auth::AuthService;
use authcore::dto::{to_user_response, PaginatedResponse, RegisterRequest};
use authcore::error::AppError;
use authcore::ports::UserRepository;
use authcore::security::authorize_admin;
use authcore::store::MemoryStore;
use authcore::types::{Claims, UserRole};

const NOW: i64 = 1_700_000_000;

fn seed_req(email: &str) -> RegisterRequest {
    RegisterRequest { email: email.to_string(), password: "password123".to_string() }
}

#[test]
fn listing_pages_newest_first() {
    let mut auth = AuthService::new(MemoryStore::new());
    auth.register(seed_req("one@b.com"), None, NOW).unwrap();
    auth.register(seed_req("two@b.com"), None, NOW + 1).unwrap();
    auth.register(seed_req("three@b.com"), None, NOW + 2).unwrap();

    let (page1, total) = auth.repo.list_users(1, 2).unwrap();
    assert_eq!(total, 3);
    assert_eq!(page1.len(), 2);
    assert_eq!(page1[0].email, "three@b.com");
    assert_eq!(page1[1].email, "two@b.com");

    let (page2, total) = auth.repo.list_users(2, 2).unwrap();
    assert_eq!(total, 3);
    assert_eq!(page2.len(), 1);
    assert_eq!(page2[0].email, "one@b.com");

    // The listing body as the HTTP layer would return it.
    let body = PaginatedResponse {
        items: page2.iter().map(to_user_response).collect::<Vec<_>>(),
        total,
        page: 2,
        per_page: 2,
    };
    assert_eq!(body.items.len(), 1);
    assert_eq!(body.items[0].email, "one@b.com");

    let (beyond, _) = auth.repo.list_users(5, 2).unwrap();
    assert!(beyond.is_empty());

    // A page number below one reads as the first page.
    let (page0, _) = auth.repo.list_users(0, 2).unwrap();
    assert_eq!(page0.len(), 2);

    assert!(auth.repo.list_users(1, -1).is_err());
}

#[test]
fn lookup_by_email_and_id() {
    let mut auth = AuthService::new(MemoryStore::new());
    let u = auth.register(seed_req("find@b.com"), None, NOW).unwrap();
    let by_email = auth.repo.find_by_email("find@b.com").unwrap().unwrap();
    assert_eq!(by_email.id, u.id);
    assert!(auth.repo.find_by_email("missing@b.com").unwrap().is_none());
    let by_id = auth.repo.find_by_id(u.id).unwrap().unwrap();
    assert_eq!(by_id.email, "find@b.com");
    assert!(auth.repo.find_by_id(u.id.wrapping_add(1)).unwrap().is_none());
}

#[test]
fn admin_gate() {
    let admin = Claims { sub: 1, role: UserRole::Admin, exp: 10, iat: 0 };
    let user = Claims { sub: 2, role: UserRole::User, exp: 10, iat: 0 };
    assert!(authorize_admin(&admin).is_ok());
    let err = authorize_admin(&user).unwrap_err();
    assert!(matches!(err, AppError::Forbidden));
    assert_eq!(err.status(), 403);
}
