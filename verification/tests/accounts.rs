use mutsura_api::auth::{
    decode_jwt, issue_jwt, access_claims, authenticate, check_refresh_token, hash_password, issue_refresh_token,
    password_matches, refresh_token_at, refresh_token_valid, AuthError, LoginError, RefreshToken,
};
use mutsura_api::dto::{
    AdminPostDTO, CategoryDTO, ContentDTO, NameDTO, PageDTO, TagDTO, UserDTO,
};
use mutsura_api::mapper::Lang;
use mutsura_api::model::{Category, Content, Name, Page, Post, PostWithTotal, Total, User};
use mutsura_api::object_id::ObjectId;
use mutsura_api::service::{
    create_page_document, create_post_document, deletion_status, new_admin_user, new_category,
    new_page, new_post, new_tag, new_user, lookup_outcome, outcome_status, posts_response, Outcome, PostsAnswer, update_page_document,
    update_post_document, updated_page, updated_post,
};

fn name_dto(ja: &str, en: &str) -> NameDTO {
    NameDTO { ja: ja.to_string(), en: en.to_string() }
}

fn admin_post(is_draft: bool) -> AdminPostDTO {
    AdminPostDTO {
        id: None,
        title: name_dto("題", "Title"),
        slug: "slug".to_string(),
        is_draft,
        has_english: true,
        category: CategoryDTO { slug: "tech".to_string(), name: name_dto("技術", "Tech") },
        tags: Some(vec![TagDTO { slug: "rust".to_string(), name: name_dto("ラ", "Rust") }]),
        published_at: None,
        updated_at: None,
        created_at: None,
        author_id: None,
        image: None,
        content: ContentDTO { ja: "本文".to_string(), en: "Body".to_string() },
    }
}

const AUTHOR: &str = "65ab00000000000000000002";

#[test]
fn access_claims_live_fifteen_minutes() {
    let c = access_claims("user", 1_000);
    assert_eq!(c.sub, "user");
    assert_eq!(c.iat, 1_000);
    assert_eq!(c.exp, 1_900);
}

#[test]
fn refresh_tokens_expire_after_a_week() {
    let t = refresh_token_at("tok".to_string(), "u1", 1_000).unwrap();
    assert_eq!(t.exp, 1_000 + 604_800_000);
    assert!(!t.revoked);
    assert_eq!(t.user_id, "u1");
    assert!(refresh_token_valid(&t, 1_000));
    assert!(refresh_token_valid(&t, 1_000 + 604_800_000));
    assert!(!refresh_token_valid(&t, 1_001 + 604_800_000));
    let revoked = RefreshToken { revoked: true, ..t };
    assert!(!refresh_token_valid(&revoked, 0));
    assert_eq!(refresh_token_at("t".to_string(), "u", i64::MAX - 10), None);
}

#[test]
fn issued_refresh_token_is_accepted_now() {
    let t = issue_refresh_token("u2").unwrap();
    assert_eq!(t.token.len(), 36);
    assert_eq!(t.token.chars().nth(8), Some('-'));
    assert_eq!(t.token.chars().nth(14), Some('4'));
    assert!(matches!(t.token.chars().nth(19), Some('8' | '9' | 'a' | 'b')));
    assert_eq!(t.user_id, "u2");
    assert!(check_refresh_token(&t));
    let revoked = RefreshToken { revoked: true, ..t };
    assert!(!check_refresh_token(&revoked));
    let expired = RefreshToken { token: "x".to_string(), exp: 0, revoked: false, user_id: "u".to_string() };
    assert!(!check_refresh_token(&expired));
}

#[test]
fn a_hashed_password_verifies() {
    let hash = hash_password("secret");
    assert!(hash.starts_with("$argon2"));
    assert!(password_matches("secret", &hash));
    assert!(!password_matches("Secret", &hash));
    assert!(!password_matches("secret", "not a hash"));
}

#[test]
fn login_decisions() {
    let mut user = new_user(UserDTO {
        id: None,
        name: name_dto("利用者", "User"),
        email: "u@example.com".to_string(),
        role: "editor".to_string(),
        password: "pw".to_string(),
    });
    assert_eq!(user.role, "editor");
    assert_eq!(user.created_at, user.updated_at);
    assert_eq!(authenticate(&Some(user.clone()), "pw"), Err(LoginError::MissingId));
    user.id = ObjectId::parse_str(AUTHOR);
    assert_eq!(authenticate(&Some(user.clone()), "pw"), Ok(AUTHOR.to_string()));
    assert_eq!(authenticate(&Some(user), "wrong"), Err(LoginError::Unauthorized));
    assert_eq!(authenticate(&None, "pw"), Err(LoginError::Unauthorized));
}

#[test]
fn admin_users_have_the_admin_role() {
    let u: User = new_admin_user("山田".to_string(), "Yamada".to_string(), "a@example.com".to_string(), "pw");
    assert_eq!(u.role, "admin");
    assert_eq!(u.name, Name { ja: "山田".to_string(), en: "Yamada".to_string() });
    assert!(password_matches("pw", &u.password_hash));
    assert_eq!(u.id, None);
}

#[test]
fn auth_errors_answer() {
    assert_eq!((AuthError::WrongCredentials.status_code(), AuthError::WrongCredentials.message()), (401, "Wrong credentials"));
    assert_eq!((AuthError::MissingCredentials.status_code(), AuthError::MissingCredentials.message()), (401, "Missing credentials"));
    assert_eq!((AuthError::TokenCreation.status_code(), AuthError::TokenCreation.message()), (500, "Token creation error"));
    assert_eq!((AuthError::InvalidToken.status_code(), AuthError::InvalidToken.message()), (401, "Invalid token"));
    assert_eq!((AuthError::BadRequest.status_code(), AuthError::BadRequest.message()), (400, "Bad request"));
}

#[test]
fn new_posts_are_published_unless_drafts() {
    let author = ObjectId::parse_str(AUTHOR).unwrap();
    let p = new_post(admin_post(false), author, 500);
    assert_eq!(p.published_at, Some(500));
    assert_eq!((p.created_at, p.updated_at), (500, 500));
    assert_eq!(p.id, None);
    assert_eq!(p.category, Category { slug: "tech".to_string(), name: Name { ja: "技術".to_string(), en: "Tech".to_string() } });
    assert_eq!(p.tags.as_ref().unwrap()[0].slug, "rust");
    assert_eq!(p.content, Content { ja: "本文".to_string(), en: "Body".to_string() });
    let d = new_post(admin_post(true), author, 500);
    assert_eq!(d.published_at, None);
    assert!(create_post_document("not-an-id", admin_post(false)).is_none());
    let c = create_post_document(AUTHOR, admin_post(false)).unwrap();
    assert_eq!(c.author_id, author);
    assert_eq!(c.published_at, Some(c.created_at));
}

#[test]
fn updates_keep_creation_and_first_publication() {
    let author = ObjectId::parse_str(AUTHOR).unwrap();
    let mut existing: Post = new_post(admin_post(false), author, 100);
    existing.id = ObjectId::parse_str("65ab00000000000000000009");
    let u = updated_post(admin_post(false), existing.clone(), author, 900);
    assert_eq!(u.published_at, Some(100));
    assert_eq!((u.created_at, u.updated_at), (100, 900));
    assert_eq!(u.id, existing.id);
    let draft = updated_post(admin_post(true), existing.clone(), author, 900);
    assert_eq!(draft.published_at, None);
    let republished = updated_post(admin_post(false), draft, author, 1_000);
    assert_eq!(republished.published_at, Some(1_000));
    assert!(update_post_document("zz", admin_post(false), existing.clone()).is_none());
    let now = update_post_document(AUTHOR, admin_post(false), existing.clone()).unwrap();
    assert_eq!(now.published_at, Some(100));
    assert_eq!(now.created_at, 100);
}

#[test]
fn pages_keep_creation() {
    let dto = PageDTO { slug: "about".to_string(), title: name_dto("概要", "About"), content: ContentDTO { ja: "a".to_string(), en: "b".to_string() } };
    let p: Page = new_page(dto.clone(), 7);
    assert_eq!((p.created_at, p.updated_at, p.id), (7, 7, None));
    let u = updated_page(dto.clone(), Page { id: ObjectId::parse_str(AUTHOR), ..p.clone() }, 9);
    assert_eq!((u.created_at, u.updated_at), (7, 9));
    assert_eq!(u.id, ObjectId::parse_str(AUTHOR));
    let c = create_page_document(dto.clone());
    assert_eq!(c.created_at, c.updated_at);
    assert_eq!(c.slug, "about");
    let k = update_page_document(dto, p);
    assert_eq!(k.created_at, 7);
}

#[test]
fn categories_and_tags_from_requests() {
    let c = new_category(CategoryDTO { slug: "x".to_string(), name: name_dto("エックス", "X") });
    assert_eq!(c.slug, "x");
    assert_eq!(c.name.ja, "エックス");
    let t = new_tag(TagDTO { slug: "y".to_string(), name: name_dto("ワイ", "Y") });
    assert_eq!(t.name.en, "Y");
}

#[test]
fn deletions_answer() {
    assert_eq!(deletion_status(1), 204);
    assert_eq!(deletion_status(3), 204);
    assert_eq!(deletion_status(0), 404);
}

#[test]
fn post_pages_are_answered() {
    let author = ObjectId::parse_str(AUTHOR).unwrap();
    let posts = vec![new_post(admin_post(false), author, 1), new_post(admin_post(false), author, 2)];
    let pwt = PostWithTotal { data: posts, total: vec![Total { count: 12 }] };
    let r = match posts_response(pwt, 5, 2, &Lang::En) {
        PostsAnswer::Found(r) => r,
        PostsAnswer::NotFound => panic!("a page was expected"),
    };
    assert_eq!(r.posts.len(), 2);
    assert_eq!(r.posts[0].title, "Title");
    assert_eq!(r.posts[1].updated_at, 2);
    assert_eq!(r.pagination.total, 12);
    assert_eq!(r.pagination.total_pages, 3);
    assert!(r.pagination.has_next_page);
    assert!(r.pagination.has_previous_page);
    let none = PostWithTotal { data: vec![], total: vec![] };
    assert!(matches!(posts_response(none, 10, 1, &Lang::Ja), PostsAnswer::NotFound));
    let zero = PostWithTotal { data: vec![], total: vec![Total { count: 0 }] };
    assert!(matches!(posts_response(zero, 10, 1, &Lang::Ja), PostsAnswer::NotFound));
    let none_at_zero_limit = PostWithTotal { data: vec![], total: vec![] };
    assert!(matches!(posts_response(none_at_zero_limit, 0, 1, &Lang::Ja), PostsAnswer::NotFound));
    let past_the_end = PostWithTotal { data: vec![], total: vec![Total { count: 3 }] };
    match posts_response(past_the_end, 10, 2, &Lang::Ja) {
        PostsAnswer::Found(r) => {
            assert!(r.posts.is_empty());
            assert_eq!(r.pagination.total_pages, 1);
            assert!(!r.pagination.has_next_page);
        }
        PostsAnswer::NotFound => panic!("a page was expected"),
    }
}

#[test]
fn outcomes_answer() {
    assert_eq!(outcome_status(Outcome::Done, 200), 200);
    assert_eq!(outcome_status(Outcome::Done, 201), 201);
    assert_eq!(outcome_status(Outcome::Missing, 200), 404);
    assert_eq!(outcome_status(Outcome::Refused, 201), 400);
    assert_eq!(outcome_status(Outcome::Failed, 200), 500);
}

#[test]
fn issued_access_tokens_read_back() {
    let now = std::time::SystemTime::now()
        .duration_since(std::time::UNIX_EPOCH)
        .unwrap()
        .as_secs() as usize;
    let token = issue_jwt("66a1b2c3d4e5f60718293a4b", now, b"secret").unwrap();
    assert_eq!(token.split('.').count(), 3);
    assert_eq!(issue_jwt("66a1b2c3d4e5f60718293a4b", now, b"secret").unwrap(), token);
    let claims = decode_jwt(&token, b"secret").unwrap();
    assert_eq!(claims.sub, "66a1b2c3d4e5f60718293a4b");
    assert_eq!(claims.iat, now);
    assert_eq!(claims.exp, now + 900);
    assert_eq!(decode_jwt(&token, b"other"), Err(AuthError::InvalidToken));
    assert_eq!(decode_jwt("not.a.token", b"secret"), Err(AuthError::InvalidToken));
    let expired = issue_jwt("u", 1_000, b"secret").unwrap();
    assert_eq!(decode_jwt(&expired, b"secret"), Err(AuthError::InvalidToken));
}

#[test]
fn lookups_have_outcomes() {
    let found: Result<Option<u8>, ()> = Ok(Some(1));
    let missing: Result<Option<u8>, ()> = Ok(None);
    let failed: Result<Option<u8>, ()> = Err(());
    assert_eq!(lookup_outcome(&found), Outcome::Done);
    assert_eq!(lookup_outcome(&missing), Outcome::Missing);
    assert_eq!(lookup_outcome(&failed), Outcome::Failed);
}
