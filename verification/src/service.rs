//! What the endpoints decide: the documents that a create or update request
//! makes, how a page of posts is answered, and what a deletion answers.

use vstd::prelude::*;

use crate::auth::{hash_password, login_outcome, password_verifies, LoginError, MAX_PASSWORD_BYTES};
use crate::clock::clock_millis;
use crate::dto::{
    page_count, AdminPostDTO, CategoryDTO, PageDTO, PaginationDTO, PostListDTO, PostListResponseDTO,
    TagDTO, UserDTO,
};
use crate::mapper::{
    category_matches, content_matches, id_text, name_matches, tag_matches, tags_correspond,
    post_list_entry, to_category, to_post_list_dto, to_tags, Lang,
};
use crate::model::{Category, Content, Name, Page, Post, PostWithTotal, Tag, User};
use crate::object_id::{hex_decode, hex_encode, is_object_id_hex, ObjectId};

verus! {

/// A stored post made from a request's post at instant `now`. It has no
/// identifier yet, the author is `author_id`, and it is created and updated
/// at `now`; it is published at `now` unless it is a draft.
pub open spec fn post_from_request(p: Post, dto: AdminPostDTO, author_id: ObjectId) -> bool {
    &&& name_matches(p.title, dto.title)
    &&& p.slug@ == dto.slug@
    &&& p.is_draft == dto.is_draft
    &&& p.has_english == dto.has_english
    &&& category_matches(p.category, dto.category)
    &&& tags_correspond(p.tags, dto.tags, |t: Tag, d: TagDTO| tag_matches(t, d))
    &&& p.author_id == author_id
    &&& p.image == dto.image
    &&& content_matches(p.content, dto.content)
}

/// The post that a create request makes at `now`.
pub fn new_post(dto: AdminPostDTO, author_id: ObjectId, now: i64) -> (res: Post)
    ensures
        post_from_request(res, dto, author_id),
        res.id is None,
        res.published_at == (if dto.is_draft { None } else { Some(now) }),
        res.updated_at == now,
        res.created_at == now,
{
    let category = to_category(&dto.category);
    Post {
        id: None,
        title: Name { ja: dto.title.ja, en: dto.title.en },
        slug: dto.slug,
        is_draft: dto.is_draft,
        has_english: dto.has_english,
        category,
        tags: to_tags(dto.tags),
        published_at: if dto.is_draft {
            None
        } else {
            Some(now)
        },
        updated_at: now,
        created_at: now,
        author_id,
        image: dto.image,
        content: Content { ja: dto.content.ja, en: dto.content.en },
    }
}

/// The post that a create request makes, by the token subject `sub` and at
/// the current time; `None` (a bad request) when `sub` is not an
/// identifier.
pub fn create_post_document(sub: &str, dto: AdminPostDTO) -> (res: Option<Post>)
    ensures
        res is Some <==> is_object_id_hex(sub@),
        res matches Some(p) ==> {
            &&& post_from_request(p, dto, p.author_id)
            &&& p.author_id.bytes@ == hex_decode(sub@)
            &&& p.id is None
            &&& p.updated_at == p.created_at
            &&& p.published_at == (if dto.is_draft { None } else { Some(p.created_at) })
        },
{
    match ObjectId::parse_str(sub) {
        Some(author_id) => {
            let now = clock_millis();
            Some(new_post(dto, author_id, now))
        },
        None => None,
    }
}

/// When an updated post is published: not while it is a draft; otherwise
/// when it first was, or now if it never was.
pub open spec fn published_after_update(is_draft: bool, before: Option<i64>, now: i64) -> Option<i64> {
    if is_draft {
        None
    } else {
        match before {
            Some(t) => Some(t),
            None => Some(now),
        }
    }
}

/// The post that an update request makes of `existing` at `now`: the
/// request's content, the existing identifier and creation instant, and
/// the publication instant kept once set.
pub fn updated_post(dto: AdminPostDTO, existing: Post, author_id: ObjectId, now: i64) -> (res: Post)
    ensures
        post_from_request(res, dto, author_id),
        res.id == existing.id,
        res.published_at == published_after_update(dto.is_draft, existing.published_at, now),
        res.updated_at == now,
        res.created_at == existing.created_at,
{
    let published_at = if dto.is_draft {
        None
    } else {
        match existing.published_at {
            Some(t) => Some(t),
            None => Some(now),
        }
    };
    let category = to_category(&dto.category);
    Post {
        id: existing.id,
        title: Name { ja: dto.title.ja, en: dto.title.en },
        slug: dto.slug,
        is_draft: dto.is_draft,
        has_english: dto.has_english,
        category,
        tags: to_tags(dto.tags),
        published_at,
        updated_at: now,
        created_at: existing.created_at,
        author_id,
        image: dto.image,
        content: Content { ja: dto.content.ja, en: dto.content.en },
    }
}

/// The post that an update request makes of `existing`, by the token
/// subject `sub` and at the current time; `None` (a bad request) when `sub`
/// is not an identifier.
pub fn update_post_document(sub: &str, dto: AdminPostDTO, existing: Post) -> (res: Option<Post>)
    ensures
        res is Some <==> is_object_id_hex(sub@),
        res matches Some(p) ==> {
            &&& post_from_request(p, dto, p.author_id)
            &&& p.author_id.bytes@ == hex_decode(sub@)
            &&& p.id == existing.id
            &&& p.created_at == existing.created_at
            &&& p.published_at == published_after_update(dto.is_draft, existing.published_at, p.updated_at)
        },
{
    match ObjectId::parse_str(sub) {
        Some(author_id) => {
            let now = clock_millis();
            Some(updated_post(dto, existing, author_id, now))
        },
        None => None,
    }
}

/// A stored category from a request's category.
pub fn new_category(dto: CategoryDTO) -> (res: Category)
    ensures
        category_matches(res, dto),
{
    Category { slug: dto.slug, name: Name { ja: dto.name.ja, en: dto.name.en } }
}

/// A stored tag from a request's tag.
pub fn new_tag(dto: TagDTO) -> (res: Tag)
    ensures
        tag_matches(res, dto),
{
    Tag { slug: dto.slug, name: Name { ja: dto.name.ja, en: dto.name.en } }
}

/// The page that a create request makes at `now`.
pub fn new_page(dto: PageDTO, now: i64) -> (res: Page)
    ensures
        res.id is None,
        name_matches(res.title, dto.title),
        res.slug@ == dto.slug@,
        content_matches(res.content, dto.content),
        res.created_at == now,
        res.updated_at == now,
{
    Page {
        id: None,
        title: Name { ja: dto.title.ja, en: dto.title.en },
        slug: dto.slug,
        content: Content { ja: dto.content.ja, en: dto.content.en },
        created_at: now,
        updated_at: now,
    }
}

/// The page that a create request makes at the current time.
pub fn create_page_document(dto: PageDTO) -> (res: Page)
    ensures
        res.id is None,
        name_matches(res.title, dto.title),
        res.slug@ == dto.slug@,
        content_matches(res.content, dto.content),
        res.created_at == res.updated_at,
{
    let now = clock_millis();
    new_page(dto, now)
}

/// The page that an update request makes of `existing` at `now`: the
/// request's content, the existing identifier and creation instant.
pub fn updated_page(dto: PageDTO, existing: Page, now: i64) -> (res: Page)
    ensures
        res.id == existing.id,
        name_matches(res.title, dto.title),
        res.slug@ == dto.slug@,
        content_matches(res.content, dto.content),
        res.created_at == existing.created_at,
        res.updated_at == now,
{
    Page {
        id: existing.id,
        title: Name { ja: dto.title.ja, en: dto.title.en },
        slug: dto.slug,
        content: Content { ja: dto.content.ja, en: dto.content.en },
        created_at: existing.created_at,
        updated_at: now,
    }
}

/// The page that an update request makes of `existing` at the current time.
pub fn update_page_document(dto: PageDTO, existing: Page) -> (res: Page)
    ensures
        res.id == existing.id,
        name_matches(res.title, dto.title),
        res.slug@ == dto.slug@,
        content_matches(res.content, dto.content),
        res.created_at == existing.created_at,
{
    let now = clock_millis();
    updated_page(dto, existing, now)
}

/// The user that a create request makes at the current time: the request's
/// names, email and role, and a fresh hash of its password.
pub fn new_user(dto: UserDTO) -> (res: User)
    requires
        vstd::utf8::encode_utf8(dto.password@).len() <= MAX_PASSWORD_BYTES,
    ensures
        res.id is None,
        name_matches(res.name, dto.name),
        res.email == dto.email,
        res.role == dto.role,
        password_verifies(dto.password@, res.password_hash@),
        res.created_at == res.updated_at,
{
    let password_hash = hash_password(dto.password.as_str());
    let now = clock_millis();
    User {
        id: None,
        name: Name { ja: dto.name.ja, en: dto.name.en },
        email: dto.email,
        password_hash,
        role: dto.role,
        updated_at: now,
        created_at: now,
    }
}

/// An administrator made at the current time: the given names and email,
/// the role `admin`, and a fresh hash of the password.
pub fn new_admin_user(ja_name: String, en_name: String, email: String, password: &str) -> (res: User)
    requires
        vstd::utf8::encode_utf8(password@).len() <= MAX_PASSWORD_BYTES,
    ensures
        res.id is None,
        res.name.ja == ja_name,
        res.name.en == en_name,
        res.email == email,
        res.role@ == "admin"@,
        password_verifies(password@, res.password_hash@),
        res.created_at == res.updated_at,
{
    let password_hash = hash_password(password);
    let now = clock_millis();
    User {
        id: None,
        name: Name { ja: ja_name, en: en_name },
        email,
        password_hash,
        role: String::from_str("admin"),
        updated_at: now,
        created_at: now,
    }
}

/// The status that answers a deletion: 204 when something was deleted, 404
/// otherwise.
pub fn deletion_status(deleted_count: u64) -> (res: u16)
    ensures
        res == (if deleted_count >= 1 { 204u16 } else { 404u16 }),
{
    if deleted_count >= 1 {
        204
    } else {
        404
    }
}

/// Whether a page of posts can be answered with `limit` posts per page:
/// when some post matches, the page count can be computed (a nonzero
/// limit, and no count of `i64::MIN` divided by `-1`). When none matches,
/// nothing is divided and every limit will do.
pub open spec fn posts_response_computable(pwt: PostWithTotal, limit: i64) -> bool {
    !no_post_matches(pwt) ==> {
        &&& limit != 0
        &&& !(pwt.total[0].count == i64::MIN && limit == -1)
    }
}

/// The answer to a post list query: a page of posts, or that no post
/// matches the query.
#[derive(Debug)]
pub enum PostsAnswer {
    /// Some post matches: the page of them and its pagination (200).
    Found(PostListResponseDTO),
    /// No post matches the query (404).
    NotFound,
}

/// Whether the store's answer to a post list query says that no post
/// matches: it gave no count (its count stage yields nothing when nothing
/// matches), or a count of zero.
pub open spec fn no_post_matches(pwt: PostWithTotal) -> bool {
    pwt.total.len() == 0 || pwt.total[0].count == 0
}

/// The answer to a post list query: not found when no post matches;
/// otherwise each post as a list entry in `lang`, in order, and the
/// pagination of the count at `limit` per page seen from `page`.
pub fn posts_response(pwt: PostWithTotal, limit: i64, page: i64, lang: &Lang) -> (res: PostsAnswer)
    requires
        posts_response_computable(pwt, limit),
    ensures
        res is NotFound <==> no_post_matches(pwt),
        res matches PostsAnswer::Found(r) ==> {
            let total = pwt.total[0].count;
            &&& r.posts.len() == pwt.data.len()
            &&& forall|i: int| 0 <= i < pwt.data.len() ==> post_list_entry(#[trigger] r.posts[i], pwt.data[i], *lang)
            &&& r.pagination.page == page
            &&& r.pagination.per_page == limit
            &&& r.pagination.total == total
            &&& r.pagination.total_pages == page_count(total as int, limit as int)
            &&& r.pagination.has_next_page == (page_count(total as int, limit as int) > page)
            &&& r.pagination.has_previous_page == (page > 1)
        },
{
    if pwt.total.len() == 0 {
        return PostsAnswer::NotFound;
    }
    let total: i64 = pwt.total[0].count;
    if total == 0 {
        return PostsAnswer::NotFound;
    }
    let pagination = PaginationDTO::new(total, limit, page);
    let ghost src = pwt.data@;
    let mut posts: Vec<PostListDTO> = Vec::new();
    for post in it: pwt.data.into_iter()
        invariant
            it.seq() == src,
            posts.len() == it.index(),
            forall|i: int| 0 <= i < posts.len() ==> post_list_entry(#[trigger] posts[i], src[i], *lang),
    {
        posts.push(to_post_list_dto(post, lang));
    }
    PostsAnswer::Found(PostListResponseDTO { posts, pagination })
}

/// How one step of a request that reads or writes a document went.
#[derive(Debug, Clone, Copy, PartialEq, Eq, Structural)]
pub enum Outcome {
    /// The step succeeded.
    Done,
    /// The document it looked for is not there.
    Missing,
    /// The request is malformed (the token's subject is not an identifier).
    Refused,
    /// The store failed.
    Failed,
}

/// The outcome of a store lookup of one document: done when it was found,
/// missing when the store has none, failed when the store failed.
pub fn lookup_outcome<T, E>(reply: &Result<Option<T>, E>) -> (res: Outcome)
    ensures
        res == match reply {
            Ok(Some(_)) => Outcome::Done,
            Ok(None) => Outcome::Missing,
            Err(_) => Outcome::Failed,
        },
{
    match reply {
        Ok(Some(_)) => Outcome::Done,
        Ok(None) => Outcome::Missing,
        Err(_) => Outcome::Failed,
    }
}

/// The status that answers a step's outcome: `success` when it succeeded,
/// 404 for a missing document, 400 for a malformed request, 500 for a
/// store failure.
pub fn outcome_status(outcome: Outcome, success: u16) -> (res: u16)
    ensures
        res == match outcome {
            Outcome::Done => success,
            Outcome::Missing => 404u16,
            Outcome::Refused => 400u16,
            Outcome::Failed => 500u16,
        },
{
    match outcome {
        Outcome::Done => success,
        Outcome::Missing => 404,
        Outcome::Refused => 400,
        Outcome::Failed => 500,
    }
}

/// A post's first publication instant survives every update that leaves
/// it published; an update to a draft unpublishes it; a post published for
/// the first time by an update is published at the update's instant.
pub proof fn lemma_publication_instant_kept(is_draft: bool, before: Option<i64>, now: i64)
    ensures
        is_draft ==> published_after_update(is_draft, before, now) is None,
        !is_draft && before is Some ==> published_after_update(is_draft, before, now) == before,
        !is_draft && before is None ==> published_after_update(is_draft, before, now) == Some(now),
{
}

/// The user that a create request makes can log in with the request's
/// password once the store has given it an identifier, and the login names
/// that identifier.
pub proof fn lemma_new_user_logs_in(dto: UserDTO, user: User, id: ObjectId)
    requires
        password_verifies(dto.password@, user.password_hash@),
    ensures
        login_outcome(Some(User { id: Some(id), ..user }), dto.password@) == Ok::<Seq<char>, LoginError>(hex_encode(id.bytes@)),
{
}
} // verus!
