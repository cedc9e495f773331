use mutsura_api::dto::{
    AdminPostDTO, CategoryDTO, ContentDTO, NameDTO, PaginationDTO, SSGDataWithCountDTO, TagDTO,
};
use mutsura_api::mapper::{
    to_admin_page_detail_dto, to_admin_post_dto, to_category, to_page_detail_dto, to_page_list_dto,
    to_post_dto, to_post_list_dto, to_response_category_dto, to_response_tag_dto,
    to_ssg_data_with_count_dto, to_tags, to_tags_dto, to_user_dto, to_user_response_dto, Lang,
};
use mutsura_api::model::{
    Author, Category, CategoryWithCount, Content, Name, Page, Post, PostDetail, Tag, TagWithCount,
    User,
};
use mutsura_api::object_id::ObjectId;

fn name(ja: &str, en: &str) -> Name {
    Name { ja: ja.to_string(), en: en.to_string() }
}

fn oid(last: u8) -> ObjectId {
    let mut bytes = [0u8; 12];
    bytes[0] = 0x65;
    bytes[1] = 0xab;
    bytes[11] = last;
    ObjectId { bytes }
}

fn tag(slug: &str, ja: &str, en: &str) -> Tag {
    Tag { slug: slug.to_string(), name: name(ja, en) }
}

fn sample_post() -> Post {
    Post {
        id: Some(oid(1)),
        title: name("タイトル", "Title"),
        slug: "first".to_string(),
        is_draft: false,
        has_english: true,
        category: Category { slug: "tech".to_string(), name: name("技術", "Tech") },
        tags: Some(vec![tag("rust", "ラスト", "Rust"), tag("db", "データベース", "Database")]),
        content: Content { ja: "本文 **です**".to_string(), en: "The *body*".to_string() },
        published_at: Some(1_700_000_000_000),
        updated_at: 1_700_000_100_000,
        created_at: 1_600_000_000_000,
        image: Some("https://example.com/a.png".to_string()),
        author_id: oid(2),
    }
}

#[test]
fn tags_convert_both_ways() {
    let dtos = vec![
        TagDTO { slug: "rust".to_string(), name: NameDTO { ja: "ラスト".to_string(), en: "Rust".to_string() } },
        TagDTO { slug: "db".to_string(), name: NameDTO { ja: "デービー".to_string(), en: "DB".to_string() } },
    ];
    let stored = to_tags(Some(dtos.clone())).unwrap();
    assert_eq!(stored, vec![tag("rust", "ラスト", "Rust"), tag("db", "デービー", "DB")]);
    assert_eq!(to_tags_dto(Some(stored)), Some(dtos));
    assert_eq!(to_tags(None), None);
    assert_eq!(to_tags_dto(None), None);
    assert_eq!(to_tags(Some(vec![])), Some(vec![]));
}

#[test]
fn response_tags_and_category_pick_the_language() {
    let tags = Some(vec![tag("rust", "ラスト", "Rust")]);
    let ja = to_response_tag_dto(tags.clone(), &Lang::Ja).unwrap();
    assert_eq!(ja[0].slug, "rust");
    assert_eq!(ja[0].name, "ラスト");
    let en = to_response_tag_dto(tags, &Lang::En).unwrap();
    assert_eq!(en[0].name, "Rust");
    assert_eq!(to_response_tag_dto(None, &Lang::En), None);
    let cat = Category { slug: "tech".to_string(), name: name("技術", "Tech") };
    let r = to_response_category_dto(cat.clone(), &Lang::En);
    assert_eq!((r.slug.as_str(), r.name.as_str()), ("tech", "Tech"));
    let r = to_response_category_dto(cat, &Lang::Ja);
    assert_eq!(r.name, "技術");
    let dto = CategoryDTO { slug: "life".to_string(), name: NameDTO { ja: "生活".to_string(), en: "Life".to_string() } };
    assert_eq!(to_category(&dto), Category { slug: "life".to_string(), name: name("生活", "Life") });
}

#[test]
fn post_list_entry_in_english() {
    let dto = to_post_list_dto(sample_post(), &Lang::En);
    assert_eq!(dto.id, "65ab00000000000000000001");
    assert_eq!(dto.title, "Title");
    assert_eq!(dto.slug, "first");
    assert!(!dto.is_draft);
    assert!(dto.has_english);
    assert_eq!(dto.excerpt, "The body");
    assert_eq!(dto.category.name, "Tech");
    assert_eq!(dto.tags.as_ref().unwrap()[1].name, "Database");
    assert_eq!(dto.published_at, Some(1_700_000_000_000));
    assert_eq!(dto.updated_at, 1_700_000_100_000);
    assert_eq!(dto.image.as_deref(), Some("https://example.com/a.png"));
    assert_eq!(dto.author_id, "65ab00000000000000000002");
}

#[test]
fn post_list_entry_without_id_in_japanese() {
    let mut post = sample_post();
    post.id = None;
    let dto = to_post_list_dto(post, &Lang::Ja);
    assert_eq!(dto.id, "");
    assert_eq!(dto.title, "タイトル");
    assert_eq!(dto.excerpt, "本文 です");
    assert_eq!(dto.category.name, "技術");
}

#[test]
fn post_detail_carries_author_and_language() {
    let p = sample_post();
    let detail = PostDetail {
        id: p.id,
        title: p.title.clone(),
        slug: p.slug.clone(),
        is_draft: p.is_draft,
        has_english: p.has_english,
        category: p.category.clone(),
        tags: None,
        content: p.content.clone(),
        published_at: None,
        updated_at: p.updated_at,
        created_at: p.created_at,
        image: None,
        author: Some(Author { id: oid(0xff), name: name("著者", "Author"), email: "a@example.com".to_string() }),
    };
    let dto = to_post_dto(detail.clone(), &Lang::En);
    assert_eq!(dto.id.as_deref(), Some("65ab00000000000000000001"));
    assert_eq!(dto.lang, "en");
    assert_eq!(dto.title, "Title");
    assert_eq!(dto.content, "The *body*");
    assert_eq!(dto.excerpt, "The body");
    assert_eq!(dto.tags, None);
    assert_eq!(dto.published_at, None);
    let author = dto.author.unwrap();
    assert_eq!(author.id, "65ab000000000000000000ff");
    assert_eq!(author.name, "Author");
    let ja = to_post_dto(PostDetail { author: None, id: None, ..detail }, &Lang::Ja);
    assert_eq!(ja.lang, "ja");
    assert_eq!(ja.id, None);
    assert_eq!(ja.author, None);
    assert_eq!(ja.content, "本文 **です**");
}

#[test]
fn admin_post_keeps_both_languages() {
    let dto: AdminPostDTO = to_admin_post_dto(sample_post());
    assert_eq!(dto.id.as_deref(), Some("65ab00000000000000000001"));
    assert_eq!(dto.title, NameDTO { ja: "タイトル".to_string(), en: "Title".to_string() });
    assert_eq!(dto.category.slug, "tech");
    assert_eq!(dto.category.name.en, "Tech");
    assert_eq!(dto.tags.as_ref().unwrap().len(), 2);
    assert_eq!(dto.updated_at, Some(1_700_000_100_000));
    assert_eq!(dto.created_at, Some(1_600_000_000_000));
    assert_eq!(dto.author_id.as_deref(), Some("65ab00000000000000000002"));
    assert_eq!(dto.content, ContentDTO { ja: "本文 **です**".to_string(), en: "The *body*".to_string() });
}

#[test]
fn users_hide_the_password() {
    let user = User {
        id: Some(oid(3)),
        name: name("管理者", "Admin"),
        email: "admin@example.com".to_string(),
        password_hash: "$argon2id$secret".to_string(),
        role: "admin".to_string(),
        created_at: 0,
        updated_at: 0,
    };
    let dto = to_user_dto(&user);
    assert_eq!(dto.id, None);
    assert_eq!(dto.password, "******");
    assert_eq!(dto.email, "admin@example.com");
    assert_eq!(dto.name.en, "Admin");
    let r = to_user_response_dto(&user);
    assert_eq!(r.id, None);
    assert_eq!(r.role, "admin");
    assert_eq!(r.name.ja, "管理者");
}

fn sample_page(id: Option<ObjectId>) -> Page {
    Page {
        id,
        title: name("概要", "About"),
        slug: "about".to_string(),
        content: Content { ja: "こんにちは".to_string(), en: "Hello".to_string() },
        created_at: 10,
        updated_at: 20,
    }
}

#[test]
fn pages_convert() {
    let list = to_page_list_dto(vec![sample_page(Some(oid(4))), sample_page(None)]);
    assert_eq!(list.len(), 2);
    assert_eq!(list[0].id, "65ab00000000000000000004");
    assert_eq!(list[1].id, "");
    assert_eq!(list[0].title.en, "About");
    assert_eq!((list[0].created_at, list[0].updated_at), (10, 20));
    let d = to_page_detail_dto(sample_page(None), &Lang::En);
    assert_eq!((d.title.as_str(), d.content.as_str()), ("About", "Hello"));
    let d = to_page_detail_dto(sample_page(None), &Lang::Ja);
    assert_eq!((d.title.as_str(), d.content.as_str()), ("概要", "こんにちは"));
    let a = to_admin_page_detail_dto(sample_page(Some(oid(5))));
    assert_eq!(a.id, "65ab00000000000000000005");
    assert_eq!(a.content.ja, "こんにちは");
    assert_eq!(to_admin_page_detail_dto(sample_page(None)).id, "");
}

#[test]
fn ssg_entries_keep_slug_and_count() {
    let tags = vec![
        TagWithCount { slug: "rust".to_string(), name: name("a", "b"), count: 3 },
        TagWithCount { slug: "db".to_string(), name: name("c", "d"), count: 0 },
    ];
    assert_eq!(
        to_ssg_data_with_count_dto(tags),
        vec![
            SSGDataWithCountDTO { slug: "rust".to_string(), count: 3 },
            SSGDataWithCountDTO { slug: "db".to_string(), count: 0 },
        ]
    );
    let cats = vec![CategoryWithCount { slug: "tech".to_string(), name: name("a", "b"), count: 7 }];
    assert_eq!(to_ssg_data_with_count_dto(cats), vec![SSGDataWithCountDTO { slug: "tech".to_string(), count: 7 }]);
}

#[test]
fn pagination_counts_pages() {
    let p = PaginationDTO::new(25, 10, 1);
    assert_eq!((p.total_pages, p.has_next_page, p.has_previous_page), (3, true, false));
    let p = PaginationDTO::new(30, 10, 3);
    assert_eq!((p.total_pages, p.has_next_page, p.has_previous_page), (3, false, true));
    let p = PaginationDTO::new(0, 10, 1);
    assert_eq!((p.total_pages, p.has_next_page, p.has_previous_page), (0, false, false));
    let p = PaginationDTO::new(1, 10, 2);
    assert_eq!(p, PaginationDTO { page: 2, per_page: 10, total: 1, total_pages: 1, has_next_page: false, has_previous_page: true });
    let p = PaginationDTO::new(-25, 10, 1);
    assert_eq!(p.total_pages, -2);
    let p = PaginationDTO::new(25, -10, 1);
    assert_eq!(p.total_pages, -1);
}

#[test]
fn object_ids_read_and_write_hex() {
    let id = ObjectId::parse_str("65AB00000000000000000001").unwrap();
    assert_eq!(id, oid(1));
    assert_eq!(id.to_hex(), "65ab00000000000000000001");
    assert_eq!(ObjectId::parse_str(&id.to_hex()), Some(id));
    assert_eq!(ObjectId::parse_str("65ab0000000000000000000"), None);
    assert_eq!(ObjectId::parse_str("65ab000000000000000000001"), None);
    assert_eq!(ObjectId::parse_str("65ab0000000000000000000g"), None);
    assert_eq!(ObjectId::parse_str("65ab00000000000000000あ"), None);
    assert_eq!(ObjectId::parse_str(""), None);
}
