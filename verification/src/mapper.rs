//! Conversions between stored documents and transfer objects.

use vstd::prelude::*;

use crate::dto::{
    AdminPageDetailDTO, AdminPostDTO, AuthorDTO, CategoryDTO, ContentDTO, NameDTO, PageDetailDTO,
    PageListDTO, PostDetailDTO, PostListDTO, ResponseCategoryDTO, ResponseTagDTO,
    SSGDataWithCountDTO, TagDTO, UserDTO, UserResponseDTO,
};
use crate::model::{
    Author, Category, CategoryWithCount, Content, Name, Page, Post, PostDetail, Tag, TagWithCount,
    User,
};
use crate::object_id::{hex_encode, ObjectId};
use crate::text::{create_excerpt, excerpt_of};

verus! {

/// The language a response is written in.
#[derive(Debug, Clone, Copy, PartialEq, Eq, Structural)]
pub enum Lang {
    Ja,
    En,
}

/// Of a pair of texts, the one in `lang`.
pub open spec fn in_lang<T>(lang: Lang, ja: T, en: T) -> T {
    match lang {
        Lang::Ja => ja,
        Lang::En => en,
    }
}

/// The language code that a detail response names.
pub open spec fn lang_code(lang: Lang) -> Seq<char> {
    match lang {
        Lang::Ja => "ja"@,
        Lang::En => "en"@,
    }
}

/// The text of an optional identifier: its hexadecimal form, or empty.
pub open spec fn id_text(id: Option<ObjectId>) -> Seq<char> {
    match id {
        Some(i) => hex_encode(i.bytes@),
        None => Seq::empty(),
    }
}

/// The length of the excerpts in post lists and details, in characters.
pub const EXCERPT_LEN: usize = 120;

/// A stored name carries the same texts as a transferred one.
pub open spec fn name_matches(n: Name, d: NameDTO) -> bool {
    n.ja@ == d.ja@ && n.en@ == d.en@
}

/// A stored body carries the same texts as a transferred one.
pub open spec fn content_matches(c: Content, d: ContentDTO) -> bool {
    c.ja@ == d.ja@ && c.en@ == d.en@
}

/// A stored tag carries the same slug and names as a transferred one.
pub open spec fn tag_matches(t: Tag, d: TagDTO) -> bool {
    t.slug@ == d.slug@ && name_matches(t.name, d.name)
}

/// A stored category carries the same slug and names as a transferred one.
pub open spec fn category_matches(c: Category, d: CategoryDTO) -> bool {
    c.slug@ == d.slug@ && name_matches(c.name, d.name)
}

/// A one-language tag shows the slug and the name in `lang` of a stored one.
pub open spec fn response_tag_of(r: ResponseTagDTO, t: Tag, lang: Lang) -> bool {
    r.slug@ == t.slug@ && r.name@ == in_lang(lang, t.name.ja@, t.name.en@)
}

/// Two optional tag lists agree, entry by entry in order, under `rel`.
pub open spec fn tags_correspond<A, B>(a: Option<Vec<A>>, b: Option<Vec<B>>, rel: spec_fn(A, B) -> bool) -> bool {
    match (a, b) {
        (None, None) => true,
        (Some(x), Some(y)) => x.len() == y.len() && forall|i: int| 0 <= i < x.len() ==> #[trigger] rel(x[i], y[i]),
        _ => false,
    }
}

/// Stored tags from transferred ones, one for one and in order; `None` stays
/// `None`.
pub fn to_tags(tags: Option<Vec<TagDTO>>) -> (res: Option<Vec<Tag>>)
    ensures
        tags_correspond(res, tags, |t: Tag, d: TagDTO| tag_matches(t, d)),
{
    match tags {
        Some(items) => {
            let ghost src = items@;
            let mut out: Vec<Tag> = Vec::new();
            for d in it: items.into_iter()
                invariant
                    it.seq() == src,
                    out.len() == it.index(),
                    forall|i: int| 0 <= i < out.len() ==> tag_matches(#[trigger] out[i], src[i]),
            {
                out.push(Tag { slug: d.slug, name: Name { ja: d.name.ja, en: d.name.en } });
            }
            Some(out)
        },
        None => None,
    }
}

/// Transferred tags from stored ones, one for one and in order; `None` stays
/// `None`.
pub fn to_tags_dto(tags: Option<Vec<Tag>>) -> (res: Option<Vec<TagDTO>>)
    ensures
        tags_correspond(tags, res, |t: Tag, d: TagDTO| tag_matches(t, d)),
{
    match tags {
        Some(items) => {
            let ghost src = items@;
            let mut out: Vec<TagDTO> = Vec::new();
            for t in it: items.into_iter()
                invariant
                    it.seq() == src,
                    out.len() == it.index(),
                    forall|i: int| 0 <= i < out.len() ==> tag_matches(src[i], #[trigger] out[i]),
            {
                out.push(TagDTO { slug: t.slug, name: NameDTO { ja: t.name.ja, en: t.name.en } });
            }
            Some(out)
        },
        None => None,
    }
}

/// One-language tags from stored ones: each keeps its slug and shows its name
/// in `lang`; one for one and in order; `None` stays `None`.
pub fn to_response_tag_dto(tags: Option<Vec<Tag>>, lang: &Lang) -> (res: Option<Vec<ResponseTagDTO>>)
    ensures
        tags_correspond(res, tags, |r: ResponseTagDTO, t: Tag| response_tag_of(r, t, *lang)),
{
    match tags {
        Some(items) => {
            let ghost src = items@;
            let mut out: Vec<ResponseTagDTO> = Vec::new();
            for t in it: items.into_iter()
                invariant
                    it.seq() == src,
                    out.len() == it.index(),
                    forall|i: int| 0 <= i < out.len() ==> response_tag_of(#[trigger] out[i], src[i], *lang),
            {
                let name = match lang {
                    Lang::Ja => t.name.ja,
                    Lang::En => t.name.en,
                };
                out.push(ResponseTagDTO { slug: t.slug, name });
            }
            Some(out)
        },
        None => None,
    }
}

/// A stored category from a transferred one.
pub fn to_category(category: &CategoryDTO) -> (res: Category)
    ensures
        category_matches(res, *category),
{
    Category {
        name: Name { ja: category.name.ja.clone(), en: category.name.en.clone() },
        slug: category.slug.clone(),
    }
}

/// A one-language category from a stored one.
pub fn to_response_category_dto(category: Category, lang: &Lang) -> (res: ResponseCategoryDTO)
    ensures
        res.slug@ == category.slug@,
        res.name@ == in_lang(*lang, category.name.ja@, category.name.en@),
{
    ResponseCategoryDTO {
        slug: category.slug,
        name: match lang {
            Lang::Ja => category.name.ja,
            Lang::En => category.name.en,
        },
    }
}

/// The text of an optional identifier: its hexadecimal form, or empty.
fn id_to_string(id: Option<ObjectId>) -> (res: String)
    ensures
        res@ == id_text(id),
{
    match id {
        Some(i) => i.to_hex(),
        None => String::new(),
    }
}

/// The hexadecimal form of an optional identifier.
fn id_to_hex(id: Option<ObjectId>) -> (res: Option<String>)
    ensures
        res is Some <==> id is Some,
        res matches Some(s) ==> s@ == id_text(id),
{
    match id {
        Some(i) => Some(i.to_hex()),
        None => None,
    }
}

/// A post list entry shows a post in `lang`: the identifiers as
/// hexadecimal text (an absent post identifier as empty text), the title,
/// an excerpt of the body, the category and the tags in that language, and
/// the other fields as they are.
pub open spec fn post_list_entry(res: PostListDTO, post: Post, lang: Lang) -> bool {
    &&& res.id@ == id_text(post.id)
    &&& res.title@ == in_lang(lang, post.title.ja@, post.title.en@)
    &&& res.slug@ == post.slug@
    &&& res.is_draft == post.is_draft
    &&& res.has_english == post.has_english
    &&& res.excerpt@ == excerpt_of(in_lang(lang, post.content.ja@, post.content.en@), EXCERPT_LEN as nat)
    &&& res.category.slug@ == post.category.slug@
    &&& res.category.name@ == in_lang(lang, post.category.name.ja@, post.category.name.en@)
    &&& tags_correspond(res.tags, post.tags, |r: ResponseTagDTO, t: Tag| response_tag_of(r, t, lang))
    &&& res.published_at == post.published_at
    &&& res.updated_at == post.updated_at
    &&& res.image == post.image
    &&& res.author_id@ == hex_encode(post.author_id.bytes@)
}

/// A post list entry in `lang`: the title, an excerpt of the body, the
/// category and the tags in that language; the identifiers as hexadecimal
/// text (an absent post identifier as empty text).
pub fn to_post_list_dto(post: Post, lang: &Lang) -> (res: PostListDTO)
    ensures
        post_list_entry(res, post, *lang),
{
    let excerpt = match lang {
        Lang::Ja => create_excerpt(post.content.ja.as_str(), EXCERPT_LEN),
        Lang::En => create_excerpt(post.content.en.as_str(), EXCERPT_LEN),
    };
    PostListDTO {
        id: id_to_string(post.id),
        title: match lang {
            Lang::Ja => post.title.ja,
            Lang::En => post.title.en,
        },
        slug: post.slug,
        is_draft: post.is_draft,
        has_english: post.has_english,
        excerpt,
        category: to_response_category_dto(post.category, lang),
        tags: to_response_tag_dto(post.tags, lang),
        published_at: post.published_at,
        updated_at: post.updated_at,
        image: post.image,
        author_id: post.author_id.to_hex(),
    }
}

/// A post detail in `lang`: the title, the body and an excerpt of it, the
/// category, tags and author in that language, and the language's code.
pub fn to_post_dto(post: PostDetail, lang: &Lang) -> (res: PostDetailDTO)
    ensures
        res.id is Some <==> post.id is Some,
        res.id matches Some(s) ==> s@ == id_text(post.id),
        res.title@ == in_lang(*lang, post.title.ja@, post.title.en@),
        res.lang@ == lang_code(*lang),
        res.slug@ == post.slug@,
        res.is_draft == post.is_draft,
        res.has_english == post.has_english,
        res.category.slug@ == post.category.slug@,
        res.category.name@ == in_lang(*lang, post.category.name.ja@, post.category.name.en@),
        tags_correspond(res.tags, post.tags, |r: ResponseTagDTO, t: Tag| response_tag_of(r, t, *lang)),
        res.published_at == post.published_at,
        res.updated_at == post.updated_at,
        res.author is Some <==> post.author is Some,
        post.author matches Some(a) ==> res.author matches Some(d) && author_shown(d, a, *lang),
        res.image == post.image,
        res.excerpt@ == excerpt_of(in_lang(*lang, post.content.ja@, post.content.en@), EXCERPT_LEN as nat),
        res.content@ == in_lang(*lang, post.content.ja@, post.content.en@),
{
    let excerpt = match lang {
        Lang::Ja => create_excerpt(post.content.ja.as_str(), EXCERPT_LEN),
        Lang::En => create_excerpt(post.content.en.as_str(), EXCERPT_LEN),
    };
    PostDetailDTO {
        id: id_to_hex(post.id),
        title: match lang {
            Lang::Ja => post.title.ja,
            Lang::En => post.title.en,
        },
        lang: match lang {
            Lang::Ja => String::from_str("ja"),
            Lang::En => String::from_str("en"),
        },
        slug: post.slug,
        is_draft: post.is_draft,
        has_english: post.has_english,
        category: to_response_category_dto(post.category, lang),
        tags: to_response_tag_dto(post.tags, lang),
        published_at: post.published_at,
        updated_at: post.updated_at,
        author: to_author_dto(post.author, lang),
        image: post.image,
        excerpt,
        content: match lang {
            Lang::Ja => post.content.ja,
            Lang::En => post.content.en,
        },
    }
}

/// A post for the administration: both languages kept, the instants and the
/// author identifier given.
pub fn to_admin_post_dto(post: Post) -> (res: AdminPostDTO)
    ensures
        res.id is Some <==> post.id is Some,
        res.id matches Some(s) ==> s@ == id_text(post.id),
        name_matches(post.title, res.title),
        res.slug@ == post.slug@,
        res.is_draft == post.is_draft,
        res.has_english == post.has_english,
        category_matches(post.category, res.category),
        tags_correspond(post.tags, res.tags, |t: Tag, d: TagDTO| tag_matches(t, d)),
        res.published_at == post.published_at,
        res.updated_at == Some(post.updated_at),
        res.created_at == Some(post.created_at),
        res.author_id matches Some(a) && a@ == hex_encode(post.author_id.bytes@),
        res.image == post.image,
        content_matches(post.content, res.content),
{
    AdminPostDTO {
        id: id_to_hex(post.id),
        title: NameDTO { ja: post.title.ja, en: post.title.en },
        slug: post.slug,
        is_draft: post.is_draft,
        has_english: post.has_english,
        category: CategoryDTO {
            slug: post.category.slug,
            name: NameDTO { ja: post.category.name.ja, en: post.category.name.en },
        },
        tags: to_tags_dto(post.tags),
        published_at: post.published_at,
        updated_at: Some(post.updated_at),
        created_at: Some(post.created_at),
        author_id: Some(post.author_id.to_hex()),
        image: post.image,
        content: ContentDTO { ja: post.content.ja, en: post.content.en },
    }
}

/// An author as a detail shows it: the identifier's hexadecimal form and the
/// name in `lang`.
pub open spec fn author_shown(d: AuthorDTO, a: Author, lang: Lang) -> bool {
    d.id@ == hex_encode(a.id.bytes@) && d.name@ == in_lang(lang, a.name.ja@, a.name.en@)
}

fn to_author_dto(author: Option<Author>, lang: &Lang) -> (res: Option<AuthorDTO>)
    ensures
        res is Some <==> author is Some,
        author matches Some(a) ==> res matches Some(d) && author_shown(d, a, *lang),
{
    match author {
        Some(a) => Some(
            AuthorDTO {
                id: a.id.to_hex(),
                name: match lang {
                    Lang::Ja => a.name.ja,
                    Lang::En => a.name.en,
                },
            },
        ),
        None => None,
    }
}

/// A user as a transfer object: no identifier, the password masked.
pub fn to_user_dto(user: &User) -> (res: UserDTO)
    ensures
        res.id is None,
        res.name.ja@ == user.name.ja@,
        res.name.en@ == user.name.en@,
        res.email@ == user.email@,
        res.role@ == user.role@,
        res.password@ == "******"@,
{
    UserDTO {
        id: None,
        name: NameDTO { ja: user.name.ja.clone(), en: user.name.en.clone() },
        email: user.email.clone(),
        role: user.role.clone(),
        password: String::from_str("******"),
    }
}

/// A user as a response shows it: no identifier, no password.
pub fn to_user_response_dto(user: &User) -> (res: UserResponseDTO)
    ensures
        res.id is None,
        res.name.ja@ == user.name.ja@,
        res.name.en@ == user.name.en@,
        res.email@ == user.email@,
        res.role@ == user.role@,
{
    UserResponseDTO {
        id: None,
        name: NameDTO { ja: user.name.ja.clone(), en: user.name.en.clone() },
        email: user.email.clone(),
        role: user.role.clone(),
    }
}

/// A page list entry shows a page's identifier (empty if absent), slug,
/// titles and instants.
pub open spec fn page_listed(d: PageListDTO, p: Page) -> bool {
    &&& d.id@ == id_text(p.id)
    &&& d.slug@ == p.slug@
    &&& name_matches(p.title, d.title)
    &&& d.created_at == p.created_at
    &&& d.updated_at == p.updated_at
}

/// The page list: one entry per page, in order.
pub fn to_page_list_dto(pages: Vec<Page>) -> (res: Vec<PageListDTO>)
    ensures
        res.len() == pages.len(),
        forall|i: int| 0 <= i < pages.len() ==> page_listed(#[trigger] res[i], pages[i]),
{
    let ghost src = pages@;
    let mut out: Vec<PageListDTO> = Vec::new();
    for page in it: pages.into_iter()
        invariant
            it.seq() == src,
            out.len() == it.index(),
            forall|i: int| 0 <= i < out.len() ==> page_listed(#[trigger] out[i], src[i]),
    {
        out.push(
            PageListDTO {
                id: id_to_string(page.id),
                slug: page.slug,
                title: NameDTO { ja: page.title.ja, en: page.title.en },
                created_at: page.created_at,
                updated_at: page.updated_at,
            },
        );
    }
    out
}

/// A page in `lang`.
pub fn to_page_detail_dto(page: Page, lang: &Lang) -> (res: PageDetailDTO)
    ensures
        res.slug@ == page.slug@,
        res.title@ == in_lang(*lang, page.title.ja@, page.title.en@),
        res.content@ == in_lang(*lang, page.content.ja@, page.content.en@),
        res.created_at == page.created_at,
        res.updated_at == page.updated_at,
{
    PageDetailDTO {
        slug: page.slug,
        title: match lang {
            Lang::Ja => page.title.ja,
            Lang::En => page.title.en,
        },
        content: match lang {
            Lang::Ja => page.content.ja,
            Lang::En => page.content.en,
        },
        created_at: page.created_at,
        updated_at: page.updated_at,
    }
}

/// A page in both languages for the administration; an absent identifier
/// shows as empty text.
pub fn to_admin_page_detail_dto(page: Page) -> (res: AdminPageDetailDTO)
    ensures
        res.id@ == id_text(page.id),
        res.slug@ == page.slug@,
        name_matches(page.title, res.title),
        content_matches(page.content, res.content),
        res.created_at == page.created_at,
        res.updated_at == page.updated_at,
{
    AdminPageDetailDTO {
        id: id_to_string(page.id),
        slug: page.slug,
        title: NameDTO { ja: page.title.ja, en: page.title.en },
        content: ContentDTO { ja: page.content.ja, en: page.content.en },
        created_at: page.created_at,
        updated_at: page.updated_at,
    }
}

impl From<TagWithCount> for SSGDataWithCountDTO {
    fn from(item: TagWithCount) -> (res: SSGDataWithCountDTO) {
        SSGDataWithCountDTO { slug: item.slug, count: item.count }
    }
}

impl vstd::std_specs::convert::FromSpecImpl<TagWithCount> for SSGDataWithCountDTO {
    open spec fn obeys_from_spec() -> bool {
        true
    }

    open spec fn from_spec(item: TagWithCount) -> SSGDataWithCountDTO {
        SSGDataWithCountDTO { slug: item.slug, count: item.count }
    }
}

impl From<CategoryWithCount> for SSGDataWithCountDTO {
    fn from(item: CategoryWithCount) -> (res: SSGDataWithCountDTO) {
        SSGDataWithCountDTO { slug: item.slug, count: item.count }
    }
}

impl vstd::std_specs::convert::FromSpecImpl<CategoryWithCount> for SSGDataWithCountDTO {
    open spec fn obeys_from_spec() -> bool {
        true
    }

    open spec fn from_spec(item: CategoryWithCount) -> SSGDataWithCountDTO {
        SSGDataWithCountDTO { slug: item.slug, count: item.count }
    }
}

/// Site-generation entries from counted tags or categories, one for one and
/// in order, each by its `From` conversion (which keeps the slug and the
/// count).
pub fn to_ssg_data_with_count_dto<T>(data: Vec<T>) -> (res: Vec<SSGDataWithCountDTO>)
    where
        SSGDataWithCountDTO: From<T>,
    ensures
        res.len() == data.len(),
        forall|i: int|
            0 <= i < data.len() ==> call_ensures(
                SSGDataWithCountDTO::from,
                (data[i],),
                #[trigger] res[i],
            ),
{
    let ghost src = data@;
    let mut out: Vec<SSGDataWithCountDTO> = Vec::new();
    for item in it: data.into_iter()
        invariant
            it.seq() == src,
            out.len() == it.index(),
            forall|i: int|
                0 <= i < out.len() ==> call_ensures(
                    SSGDataWithCountDTO::from,
                    (src[i],),
                    #[trigger] out[i],
                ),
    {
        out.push(SSGDataWithCountDTO::from(item));
    }
    out
}

/// Site-generation entries of counted tags keep each tag's slug and count.
pub proof fn lemma_ssg_entries_of_tags(data: Seq<TagWithCount>, res: Seq<SSGDataWithCountDTO>)
    requires
        res.len() == data.len(),
        forall|i: int|
            0 <= i < data.len() ==> call_ensures(
                SSGDataWithCountDTO::from,
                (data[i],),
                #[trigger] res[i],
            ),
    ensures
        forall|i: int| 0 <= i < data.len() ==> #[trigger] res[i].slug == data[i].slug && res[i].count == data[i].count,
{
}

/// Converting transferred tags to stored ones and back gives the same
/// slugs and names, in the same order.
pub proof fn lemma_tags_round_trip(
    dtos: Option<Vec<TagDTO>>,
    stored: Option<Vec<Tag>>,
    back: Option<Vec<TagDTO>>,
)
    requires
        tags_correspond(stored, dtos, |t: Tag, d: TagDTO| tag_matches(t, d)),
        tags_correspond(stored, back, |t: Tag, d: TagDTO| tag_matches(t, d)),
    ensures
        dtos is Some <==> back is Some,
        dtos matches Some(a) ==> back matches Some(b) && a.len() == b.len() && forall|i: int|
            0 <= i < a.len() ==> (#[trigger] a[i]).slug@ == b[i].slug@ && a[i].name.ja@ == b[i].name.ja@
                && a[i].name.en@ == b[i].name.en@,
{
    if let (Some(s), Some(a), Some(b)) = (stored, dtos, back) {
        assert forall|i: int| 0 <= i < a.len() implies (#[trigger] a[i]).slug@ == b[i].slug@
            && a[i].name.ja@ == b[i].name.ja@ && a[i].name.en@ == b[i].name.en@ by {
            let f = |t: Tag, d: TagDTO| tag_matches(t, d);
            assert(f(s[i], a[i]));
            assert(f(s[i], b[i]));
        }
    }
}
/// Site-generation entries of counted categories keep each category's
/// slug and count.
pub proof fn lemma_ssg_entries_of_categories(data: Seq<CategoryWithCount>, res: Seq<SSGDataWithCountDTO>)
    requires
        res.len() == data.len(),
        forall|i: int|
            0 <= i < data.len() ==> call_ensures(
                SSGDataWithCountDTO::from,
                (data[i],),
                #[trigger] res[i],
            ),
    ensures
        forall|i: int| 0 <= i < data.len() ==> #[trigger] res[i].slug == data[i].slug && res[i].count == data[i].count,
{
}

} // verus!
