//! Query parameters of the post list endpoints and what they are turned
//! into: the filter that posts must match and the plan of the list query.

use vstd::prelude::*;

use crate::mapper::Lang;
use crate::text::{chars_of, push_char};

verus! {

/// Whether a text is exactly the given literal.
pub fn text_is(s: &String, lit: &str) -> (res: bool)
    ensures
        res == (s@ == lit@),
{
    let other = String::from_str(lit);
    *s == other
}

/// The language a `lang` parameter asks for: Japanese when it is absent,
/// `None` (a bad request) when it names neither `ja` nor `en`.
pub open spec fn lang_of_param(param: Option<Seq<char>>) -> Option<Lang> {
    match param {
        None => Some(Lang::Ja),
        Some(l) => if l == "ja"@ {
            Some(Lang::Ja)
        } else if l == "en"@ {
            Some(Lang::En)
        } else {
            None
        },
    }
}

/// The view of an optional text.
pub open spec fn opt_view(s: Option<String>) -> Option<Seq<char>> {
    match s {
        Some(t) => Some(t@),
        None => None,
    }
}

/// Reads a `lang` query parameter.
pub fn parse_lang(param: &Option<String>) -> (res: Option<Lang>)
    ensures
        res == lang_of_param(opt_view(*param)),
{
    match param {
        None => Some(Lang::Ja),
        Some(l) => {
            if text_is(l, "ja") {
                Some(Lang::Ja)
            } else if text_is(l, "en") {
                Some(Lang::En)
            } else {
                None
            }
        },
    }
}

/// A field that a post filter constrains.
#[derive(Debug, Clone, Copy, PartialEq, Eq, Structural)]
pub enum FilterField {
    /// `category.slug`
    CategorySlug,
    /// `tags.slug`
    TagSlug,
    /// `has_english`
    HasEnglish,
    /// `is_draft`
    IsDraft,
}

/// A value that a post filter requires of a field.
#[derive(Debug, Clone, PartialEq, Eq)]
pub enum FilterValue {
    Text(String),
    Flag(bool),
}

/// The conditions that listed posts must meet, each an equality on one
/// field; an absent entry is no condition. The entries stand in the order
/// of the fields here.
#[derive(Debug, Clone, PartialEq, Eq)]
pub struct PostFilter {
    pub category_slug: Option<String>,
    pub tag_slug: Option<String>,
    pub has_english: Option<bool>,
    pub is_draft: Option<bool>,
}

impl PostFilter {
    /// The filter with no condition.
    pub fn new() -> (res: PostFilter)
        ensures
            res.category_slug is None,
            res.tag_slug is None,
            res.has_english is None,
            res.is_draft is None,
    {
        PostFilter { category_slug: None, tag_slug: None, has_english: None, is_draft: None }
    }

    /// A copy of the filter.
    pub fn duplicate(&self) -> (res: PostFilter)
        ensures
            res == *self,
    {
        PostFilter {
            category_slug: match &self.category_slug {
                Some(c) => Some(c.clone()),
                None => None,
            },
            tag_slug: match &self.tag_slug {
                Some(t) => Some(t.clone()),
                None => None,
            },
            has_english: self.has_english,
            is_draft: self.is_draft,
        }
    }

    /// The value that the filter requires of a field, if any.
    pub fn get(&self, field: FilterField) -> (res: Option<FilterValue>)
        ensures
            res == match field {
                FilterField::CategorySlug => match self.category_slug {
                    Some(s) => Some(FilterValue::Text(s)),
                    None => None,
                },
                FilterField::TagSlug => match self.tag_slug {
                    Some(s) => Some(FilterValue::Text(s)),
                    None => None,
                },
                FilterField::HasEnglish => match self.has_english {
                    Some(b) => Some(FilterValue::Flag(b)),
                    None => None,
                },
                FilterField::IsDraft => match self.is_draft {
                    Some(b) => Some(FilterValue::Flag(b)),
                    None => None,
                },
            },
    {
        match field {
            FilterField::CategorySlug => match &self.category_slug {
                Some(s) => Some(FilterValue::Text(s.clone())),
                None => None,
            },
            FilterField::TagSlug => match &self.tag_slug {
                Some(s) => Some(FilterValue::Text(s.clone())),
                None => None,
            },
            FilterField::HasEnglish => match self.has_english {
                Some(b) => Some(FilterValue::Flag(b)),
                None => None,
            },
            FilterField::IsDraft => match self.is_draft {
                Some(b) => Some(FilterValue::Flag(b)),
                None => None,
            },
        }
    }
}

/// The field name of a filter entry in the store's documents.
pub fn field_name(field: FilterField) -> (res: &'static str)
    ensures
        res@ == match field {
            FilterField::CategorySlug => "category.slug"@,
            FilterField::TagSlug => "tags.slug"@,
            FilterField::HasEnglish => "has_english"@,
            FilterField::IsDraft => "is_draft"@,
        },
{
    match field {
        FilterField::CategorySlug => "category.slug",
        FilterField::TagSlug => "tags.slug",
        FilterField::HasEnglish => "has_english",
        FilterField::IsDraft => "is_draft",
    }
}

/// Whether an optional language parameter is exactly `en`.
pub open spec fn asks_english(lang: Option<Seq<char>>) -> bool {
    lang matches Some(l) && l == "en"@
}

/// The filter shared by the public and the administration lists: the
/// category and the tag when given, and only posts with an English version
/// when the language asked for is English.
pub fn create_common_postlist_filter(
    category: &Option<String>,
    tag: &Option<String>,
    lang: &Option<String>,
) -> (res: PostFilter)
    ensures
        res.category_slug == *category,
        res.tag_slug == *tag,
        res.has_english == (if asks_english(opt_view(*lang)) { Some(true) } else { None::<bool> }),
        res.is_draft is None,
{
    let mut filter = PostFilter::new();
    filter.category_slug = match category {
        Some(c) => Some(c.clone()),
        None => None,
    };
    filter.tag_slug = match tag {
        Some(t) => Some(t.clone()),
        None => None,
    };
    if let Some(l) = lang {
        if text_is(l, "en") {
            filter.has_english = Some(true);
        }
    }
    filter
}

/// The public list's filter: the common one, and no drafts.
pub fn create_public_postlist_filter(
    category: &Option<String>,
    tag: &Option<String>,
    lang: &Option<String>,
) -> (res: PostFilter)
    ensures
        res.category_slug == *category,
        res.tag_slug == *tag,
        res.has_english == (if asks_english(opt_view(*lang)) { Some(true) } else { None::<bool> }),
        res.is_draft == Some(false),
{
    let mut filter = create_common_postlist_filter(category, tag, lang);
    filter.is_draft = Some(false);
    filter
}

/// Which posts the administration list shows.
#[derive(Debug, Clone, Copy, PartialEq, Eq, Structural)]
pub enum PostStatus {
    Draft,
    Published,
}

/// The administration list's filter: the common one, and drafts only or
/// published posts only when a status is given.
pub fn create_admin_postlist_filter(
    category: &Option<String>,
    tag: &Option<String>,
    lang: &Option<String>,
    status: &Option<PostStatus>,
) -> (res: PostFilter)
    ensures
        res.category_slug == *category,
        res.tag_slug == *tag,
        res.has_english == (if asks_english(opt_view(*lang)) { Some(true) } else { None::<bool> }),
        res.is_draft == match *status {
            Some(PostStatus::Draft) => Some(true),
            Some(PostStatus::Published) => Some(false),
            None => None::<bool>,
        },
{
    let mut filter = create_common_postlist_filter(category, tag, lang);
    match status {
        Some(PostStatus::Draft) => {
            filter.is_draft = Some(true);
        },
        Some(PostStatus::Published) => {
            filter.is_draft = Some(false);
        },
        None => {},
    }
    filter
}

/// The parameters that the public and the administration lists share.
#[derive(Debug, Clone, PartialEq, Eq)]
pub struct CommonPostListQueryParams {
    pub category: Option<String>,
    pub tag: Option<String>,
    pub lang: Option<String>,
    pub limit: Option<i64>,
    pub page: Option<i64>,
    pub sort: Option<String>,
    pub q: Option<String>,
}

/// The parameters of the public post list.
#[derive(Debug, Clone, PartialEq, Eq)]
pub struct PostListQueryParams {
    pub common: CommonPostListQueryParams,
}

/// The parameters of the administration post list.
#[derive(Debug, Clone, PartialEq, Eq)]
pub struct AdminPostListQueryParams {
    pub common: CommonPostListQueryParams,
    pub status: Option<PostStatus>,
}

/// A `lang` parameter alone.
#[derive(Debug, Clone, PartialEq, Eq)]
pub struct Params {
    pub lang: Option<String>,
}

/// The credentials of a login request.
#[derive(Debug, Clone, PartialEq, Eq)]
pub struct LoginPayload {
    pub email: String,
    pub password: String,
}

/// The `lang` parameter of the site-generation endpoints.
#[derive(Debug, Clone, PartialEq, Eq)]
pub struct SsgQueryParams {
    pub lang: Option<String>,
}

/// The `include-count` parameter of the category list.
#[derive(Debug, Clone, PartialEq, Eq)]
pub struct CategoryListQueryParams {
    pub include_count: Option<bool>,
}

/// The number of posts per page when the request names none.
pub const DEFAULT_LIMIT: i64 = 10;

/// The page when the request names none.
pub const DEFAULT_PAGE: i64 = 1;

/// The text before the first `:` (all of it when there is none).
pub open spec fn before_colon(s: Seq<char>) -> Seq<char>
    decreases s.len(),
{
    if s.len() == 0 {
        Seq::empty()
    } else if s[0] == ':' {
        Seq::empty()
    } else {
        seq![s[0]] + before_colon(s.drop_first())
    }
}

/// The text after the first `:`.
pub open spec fn after_colon(s: Seq<char>) -> Seq<char> {
    s.skip(before_colon(s).len() + 1 as int)
}

/// Whether a text holds a `:`.
pub open spec fn has_colon(s: Seq<char>) -> bool {
    exists|i: int| 0 <= i < s.len() && s[i] == ':'
}

/// The sort direction that the text after the key names: ascending (`1`)
/// unless it is `desc` (`-1`).
pub open spec fn sort_direction(s: Seq<char>) -> int {
    let word = before_colon(after_colon(s));
    if word == "desc"@ {
        -1
    } else {
        1
    }
}

/// The sort that a post list applies when the request names none.
pub open spec fn default_sort() -> Seq<char> {
    "updated_at:desc"@
}

/// The sort text of a request: the one it names or the default.
pub open spec fn sort_text(sort: Option<String>) -> Seq<char> {
    match sort {
        Some(s) => s@,
        None => default_sort(),
    }
}

/// A field that the text search of a post list looks in.
#[derive(Debug, Clone, Copy, PartialEq, Eq, Structural)]
pub enum SearchField {
    /// `title.ja`
    TitleJa,
    /// `title.en`
    TitleEn,
    /// `content.ja`
    ContentJa,
    /// `content.en`
    ContentEn,
}

/// The field name of a searched field in the store's documents.
pub fn search_field_name(field: SearchField) -> (res: &'static str)
    ensures
        res@ == match field {
            SearchField::TitleJa => "title.ja"@,
            SearchField::TitleEn => "title.en"@,
            SearchField::ContentJa => "content.ja"@,
            SearchField::ContentEn => "content.en"@,
        },
{
    match field {
        SearchField::TitleJa => "title.ja",
        SearchField::TitleEn => "title.en",
        SearchField::ContentJa => "content.ja",
        SearchField::ContentEn => "content.en",
    }
}

/// The fields that a post search looks in: the title and the body, in
/// Japanese and in English.
pub open spec fn searched_fields() -> Seq<SearchField> {
    seq![SearchField::TitleJa, SearchField::TitleEn, SearchField::ContentJa, SearchField::ContentEn]
}

/// The text search of a post list: a regular expression `pattern`, with
/// the regular-expression `options`, that a post matches when any of
/// `fields` matches it.
#[derive(Debug, Clone, PartialEq, Eq)]
pub struct TextSearch {
    pub pattern: String,
    pub options: String,
    pub fields: Vec<SearchField>,
}

/// The search for a query text: the text as the pattern, matched without
/// regard to case (`i`) against the titles and bodies in both languages.
pub fn text_search(q: &String) -> (res: TextSearch)
    ensures
        res.pattern == *q,
        res.options@ == "i"@,
        res.fields@ == searched_fields(),
{
    let mut fields: Vec<SearchField> = Vec::new();
    fields.push(SearchField::TitleJa);
    fields.push(SearchField::TitleEn);
    fields.push(SearchField::ContentJa);
    fields.push(SearchField::ContentEn);
    TextSearch { pattern: q.clone(), options: String::from_str("i"), fields }
}

/// The plan of a post list query: an optional case-insensitive search over
/// the titles and bodies in both languages, then the filter, the sort, and
/// the page window; the count of all matching posts comes with it.
#[derive(Debug, Clone, PartialEq, Eq)]
pub struct PostListPipeline {
    pub search: Option<TextSearch>,
    pub filter: PostFilter,
    pub sort_key: String,
    pub sort_order: i32,
    pub skip: i64,
    pub limit: i64,
}

/// The limit a request asks for, or the default.
pub open spec fn limit_of(params: CommonPostListQueryParams) -> i64 {
    match params.limit {
        Some(l) => l,
        None => DEFAULT_LIMIT,
    }
}

/// The page a request asks for, or the default.
pub open spec fn page_of(params: CommonPostListQueryParams) -> i64 {
    match params.page {
        Some(p) => p,
        None => DEFAULT_PAGE,
    }
}

/// Whether a request's paging and sort can be planned: the number of posts
/// to skip fits in 64 bits and the sort text has a `:` between key and
/// direction.
pub open spec fn pipeline_plannable(params: CommonPostListQueryParams) -> bool {
    &&& page_of(params) > i64::MIN
    &&& i64::MIN <= (page_of(params) - 1) * limit_of(params) <= i64::MAX
    &&& (params.sort matches Some(s) ==> has_colon(s@))
}

/// The characters `lo..hi` of `chars` as text.
fn string_of_range(chars: &Vec<char>, lo: usize, hi: usize) -> (res: String)
    requires
        lo <= hi <= chars.len(),
    ensures
        res@ == chars@.subrange(lo as int, hi as int),
{
    let mut res = String::new();
    let mut i: usize = lo;
    while i < hi
        invariant
            lo <= i <= hi <= chars.len(),
            res@ == chars@.subrange(lo as int, i as int),
        decreases hi - i,
    {
        push_char(&mut res, chars[i]);
        assert(chars@.subrange(lo as int, i + 1) =~= chars@.subrange(lo as int, i as int).push(chars@[i as int]));
        i = i + 1;
    }
    res
}

/// The index of the first `:` at or after `from`, or the length.
fn next_colon(chars: &Vec<char>, from: usize) -> (res: usize)
    requires
        from <= chars.len(),
    ensures
        from <= res <= chars.len(),
        res < chars.len() ==> chars@[res as int] == ':',
        forall|j: int| from <= j < res ==> chars@[j] != ':',
{
    let mut i: usize = from;
    while i < chars.len() && chars[i] != ':'
        invariant
            from <= i <= chars.len(),
            forall|j: int| from <= j < i ==> chars@[j] != ':',
        decreases chars.len() - i,
    {
        i = i + 1;
    }
    i
}

/// The text before the first `:` is the prefix up to any index that holds
/// a `:` (or is the end) with none before it.
proof fn lemma_before_colon_at(s: Seq<char>, i: int)
    requires
        0 <= i <= s.len(),
        forall|j: int| 0 <= j < i ==> s[j] != ':',
        i == s.len() || s[i] == ':',
    ensures
        before_colon(s) == s.take(i),
    decreases s.len(),
{
    if i == 0 {
        assert(s.take(0) =~= Seq::<char>::empty());
    } else {
        let t = s.drop_first();
        assert forall|j: int| 0 <= j < i - 1 implies t[j] != ':' by {
            assert(t[j] == s[j + 1]);
        }
        lemma_before_colon_at(t, i - 1);
        assert(seq![s[0]] + t.take(i - 1) =~= s.take(i));
    }
}

/// The sort key and direction word of a sort text: the part before the
/// first `:` and the part between it and the next `:` (or the end).
fn split_sort(s: &String) -> (res: (String, String))
    requires
        has_colon(s@),
    ensures
        res.0@ == before_colon(s@),
        res.1@ == before_colon(after_colon(s@)),
{
    let chars = chars_of(s.as_str());
    let i = next_colon(&chars, 0);
    let ghost text = s@;
    proof {
        let k = choose|k: int| 0 <= k < text.len() && text[k] == ':';
        assert(i < chars.len());
        lemma_before_colon_at(text, i as int);
    }
    let key = string_of_range(&chars, 0, i);
    let j = next_colon(&chars, i + 1);
    proof {
        let rest = text.skip(i + 1);
        assert(after_colon(text) == rest);
        assert forall|m: int| 0 <= m < j - (i + 1) implies rest[m] != ':' by {
            assert(rest[m] == text[m + i + 1]);
        }
        lemma_before_colon_at(rest, j - (i + 1));
        assert(rest.take(j - (i + 1)) =~= text.subrange(i + 1, j as int));
        assert(text.take(i as int) =~= text.subrange(0, i as int));
    }
    let word = string_of_range(&chars, i + 1, j);
    (key, word)
}

/// The plan of a post list query for a request and a filter: the search
/// text when one is given, the sort key and direction of the sort text
/// (`updated_at:desc` when none is given; ascending unless the direction is
/// `desc`), and the page window: skip `(page - 1) * limit`, take `limit`
/// (ten per page and page one by default).
pub fn create_pipeline(params: &CommonPostListQueryParams, filter: &PostFilter) -> (res: PostListPipeline)
    requires
        pipeline_plannable(*params),
    ensures
        res.search is Some <==> params.q is Some,
        res.search matches Some(t) ==> {
            &&& params.q == Some(t.pattern)
            &&& t.options@ == "i"@
            &&& t.fields@ == searched_fields()
        },
        res.filter == *filter,
        res.sort_key@ == before_colon(sort_text(params.sort)),
        res.sort_order == sort_direction(sort_text(params.sort)),
        res.skip == (page_of(*params) - 1) * limit_of(*params),
        res.limit == limit_of(*params),
        params.limit matches Some(l) ==> res.limit == l,
        params.limit is None ==> res.limit == 10,
        params.page matches Some(p) ==> res.skip == (p - 1) * res.limit,
        params.page is None ==> res.skip == 0,
{
    let limit: i64 = match params.limit {
        Some(l) => l,
        None => DEFAULT_LIMIT,
    };
    let page: i64 = match params.page {
        Some(p) => p,
        None => DEFAULT_PAGE,
    };
    let skip: i64 = (page - 1) * limit;
    let sort: String = match &params.sort {
        Some(s) => s.clone(),
        None => String::from_str("updated_at:desc"),
    };
    proof {
        if params.sort is None {
            reveal_strlit("updated_at:desc");
            assert(sort@[10] == ':');
        }
    }
    let (sort_key, word) = split_sort(&sort);
    proof {
        reveal_strlit("asc");
        reveal_strlit("desc");
        assert("asc"@.len() != "desc"@.len());
        assert(sort@ == sort_text(params.sort));
    }
    let sort_order: i32 = if text_is(&word, "asc") {
        1
    } else if text_is(&word, "desc") {
        -1
    } else {
        1
    };
    PostListPipeline {
        search: match &params.q {
            Some(q) => Some(text_search(q)),
            None => None,
        },
        filter: filter.duplicate(),
        sort_key,
        sort_order,
        skip,
        limit,
    }
}

/// The language that a site-generation or tag-list request asks for, as
/// text: the one given, or `ja`.
pub open spec fn lang_text(lang: Option<String>) -> Seq<char> {
    match lang {
        Some(l) => l@,
        None => "ja"@,
    }
}

/// The filter of the public tag list: published posts only, and only those
/// with an English version unless the language asked for is `ja` (the
/// default).
pub fn public_tag_list_filter(lang: &Option<String>) -> (res: PostFilter)
    ensures
        res.category_slug is None,
        res.tag_slug is None,
        res.has_english == (if lang_text(*lang) != "ja"@ { Some(true) } else { None::<bool> }),
        res.is_draft == Some(false),
{
    let mut filter = PostFilter::new();
    filter.is_draft = Some(false);
    let other_than_ja = match lang {
        Some(l) => !text_is(l, "ja"),
        None => false,
    };
    if other_than_ja {
        filter.has_english = Some(true);
    }
    filter
}

/// The filter of the site-generation queries for a language: published
/// posts only, and only those with an English version when the language is
/// exactly `en`.
pub fn ssg_post_filter(lang: &String) -> (res: PostFilter)
    ensures
        res.category_slug is None,
        res.tag_slug is None,
        res.has_english == (if lang@ == "en"@ { Some(true) } else { None::<bool> }),
        res.is_draft == Some(false),
{
    let mut filter = PostFilter::new();
    filter.is_draft = Some(false);
    if text_is(lang, "en") {
        filter.has_english = Some(true);
    }
    filter
}

/// The filter of the category list with counts: published posts only.
pub fn published_post_filter() -> (res: PostFilter)
    ensures
        res.category_slug is None,
        res.tag_slug is None,
        res.has_english is None,
        res.is_draft == Some(false),
{
    let mut filter = PostFilter::new();
    filter.is_draft = Some(false);
    filter
}

/// What a grouped list gathers published posts by.
#[derive(Debug, Clone, Copy, PartialEq, Eq, Structural)]
pub enum GroupField {
    /// The post's tags: a post counts once for each of its tags.
    Tags,
    /// The post's category.
    Category,
}

/// The field of the store's posts that a grouped list gathers by.
pub fn group_field_name(field: GroupField) -> (res: &'static str)
    ensures
        res@ == match field {
            GroupField::Tags => "tags"@,
            GroupField::Category => "category"@,
        },
{
    match field {
        GroupField::Tags => "tags",
        GroupField::Category => "category",
    }
}

/// The plan of a list of the tags or the categories of posts: the posts
/// that match `filter`, spread into one entry per element of the grouped
/// field when `unwind` (a list) and taken whole otherwise, then one entry
/// per slug of the grouped field, with the first name found for it and,
/// when `with_count`, the number of entries gathered under it.
#[derive(Debug, Clone, PartialEq, Eq)]
pub struct GroupedListPlan {
    pub filter: PostFilter,
    pub group_by: GroupField,
    pub unwind: bool,
    pub with_count: bool,
}

/// The public tag list: the tags of the posts that the public tag list's
/// filter admits, one entry per tag slug with its name, without counts.
pub fn public_tag_list_plan(lang: &Option<String>) -> (res: GroupedListPlan)
    ensures
        res.filter.category_slug is None,
        res.filter.tag_slug is None,
        res.filter.has_english == (if lang_text(*lang) != "ja"@ { Some(true) } else { None::<bool> }),
        res.filter.is_draft == Some(false),
        res.group_by == GroupField::Tags,
        res.unwind,
        !res.with_count,
{
    GroupedListPlan {
        filter: public_tag_list_filter(lang),
        group_by: GroupField::Tags,
        unwind: true,
        with_count: false,
    }
}

/// The site-generation tag list for a language: the tags of the published
/// posts (with an English version when the language is `en`), one entry
/// per tag slug with its name and the number of such posts carrying it.
pub fn ssg_tag_list_plan(lang: &String) -> (res: GroupedListPlan)
    ensures
        res.filter.category_slug is None,
        res.filter.tag_slug is None,
        res.filter.has_english == (if lang@ == "en"@ { Some(true) } else { None::<bool> }),
        res.filter.is_draft == Some(false),
        res.group_by == GroupField::Tags,
        res.unwind,
        res.with_count,
{
    GroupedListPlan { filter: ssg_post_filter(lang), group_by: GroupField::Tags, unwind: true, with_count: true }
}

/// The site-generation category list for a language: the categories of the
/// published posts (with an English version when the language is `en`),
/// one entry per category slug with its name and the number of such posts
/// in it.
pub fn ssg_category_list_plan(lang: &String) -> (res: GroupedListPlan)
    ensures
        res.filter.category_slug is None,
        res.filter.tag_slug is None,
        res.filter.has_english == (if lang@ == "en"@ { Some(true) } else { None::<bool> }),
        res.filter.is_draft == Some(false),
        res.group_by == GroupField::Category,
        !res.unwind,
        res.with_count,
{
    GroupedListPlan {
        filter: ssg_post_filter(lang),
        group_by: GroupField::Category,
        unwind: false,
        with_count: true,
    }
}

/// The category list with counts: the categories of all published posts,
/// one entry per category slug with its name and the number of published
/// posts in it.
pub fn category_count_plan() -> (res: GroupedListPlan)
    ensures
        res.filter.category_slug is None,
        res.filter.tag_slug is None,
        res.filter.has_english is None,
        res.filter.is_draft == Some(false),
        res.group_by == GroupField::Category,
        !res.unwind,
        res.with_count,
{
    GroupedListPlan {
        filter: published_post_filter(),
        group_by: GroupField::Category,
        unwind: false,
        with_count: true,
    }
}

/// The page window of a post list is the one the request asks for: the
/// page size is the requested limit (ten when none is given), and page `p`
/// starts after the `(p - 1)` full pages before it (the first page when
/// none is given). So consecutive pages are adjacent and do not overlap.
pub proof fn lemma_page_window(params: CommonPostListQueryParams)
    ensures
        params.limit matches Some(l) ==> limit_of(params) == l,
        params.limit is None ==> limit_of(params) == 10,
        params.page matches Some(p) ==> page_of(params) == p,
        params.page is None ==> page_of(params) == 1,
        params.page is None ==> (page_of(params) - 1) * limit_of(params) == 0,
        params.page matches Some(p) ==> (page_of(params) - 1) * limit_of(params) + limit_of(params)
            == p * limit_of(params),
{
    if let Some(p) = params.page {
        let l = limit_of(params);
        assert((p - 1) * l + l == p * l) by (nonlinear_arith);
    }
}

/// A sort text written as a key, `:` and a direction (neither holding a
/// `:`) is read back as that key and direction.
pub proof fn lemma_sort_text_parts(key: Seq<char>, dir: Seq<char>)
    requires
        forall|i: int| 0 <= i < key.len() ==> key[i] != ':',
        forall|i: int| 0 <= i < dir.len() ==> dir[i] != ':',
    ensures
        has_colon(key + seq![':'] + dir),
        before_colon(key + seq![':'] + dir) == key,
        before_colon(after_colon(key + seq![':'] + dir)) == dir,
{
    let s = key + seq![':'] + dir;
    assert(s[key.len() as int] == ':');
    assert forall|j: int| 0 <= j < key.len() implies s[j] != ':' by {
        assert(s[j] == key[j]);
    }
    lemma_before_colon_at(s, key.len() as int);
    assert(s.take(key.len() as int) =~= key);
    assert(s.skip(key.len() + 1 as int) =~= dir);
    lemma_before_colon_at(dir, dir.len() as int);
    assert(dir.take(dir.len() as int) =~= dir);
}
/// Why a text is not a 64-bit integer, as `str::parse::<i64>` tells it.
#[derive(Debug, Clone, Copy, PartialEq, Eq, Structural)]
pub enum IntParseError {
    Empty,
    InvalidDigit,
    PosOverflow,
    NegOverflow,
}

impl IntParseError {
    /// The message that `std::num::ParseIntError` shows for the same kind.
    pub fn message(&self) -> (res: &'static str)
        ensures
            res@ == match *self {
                IntParseError::Empty => "cannot parse integer from empty string"@,
                IntParseError::InvalidDigit => "invalid digit found in string"@,
                IntParseError::PosOverflow => "number too large to fit in target type"@,
                IntParseError::NegOverflow => "number too small to fit in target type"@,
            },
    {
        match self {
            IntParseError::Empty => "cannot parse integer from empty string",
            IntParseError::InvalidDigit => "invalid digit found in string",
            IntParseError::PosOverflow => "number too large to fit in target type",
            IntParseError::NegOverflow => "number too small to fit in target type",
        }
    }
}

/// Whether a character is an ASCII decimal digit.
pub open spec fn is_ascii_digit(c: char) -> bool {
    '0' <= c && c <= '9'
}

/// Reads decimal digits left to right into a value of the given sign: the
/// first character that is not a digit fails the reading, and so does the
/// first digit that takes the value out of the 64-bit range.
pub open spec fn scan_digits(ds: Seq<char>, negative: bool) -> Result<int, IntParseError>
    decreases ds.len(),
{
    if ds.len() == 0 {
        Ok(0)
    } else {
        match scan_digits(ds.drop_last(), negative) {
            Err(e) => Err(e),
            Ok(acc) => {
                let c = ds.last();
                if !is_ascii_digit(c) {
                    Err(IntParseError::InvalidDigit)
                } else if negative {
                    let v = acc * 10 - (c as int - 48);
                    if v < i64::MIN {
                        Err(IntParseError::NegOverflow)
                    } else {
                        Ok(v)
                    }
                } else {
                    let v = acc * 10 + (c as int - 48);
                    if v > i64::MAX {
                        Err(IntParseError::PosOverflow)
                    } else {
                        Ok(v)
                    }
                }
            },
        }
    }
}

/// A text read as a 64-bit integer: an optional `+` or `-`, then at least
/// one decimal digit.
pub open spec fn parse_i64_spec(s: Seq<char>) -> Result<int, IntParseError> {
    if s.len() == 0 {
        Err(IntParseError::Empty)
    } else if (s[0] == '+' || s[0] == '-') && s.len() == 1 {
        Err(IntParseError::InvalidDigit)
    } else if s[0] == '+' {
        scan_digits(s.drop_first(), false)
    } else if s[0] == '-' {
        scan_digits(s.drop_first(), true)
    } else {
        scan_digits(s, false)
    }
}

/// Reads a text as a 64-bit integer.
pub fn parse_i64(s: &str) -> (res: Result<i64, IntParseError>)
    ensures
        match (res, parse_i64_spec(s@)) {
            (Ok(v), Ok(w)) => v == w,
            (Err(e), Err(f)) => e == f,
            _ => false,
        },
{
    let chars = chars_of(s);
    let n = chars.len();
    if n == 0 {
        return Err(IntParseError::Empty);
    }
    let first = chars[0];
    if (first == '+' || first == '-') && n == 1 {
        return Err(IntParseError::InvalidDigit);
    }
    let negative = first == '-';
    let start: usize = if first == '+' || first == '-' { 1 } else { 0 };
    let ghost ds = chars@.skip(start as int);
    proof {
        if start == 1 {
            assert(ds =~= s@.drop_first());
        } else {
            assert(ds =~= s@);
        }
        assert(ds.take(0) =~= Seq::<char>::empty());
        assert(parse_i64_spec(s@) == scan_digits(ds, negative));
    }
    let mut acc: i64 = 0;
    let mut k: usize = start;
    while k < n
        invariant
            start <= k <= n,
            n == chars.len(),
            ds == chars@.skip(start as int),
            scan_digits(ds.take(k - start), negative) == Ok::<int, IntParseError>(acc as int),
            negative ==> acc <= 0,
            !negative ==> acc >= 0,
            negative == (chars@[0] == '-'),
            start == (if chars@[0] == '+' || chars@[0] == '-' { 1usize } else { 0usize }),
            s@ == chars@,
            n > 0,
            parse_i64_spec(s@) == scan_digits(ds, negative),
        decreases n - k,
    {
        let c = chars[k];
        proof {
            assert(ds.take(k + 1 - start).drop_last() =~= ds.take(k - start));
            assert(ds.take(k + 1 - start).last() == c);
        }
        if !('0' <= c && c <= '9') {
            proof {
                assert(scan_digits(ds.take(k + 1 - start), negative) == Err::<int, IntParseError>(IntParseError::InvalidDigit));
                lemma_scan_prefix_error(ds, (k + 1 - start) as int, negative);
            }
            return Err(IntParseError::InvalidDigit);
        }
        let d: i64 = if c == '0' { 0 } else if c == '1' { 1 } else if c == '2' { 2 } else if c == '3' {
            3
        } else if c == '4' { 4 } else if c == '5' { 5 } else if c == '6' { 6 } else if c == '7' {
            7
        } else if c == '8' { 8 } else { 9 };
        assert(d == c as int - 48);
        let next = match acc.checked_mul(10) {
            Some(t) => if negative {
                t.checked_sub(d)
            } else {
                t.checked_add(d)
            },
            None => None,
        };
        match next {
            Some(v) => {
                acc = v;
            },
            None => {
                proof {
                    if negative {
                        assert(acc * 10 - d < i64::MIN) by (nonlinear_arith)
                            requires
                                acc <= 0,
                                0 <= d <= 9,
                                acc * 10 < i64::MIN || acc * 10 - d < i64::MIN;
                        assert(scan_digits(ds.take(k + 1 - start), negative) == Err::<int, IntParseError>(IntParseError::NegOverflow));
                    } else {
                        assert(acc * 10 + d > i64::MAX) by (nonlinear_arith)
                            requires
                                acc >= 0,
                                0 <= d <= 9,
                                acc * 10 > i64::MAX || acc * 10 + d > i64::MAX;
                        assert(scan_digits(ds.take(k + 1 - start), negative) == Err::<int, IntParseError>(IntParseError::PosOverflow));
                    }
                    lemma_scan_prefix_error(ds, (k + 1 - start) as int, negative);
                }
                if negative {
                    return Err(IntParseError::NegOverflow);
                } else {
                    return Err(IntParseError::PosOverflow);
                }
            },
        }
        k = k + 1;
    }
    proof {
        assert(ds.take(n - start) =~= ds);
    }
    Ok(acc)
}

/// A failure in reading a prefix of the digits is the failure of reading
/// all of them.
proof fn lemma_scan_prefix_error(ds: Seq<char>, k: int, negative: bool)
    requires
        0 <= k <= ds.len(),
        scan_digits(ds.take(k), negative) is Err,
    ensures
        scan_digits(ds, negative) == scan_digits(ds.take(k), negative),
    decreases ds.len() - k,
{
    if k < ds.len() {
        assert(ds.take(k + 1).drop_last() =~= ds.take(k));
        lemma_scan_prefix_error(ds, k + 1, negative);
    } else {
        assert(ds.take(k) =~= ds);
    }
}

/// A numeric query parameter given as text: absent or empty text is no
/// number; other text is read as a 64-bit integer.
pub fn parse_optional_i64(s: &Option<String>) -> (res: Result<Option<i64>, IntParseError>)
    ensures
        match *s {
            None => res == Ok::<Option<i64>, IntParseError>(None),
            Some(t) => if t@.len() == 0 {
                res == Ok::<Option<i64>, IntParseError>(None)
            } else {
                match (res, parse_i64_spec(t@)) {
                    (Ok(Some(v)), Ok(w)) => v == w,
                    (Err(e), Err(f)) => e == f,
                    _ => false,
                }
            },
        },
{
    match s {
        None => Ok(None),
        Some(t) => {
            if t.as_str().is_empty() {
                Ok(None)
            } else {
                match parse_i64(t.as_str()) {
                    Ok(v) => Ok(Some(v)),
                    Err(e) => Err(e),
                }
            }
        },
    }
}

} // verus!
