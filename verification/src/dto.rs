//! Transfer objects: what requests carry in and responses carry out.
//! Instants are milliseconds since the Unix epoch.

use vstd::prelude::*;

verus! {

/// A user as a request carries it, with the plain password.
#[derive(Debug, Clone, PartialEq, Eq)]
pub struct UserDTO {
    pub id: Option<String>,
    pub name: NameDTO,
    pub email: String,
    pub role: String,
    pub password: String,
}

/// A user as a response shows it: no password.
#[derive(Debug, Clone, PartialEq, Eq)]
pub struct UserResponseDTO {
    pub id: Option<String>,
    pub name: NameDTO,
    pub email: String,
    pub role: String,
}

/// One entry of the public post list, in one language.
#[derive(Debug, Clone, PartialEq, Eq)]
pub struct PostListDTO {
    pub id: String,
    pub title: String,
    pub slug: String,
    pub is_draft: bool,
    pub has_english: bool,
    pub excerpt: String,
    pub category: ResponseCategoryDTO,
    pub tags: Option<Vec<ResponseTagDTO>>,
    pub published_at: Option<i64>,
    pub updated_at: i64,
    pub image: Option<String>,
    pub author_id: String,
}

/// A post in both languages, as the administration reads and writes it.
#[derive(Debug, Clone, PartialEq, Eq)]
pub struct AdminPostDTO {
    pub id: Option<String>,
    pub title: NameDTO,
    pub slug: String,
    pub is_draft: bool,
    pub has_english: bool,
    pub category: CategoryDTO,
    pub tags: Option<Vec<TagDTO>>,
    pub published_at: Option<i64>,
    pub updated_at: Option<i64>,
    pub created_at: Option<i64>,
    pub author_id: Option<String>,
    pub image: Option<String>,
    pub content: ContentDTO,
}

/// A post's detail in one language, with its author and an excerpt.
#[derive(Debug, Clone, PartialEq, Eq)]
pub struct PostDetailDTO {
    pub id: Option<String>,
    pub title: String,
    pub lang: String,
    pub slug: String,
    pub is_draft: bool,
    pub has_english: bool,
    pub category: ResponseCategoryDTO,
    pub tags: Option<Vec<ResponseTagDTO>>,
    pub published_at: Option<i64>,
    pub updated_at: i64,
    pub author: Option<AuthorDTO>,
    pub image: Option<String>,
    pub content: String,
    pub excerpt: String,
}

/// Where a page of results stands among all pages.
#[derive(Debug, Clone, PartialEq, Eq)]
pub struct PaginationDTO {
    pub page: i64,
    pub per_page: i64,
    pub total: i64,
    pub total_pages: i64,
    pub has_next_page: bool,
    pub has_previous_page: bool,
}

/// The response of a post list query: the entries and the pagination.
#[derive(Debug, Clone, PartialEq, Eq)]
pub struct PostListResponseDTO {
    pub posts: Vec<PostListDTO>,
    pub pagination: PaginationDTO,
}

/// A post's author in one language.
#[derive(Debug, Clone, PartialEq, Eq)]
pub struct AuthorDTO {
    pub id: String,
    pub name: String,
}

/// A name in Japanese and in English.
#[derive(Debug, Clone, PartialEq, Eq)]
pub struct NameDTO {
    pub ja: String,
    pub en: String,
}

/// A body in Japanese and in English.
#[derive(Debug, Clone, PartialEq, Eq)]
pub struct ContentDTO {
    pub ja: String,
    pub en: String,
}

/// A category in both languages.
#[derive(Debug, Clone, PartialEq, Eq)]
pub struct CategoryDTO {
    pub slug: String,
    pub name: NameDTO,
}

/// A tag in both languages.
#[derive(Debug, Clone, PartialEq, Eq)]
pub struct TagDTO {
    pub slug: String,
    pub name: NameDTO,
}

/// A category in one language.
#[derive(Debug, Clone, PartialEq, Eq)]
pub struct ResponseCategoryDTO {
    pub slug: String,
    pub name: String,
}

/// A tag in one language.
#[derive(Debug, Clone, PartialEq, Eq)]
pub struct ResponseTagDTO {
    pub slug: String,
    pub name: String,
}

/// A page as a request carries it.
#[derive(Debug, Clone, PartialEq, Eq)]
pub struct PageDTO {
    pub slug: String,
    pub title: NameDTO,
    pub content: ContentDTO,
}

/// One entry of the page list.
#[derive(Debug, Clone, PartialEq, Eq)]
pub struct PageListDTO {
    pub id: String,
    pub slug: String,
    pub title: NameDTO,
    pub created_at: i64,
    pub updated_at: i64,
}

/// A page in one language.
#[derive(Debug, Clone, PartialEq, Eq)]
pub struct PageDetailDTO {
    pub slug: String,
    pub title: String,
    pub content: String,
    pub created_at: i64,
    pub updated_at: i64,
}

/// A page in both languages, for the administration.
#[derive(Debug, Clone, PartialEq, Eq)]
pub struct AdminPageDetailDTO {
    pub id: String,
    pub slug: String,
    pub title: NameDTO,
    pub content: ContentDTO,
    pub created_at: i64,
    pub updated_at: i64,
}

/// A slug with the number of public posts behind it, for site generation.
#[derive(Debug, Clone, PartialEq, Eq)]
pub struct SSGDataWithCountDTO {
    pub slug: String,
    pub count: i64,
}

/// The number of public posts, for site generation.
#[derive(Debug, Clone, PartialEq, Eq)]
pub struct SSGDataPostCountDTO {
    pub count: i64,
}

/// The magnitude of an integer.
pub open spec fn abs(a: int) -> int {
    if a < 0 { -a } else { a }
}

/// Integer division rounding toward zero, as Rust's `/` on signed integers.
pub open spec fn trunc_div(a: int, b: int) -> int {
    if (a >= 0) == (b > 0) || a == 0 {
        abs(a) / abs(b)
    } else {
        -(abs(a) / abs(b))
    }
}

/// The remainder of `trunc_div`, as Rust's `%` on signed integers: it takes
/// the sign of `a`.
pub open spec fn trunc_rem(a: int, b: int) -> int {
    if a >= 0 {
        abs(a) % abs(b)
    } else {
        -(abs(a) % abs(b))
    }
}

/// The number of pages for `total` items at `limit` per page: the quotient,
/// plus one where the remainder is positive.
pub open spec fn page_count(total: int, limit: int) -> int {
    if trunc_rem(total, limit) > 0 {
        trunc_div(total, limit) + 1
    } else {
        trunc_div(total, limit)
    }
}

impl PaginationDTO {
    /// The pagination of `total` items, `limit` per page, seen from page
    /// `page`.
    pub fn new(total: i64, limit: i64, page: i64) -> (res: PaginationDTO)
        requires
            limit != 0,
            !(total == i64::MIN && limit == -1),
        ensures
            res.page == page,
            res.per_page == limit,
            res.total == total,
            res.total_pages == page_count(total as int, limit as int),
            res.has_next_page == (page_count(total as int, limit as int) > page),
            res.has_previous_page == (page > 1),
    {
        proof {
            lemma_trunc_matches(total as int, limit as int);
            lemma_trunc_in_range(total as int, limit as int);
        }
        let quotient: i64 = match total.checked_div(limit) {
            Some(q) => q,
            None => 0,
        };
        let remainder: i64 = match total.checked_rem(limit) {
            Some(r) => r,
            None => 0,
        };
        assert(quotient == trunc_div(total as int, limit as int));
        assert(remainder == trunc_rem(total as int, limit as int));
        let total_pages: i64 = if remainder > 0 {
            proof {
                lemma_quotient_has_room(total as int, limit as int);
            }
            quotient + 1
        } else {
            quotient
        };
        let has_next_page: bool = total_pages > page;
        let has_previous_page: bool = page > 1;
        PaginationDTO {
            page,
            per_page: limit,
            total,
            total_pages,
            has_next_page,
            has_previous_page,
        }
    }
}

proof fn lemma_trunc_matches(x: int, d: int)
    requires
        d != 0,
    ensures
        trunc_div(x, d) == (if x == 0 {
            0
        } else if x > 0 && d > 0 {
            x / d
        } else if x < 0 && d < 0 {
            (x * -1) / (d * -1)
        } else if x < 0 {
            ((x * -1) / d) * -1
        } else {
            (x / (d * -1)) * -1
        }),
        trunc_rem(x, d) == (if x == 0 {
            0
        } else if x > 0 && d > 0 {
            x % d
        } else if x < 0 && d < 0 {
            ((x * -1) % (d * -1)) * -1
        } else if x < 0 {
            ((x * -1) % d) * -1
        } else {
            x % (d * -1)
        }),
{
}

proof fn lemma_trunc_in_range(x: int, d: int)
    requires
        d != 0,
        !(x == i64::MIN && d == -1),
        i64::MIN <= x <= i64::MAX,
        i64::MIN <= d <= i64::MAX,
    ensures
        i64::MIN <= trunc_div(x, d) <= i64::MAX,
        i64::MIN <= trunc_rem(x, d) <= i64::MAX,
{
    let q = abs(x) / abs(d);
    assert(0 <= q <= abs(x)) by {
        vstd::arithmetic::div_mod::lemma_div_is_ordered_by_denominator(abs(x), 1, abs(d));
    }
    if q == abs(x) && x == i64::MIN && trunc_div(x, d) > 0 {
        assert(abs(d) == 1) by {
            if abs(d) >= 2 {
                vstd::arithmetic::div_mod::lemma_div_is_ordered_by_denominator(abs(x), 2, abs(d));
            }
        }
    }
    assert(0 <= abs(x) % abs(d) < abs(d));
}

proof fn lemma_quotient_has_room(x: int, d: int)
    requires
        d != 0,
        trunc_rem(x, d) > 0,
        i64::MIN <= x <= i64::MAX,
    ensures
        trunc_div(x, d) + 1 <= i64::MAX,
{
    if x <= 0 {
        assert(abs(x) % abs(d) >= 0);
        if x == 0 {
            assert(0int % abs(d) == 0);
        }
    }
    assert(x > 0);
    assert(abs(d) >= 2) by {
        if abs(d) == 1 {
            assert(abs(x) % 1 == 0);
        }
    }
    let q = abs(x) / abs(d);
    assert(q <= abs(x) / 2) by {
        vstd::arithmetic::div_mod::lemma_div_is_ordered_by_denominator(abs(x), 2, abs(d));
    }
}

/// For a nonnegative number of items and a positive limit, the page count
/// is the least number of pages that hold all items: none for no items,
/// and otherwise the last page is the one that holds the last item.
pub proof fn lemma_page_count_covers_total(total: int, limit: int)
    requires
        total >= 0,
        limit > 0,
    ensures
        page_count(total, limit) >= 0,
        page_count(total, limit) * limit >= total,
        total == 0 ==> page_count(total, limit) == 0,
        total > 0 ==> (page_count(total, limit) - 1) * limit < total,
{
    let q = total / limit;
    let r = total % limit;
    vstd::arithmetic::div_mod::lemma_fundamental_div_mod(total, limit);
    assert(q * limit + r == total);
    assert(0 <= r < limit);
    assert(q >= 0) by {
        vstd::arithmetic::div_mod::lemma_div_pos_is_pos(total, limit);
    }
    if r > 0 {
        assert(page_count(total, limit) == q + 1);
        assert((q + 1) * limit == q * limit + limit) by (nonlinear_arith);
    } else {
        assert(page_count(total, limit) == q);
        if total > 0 {
            assert(q > 0) by {
                if q == 0 {
                    assert(q * limit == 0) by (nonlinear_arith)
                        requires q == 0;
                }
            }
            assert((q - 1) * limit == q * limit - limit) by (nonlinear_arith);
        } else {
            assert(q == 0) by {
                vstd::arithmetic::div_mod::lemma_div_of0(limit);
            }
        }
    }
}
} // verus!
