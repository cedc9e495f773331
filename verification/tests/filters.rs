use mutsura_api::query::{
    create_admin_postlist_filter, create_common_postlist_filter, create_pipeline,
    create_public_postlist_filter, field_name, parse_lang, public_tag_list_filter,
    published_post_filter, ssg_post_filter, CommonPostListQueryParams, FilterField, FilterValue,
    PostFilter, PostStatus, SearchField, search_field_name, category_count_plan,
    group_field_name, public_tag_list_plan, ssg_category_list_plan, ssg_tag_list_plan, GroupField,
};
use mutsura_api::mapper::Lang;

#[test]
fn create_public_postlist_filter_excludes_drafts() {
    let filter = create_public_postlist_filter(&None, &None, &None);
    assert_eq!(filter.get(FilterField::IsDraft), Some(FilterValue::Flag(false)));
}

#[test]
fn create_admin_postlist_filter_with_status_draft() {
    let status = Some(PostStatus::Draft);
    let filter = create_admin_postlist_filter(&None, &None, &None, &status);
    assert_eq!(filter.get(FilterField::IsDraft), Some(FilterValue::Flag(true)));
}

#[test]
fn create_admin_postlist_filter_with_status_published() {
    let status = Some(PostStatus::Published);
    let filter = create_admin_postlist_filter(&None, &None, &None, &status);
    assert_eq!(filter.get(FilterField::IsDraft), Some(FilterValue::Flag(false)));
}

#[test]
fn create_common_postlist_filter_sets_has_english_for_en() {
    let lang = Some("en".to_string());
    let filter = create_common_postlist_filter(&None, &None, &lang);
    assert_eq!(filter.get(FilterField::HasEnglish), Some(FilterValue::Flag(true)));
}

#[test]
fn common_filter_keeps_category_and_tag() {
    let filter = create_common_postlist_filter(
        &Some("rust".to_string()),
        &Some("verus".to_string()),
        &Some("ja".to_string()),
    );
    assert_eq!(filter.get(FilterField::CategorySlug), Some(FilterValue::Text("rust".to_string())));
    assert_eq!(filter.get(FilterField::TagSlug), Some(FilterValue::Text("verus".to_string())));
    assert_eq!(filter.get(FilterField::HasEnglish), None);
    assert_eq!(filter.get(FilterField::IsDraft), None);
}

#[test]
fn admin_filter_without_status_shows_all() {
    let filter = create_admin_postlist_filter(&None, &None, &Some("en".to_string()), &None);
    assert_eq!(filter.get(FilterField::IsDraft), None);
    assert_eq!(filter.has_english, Some(true));
}

#[test]
fn field_names_are_the_stored_ones() {
    assert_eq!(field_name(FilterField::CategorySlug), "category.slug");
    assert_eq!(field_name(FilterField::TagSlug), "tags.slug");
    assert_eq!(field_name(FilterField::HasEnglish), "has_english");
    assert_eq!(field_name(FilterField::IsDraft), "is_draft");
}

#[test]
fn lang_parameter_is_read() {
    assert_eq!(parse_lang(&None), Some(Lang::Ja));
    assert_eq!(parse_lang(&Some("ja".to_string())), Some(Lang::Ja));
    assert_eq!(parse_lang(&Some("en".to_string())), Some(Lang::En));
    assert_eq!(parse_lang(&Some("fr".to_string())), None);
    assert_eq!(parse_lang(&Some("EN".to_string())), None);
}

#[test]
fn tag_list_filter_by_language() {
    let ja = public_tag_list_filter(&None);
    assert_eq!(ja.is_draft, Some(false));
    assert_eq!(ja.has_english, None);
    let explicit_ja = public_tag_list_filter(&Some("ja".to_string()));
    assert_eq!(explicit_ja.has_english, None);
    let other = public_tag_list_filter(&Some("fr".to_string()));
    assert_eq!(other.has_english, Some(true));
}

#[test]
fn ssg_filter_by_language() {
    assert_eq!(ssg_post_filter(&"en".to_string()).has_english, Some(true));
    assert_eq!(ssg_post_filter(&"fr".to_string()).has_english, None);
    assert_eq!(ssg_post_filter(&"ja".to_string()).is_draft, Some(false));
    let published = published_post_filter();
    assert_eq!(published, PostFilter { category_slug: None, tag_slug: None, has_english: None, is_draft: Some(false) });
}

fn params(limit: Option<i64>, page: Option<i64>, sort: Option<&str>, q: Option<&str>) -> CommonPostListQueryParams {
    CommonPostListQueryParams {
        category: None,
        tag: None,
        lang: None,
        limit,
        page,
        sort: sort.map(|s| s.to_string()),
        q: q.map(|s| s.to_string()),
    }
}

#[test]
fn pipeline_defaults() {
    let filter = create_public_postlist_filter(&None, &None, &None);
    let plan = create_pipeline(&params(None, None, None, None), &filter);
    assert_eq!(plan.sort_key, "updated_at");
    assert_eq!(plan.sort_order, -1);
    assert_eq!(plan.skip, 0);
    assert_eq!(plan.limit, 10);
    assert_eq!(plan.search, None);
    assert_eq!(plan.filter, filter);
}

#[test]
fn pipeline_sort_and_window() {
    let filter = create_public_postlist_filter(&None, &None, &None);
    let plan = create_pipeline(&params(Some(5), Some(3), Some("published_at:asc"), Some("rust")), &filter);
    assert_eq!(plan.sort_key, "published_at");
    assert_eq!(plan.sort_order, 1);
    assert_eq!(plan.skip, 10);
    assert_eq!(plan.limit, 5);
    let search = plan.search.clone().unwrap();
    assert_eq!(search.pattern, "rust");
    assert_eq!(search.options, "i");
    assert_eq!(
        search.fields,
        vec![SearchField::TitleJa, SearchField::TitleEn, SearchField::ContentJa, SearchField::ContentEn]
    );
    let names: Vec<&str> = search.fields.iter().map(|f| search_field_name(*f)).collect();
    assert_eq!(names, vec!["title.ja", "title.en", "content.ja", "content.en"]);
    let plan = create_pipeline(&params(None, None, Some("title:desc:extra"), None), &filter);
    assert_eq!(plan.sort_key, "title");
    assert_eq!(plan.sort_order, -1);
    let plan = create_pipeline(&params(None, None, Some("title:sideways"), None), &filter);
    assert_eq!(plan.sort_order, 1);
    let plan = create_pipeline(&params(None, None, Some(":"), None), &filter);
    assert_eq!(plan.sort_key, "");
    assert_eq!(plan.sort_order, 1);
}

#[test]
fn grouped_list_plans() {
    let p = public_tag_list_plan(&Some("en".to_string()));
    assert_eq!(p.group_by, GroupField::Tags);
    assert!(p.unwind);
    assert!(!p.with_count);
    assert_eq!(p.filter.is_draft, Some(false));
    assert_eq!(p.filter.has_english, Some(true));
    assert_eq!(public_tag_list_plan(&None).filter.has_english, None);
    let t = ssg_tag_list_plan(&"ja".to_string());
    assert_eq!(t.group_by, GroupField::Tags);
    assert!(t.unwind && t.with_count);
    assert_eq!(t.filter.has_english, None);
    let c = ssg_category_list_plan(&"en".to_string());
    assert_eq!(c.group_by, GroupField::Category);
    assert!(!c.unwind && c.with_count);
    assert_eq!(c.filter.has_english, Some(true));
    let all = category_count_plan();
    assert_eq!(all.group_by, GroupField::Category);
    assert!(!all.unwind && all.with_count);
    assert_eq!(all.filter.has_english, None);
    assert_eq!(all.filter.is_draft, Some(false));
    assert_eq!(group_field_name(GroupField::Tags), "tags");
    assert_eq!(group_field_name(GroupField::Category), "category");
}
