use company_service::order::text_less;
use company_service::company::ProcessCompanyRequest;
use company_service::handler::{
    create_company_handler, delete_company_handler, get_companies_handler, update_company_handler,
};
use company_service::query::{normalize_pagination, parse_sort, total_page, PaginationRequest, SortColumn, SortOrder};
use company_service::response::ResponseError;
use company_service::search::{contains_text, matches_folded};
use company_service::sql::{build_count_query, build_find_query, escape_like_term, SqlParam};
use company_service::store::CompanyStore;
use company_service::success::{PaginationMeta, ResponseSuccess};
use company_service::usecase::CompanyUsecase;

fn s(x: &str) -> String {
    x.to_string()
}

fn filled(n: usize) -> CompanyUsecase {
    let mut u = CompanyUsecase::new(CompanyStore::new());
    for i in 0..n {
        u.create_company_with(
            i as u128 + 1,
            i as i64,
            format!("Company {}", i + 1),
            format!("c{}@x.io", i + 1),
            format!("C{}", i + 1),
            None,
            None,
        )
        .unwrap();
    }
    u
}

fn query(page: Option<u32>, per_page: Option<u32>, search: Option<&str>, sort: Option<&str>) -> PaginationRequest {
    PaginationRequest { page, per_page, offset: None, search: search.map(s), sort: sort.map(s) }
}

#[test]
fn second_page_of_ten_over_twenty_five_rows() {
    let u = filled(25);
    let r = get_companies_handler(&u, &query(Some(2), Some(10), None, None)).unwrap();
    match r {
        ResponseSuccess::Pagination(page, per_page, total, Some(data)) => {
            assert_eq!((page, per_page, total), (2, 10, 25));
            let names: Vec<String> = data.iter().map(|c| c.name.clone()).collect();
            let expected: Vec<String> = (11..=20).map(|i| format!("Company {}", i)).collect();
            assert_eq!(names, expected);
            let (status, body) = ResponseSuccess::Pagination(page, per_page, total, Some(data)).into_body();
            assert_eq!(status, 200);
            assert_eq!(body.meta, Some(PaginationMeta { page: 2, per_page: 10, total_data: 25, total_page: 3 }));
        }
        _ => panic!("expected a page"),
    }
}

#[test]
fn last_page_is_short_and_past_the_end_is_empty() {
    let u = filled(25);
    match get_companies_handler(&u, &query(Some(3), Some(10), None, None)).unwrap() {
        ResponseSuccess::Pagination(_, _, _, Some(data)) => assert_eq!(data.len(), 5),
        _ => panic!("expected a page"),
    }
    match get_companies_handler(&u, &query(Some(4), Some(10), None, None)).unwrap() {
        ResponseSuccess::Pagination(_, _, total, Some(data)) => {
            assert_eq!(total, 25);
            assert!(data.is_empty());
        }
        _ => panic!("expected a page"),
    }
}

#[test]
fn defaults_are_page_one_of_one_row() {
    let u = filled(3);
    match get_companies_handler(&u, &query(None, None, None, None)).unwrap() {
        ResponseSuccess::Pagination(page, per_page, total, Some(data)) => {
            assert_eq!((page, per_page, total), (1, 1, 3));
            assert_eq!(data.len(), 1);
            assert_eq!(data[0].name, "Company 1");
        }
        _ => panic!("expected a page"),
    }
}

#[test]
fn search_matches_name_or_code_ignoring_case() {
    let mut u = CompanyUsecase::new(CompanyStore::new());
    u.create_company_with(1, 0, s("ACME Corp"), s("a@a.io"), s("X1"), None, None).unwrap();
    u.create_company_with(2, 0, s("Other"), s("b@b.io"), s("zAcMe9"), None, None).unwrap();
    u.create_company_with(3, 0, s("Beta"), s("c@c.io"), s("B1"), None, None).unwrap();
    u.create_company_with(4, 0, s("Ac me"), s("d@d.io"), s("acm"), None, None).unwrap();
    match get_companies_handler(&u, &query(Some(1), Some(10), Some("acme"), None)).unwrap() {
        ResponseSuccess::Pagination(_, _, total, Some(data)) => {
            assert_eq!(total, 2);
            let ids: Vec<u128> = data.iter().map(|c| c.id).collect();
            assert_eq!(ids, vec![1, 2]);
        }
        _ => panic!("expected a page"),
    }
    match get_companies_handler(&u, &query(Some(1), Some(10), Some(""), None)).unwrap() {
        ResponseSuccess::Pagination(_, _, total, _) => assert_eq!(total, 4),
        _ => panic!("expected a page"),
    }
}

#[test]
fn substring_search_on_folded_text() {
    assert!(contains_text("hello world", "lo w"));
    assert!(contains_text("abc", ""));
    assert!(!contains_text("abc", "abcd"));
    assert!(!contains_text("ABC", "abc"));
    assert!(matches_folded("x", "zacme", "acme"));
    assert!(!matches_folded("x", "y", "acme"));
}

#[test]
fn bad_pagination_requests_are_refused() {
    let u = filled(1);
    assert_eq!(
        get_companies_handler(&u, &query(Some(0), None, None, None)).err(),
        Some(ResponseError::BadRequest(s("page must be at least 1")))
    );
    assert_eq!(
        get_companies_handler(&u, &query(Some(1), Some(0), None, None)).err(),
        Some(ResponseError::BadRequest(s("per_page must be at least 1")))
    );
    assert_eq!(
        get_companies_handler(&u, &query(None, None, None, Some("name; DROP TABLE companies"))).err(),
        Some(ResponseError::BadRequest(s("invalid sort field")))
    );
}

#[test]
fn normalized_query_derives_the_offset() {
    let mut q = query(Some(3), Some(20), Some("x"), Some("-created_at"));
    q.offset = Some(999);
    let l = normalize_pagination(&q).unwrap();
    assert_eq!(l.offset, 40);
    assert_eq!(l.search, Some(s("x")));
    assert_eq!(l.sort, Some(SortOrder { column: SortColumn::CreatedAt, descending: true }));
    let l = normalize_pagination(&query(None, None, Some(""), Some(""))).unwrap();
    assert_eq!((l.page, l.per_page, l.offset), (1, 1, 0));
    assert_eq!(l.search, None);
    assert_eq!(l.sort, None);
}

#[test]
fn sort_allow_list() {
    assert_eq!(parse_sort(&s("name")), Some(SortOrder { column: SortColumn::Name, descending: false }));
    assert_eq!(parse_sort(&s("-email")), Some(SortOrder { column: SortColumn::Email, descending: true }));
    assert_eq!(parse_sort(&s("code")), Some(SortOrder { column: SortColumn::Code, descending: false }));
    assert_eq!(parse_sort(&s("id")), None);
    assert_eq!(parse_sort(&s("Name")), None);
}

#[test]
fn total_page_rounds_up() {
    assert_eq!(total_page(25, 10), 3);
    assert_eq!(total_page(20, 10), 2);
    assert_eq!(total_page(0, 10), 0);
    assert_eq!(total_page(1, 1), 1);
    assert_eq!(total_page(u64::MAX, 2), u64::MAX / 2 + 1);
}

#[test]
fn count_and_page_statements() {
    let c = build_count_query(&None);
    assert_eq!(c.sql, "SELECT COUNT(id) FROM companies");
    assert!(c.params.is_empty());
    let c = build_count_query(&Some(s("ac%me")));
    assert_eq!(c.sql, "SELECT COUNT(id) FROM companies WHERE (name ILIKE $1 OR code ILIKE $1)");
    assert_eq!(c.params, vec![SqlParam::Text(s("%ac\\%me%"))]);

    let l = normalize_pagination(&query(Some(2), Some(10), Some("acme"), Some("-name"))).unwrap();
    let f = build_find_query(&l);
    assert_eq!(
        f.sql,
        "SELECT id, name, email, code, phone_number, address, created_at FROM companies WHERE (name ILIKE $1 OR code ILIKE $1) ORDER BY name DESC LIMIT $2 OFFSET $3"
    );
    assert_eq!(f.params, vec![SqlParam::Text(s("%acme%")), SqlParam::Int(10), SqlParam::Int(10)]);

    let l = normalize_pagination(&query(None, Some(5), None, Some("code"))).unwrap();
    let f = build_find_query(&l);
    assert_eq!(
        f.sql,
        "SELECT id, name, email, code, phone_number, address, created_at FROM companies ORDER BY code ASC LIMIT $1 OFFSET $2"
    );
    assert_eq!(f.params, vec![SqlParam::Int(5), SqlParam::Int(0)]);
}

#[test]
fn like_wildcards_are_escaped() {
    assert_eq!(escape_like_term("50%_off\\"), "50\\%\\_off\\\\");
    assert_eq!(escape_like_term("plain"), "plain");
    assert_eq!(escape_like_term(""), "");
}

#[test]
fn handlers_validate_then_answer() {
    let mut u = CompanyUsecase::new(CompanyStore::new());
    let req = |name: &str, email: &str, code: &str| ProcessCompanyRequest {
        name: s(name),
        email: s(email),
        code: s(code),
        phone_number: None,
        address: None,
    };
    assert_eq!(
        create_company_handler(&mut u, req("", "a@a.io", "A1")).err(),
        Some(ResponseError::BadRequest(s("Name is required")))
    );
    let created = match create_company_handler(&mut u, req("A", "a@a.io", "A1")).unwrap() {
        ResponseSuccess::Object(201, Some(c)) => c,
        _ => panic!("expected a created record"),
    };
    assert_eq!(
        create_company_handler(&mut u, req("B", "a@a.io", "B1")).err(),
        Some(ResponseError::BadRequest(s("email already exist")))
    );
    match update_company_handler(&mut u, created.id, req("A2", "a@a.io", "A1")).unwrap() {
        ResponseSuccess::Object(201, Some(c)) => assert_eq!(c.name, "A2"),
        _ => panic!("expected an updated record"),
    }
    assert_eq!(
        update_company_handler(&mut u, 424242, req("A2", "z@a.io", "Z1")).err(),
        Some(ResponseError::NotFound(s("data not found")))
    );
    assert!(matches!(delete_company_handler(&mut u, created.id), Ok(ResponseSuccess::NoData(200))));
    assert_eq!(
        delete_company_handler(&mut u, created.id).err(),
        Some(ResponseError::NotFound(s("data not found")))
    );
}

#[test]
fn listing_follows_the_requested_order() {
    let mut u = CompanyUsecase::new(CompanyStore::new());
    u.create_company_with(1, 30, s("beta"), s("b@x.io"), s("B"), None, None).unwrap();
    u.create_company_with(2, 10, s("Alpha"), s("a@x.io"), s("A"), None, None).unwrap();
    u.create_company_with(3, 20, s("alpha"), s("c@x.io"), s("C"), None, None).unwrap();
    u.create_company_with(4, 20, s("gamma"), s("d@x.io"), s("D"), None, None).unwrap();
    let ids = |sort: &str, page: u32, per_page: u32| -> Vec<u128> {
        match get_companies_handler(&u, &query(Some(page), Some(per_page), None, Some(sort))).unwrap() {
            ResponseSuccess::Pagination(_, _, _, Some(data)) => data.iter().map(|c| c.id).collect(),
            _ => panic!("expected a page"),
        }
    };
    assert_eq!(ids("name", 1, 10), vec![2, 3, 1, 4]);
    assert_eq!(ids("-name", 1, 10), vec![4, 1, 3, 2]);
    assert_eq!(ids("created_at", 1, 10), vec![2, 3, 4, 1]);
    assert_eq!(ids("-created_at", 1, 10), vec![1, 3, 4, 2]);
    assert_eq!(ids("code", 2, 3), vec![4]);
}

#[test]
fn text_order_is_by_code_point() {
    assert!(text_less("Alpha", "alpha"));
    assert!(text_less("ab", "abc"));
    assert!(!text_less("abc", "ab"));
    assert!(!text_less("same", "same"));
    assert!(text_less("", "a"));
    assert!(!text_less("b", "a"));
}
