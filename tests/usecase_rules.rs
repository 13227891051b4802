use company_service::company::{
    map_usecase_company_error, validate_company_input, CompanyUsecaseError, ProcessCompanyRequest,
};
use company_service::response::ResponseError;
use company_service::store::{CompanyStore, StoreError};
use company_service::usecase::{apply_update, creation_check, deletion_check, update_check, CompanyUsecase};

fn s(x: &str) -> String {
    x.to_string()
}

fn empty_usecase() -> CompanyUsecase {
    CompanyUsecase::new(CompanyStore::new())
}

fn add(u: &mut CompanyUsecase, name: &str, email: &str, code: &str) -> company_service::company::Company {
    u.create_company(s(name), s(email), s(code), None, None).unwrap()
}

fn request(name: &str, email: &str, code: &str, phone: Option<&str>, address: Option<&str>) -> ProcessCompanyRequest {
    ProcessCompanyRequest {
        name: s(name),
        email: s(email),
        code: s(code),
        phone_number: phone.map(s),
        address: address.map(s),
    }
}

#[test]
fn create_with_unused_email_and_code_succeeds() {
    let mut u = empty_usecase();
    let before = chrono::Utc::now().timestamp_micros();
    let c = u
        .create_company(s("Acme"), s("a@acme.io"), s("AC1"), Some(s("123")), None)
        .unwrap();
    assert!(c.created_at >= before);
    assert_eq!(c.name, "Acme");
    assert_eq!(c.email, "a@acme.io");
    assert_eq!(c.code, "AC1");
    assert_eq!(c.phone_number, Some(s("123")));
    assert_eq!(c.address, None);
    assert_eq!((c.id >> 76) & 0xf, 4);
    let d = add(&mut u, "Beta", "b@beta.io", "BT1");
    assert_ne!(c.id, d.id);
    assert_eq!(u.repository().len(), 2);
}

#[test]
fn create_with_taken_email_fails_whatever_the_code() {
    let mut u = empty_usecase();
    add(&mut u, "Acme", "a@acme.io", "AC1");
    let fresh_code = u.create_company(s("X"), s("a@acme.io"), s("NEW"), None, None);
    assert_eq!(fresh_code, Err(CompanyUsecaseError::EmailAlreadyExist));
    let taken_code = u.create_company(s("X"), s("a@acme.io"), s("AC1"), None, None);
    assert_eq!(taken_code, Err(CompanyUsecaseError::EmailAlreadyExist));
    assert_eq!(u.repository().len(), 1);
}

#[test]
fn create_with_taken_code_fails() {
    let mut u = empty_usecase();
    add(&mut u, "Acme", "a@acme.io", "AC1");
    let r = u.create_company(s("X"), s("x@x.io"), s("AC1"), None, None);
    assert_eq!(r, Err(CompanyUsecaseError::CodeAlreadyExist));
}

#[test]
fn create_with_a_stored_id_is_a_storage_error() {
    let mut u = empty_usecase();
    let first = u
        .create_company_with(7, 100, s("A"), s("a@a.io"), s("A1"), None, None)
        .unwrap();
    assert_eq!(first.id, 7);
    assert_eq!(first.created_at, 100);
    let again = u.create_company_with(7, 200, s("B"), s("b@b.io"), s("B1"), None, None);
    assert_eq!(again, Err(CompanyUsecaseError::DatabaseError));
    assert_eq!(u.repository().len(), 1);
}

#[test]
fn update_to_email_of_another_record_fails() {
    let mut u = empty_usecase();
    let a = add(&mut u, "Acme", "a@acme.io", "AC1");
    add(&mut u, "Beta", "b@beta.io", "BT1");
    let r = u.update_company(a.id, s("Acme"), s("b@beta.io"), s("AC1"), None, None);
    assert_eq!(r, Err(CompanyUsecaseError::EmailAlreadyExist));
    let r = u.update_company(a.id, s("Acme"), s("a@acme.io"), s("BT1"), None, None);
    assert_eq!(r, Err(CompanyUsecaseError::CodeAlreadyExist));
    assert_eq!(u.get_company_by_id(a.id), Some(a));
}

#[test]
fn update_keeping_own_email_succeeds() {
    let mut u = empty_usecase();
    let a = add(&mut u, "Acme", "a@acme.io", "AC1");
    let r = u
        .update_company(a.id, s("Acme Ltd"), s("a@acme.io"), s("AC1"), Some(s("555")), Some(s("Main St")))
        .unwrap();
    assert_eq!(r.id, a.id);
    assert_eq!(r.created_at, a.created_at);
    assert_eq!(r.name, "Acme Ltd");
    assert_eq!(r.phone_number, Some(s("555")));
    assert_eq!(u.get_company_by_id(a.id), Some(r));
}

#[test]
fn update_of_unknown_id_is_not_found() {
    let mut u = empty_usecase();
    add(&mut u, "Acme", "a@acme.io", "AC1");
    let r = u.update_company(12345, s("Z"), s("z@z.io"), s("Z1"), None, None);
    assert_eq!(r, Err(CompanyUsecaseError::NotFound));
}

#[test]
fn delete_of_unknown_id_is_not_found_and_changes_nothing() {
    let mut u = empty_usecase();
    let a = add(&mut u, "Acme", "a@acme.io", "AC1");
    assert_eq!(u.delete_company(99), Err(CompanyUsecaseError::NotFound));
    assert_eq!(u.repository().len(), 1);
    assert_eq!(u.get_company_by_id(a.id), Some(a));
}

#[test]
fn delete_removes_the_record() {
    let mut u = empty_usecase();
    let a = add(&mut u, "Acme", "a@acme.io", "AC1");
    let b = add(&mut u, "Beta", "b@beta.io", "BT1");
    assert_eq!(u.delete_company(a.id), Ok(()));
    assert_eq!(u.get_company_by_id(a.id), None);
    assert_eq!(u.get_company_by_id(b.id), Some(b));
    assert_eq!(u.delete_company(a.id), Err(CompanyUsecaseError::NotFound));
}

#[test]
fn create_then_get_gives_the_same_record() {
    let mut u = empty_usecase();
    let c = u
        .create_company(s("Acme"), s("a@acme.io"), s("AC1"), Some(s("1")), Some(s("Road 1")))
        .unwrap();
    assert_eq!(u.get_company_by_id(c.id), Some(c));
}

#[test]
fn store_refuses_duplicate_ids_and_missing_updates() {
    let mut st = CompanyStore::new();
    let c = company_service::company::Company {
        id: 1,
        name: s("A"),
        code: s("A1"),
        email: s("a@a.io"),
        phone_number: None,
        address: None,
        created_at: 5,
    };
    assert_eq!(st.create_company(c.clone()), Ok(c.clone()));
    assert_eq!(st.create_company(c.clone()), Err(StoreError::DuplicateId));
    let mut other = c.clone();
    other.id = 2;
    assert_eq!(st.update_company(other), Err(StoreError::NotFound));
    assert!(st.check_existing_company_email("a@a.io", None));
    assert!(!st.check_existing_company_email("a@a.io", Some(1)));
    assert!(st.check_existing_company_code("A1", Some(2)));
    assert!(!st.check_existing_company_code("B1", None));
}

#[test]
fn rule_verdicts_check_email_first() {
    assert_eq!(creation_check(true, true), Err(CompanyUsecaseError::EmailAlreadyExist));
    assert_eq!(creation_check(false, true), Err(CompanyUsecaseError::CodeAlreadyExist));
    assert_eq!(creation_check(false, false), Ok(()));
    assert_eq!(update_check(false, false, false), Err(CompanyUsecaseError::NotFound));
    assert_eq!(update_check(false, true, false), Err(CompanyUsecaseError::CodeAlreadyExist));
    assert_eq!(update_check(false, false, true), Ok(()));
}

#[test]
fn validation_reports_the_first_missing_field() {
    let ok = request("A", "a@a.io", "A1", None, Some("Road"));
    assert_eq!(validate_company_input(&ok), Ok(()));
    let cases = [
        (request("", "", "", Some(""), Some("")), "Name is required"),
        (request("A", "", "", None, None), "Email is required"),
        (request("A", "a@a.io", "", None, None), "Code is required"),
        (request("A", "a@a.io", "A1", Some(""), Some("")), "Phone number is required"),
        (request("A", "a@a.io", "A1", Some("1"), Some("")), "Address is required"),
    ];
    for (req, msg) in cases {
        assert_eq!(validate_company_input(&req), Err(ResponseError::BadRequest(s(msg))));
    }
}

#[test]
fn usecase_errors_map_to_http_errors() {
    assert_eq!(
        map_usecase_company_error(CompanyUsecaseError::EmailAlreadyExist),
        ResponseError::BadRequest(s("email already exist"))
    );
    assert_eq!(
        map_usecase_company_error(CompanyUsecaseError::CodeAlreadyExist),
        ResponseError::BadRequest(s("code already exist"))
    );
    assert_eq!(
        map_usecase_company_error(CompanyUsecaseError::NotFound),
        ResponseError::NotFound(s("data not found"))
    );
    assert_eq!(
        map_usecase_company_error(CompanyUsecaseError::DatabaseError),
        ResponseError::DatabaseError
    );
}

#[test]
fn store_update_keeps_id_and_creation_time() {
    let mut st = CompanyStore::new();
    let c = company_service::company::Company {
        id: 9,
        name: s("A"),
        code: s("A1"),
        email: s("a@a.io"),
        phone_number: None,
        address: None,
        created_at: 111,
    };
    st.create_company(c.clone()).unwrap();
    let mut changed = c.clone();
    changed.name = s("B");
    changed.created_at = 999;
    let r = st.update_company(changed.clone()).unwrap();
    assert_eq!(r, changed);
    let u = CompanyUsecase::new(st);
    let stored = u.get_company_by_id(9).unwrap();
    assert_eq!(stored.created_at, 111);
    assert_eq!(stored.name, "B");
}

#[test]
fn update_and_delete_rules_for_the_database_path() {
    let stored = company_service::company::Company {
        id: 5,
        name: s("Old"),
        code: s("O1"),
        email: s("o@o.io"),
        phone_number: Some(s("1")),
        address: None,
        created_at: 42,
    };
    let c = apply_update(&stored, s("New"), s("n@n.io"), s("N1"), None, Some(s("Road")));
    assert_eq!((c.id, c.created_at), (5, 42));
    assert_eq!((c.name.as_str(), c.email.as_str(), c.code.as_str()), ("New", "n@n.io", "N1"));
    assert_eq!(c.phone_number, None);
    assert_eq!(c.address, Some(s("Road")));
    assert_eq!(deletion_check(true), Ok(()));
    assert_eq!(deletion_check(false), Err(CompanyUsecaseError::NotFound));
}
