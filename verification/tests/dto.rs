use catalog_core::catalog::CategoryService;
use catalog_core::dto::{
    CategoryResponse, FindCartResponse, FindProductsResponse, LoginResponse,
    PersistentLoginResponse, RegisterResponse, UserData,
};
use catalog_core::store::Store;

#[test]
fn register_response_envelope_is_fixed() {
    let r = RegisterResponse::created();
    assert!(r.success);
    assert_eq!(r.message, "Register success!");
}

#[test]
fn login_response_carries_the_token() {
    let r = LoginResponse::new("abc.def.ghi".to_string());
    assert!(r.success);
    assert_eq!(r.token, "abc.def.ghi");
    assert_eq!(r.message, "Login success!");
}

#[test]
fn persistent_login_response_carries_user_data() {
    let data = UserData { id: 4, username: "ada".to_string(), email: "ada@example.com".to_string() };
    let r = PersistentLoginResponse::new("tok".to_string(), data);
    assert!(r.success);
    assert_eq!(r.data.id, 4);
    assert_eq!(r.data.username, "ada");
}

#[test]
fn listing_envelopes_carry_the_page_and_totals() {
    let mut store = Store::new();
    CategoryService::create(&mut store, "Tools".to_string(), 100).expect("create");
    let (rows, total_items, total_page) =
        CategoryService::get(&store, None, None, None, None).expect("list");
    let r = CategoryResponse::new(rows, total_items, total_page);
    assert!(r.success);
    assert_eq!(r.total_items, 1);
    assert_eq!(r.total_page, 1);
    assert_eq!(r.data.len(), 1);
    let empty = FindProductsResponse::new(Vec::new(), 0, 0);
    assert!(empty.success);
    assert_eq!(empty.total_items, 0);
    let empty_cart = FindCartResponse::new(Vec::new(), 0, 0);
    assert!(empty_cart.success);
    assert!(empty_cart.data.is_empty());
}
