//! The request and response shapes of the transport boundary. The
//! transport layer deserializes into the request shapes, hands the
//! library plain values, and serializes the response shapes back; the
//! success envelopes are assembled here so their contents are pinned.
use vstd::prelude::*;

use crate::cart::CartData;
use crate::entities::CatalogRow;
use crate::products::ProductData;

verus! {

pub struct RegisterRequest {
    pub username: String,
    pub email: String,
    pub password: String,
}

pub struct RegisterResponse {
    pub success: bool,
    pub message: &'static str,
}

impl RegisterResponse {
    pub fn created() -> (r: RegisterResponse)
        ensures
            r.success == true,
            r.message@ == "Register success!"@,
    {
        RegisterResponse { success: true, message: "Register success!" }
    }
}

pub struct LoginRequest {
    pub email: String,
    pub password: String,
}

pub struct LoginResponse {
    pub success: bool,
    pub token: String,
    pub message: &'static str,
}

impl LoginResponse {
    pub fn new(token: String) -> (r: LoginResponse)
        ensures
            r.success == true,
            r.token == token,
            r.message@ == "Login success!"@,
    {
        LoginResponse { success: true, token, message: "Login success!" }
    }
}

pub struct UserData {
    pub id: i32,
    pub username: String,
    pub email: String,
}

pub struct PersistentLoginResponse {
    pub success: bool,
    pub token: String,
    pub data: UserData,
}

impl PersistentLoginResponse {
    pub fn new(token: String, data: UserData) -> (r: PersistentLoginResponse)
        ensures
            r.success == true,
            r.token == token,
            r.data.id == data.id,
            r.data.username == data.username,
            r.data.email == data.email,
    {
        PersistentLoginResponse { success: true, token, data }
    }
}

pub struct CategoryQuery {
    pub keyword: Option<String>,
    pub all: Option<bool>,
    pub page: Option<i32>,
    pub size: Option<i32>,
}

pub struct CategoryResponse {
    pub success: bool,
    pub total_items: u64,
    pub total_page: u64,
    pub data: Vec<CatalogRow>,
}

impl CategoryResponse {
    pub fn new(data: Vec<CatalogRow>, total_items: u64, total_page: u64) -> (r: CategoryResponse)
        ensures
            r.success == true,
            r.total_items == total_items,
            r.total_page == total_page,
            r.data == data,
    {
        CategoryResponse { success: true, total_items, total_page, data }
    }
}

pub struct CategoryCRUDResponse {
    pub success: bool,
    pub message: &'static str,
}

pub struct CreateCategoryRequest {
    pub name: String,
}

pub struct BrandResponse {
    pub success: bool,
    pub message: String,
}

pub struct CreateBrandRequest {
    pub name: String,
}

pub struct FindBrandsParams {
    pub keyword: Option<String>,
    pub page: Option<i32>,
    pub size: Option<i32>,
    pub all: Option<bool>,
}

pub struct FindBrandsResponse {
    pub success: bool,
    pub total_items: u64,
    pub total_page: u64,
    pub data: Vec<CatalogRow>,
}

impl FindBrandsResponse {
    pub fn new(data: Vec<CatalogRow>, total_items: u64, total_page: u64) -> (r: FindBrandsResponse)
        ensures
            r.success == true,
            r.total_items == total_items,
            r.total_page == total_page,
            r.data == data,
    {
        FindBrandsResponse { success: true, total_items, total_page, data }
    }
}

pub struct RestoreBrandResponse {
    pub success: bool,
    pub message: &'static str,
}

pub struct ProductResponse {
    pub success: bool,
    pub message: String,
}

pub struct CreateProductRequest {
    pub name: Option<String>,
    pub price: Option<i32>,
    pub stock: Option<i32>,
    pub category_id: Option<i32>,
    pub brand_id: Option<i32>,
    pub description: Option<String>,
}

pub struct FindProductParams {
    pub keyword: Option<String>,
    pub page: Option<i32>,
    pub size: Option<i32>,
    pub all: Option<bool>,
}

pub struct FindProductsResponse {
    pub success: bool,
    pub total_page: u64,
    pub total_items: u64,
    pub data: Vec<ProductData>,
}

impl FindProductsResponse {
    pub fn new(data: Vec<ProductData>, total_items: u64, total_page: u64) -> (r:
        FindProductsResponse)
        ensures
            r.success == true,
            r.total_items == total_items,
            r.total_page == total_page,
            r.data == data,
    {
        FindProductsResponse { success: true, total_page, total_items, data }
    }
}

pub struct CreateOrUpdateCartRequest {
    pub product_id: i32,
    pub quantity: i32,
}

pub struct CreateOrUpdateCartResponse {
    pub success: bool,
    pub message: &'static str,
}

pub struct FindCartQuery {
    pub page: Option<i32>,
    pub size: Option<i32>,
}

pub struct FindCartResponse {
    pub success: bool,
    pub total_page: u64,
    pub total_items: u64,
    pub data: Vec<CartData>,
}

impl FindCartResponse {
    pub fn new(data: Vec<CartData>, total_items: u64, total_page: u64) -> (r: FindCartResponse)
        ensures
            r.success == true,
            r.total_items == total_items,
            r.total_page == total_page,
            r.data == data,
    {
        FindCartResponse { success: true, total_page, total_items, data }
    }
}

} // verus!
