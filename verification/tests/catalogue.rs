use bigdecimal::BigDecimal;
use marketplace_api::jwt::Claims;
use marketplace_api::products::{
    check_ownership, created_product_reply, deleted_product_reply, listed_products,
    product_for_seller, product_list_reply, product_reply, require_seller,
    updated_product_reply, NewProduct, Product,
};
use marketplace_api::reply::{Body, Status};

fn product(id: i32, seller: Option<i32>, active: Option<bool>) -> Product {
    Product {
        id,
        name: format!("item {}", id),
        description: None,
        price: BigDecimal::from(10 + id),
        stock: 3,
        seller_id: seller,
        is_active: active,
        created_at: None,
        updated_at: None,
    }
}

fn request(seller: Option<i32>) -> NewProduct {
    NewProduct {
        name: "lamp".to_string(),
        description: Some("brass".to_string()),
        price: "19.99".parse::<BigDecimal>().unwrap(),
        stock: 4,
        seller_id: seller,
    }
}

#[test]
fn new_product_gets_the_caller_as_seller() {
    let claims = Claims { sub: 21, exp: 0 };
    let p = product_for_seller(Some(&claims), request(None)).ok().unwrap();
    assert_eq!(p.seller_id, Some(21));
    assert_eq!(p.name, "lamp");
    assert_eq!(p.description, Some("brass".to_string()));
    assert_eq!(p.price, "19.99".parse::<BigDecimal>().unwrap());
    assert_eq!(p.stock, 4);
}

#[test]
fn new_product_cannot_name_another_seller() {
    let claims = Claims { sub: 21, exp: 0 };
    let p = product_for_seller(Some(&claims), request(Some(99))).ok().unwrap();
    assert_eq!(p.seller_id, Some(21));
}

#[test]
fn new_product_without_claims_is_refused() {
    let r = product_for_seller(None, request(None)).err().unwrap();
    assert_eq!(r.status.code(), 401);
    assert!(matches!(r.body, Body::Text(ref t) if t == "Unauthorized"));
}

#[test]
fn created_product_replies() {
    let r = created_product_reply(Some(product(1, Some(2), Some(true))));
    assert_eq!(r.status, Status::Success);
    assert!(matches!(r.body, Body::Json(ref p) if p.id == 1));
    let r = created_product_reply(None);
    assert_eq!(r.status.code(), 500);
    assert!(matches!(r.body, Body::Text(ref t) if t == "Error creating product"));
}

#[test]
fn catalogue_lists_active_products_in_order() {
    let all = vec![
        product(1, Some(1), Some(true)),
        product(2, Some(1), Some(false)),
        product(3, Some(2), None),
        product(4, Some(2), Some(true)),
        product(5, None, Some(true)),
    ];
    let ids: Vec<i32> = listed_products(all).iter().map(|p| p.id).collect();
    assert_eq!(ids, vec![1, 4, 5]);
}

#[test]
fn catalogue_of_nothing_is_empty() {
    assert!(listed_products(Vec::new()).is_empty());
    assert!(listed_products(vec![product(1, None, Some(false))]).is_empty());
}

#[test]
fn catalogue_replies() {
    let r = product_list_reply(Some(vec![
        product(1, Some(1), Some(false)),
        product(2, Some(1), Some(true)),
    ]));
    assert_eq!(r.status.code(), 200);
    match r.body {
        Body::Json(list) => {
            assert_eq!(list.len(), 1);
            assert_eq!(list[0].id, 2);
        }
        _ => panic!("expected a JSON body"),
    }
    let r = product_list_reply(None);
    assert_eq!(r.status.code(), 500);
    assert!(matches!(r.body, Body::Empty));
}

#[test]
fn single_product_replies() {
    let r = product_reply(Some(product(7, None, Some(false))));
    assert_eq!(r.status.code(), 200);
    assert!(matches!(r.body, Body::Json(ref p) if p.id == 7));
    let r = product_reply(None);
    assert_eq!(r.status.code(), 404);
    assert!(matches!(r.body, Body::Text(ref t) if t == "Product not found"));
}

#[test]
fn changes_need_claims() {
    let claims = Claims { sub: 4, exp: 0 };
    assert_eq!(require_seller::<Product>(Some(&claims)).ok(), Some(4));
    let r = require_seller::<Product>(None).err().unwrap();
    assert_eq!(r.status.code(), 401);
    assert!(matches!(r.body, Body::Empty));
}

#[test]
fn owner_may_change_product() {
    let p = check_ownership::<Product>(4, Some(product(9, Some(4), Some(true)))).ok().unwrap();
    assert_eq!(p.id, 9);
}

#[test]
fn others_may_not_change_product() {
    let r = check_ownership::<Product>(5, Some(product(9, Some(4), Some(true)))).err().unwrap();
    assert_eq!(r.status.code(), 403);
    assert!(matches!(r.body, Body::Text(ref t) if t == "Not your product"));
    let r = check_ownership::<Product>(5, Some(product(9, None, Some(true)))).err().unwrap();
    assert_eq!(r.status, Status::Forbidden);
}

#[test]
fn changing_a_missing_product() {
    let r = check_ownership::<Product>(5, None).err().unwrap();
    assert_eq!(r.status.code(), 404);
    assert!(matches!(r.body, Body::Text(ref t) if t == "Product not found"));
}

#[test]
fn update_and_delete_replies() {
    let r = updated_product_reply(Some(product(3, Some(1), Some(true))));
    assert_eq!(r.status.code(), 200);
    let r = updated_product_reply(None);
    assert_eq!(r.status.code(), 500);
    assert!(matches!(r.body, Body::Empty));
    let r = deleted_product_reply::<Product>(true);
    assert_eq!(r.status.code(), 200);
    assert!(matches!(r.body, Body::Text(ref t) if t == "Product deleted"));
    let r = deleted_product_reply::<Product>(false);
    assert_eq!(r.status.code(), 500);
    assert!(matches!(r.body, Body::Empty));
}

#[test]
fn creator_can_modify_and_withdrawn_is_unlisted() {
    let claims = Claims { sub: 12, exp: 0 };
    let created = product_for_seller(Some(&claims), request(None)).ok().unwrap();
    let stored = Product {
        id: 30,
        name: created.name,
        description: created.description,
        price: created.price,
        stock: created.stock,
        seller_id: created.seller_id,
        is_active: Some(true),
        created_at: None,
        updated_at: None,
    };
    assert!(check_ownership::<Product>(13, Some(product(30, stored.seller_id, Some(true)))).is_err());
    let owned = check_ownership::<Product>(12, Some(stored)).ok().unwrap();
    let withdrawn = Product { is_active: Some(false), ..owned };
    assert!(listed_products(vec![withdrawn]).is_empty());
}
