//! The product endpoints: who may create, change and withdraw products, and
//! which products the catalogue lists.
use vstd::prelude::*;
use crate::jwt::Claims;
use crate::reply::{
    empty_reply, is_empty_reply, is_json_reply, is_text_reply, json_reply, text_reply, Reply,
    Status,
};

verus! {

#[verifier::external_type_specification]
#[verifier::external_body]
pub struct ExBigDecimal(bigdecimal::BigDecimal);

#[verifier::external_type_specification]
#[verifier::external_body]
pub struct ExNaiveDateTime(chrono::NaiveDateTime);

/// A product as stored.
pub struct Product {
    pub id: i32,
    pub name: String,
    pub description: Option<String>,
    pub price: bigdecimal::BigDecimal,
    pub stock: i32,
    /// The account that offers it.
    pub seller_id: Option<i32>,
    /// Cleared when the product is withdrawn; only active products are listed.
    pub is_active: Option<bool>,
    pub created_at: Option<chrono::NaiveDateTime>,
    pub updated_at: Option<chrono::NaiveDateTime>,
}

/// A product to be created.
pub struct NewProduct {
    pub name: String,
    pub description: Option<String>,
    pub price: bigdecimal::BigDecimal,
    pub stock: i32,
    pub seller_id: Option<i32>,
}

/// The product to create for the authenticated caller: the request with the
/// caller as its seller, whatever seller the request named. Without claims
/// the request is refused with 401 `Unauthorized`.
pub fn product_for_seller(claims: Option<&Claims>, item: NewProduct) -> (r: Result<
    NewProduct,
    Reply<Product>,
>)
    ensures
        match claims {
            None => r matches Err(e) && is_text_reply(e, Status::Unauthorized, "Unauthorized"@),
            Some(c) => r matches Ok(p) && p == (NewProduct { seller_id: Some(c.sub), ..item }),
        },
{
    match claims {
        None => Err(text_reply(Status::Unauthorized, "Unauthorized")),
        Some(c) => {
            let mut p = item;
            p.seller_id = Some(c.sub);
            Ok(p)
        },
    }
}

/// The answer once the new product was written (`Some`) or not (`None`).
pub fn created_product_reply(inserted: Option<Product>) -> (r: Reply<Product>)
    ensures
        match inserted {
            Some(p) => is_json_reply(r) && r.body->Json_0 == p,
            None => is_text_reply(r, Status::InternalServerError, "Error creating product"@),
        },
{
    match inserted {
        Some(p) => json_reply(p),
        None => text_reply(Status::InternalServerError, "Error creating product"),
    }
}

/// A product appears in the catalogue listing when it is active.
pub open spec fn is_listed(p: Product) -> bool {
    p.is_active == Some(true)
}

/// The catalogue: the active products, in the order given.
pub open spec fn catalogue(all: Seq<Product>) -> Seq<Product> {
    all.filter(|p: Product| is_listed(p))
}

/// The products of `all` that the catalogue lists, in order.
pub fn listed_products(all: Vec<Product>) -> (r: Vec<Product>)
    ensures
        r@ == catalogue(all@),
        forall|i: int|
            0 <= i < all@.len() && (#[trigger] all@[i]).is_active == Some(true) ==> r@.contains(
                all@[i],
            ),
        forall|j: int|
            0 <= j < r@.len() ==> (#[trigger] r@[j]).is_active == Some(true) && all@.contains(
                r@[j],
            ),
{
    let ghost original = all@;
    let mut source = all;
    let mut rest: Vec<Product> = Vec::new();
    while source.len() > 0
        invariant
            source@.len() + rest@.len() == original.len(),
            forall|k: int| 0 <= k < source@.len() ==> #[trigger] source@[k] == original[k],
            forall|k: int|
                0 <= k < rest@.len() ==> #[trigger] rest@[k] == original[original.len() - 1 - k],
        decreases source@.len(),
    {
        let p = source.pop().unwrap();
        rest.push(p);
    }
    let mut out: Vec<Product> = Vec::new();
    let ghost mut taken: int = 0;
    while rest.len() > 0
        invariant
            0 <= taken <= original.len(),
            rest@.len() == original.len() - taken,
            forall|k: int| 0 <= k < rest@.len() ==> #[trigger] rest@[k] == original[original.len() - 1 - k],
            out@ == catalogue(original.take(taken)),
        decreases rest@.len(),
    {
        let p = rest.pop().unwrap();
        proof {
            assert(p == original[taken]);
            assert(original.take(taken + 1).drop_last() =~= original.take(taken));
            assert(original.take(taken + 1).last() == p);
            reveal_with_fuel(Seq::filter, 1);
        }
        let listed = match p.is_active {
            Some(b) => b,
            None => false,
        };
        if listed {
            out.push(p);
        }
        proof {
            taken = taken + 1;
        }
    }
    assert(original.take(taken) =~= original);
    proof {
        lemma_catalogue_is_the_active_products(original);
    }
    out
}

/// The catalogue lists every active product, whatever its stock, seller or
/// price, and nothing else: each product whose active flag is set is in it,
/// and each product in it is among the products and has its flag set.
pub proof fn lemma_catalogue_is_the_active_products(all: Seq<Product>)
    ensures
        forall|i: int|
            0 <= i < all.len() && (#[trigger] all[i]).is_active == Some(true) ==> catalogue(
                all,
            ).contains(all[i]),
        forall|j: int|
            0 <= j < catalogue(all).len() ==> (#[trigger] catalogue(all)[j]).is_active == Some(true)
                && all.contains(catalogue(all)[j]),
{
    assert forall|i: int| 0 <= i < all.len() && (#[trigger] all[i]).is_active == Some(true) implies catalogue(
        all,
    ).contains(all[i]) by {
        lemma_catalogue_lists_exactly_active(all, all[i]);
    }
    assert forall|j: int| 0 <= j < catalogue(all).len() implies (#[trigger] catalogue(all)[j]).is_active
        == Some(true) && all.contains(catalogue(all)[j]) by {
        lemma_catalogue_lists_exactly_active(all, catalogue(all)[j]);
    }
}

/// The answer to a catalogue request, given the products loaded (`None`
/// where loading failed).
pub fn product_list_reply(loaded: Option<Vec<Product>>) -> (r: Reply<Vec<Product>>)
    ensures
        match loaded {
            Some(all) => is_json_reply(r) && r.body->Json_0@ == catalogue(all@),
            None => is_empty_reply(r, Status::InternalServerError),
        },
{
    match loaded {
        Some(all) => json_reply(listed_products(all)),
        None => empty_reply(Status::InternalServerError),
    }
}

/// The answer to a request for one product, given what was found.
pub fn product_reply(found: Option<Product>) -> (r: Reply<Product>)
    ensures
        match found {
            Some(p) => is_json_reply(r) && r.body->Json_0 == p,
            None => is_text_reply(r, Status::NotFound, "Product not found"@),
        },
{
    match found {
        Some(p) => json_reply(p),
        None => text_reply(Status::NotFound, "Product not found"),
    }
}

/// The caller of a change to a product: without claims, 401 with no body.
pub fn require_seller<T>(claims: Option<&Claims>) -> (r: Result<i32, Reply<T>>)
    ensures
        match claims {
            Some(c) => r == Ok::<i32, Reply<T>>(c.sub),
            None => r matches Err(e) && is_empty_reply(e, Status::Unauthorized),
        },
{
    match claims {
        Some(c) => Ok(c.sub),
        None => Err(empty_reply(Status::Unauthorized)),
    }
}

/// Only the seller of a product may change or withdraw it.
pub open spec fn may_modify(seller: i32, p: Product) -> bool {
    p.seller_id == Some(seller)
}

/// Checks that `seller` may change the product found: 404 `Product not found`
/// when there is none, 403 `Not your product` when another account offers it.
pub fn check_ownership<T>(seller: i32, existing: Option<Product>) -> (r: Result<Product, Reply<T>>)
    ensures
        match existing {
            None => r matches Err(e) && is_text_reply(e, Status::NotFound, "Product not found"@),
            Some(p) => if may_modify(seller, p) {
                r matches Ok(q) && q == p
            } else {
                r matches Err(e) && is_text_reply(e, Status::Forbidden, "Not your product"@)
            },
        },
{
    match existing {
        None => Err(text_reply(Status::NotFound, "Product not found")),
        Some(p) => {
            let owned = match p.seller_id {
                Some(s) => s == seller,
                None => false,
            };
            if owned {
                Ok(p)
            } else {
                Err(text_reply(Status::Forbidden, "Not your product"))
            }
        },
    }
}

/// The answer once the change was written (`Some`, the product as it is now)
/// or not (`None`).
pub fn updated_product_reply(updated: Option<Product>) -> (r: Reply<Product>)
    ensures
        match updated {
            Some(p) => is_json_reply(r) && r.body->Json_0 == p,
            None => is_empty_reply(r, Status::InternalServerError),
        },
{
    match updated {
        Some(p) => json_reply(p),
        None => empty_reply(Status::InternalServerError),
    }
}

/// The answer once the product was withdrawn (`true`) or not.
pub fn deleted_product_reply<T>(withdrawn: bool) -> (r: Reply<T>)
    ensures
        withdrawn ==> is_text_reply(r, Status::Success, "Product deleted"@),
        !withdrawn ==> is_empty_reply(r, Status::InternalServerError),
{
    if withdrawn {
        text_reply(Status::Success, "Product deleted")
    } else {
        empty_reply(Status::InternalServerError)
    }
}

/// A product created by an authenticated caller can afterwards be changed
/// or withdrawn by that caller, and by no other account.
pub proof fn lemma_only_creator_may_modify(
    creator: Claims,
    request: NewProduct,
    created: NewProduct,
    stored: Product,
    other: i32,
)
    requires
        created == (NewProduct { seller_id: Some(creator.sub), ..request }),
        stored.seller_id == created.seller_id,
        other != creator.sub,
    ensures
        may_modify(creator.sub, stored),
        !may_modify(other, stored),
{
}

/// The catalogue lists exactly the active products: a product appears in it
/// if and only if it is among the products and is active; in particular a
/// withdrawn product never appears.
pub proof fn lemma_catalogue_lists_exactly_active(all: Seq<Product>, p: Product)
    ensures
        catalogue(all).contains(p) <==> (all.contains(p) && is_listed(p)),
{
    let pred = |q: Product| is_listed(q);
    if catalogue(all).contains(p) {
        all.lemma_filter_contains_rev(pred, p);
        let i = choose|i: int| 0 <= i < catalogue(all).len() && catalogue(all)[i] == p;
        all.lemma_filter_pred(pred, i);
    }
    if all.contains(p) && is_listed(p) {
        let i = choose|i: int| 0 <= i < all.len() && all[i] == p;
        all.lemma_filter_contains(pred, i);
    }
}

/// A withdrawn product (its active flag cleared, as withdrawing sets it) is
/// never listed, whatever else the products are.
pub proof fn lemma_withdrawn_product_not_listed(all: Seq<Product>, p: Product)
    requires
        p.is_active == Some(false),
    ensures
        !catalogue(all).contains(p),
{
    lemma_catalogue_lists_exactly_active(all, p);
}

} // verus!
