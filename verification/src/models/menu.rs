//! Menu items as customers see them.

use vstd::prelude::*;
use crate::errors::MenuError;
use crate::repo::RepoError;

verus! {

/// A dish on the menu.
#[derive(Debug, Clone)]
pub struct MenuItem {
    pub id: u128,
    pub category_id: u128,
    pub title: String,
    pub price: i64,
    pub is_available: bool,
    pub category_title: String,
    pub position: i32,
}

/// A stored row of an available dish, as the menu store lists it.
#[derive(Debug)]
pub struct AvailableItemRow {
    pub id: u128,
    pub category_id: u128,
    pub title: String,
    pub price: i64,
    pub category_title: String,
    pub position: i32,
}

/// Whether a menu item shows a row, marked available.
pub open spec fn shows_row(item: MenuItem, row: AvailableItemRow) -> bool {
    &&& item.id == row.id
    &&& item.category_id == row.category_id
    &&& item.title@ == row.title@
    &&& item.price == row.price
    &&& item.is_available
    &&& item.category_title@ == row.category_title@
    &&& item.position == row.position
}

/// The menu from the rows of available dishes, in the same order; every
/// item is available, since only available dishes are listed.
pub fn menu_items_from_rows(rows: Vec<AvailableItemRow>) -> (items: Vec<MenuItem>)
    ensures
        items.len() == rows.len(),
        forall|i: int| 0 <= i < rows.len() ==> shows_row(#[trigger] items@[i], rows@[i]),
{
    let ghost given = rows@;
    let mut rows = rows;
    let mut rev: Vec<MenuItem> = Vec::new();
    while rows.len() > 0
        invariant
            rows@.len() + rev@.len() == given.len(),
            rows@ == given.take(rows@.len() as int),
            forall|j: int| 0 <= j < rev@.len() ==>
                shows_row(#[trigger] rev@[j], given[given.len() - 1 - j]),
        decreases rows.len(),
    {
        let r = rows.pop().unwrap();
        let ghost k = rev@.len();
        rev.push(MenuItem {
            id: r.id,
            category_id: r.category_id,
            title: r.title,
            price: r.price,
            is_available: true,
            category_title: r.category_title,
            position: r.position,
        });
        assert(rows@ =~= given.take(rows@.len() as int));
    }
    let mut items: Vec<MenuItem> = Vec::new();
    let n = rev.len();
    while rev.len() > 0
        invariant
            rev@.len() + items@.len() == n,
            n == given.len(),
            forall|j: int| 0 <= j < rev@.len() ==>
                shows_row(#[trigger] rev@[j], given[given.len() - 1 - j]),
            forall|j: int| 0 <= j < items@.len() ==> shows_row(#[trigger] items@[j], given[j]),
        decreases rev.len(),
    {
        let it = rev.pop().unwrap();
        items.push(it);
    }
    items
}

/// A store result as a menu result: any store failure is a database error.
pub fn menu_result<T>(r: Result<T, RepoError>) -> (out: Result<T, MenuError>)
    ensures
        match r {
            Ok(v) => out == Ok::<T, MenuError>(v),
            Err(_) => out == Err::<T, MenuError>(MenuError::Database),
        },
{
    match r {
        Ok(v) => Ok(v),
        Err(_) => Err(MenuError::Database),
    }
}

} // verus!
