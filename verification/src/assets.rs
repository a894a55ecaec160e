use vstd::prelude::*;

use crate::errors::Failure;
use crate::json::{json_doc_of, parse_json, JsonValue};
use crate::selection::AssetRef;

verus! {

/// The asset identifier one membership item reports: the string under its
/// `asset` key, or the empty string where that key is absent or not a string.
pub open spec fn member_id_of(item: JsonValue) -> Seq<char> {
    match item.spec_member("asset"@) {
        Some(v) => match v.spec_text() {
            Some(s) => s,
            None => Seq::empty(),
        },
        None => Seq::empty(),
    }
}

/// The items of a membership answer: the elements of its top-level array, or
/// nothing where the text is not a JSON sequence.
pub open spec fn member_items_of(text: Seq<char>) -> Option<Seq<JsonValue>> {
    match json_doc_of(text) {
        Some(doc) => doc.spec_elements(),
        None => None,
    }
}

/// Reads a membership answer into asset references, one per item of the
/// top-level array and in the store's order. A text that is not a JSON
/// sequence is rejected; an item without an `asset` string keeps its place
/// with an empty identifier, as the store client has always tolerated.
pub fn parse_member_list(body: &str) -> (r: Result<Vec<AssetRef>, Failure>)
    ensures
        match r {
            Ok(list) => member_items_of(body@) matches Some(items) && list@.len() == items.len()
                && (forall|i: int|
                0 <= i < items.len() ==> list@[i].asset_id@ == member_id_of(#[trigger] items[i])),
            Err(f) => f == Failure::AssetStoreMalformed && member_items_of(body@) is None,
        },
{
    let doc = match parse_json(body) {
        Some(d) => d,
        None => {
            return Err(Failure::AssetStoreMalformed);
        },
    };
    let items = match doc.elements() {
        Some(v) => v,
        None => {
            return Err(Failure::AssetStoreMalformed);
        },
    };
    let n = items.len();
    let mut list: Vec<AssetRef> = Vec::new();
    let mut i: usize = 0;
    while i < n
        invariant
            0 <= i <= n,
            n == items@.len(),
            list@.len() == i,
            forall|j: int|
                0 <= j < i ==> list@[j].asset_id@ == member_id_of(#[trigger] items@[j]),
        decreases n - i,
    {
        let asset_id: String = match items[i].member("asset") {
            Some(v) => match v.text() {
                Some(s) => s.clone(),
                None => String::new(),
            },
            None => String::new(),
        };
        list.push(AssetRef { asset_id });
        i += 1;
    }
    Ok(list)
}

} // verus!
