use vstd::prelude::*;

use crate::errors::Failure;
use crate::json::{json_doc_of, parse_json, JsonValue};

verus! {

/// One entry of the publisher registry: a collection identifier and the tag
/// of the chain that collection lives on.
#[derive(Clone, Debug, PartialEq, Eq)]
pub struct CollectionDescriptor {
    pub identifier: String,
    pub chain: String,
}

/// The chain tag of the one ledger this tool supports.
pub open spec fn spec_target_chain() -> Seq<char> {
    "cardano"@
}

/// What one registry listing item denotes: its identifier and chain tag, or
/// nothing where either field is absent or not a string.
pub open spec fn registry_entry_of(item: JsonValue) -> Option<(Seq<char>, Seq<char>)> {
    match item.spec_member("collection_id"@) {
        Some(idv) => match idv.spec_text() {
            Some(id) => match item.spec_member("blockchain"@) {
                Some(cv) => match cv.spec_text() {
                    Some(chain) => Some((id, chain)),
                    None => None,
                },
                None => None,
            },
            None => None,
        },
        None => None,
    }
}

/// The listing items of a registry answer: the elements of the array under
/// its `data` key, or nothing where the text does not have that shape.
pub open spec fn registry_doc_entries(text: Seq<char>) -> Option<Seq<JsonValue>> {
    match json_doc_of(text) {
        Some(doc) => match doc.spec_member("data"@) {
            Some(data) => data.spec_elements(),
            None => None,
        },
        None => None,
    }
}

/// Every listing item denotes an entry.
pub open spec fn wf_registry_items(items: Seq<JsonValue>) -> bool {
    forall|i: int| 0 <= i < items.len() ==> (#[trigger] registry_entry_of(items[i])) is Some
}

/// Reads a registry answer into descriptors: the `data` array's items, each
/// with a `collection_id` and a `blockchain` string, in listing order. Any
/// other shape is rejected as a malformed registry.
pub fn parse_registry(body: &str) -> (r: Result<Vec<CollectionDescriptor>, Failure>)
    ensures
        match r {
            Ok(list) => registry_doc_entries(body@) matches Some(items) && wf_registry_items(items)
                && list@.len() == items.len() && (forall|i: int|
                0 <= i < items.len() ==> registry_entry_of(items[i]) == Some(
                    (list@[i].identifier@, list@[i].chain@),
                )),
            Err(f) => f == Failure::RegistryMalformed && match registry_doc_entries(body@) {
                Some(items) => !wf_registry_items(items),
                None => true,
            },
        },
{
    let doc = match parse_json(body) {
        Some(d) => d,
        None => {
            return Err(Failure::RegistryMalformed);
        },
    };
    let data = match doc.member("data") {
        Some(d) => d,
        None => {
            return Err(Failure::RegistryMalformed);
        },
    };
    let items = match data.elements() {
        Some(v) => v,
        None => {
            return Err(Failure::RegistryMalformed);
        },
    };
    let n = items.len();
    let mut list: Vec<CollectionDescriptor> = Vec::new();
    let mut i: usize = 0;
    while i < n
        invariant
            0 <= i <= n,
            n == items@.len(),
            registry_doc_entries(body@) == Some(items@),
            list@.len() == i,
            forall|j: int|
                0 <= j < i ==> registry_entry_of(items@[j]) == Some(
                    (list@[j].identifier@, list@[j].chain@),
                ),
        decreases n - i,
    {
        let item = &items[i];
        let id = match item.member("collection_id") {
            Some(v) => match v.text() {
                Some(s) => s,
                None => {
                    return Err(Failure::RegistryMalformed);
                },
            },
            None => {
                return Err(Failure::RegistryMalformed);
            },
        };
        let chain = match item.member("blockchain") {
            Some(v) => match v.text() {
                Some(s) => s,
                None => {
                    return Err(Failure::RegistryMalformed);
                },
            },
            None => {
                return Err(Failure::RegistryMalformed);
            },
        };
        list.push(CollectionDescriptor { identifier: id.clone(), chain: chain.clone() });
        i += 1;
    }
    Ok(list)
}

/// A descriptor that settles the check: the identifier in question, under the
/// target chain.
pub open spec fn matches_target(d: CollectionDescriptor, identifier: Seq<char>) -> bool {
    d.identifier@ == identifier && d.chain@ == spec_target_chain()
}

/// The registry carries the identifier under the target chain.
pub open spec fn spec_is_known(registry: Seq<CollectionDescriptor>, identifier: Seq<char>) -> bool {
    exists|i: int| 0 <= i < registry.len() && #[trigger] matches_target(registry[i], identifier)
}

/// Scans the registry in order for an entry with this identifier and the
/// target chain tag: true exactly where one stands anywhere in the listing.
pub fn is_known_collection(registry: &Vec<CollectionDescriptor>, identifier: &str) -> (r: bool)
    ensures
        r == spec_is_known(registry@, identifier@),
{
    let id: String = identifier.to_owned();
    let target: String = "cardano".to_owned();
    let n = registry.len();
    let mut i: usize = 0;
    while i < n
        invariant
            0 <= i <= n,
            n == registry@.len(),
            id@ == identifier@,
            target@ == spec_target_chain(),
            forall|j: int| 0 <= j < i ==> !(#[trigger] matches_target(registry@[j], identifier@)),
        decreases n - i,
    {
        let entry = &registry[i];
        if entry.identifier.eq(&id) && entry.chain.eq(&target) {
            proof {
                assert(matches_target(registry@[i as int], identifier@));
            }
            return true;
        }
        i += 1;
    }
    false
}

/// Law: an identifier that no registry entry carries under the target chain
/// is never reported as known, whatever else the registry lists.
pub proof fn lemma_unknown_identifier_rejected(
    registry: Seq<CollectionDescriptor>,
    identifier: Seq<char>,
)
    requires
        forall|i: int|
            0 <= i < registry.len() ==> !(#[trigger] matches_target(registry[i], identifier)),
    ensures
        !spec_is_known(registry, identifier),
{
}

/// Law: a registry that carries a matching entry reports the identifier as
/// known, regardless of the entries standing before or after the match.
pub proof fn lemma_matching_entry_recognized(
    before: Seq<CollectionDescriptor>,
    entry: CollectionDescriptor,
    after: Seq<CollectionDescriptor>,
    identifier: Seq<char>,
)
    requires
        matches_target(entry, identifier),
    ensures
        spec_is_known(before + seq![entry] + after, identifier),
{
    let registry = before + seq![entry] + after;
    assert(registry[before.len() as int] == entry);
    assert(matches_target(registry[before.len() as int], identifier));
}

} // verus!
