use book_covers::assets::parse_member_list;
use book_covers::errors::Failure;
use book_covers::metadata::{cover_file_name, resolve_cover, strip_ipfs_prefix, CoverInfo};

#[test]
fn resolves_cover_with_prefix_and_name() {
    let body = r#"{"onchain_metadata":{
        "name":"My Book",
        "files":[{"src":"ipfs://QmHashOne","mediaType":"image/png"},{"src":"ipfs://QmHashTwo"}]
    }}"#;
    let cover = resolve_cover(body).unwrap();
    assert_eq!(
        cover,
        CoverInfo { location: "QmHashOne".to_string(), name: "My Book".to_string() }
    );
}

#[test]
fn absent_name_resolves_to_empty_string() {
    let body = r#"{"onchain_metadata":{"files":[{"src":"ipfs://QmHash"}]}}"#;
    let cover = resolve_cover(body).unwrap();
    assert_eq!(cover.name, "");
    assert_eq!(cover.location, "QmHash");
}

#[test]
fn non_string_name_resolves_to_empty_string() {
    let body = r#"{"onchain_metadata":{"name":7,"files":[{"src":"ipfs://QmHash"}]}}"#;
    assert_eq!(resolve_cover(body).unwrap().name, "");
}

#[test]
fn source_without_prefix_is_invalid_content_uri() {
    let body = r#"{"onchain_metadata":{"name":"x","files":[{"src":"https://QmHash"}]}}"#;
    assert_eq!(resolve_cover(body), Err(Failure::InvalidContentUri));
}

#[test]
fn malformed_documents_are_rejected() {
    assert_eq!(resolve_cover("not json"), Err(Failure::MetadataMalformed));
    assert_eq!(resolve_cover(r#"{"name":"x"}"#), Err(Failure::MetadataMalformed));
    assert_eq!(
        resolve_cover(r#"{"onchain_metadata":{"name":"x"}}"#),
        Err(Failure::MetadataMalformed)
    );
    assert_eq!(
        resolve_cover(r#"{"onchain_metadata":{"name":"x","files":[]}}"#),
        Err(Failure::MetadataMalformed)
    );
    assert_eq!(
        resolve_cover(r#"{"onchain_metadata":{"name":"x","files":[{"mediaType":"png"}]}}"#),
        Err(Failure::MetadataMalformed)
    );
}

#[test]
fn strips_the_scheme_prefix_exactly() {
    assert_eq!(strip_ipfs_prefix("ipfs://QmHash"), Some("QmHash".to_string()));
    assert_eq!(strip_ipfs_prefix("ipfs://"), Some("".to_string()));
    assert_eq!(strip_ipfs_prefix("ipfs:/QmHash"), None);
    assert_eq!(strip_ipfs_prefix("IPFS://QmHash"), None);
    assert_eq!(strip_ipfs_prefix(""), None);
}

#[test]
fn file_name_appends_the_extension() {
    assert_eq!(cover_file_name("My Book"), "My Book.png");
    assert_eq!(cover_file_name(""), ".png");
}

#[test]
fn member_list_keeps_order_and_tolerates_bad_items() {
    let body = r#"[{"asset":"a1"},{"asset":"a2"},{"quantity":"1"},{"asset":3}]"#;
    let list = parse_member_list(body).unwrap();
    assert_eq!(list.len(), 4);
    assert_eq!(list[0].asset_id, "a1");
    assert_eq!(list[1].asset_id, "a2");
    assert_eq!(list[2].asset_id, "");
    assert_eq!(list[3].asset_id, "");
}

#[test]
fn member_list_must_be_a_sequence() {
    assert_eq!(parse_member_list(r#"{"asset":"a1"}"#), Err(Failure::AssetStoreMalformed));
    assert_eq!(parse_member_list("not json"), Err(Failure::AssetStoreMalformed));
}
