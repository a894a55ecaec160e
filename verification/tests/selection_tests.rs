use book_covers::errors::Failure;
use book_covers::selection::{select_sample, AssetRef};

fn members(n: usize) -> Vec<AssetRef> {
    (0..n).map(|i| AssetRef { asset_id: format!("asset{}", i) }).collect()
}

#[test]
fn rejects_empty_member_list() {
    assert_eq!(select_sample(&members(0)), Err(Failure::InsufficientAssets(0)));
}

#[test]
fn rejects_five_members_with_observed_count() {
    assert_eq!(select_sample(&members(5)), Err(Failure::InsufficientAssets(5)));
}

#[test]
fn rejects_eleven_members() {
    assert_eq!(select_sample(&members(11)), Err(Failure::InsufficientAssets(11)));
}

#[test]
fn twelve_members_yield_positions_one_through_ten() {
    let sample = select_sample(&members(12)).unwrap();
    assert_eq!(sample.len(), 10);
    for (j, item) in sample.iter().enumerate() {
        assert_eq!(item.asset_id, format!("asset{}", j + 1));
    }
}

#[test]
fn longer_lists_still_yield_the_same_window() {
    let sample = select_sample(&members(15)).unwrap();
    assert_eq!(sample.len(), 10);
    assert_eq!(sample[0].asset_id, "asset1");
    assert_eq!(sample[9].asset_id, "asset10");
}
