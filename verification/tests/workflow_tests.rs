use book_covers::assets::parse_member_list;
use book_covers::errors::Failure;
use book_covers::metadata::CoverInfo;
use book_covers::registry::{parse_registry, CollectionDescriptor};
use book_covers::workflow::{
    exit_code, store_plan, Action, Event, ItemOutcome, Phase, StoreOutcome, StorePlan, Workflow,
};

fn known_registry() -> Vec<CollectionDescriptor> {
    parse_registry(
        r#"{"data":[
            {"collection_id":"policy_other","blockchain":"cardano"},
            {"collection_id":"policy_abc","blockchain":"cardano"}
        ]}"#,
    )
    .unwrap()
}

fn member_body(n: usize) -> String {
    let items: Vec<String> =
        (0..n).map(|i| format!(r#"{{"asset":"asset{}"}}"#, i)).collect();
    format!("[{}]", items.join(","))
}

#[test]
fn full_run_attempts_all_ten_and_succeeds() {
    let mut wf = Workflow::new("policy_abc".to_string());
    let action = wf.step(Event::Begin);
    assert_eq!(action, Action::FetchRegistry);

    let action = wf.step(Event::Registry(Ok(known_registry())));
    assert_eq!(action, Action::FetchMembers("policy_abc".to_string()));

    let members = parse_member_list(&member_body(15)).unwrap();
    assert_eq!(members.len(), 15);
    let mut action = wf.step(Event::Members(Ok(members)));

    for k in 1..=10 {
        assert_eq!(action, Action::FetchMetadata(format!("asset{}", k)));
        action = wf.step(Event::Resolved(Ok(CoverInfo {
            location: format!("Qm{}", k),
            name: format!("Book {}", k),
        })));
        assert_eq!(
            action,
            Action::FetchContent { location: format!("Qm{}", k), name: format!("Book {}", k) }
        );
        action = wf.step(Event::Content(StoreOutcome::Stored));
    }
    assert_eq!(action, Action::Stop);
    assert_eq!(wf.phase, Phase::Finished);
    assert_eq!(wf.fatal, None);
    assert_eq!(wf.report.len(), 10);
    for (k, item) in wf.report.iter().enumerate() {
        assert_eq!(item.asset_id, format!("asset{}", k + 1));
        assert_eq!(item.outcome, ItemOutcome::Fetched);
    }
    assert_eq!(exit_code(&wf), 0);
}

#[test]
fn per_item_failures_never_stop_the_batch() {
    let mut wf = Workflow::new("policy_abc".to_string());
    wf.step(Event::Begin);
    wf.step(Event::Registry(Ok(known_registry())));
    let members = parse_member_list(&member_body(12)).unwrap();
    let mut action = wf.step(Event::Members(Ok(members)));

    for k in 1..=10 {
        assert_eq!(action, Action::FetchMetadata(format!("asset{}", k)));
        if k % 3 == 0 {
            action = wf.step(Event::Resolved(Err(Failure::MetadataUnavailable)));
        } else {
            action = wf.step(Event::Resolved(Ok(CoverInfo {
                location: format!("Qm{}", k),
                name: format!("Book {}", k),
            })));
            let outcome = match k % 4 {
                1 => StoreOutcome::Stored,
                2 => StoreOutcome::AlreadyPresent,
                _ => StoreOutcome::GatewayUnavailable,
            };
            action = wf.step(Event::Content(outcome));
        }
    }
    assert_eq!(action, Action::Stop);
    assert_eq!(wf.fatal, None);
    assert_eq!(wf.report.len(), 10);
    assert_eq!(wf.report[2].outcome, ItemOutcome::ResolveFailed(Failure::MetadataUnavailable));
    assert_eq!(wf.report[0].outcome, ItemOutcome::Fetched);
    assert_eq!(wf.report[1].outcome, ItemOutcome::AlreadyPresent);
    assert_eq!(wf.report[6].outcome, ItemOutcome::FetchFailed(Failure::GatewayUnavailable));
    assert_eq!(exit_code(&wf), 0);
}

#[test]
fn too_few_members_end_the_run_without_fetching() {
    let mut wf = Workflow::new("policy_abc".to_string());
    wf.step(Event::Begin);
    wf.step(Event::Registry(Ok(known_registry())));
    let members = parse_member_list(&member_body(5)).unwrap();
    let action = wf.step(Event::Members(Ok(members)));
    assert_eq!(action, Action::Stop);
    assert_eq!(wf.fatal, Some(Failure::InsufficientAssets(5)));
    assert_eq!(wf.report.len(), 0);
    assert_eq!(exit_code(&wf), 0);
}

#[test]
fn unknown_identifier_stops_after_the_registry_check() {
    let mut wf = Workflow::new("policy_zzz".to_string());
    wf.step(Event::Begin);
    let action = wf.step(Event::Registry(Ok(known_registry())));
    assert_eq!(action, Action::Stop);
    assert_eq!(wf.phase, Phase::Finished);
    assert_eq!(wf.fatal, Some(Failure::UnknownCollection));
    assert_eq!(wf.report.len(), 0);
    assert_eq!(exit_code(&wf), 1);
}

#[test]
fn wrong_chain_identifier_is_not_known() {
    let registry = parse_registry(
        r#"{"data":[{"collection_id":"policy_abc","blockchain":"evm"}]}"#,
    )
    .unwrap();
    let mut wf = Workflow::new("policy_abc".to_string());
    wf.step(Event::Begin);
    let action = wf.step(Event::Registry(Ok(registry)));
    assert_eq!(action, Action::Stop);
    assert_eq!(wf.fatal, Some(Failure::UnknownCollection));
}

#[test]
fn registry_failure_is_fatal_with_clean_exit() {
    let mut wf = Workflow::new("policy_abc".to_string());
    wf.step(Event::Begin);
    let action = wf.step(Event::Registry(Err(Failure::RegistryUnavailable)));
    assert_eq!(action, Action::Stop);
    assert_eq!(wf.fatal, Some(Failure::RegistryUnavailable));
    assert_eq!(exit_code(&wf), 0);

    let mut wf = Workflow::new("policy_abc".to_string());
    wf.step(Event::Begin);
    wf.step(Event::Registry(Err(Failure::RegistryMalformed)));
    assert_eq!(wf.fatal, Some(Failure::RegistryMalformed));
    assert_eq!(exit_code(&wf), 0);
}

#[test]
fn member_query_failure_is_fatal() {
    let mut wf = Workflow::new("policy_abc".to_string());
    wf.step(Event::Begin);
    wf.step(Event::Registry(Ok(known_registry())));
    let action = wf.step(Event::Members(Err(Failure::AssetStoreUnavailable)));
    assert_eq!(action, Action::Stop);
    assert_eq!(wf.fatal, Some(Failure::AssetStoreUnavailable));
    assert_eq!(exit_code(&wf), 0);
}

#[test]
fn credential_and_write_failures_are_recorded_per_item() {
    let mut wf = Workflow::new("policy_abc".to_string());
    wf.step(Event::Begin);
    wf.step(Event::Registry(Ok(known_registry())));
    let members = parse_member_list(&member_body(12)).unwrap();
    let mut action = wf.step(Event::Members(Ok(members)));
    for k in 1..=10 {
        assert_eq!(action, Action::FetchMetadata(format!("asset{}", k)));
        action = wf.step(Event::Resolved(Ok(CoverInfo {
            location: format!("Qm{}", k),
            name: format!("Book {}", k),
        })));
        let outcome = if k % 2 == 1 {
            StoreOutcome::CredentialMissing
        } else {
            StoreOutcome::WriteFailed
        };
        action = wf.step(Event::Content(outcome));
    }
    assert_eq!(action, Action::Stop);
    assert_eq!(wf.report[0].outcome, ItemOutcome::FetchFailed(Failure::CredentialMissing));
    assert_eq!(wf.report[1].outcome, ItemOutcome::FetchFailed(Failure::WriteFailed));
    assert_eq!(exit_code(&wf), 0);
}

#[test]
fn existing_files_are_kept_and_missing_ones_written() {
    assert_eq!(store_plan(true), StorePlan::KeepExisting);
    assert_eq!(store_plan(false), StorePlan::WriteNew);
}
