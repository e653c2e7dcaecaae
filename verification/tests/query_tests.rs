use social_profile_check::Contract;
use social_profile_check::query::{build_query_args, build_registry_query, str_ends_with};

#[test]
fn mainnet_signer_reads_mainnet_registry() {
    let contract = Contract::new(None, "deployer.near".to_string());
    let query = contract.verify_social_profile_completeness("alice.near", "alice.near");
    assert_eq!(query.registry_account_id, "social.near".to_string());
    assert_eq!(query.method_name, "get".to_string());
    assert_eq!(query.args_json, "{\"keys\":[\"alice.near/profile/**\"]}".to_string());
    assert_eq!(query.gas_tgas, 50);
    assert_eq!(query.attached_deposit, 0);
}

#[test]
fn other_signer_reads_testnet_registry() {
    let query = build_registry_query("alice.testnet", "alice.testnet");
    assert_eq!(query.registry_account_id, "v1.social08.testnet".to_string());
    assert_eq!(query.args_json, "{\"keys\":[\"alice.testnet/profile/**\"]}".to_string());
}

#[test]
fn payload_frames_the_account_path() {
    assert_eq!(build_query_args("bob"), "{\"keys\":[\"bob/profile/**\"]}".to_string());
}

#[test]
fn suffix_test_matches_string_ends() {
    assert!(str_ends_with("alice.near", ".near"));
    assert!(!str_ends_with("alice.testnet", ".near"));
    assert!(!str_ends_with("ear", ".near"));
    assert!(str_ends_with("anything", ""));
}
