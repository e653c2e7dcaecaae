use social_profile_check::json::Json;
use social_profile_check::validator::{evaluate, is_valid_image, profile_is_complete};

fn text(v: &str) -> Json {
    Json::Text(v.to_string())
}

fn entry(k: &str, v: Json) -> (String, Json) {
    (k.to_string(), v)
}

fn url_image() -> Json {
    Json::Object(vec![entry("url", text("http://x"))])
}

fn full_profile() -> Vec<(String, Json)> {
    vec![
        entry("name", text("Alice")),
        entry("description", text("Bio")),
        entry("image", url_image()),
        entry("backgroundImage", Json::Object(vec![entry("ipfs_cid", text("Qm123"))])),
        entry("linktree", Json::Object(vec![entry("site", text("http://y"))])),
        entry("tags", Json::Object(vec![entry("dev", text(""))])),
    ]
}

fn profile_without(field: &str) -> Vec<(String, Json)> {
    full_profile().into_iter().filter(|(k, _)| k != field).collect()
}

fn doc_for(account: &str, profile: Vec<(String, Json)>) -> Json {
    Json::Object(vec![entry(account, Json::Object(vec![entry("profile", Json::Object(profile))]))])
}

#[test]
fn full_profile_is_complete() {
    assert!(profile_is_complete(&full_profile()));
    assert!(evaluate(&doc_for("alice", full_profile()), "alice"));
}

#[test]
fn missing_name_fails() {
    assert!(!profile_is_complete(&profile_without("name")));
}

#[test]
fn missing_description_fails() {
    assert!(!profile_is_complete(&profile_without("description")));
}

#[test]
fn missing_image_fails() {
    assert!(!profile_is_complete(&profile_without("image")));
}

#[test]
fn missing_background_image_fails() {
    assert!(!profile_is_complete(&profile_without("backgroundImage")));
}

#[test]
fn missing_linktree_fails() {
    assert!(!profile_is_complete(&profile_without("linktree")));
}

#[test]
fn missing_tags_fails() {
    assert!(!profile_is_complete(&profile_without("tags")));
}

#[test]
fn empty_name_fails() {
    let mut profile = profile_without("name");
    profile.push(entry("name", text("")));
    assert!(!profile_is_complete(&profile));
}

#[test]
fn name_of_wrong_type_fails() {
    let mut profile = profile_without("name");
    profile.push(entry("name", Json::Bool(true)));
    assert!(!profile_is_complete(&profile));
}

#[test]
fn image_url_alone_is_valid() {
    assert!(is_valid_image(&Json::Object(vec![entry("url", text("x"))])));
}

#[test]
fn image_ipfs_cid_alone_is_valid() {
    assert!(is_valid_image(&Json::Object(vec![entry("ipfs_cid", text("y"))])));
}

#[test]
fn image_nft_with_both_fields_is_valid() {
    let nft = Json::Object(vec![entry("contractId", text("a")), entry("tokenId", text("b"))]);
    assert!(is_valid_image(&Json::Object(vec![entry("nft", nft)])));
}

#[test]
fn image_nft_missing_token_id_is_invalid() {
    let nft = Json::Object(vec![entry("contractId", text("a"))]);
    assert!(!is_valid_image(&Json::Object(vec![entry("nft", nft)])));
}

#[test]
fn image_empty_url_is_invalid() {
    assert!(!is_valid_image(&Json::Object(vec![entry("url", text(""))])));
}

#[test]
fn image_of_wrong_shape_is_invalid() {
    assert!(!is_valid_image(&text("http://x")));
    assert!(!is_valid_image(&Json::Null));
}

#[test]
fn linktree_empty_mapping_fails() {
    let mut profile = profile_without("linktree");
    profile.push(entry("linktree", Json::Object(vec![])));
    assert!(!profile_is_complete(&profile));
}

#[test]
fn linktree_empty_string_fails() {
    let mut profile = profile_without("linktree");
    profile.push(entry("linktree", Json::Object(vec![entry("a", text(""))])));
    assert!(!profile_is_complete(&profile));
}

#[test]
fn linktree_nonempty_link_passes() {
    let mut profile = profile_without("linktree");
    profile.push(entry("linktree", Json::Object(vec![entry("a", text("http://x"))])));
    assert!(profile_is_complete(&profile));
}

#[test]
fn tags_empty_mapping_fails() {
    let mut profile = profile_without("tags");
    profile.push(entry("tags", Json::Object(vec![])));
    assert!(!profile_is_complete(&profile));
}

#[test]
fn first_binding_of_a_key_wins() {
    let mut shadowed = full_profile();
    shadowed.push(entry("name", text("")));
    assert!(profile_is_complete(&shadowed));

    let mut profile = profile_without("name");
    profile.insert(0, entry("name", text("")));
    profile.push(entry("name", text("Alice")));
    assert!(!profile_is_complete(&profile));
}

#[test]
fn linktree_non_string_values_do_not_count() {
    let mut profile = profile_without("linktree");
    profile.push(entry(
        "linktree",
        Json::Object(vec![
            entry("a", Json::Number("5".to_string())),
            entry("b", Json::Null),
            entry("c", Json::Array(vec![text("http://x")])),
        ]),
    ));
    assert!(!profile_is_complete(&profile));
}

#[test]
fn evaluate_rejects_non_mapping_document() {
    assert!(!evaluate(&Json::Null, "alice"));
    assert!(!evaluate(&text("alice"), "alice"));
}

#[test]
fn evaluate_rejects_missing_account() {
    assert!(!evaluate(&doc_for("bob", full_profile()), "alice"));
}

#[test]
fn evaluate_rejects_non_mapping_profile() {
    let doc = Json::Object(vec![entry(
        "alice",
        Json::Object(vec![entry("profile", text("not a mapping"))]),
    )]);
    assert!(!evaluate(&doc, "alice"));
}
