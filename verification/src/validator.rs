//! Profile completeness validator: a pure, total decision over a registry
//! document. Structurally unexpected input — a missing key, a wrong type, an
//! empty string or mapping — makes the affected criterion false, never an
//! error.

use vstd::prelude::*;
use crate::json::{Json, entries_lookup, obj_get};

verus! {

/// A value is a non-empty string.
pub open spec fn is_nonempty_text(v: Json) -> bool {
    match v {
        Json::Text(s) => s@.len() > 0,
        _ => false,
    }
}

/// `key` is bound in `entries` to a non-empty string.
pub open spec fn field_is_nonempty_text(entries: Seq<(String, Json)>, key: Seq<char>) -> bool {
    match entries_lookup(entries, key) {
        Some(v) => is_nonempty_text(v),
        None => false,
    }
}

/// An NFT image reference is valid when it is a mapping with both a
/// non-empty-string `contractId` and a non-empty-string `tokenId`.
pub open spec fn spec_nft_reference_is_valid(v: Json) -> bool {
    match v {
        Json::Object(nft) => field_is_nonempty_text(nft@, "contractId"@)
            && field_is_nonempty_text(nft@, "tokenId"@),
        _ => false,
    }
}

/// An image value is valid when any one representation of "has an image"
/// holds: a non-empty `url` string, a non-empty `ipfs_cid` string, or a
/// valid `nft` reference.
pub open spec fn spec_is_valid_image(image: Json) -> bool {
    match image {
        Json::Object(entries) => {
            ||| field_is_nonempty_text(entries@, "url"@)
            ||| field_is_nonempty_text(entries@, "ipfs_cid"@)
            ||| match entries_lookup(entries@, "nft"@) {
                Some(nft) => spec_nft_reference_is_valid(nft),
                None => false,
            }
        },
        _ => false,
    }
}

/// Some binding of the mapping carries a non-empty string value.
pub open spec fn spec_has_nonempty_link(links: Seq<(String, Json)>) -> bool {
    exists|i: int| 0 <= i < links.len() && is_nonempty_text(links[i].1)
}

/// A `linktree` value is valid when it is a mapping with at least one
/// non-empty-string entry.
pub open spec fn spec_linktree_is_valid(v: Json) -> bool {
    match v {
        Json::Object(links) => spec_has_nonempty_link(links@),
        _ => false,
    }
}

/// A `tags` value is valid when it is a non-empty mapping; the entries'
/// contents are ignored.
pub open spec fn spec_tags_is_valid(v: Json) -> bool {
    match v {
        Json::Object(tags) => tags@.len() > 0,
        _ => false,
    }
}

/// `key` is bound in `entries` to a valid image value.
pub open spec fn field_is_valid_image(entries: Seq<(String, Json)>, key: Seq<char>) -> bool {
    match entries_lookup(entries, key) {
        Some(v) => spec_is_valid_image(v),
        None => false,
    }
}

/// The fixed completeness policy: all six required fields are present and
/// valid. There is no partial-credit state.
pub open spec fn spec_profile_is_complete(profile: Seq<(String, Json)>) -> bool {
    &&& field_is_nonempty_text(profile, "name"@)
    &&& field_is_nonempty_text(profile, "description"@)
    &&& field_is_valid_image(profile, "image"@)
    &&& field_is_valid_image(profile, "backgroundImage"@)
    &&& match entries_lookup(profile, "linktree"@) {
        Some(v) => spec_linktree_is_valid(v),
        None => false,
    }
    &&& match entries_lookup(profile, "tags"@) {
        Some(v) => spec_tags_is_valid(v),
        None => false,
    }
}

/// The profile subtree of a registry document for `account_id`: the value at
/// `document[account_id]["profile"]`, provided every step of the path is a
/// mapping.
pub open spec fn spec_profile_of(document: Json, account_id: Seq<char>) -> Option<
    Seq<(String, Json)>,
> {
    match document {
        Json::Object(top) => match entries_lookup(top@, account_id) {
            Some(Json::Object(account_entries)) => match entries_lookup(
                account_entries@,
                "profile"@,
            ) {
                Some(Json::Object(profile)) => Some(profile@),
                _ => None,
            },
            _ => None,
        },
        _ => None,
    }
}

/// Whether `document` holds a complete profile for `account_id`: the profile
/// subtree exists as a mapping and satisfies the completeness policy.
pub open spec fn spec_evaluate(document: Json, account_id: Seq<char>) -> bool {
    match spec_profile_of(document, account_id) {
        Some(profile) => spec_profile_is_complete(profile),
        None => false,
    }
}

/// Law: a document whose profile subtree lacks any one of the six required
/// fields does not pass the completeness policy.
pub proof fn lemma_missing_required_field_incomplete(
    document: Json,
    account_id: Seq<char>,
    profile: Seq<(String, Json)>,
    key: Seq<char>,
)
    requires
        spec_profile_of(document, account_id) == Some(profile),
        entries_lookup(profile, key) is None,
        key == "name"@ || key == "description"@ || key == "image"@ || key == "backgroundImage"@
            || key == "linktree"@ || key == "tags"@,
    ensures
        !spec_profile_is_complete(profile),
        !spec_evaluate(document, account_id),
{
}

/// Law: a document whose profile subtree holds all six required fields, each
/// valid under its criterion, passes the completeness policy.
pub proof fn lemma_all_fields_valid_complete(
    document: Json,
    account_id: Seq<char>,
    profile: Seq<(String, Json)>,
)
    requires
        spec_profile_of(document, account_id) == Some(profile),
        field_is_nonempty_text(profile, "name"@),
        field_is_nonempty_text(profile, "description"@),
        field_is_valid_image(profile, "image"@),
        field_is_valid_image(profile, "backgroundImage"@),
        match entries_lookup(profile, "linktree"@) {
            Some(v) => spec_linktree_is_valid(v),
            None => false,
        },
        match entries_lookup(profile, "tags"@) {
            Some(v) => spec_tags_is_valid(v),
            None => false,
        },
    ensures
        spec_profile_is_complete(profile),
        spec_evaluate(document, account_id),
{
}

/// Law: each of the three image representations suffices on its own — a
/// non-empty `url`, a non-empty `ipfs_cid`, or a valid `nft` reference —
/// and nothing else does.
pub proof fn lemma_image_alternatives_independent(entries: Vec<(String, Json)>)
    ensures
        field_is_nonempty_text(entries@, "url"@) ==> spec_is_valid_image(Json::Object(entries)),
        field_is_nonempty_text(entries@, "ipfs_cid"@) ==> spec_is_valid_image(
            Json::Object(entries),
        ),
        (match entries_lookup(entries@, "nft"@) {
            Some(nft) => spec_nft_reference_is_valid(nft),
            None => false,
        }) ==> spec_is_valid_image(Json::Object(entries)),
        spec_is_valid_image(Json::Object(entries)) ==> field_is_nonempty_text(entries@, "url"@)
            || field_is_nonempty_text(entries@, "ipfs_cid"@) || (match entries_lookup(
            entries@,
            "nft"@,
        ) {
            Some(nft) => spec_nft_reference_is_valid(nft),
            None => false,
        }),
{
}

/// Law: an `nft` image reference is valid exactly when both its
/// `contractId` and its `tokenId` are non-empty strings; either one alone
/// is not enough.
pub proof fn lemma_nft_reference_needs_both(nft: Vec<(String, Json)>)
    ensures
        spec_nft_reference_is_valid(Json::Object(nft)) <==> (field_is_nonempty_text(
            nft@,
            "contractId"@,
        ) && field_is_nonempty_text(nft@, "tokenId"@)),
{
}

/// Law: a `linktree` mapping is valid exactly when some entry holds a
/// non-empty string; in particular an empty mapping, or one whose values
/// are all empty or not strings, is not valid.
pub proof fn lemma_linktree_needs_one_nonempty_link(links: Vec<(String, Json)>)
    ensures
        spec_linktree_is_valid(Json::Object(links)) <==> spec_has_nonempty_link(links@),
        links@.len() == 0 ==> !spec_linktree_is_valid(Json::Object(links)),
        (forall|i: int| 0 <= i < links@.len() ==> !is_nonempty_text(links@[i].1))
            ==> !spec_linktree_is_valid(Json::Object(links)),
{
}

fn is_nonempty_text_value(v: &Json) -> (r: bool)
    ensures
        r == is_nonempty_text(*v),
{
    match v {
        Json::Text(s) => !s.as_str().is_empty(),
        _ => false,
    }
}

fn field_has_nonempty_text(entries: &Vec<(String, Json)>, key: &str) -> (r: bool)
    ensures
        r == field_is_nonempty_text(entries@, key@),
{
    match obj_get(entries, key) {
        Some(v) => is_nonempty_text_value(v),
        None => false,
    }
}

fn nft_reference_is_valid(v: &Json) -> (r: bool)
    ensures
        r == spec_nft_reference_is_valid(*v),
{
    match v {
        Json::Object(nft) => field_has_nonempty_text(nft, "contractId")
            && field_has_nonempty_text(nft, "tokenId"),
        _ => false,
    }
}

/// Decides the image-validity predicate for one image value.
pub fn is_valid_image(image: &Json) -> (r: bool)
    ensures
        r == spec_is_valid_image(*image),
{
    match image {
        Json::Object(entries) => {
            if field_has_nonempty_text(entries, "url") {
                return true;
            }
            if field_has_nonempty_text(entries, "ipfs_cid") {
                return true;
            }
            match obj_get(entries, "nft") {
                Some(nft) => nft_reference_is_valid(nft),
                None => false,
            }
        },
        _ => false,
    }
}

fn has_nonempty_link(links: &Vec<(String, Json)>) -> (r: bool)
    ensures
        r == spec_has_nonempty_link(links@),
{
    let n = links.len();
    for i in 0..n
        invariant
            n == links@.len(),
            forall|j: int| 0 <= j < i ==> !is_nonempty_text(links@[j].1),
    {
        if is_nonempty_text_value(&links[i].1) {
            return true;
        }
    }
    false
}

fn field_has_valid_image(entries: &Vec<(String, Json)>, key: &str) -> (r: bool)
    ensures
        r == field_is_valid_image(entries@, key@),
{
    match obj_get(entries, key) {
        Some(v) => is_valid_image(v),
        None => false,
    }
}

/// Decides the completeness policy for a profile mapping's bindings.
pub fn profile_is_complete(profile: &Vec<(String, Json)>) -> (r: bool)
    ensures
        r == spec_profile_is_complete(profile@),
{
    let has_name = field_has_nonempty_text(profile, "name");
    let has_description = field_has_nonempty_text(profile, "description");
    let has_valid_profile_image = field_has_valid_image(profile, "image");
    let has_valid_background_image = field_has_valid_image(profile, "backgroundImage");
    let has_linktree = match obj_get(profile, "linktree") {
        Some(v) => match v {
            Json::Object(links) => has_nonempty_link(links),
            _ => false,
        },
        None => false,
    };
    let has_tags = match obj_get(profile, "tags") {
        Some(v) => match v {
            Json::Object(tags) => tags.len() > 0,
            _ => false,
        },
        None => false,
    };
    has_name && has_description && has_valid_profile_image && has_valid_background_image
        && has_linktree && has_tags
}

/// Decides the completeness policy for a whole registry document: locates
/// `document[account_id]["profile"]` and, when every step is a mapping,
/// evaluates the six criteria; any other shape is simply incomplete.
pub fn evaluate(document: &Json, account_id: &str) -> (r: bool)
    ensures
        r == spec_evaluate(*document, account_id@),
{
    match document {
        Json::Object(top) => match obj_get(top, account_id) {
            Some(account_value) => match account_value {
                Json::Object(account_entries) => match obj_get(account_entries, "profile") {
                    Some(profile_value) => match profile_value {
                        Json::Object(profile) => profile_is_complete(profile),
                        _ => false,
                    },
                    None => false,
                },
                _ => false,
            },
            None => false,
        },
        _ => false,
    }
}

} // verus!
