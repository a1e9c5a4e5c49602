use sdkwork_drive::hashing::{
    build_favorite_id, build_node_label_id, build_node_property_id, hash_watch_token,
    sensitive_operation_id, sha256_hex,
};

#[test]
fn node_property_id_digests_trimmed_zero_separated_parts() {
    assert_eq!(
        build_node_property_id(" t1 ", "n1", "color", "private"),
        "p:fb254df86a138a210704c30871c71ea9be2ff2e8e159942ee331106a644904"
    );
}

#[test]
fn node_label_id_digests_trimmed_zero_separated_parts() {
    assert_eq!(
        build_node_label_id("t1", "n1", " l1"),
        "l:673dc91df7c41d1471da6de80b0e6cfdd6a913ed080bbcb4ccef4f39d9e1d4"
    );
}

#[test]
fn sensitive_operation_id_is_the_plain_hex_digest() {
    assert_eq!(
        sensitive_operation_id("t1", "upload.completed", "item-1", "obj-1"),
        "da24993584cb594094df4e66447563987b2f99b949a26de0b28899a0d1b44b80"
    );
}

#[test]
fn watch_token_hash_trims_and_has_no_prefix() {
    assert_eq!(
        hash_watch_token(" secret\t"),
        "2bb80d537b1da3e38bd30361aa855686bde0eacd7162fef6a25fe97bf527a25b"
    );
    assert_eq!(
        sha256_hex(b"secret"),
        "sha256:2bb80d537b1da3e38bd30361aa855686bde0eacd7162fef6a25fe97bf527a25b"
    );
}

#[test]
fn favorite_id_joins_its_parts() {
    assert_eq!(build_favorite_id("t", "user", "u1", "n1"), "fav:t:user:u1:n1");
}
