//! SHA-256 digests of tokens and the identifiers derived from them.
use vstd::prelude::*;
use vstd::utf8::encode_utf8;
use sha2::Digest;
use crate::text::{trim, trim_str, push_char, copy_str, concat_str};

verus! {

/// The SHA-256 digest of `data`.
pub uninterp spec fn sha256_of(data: Seq<u8>) -> Seq<u8>;

/// Calls `sha2::Sha256::digest`, which returns the 32-byte SHA-256 digest of
/// `data`; the contract names the digest and states its length.
#[verifier::external_body]
fn sha256_digest(data: &[u8]) -> (r: Vec<u8>)
    ensures
        r@ == sha256_of(data@),
        r@.len() == 32,
{
    sha2::Sha256::digest(data).to_vec()
}

/// The lower-case hexadecimal digit of `n`, for `0 <= n < 16`.
pub open spec fn hex_digit(n: int) -> char {
    if n < 10 {
        (48 + n) as char
    } else {
        (87 + n) as char
    }
}

/// `bytes` in lower-case hexadecimal, two digits a byte.
pub open spec fn lower_hex(bytes: Seq<u8>) -> Seq<char>
    decreases bytes.len(),
{
    if bytes.len() == 0 {
        Seq::<char>::empty()
    } else {
        lower_hex(bytes.drop_last()) + seq![
            hex_digit(bytes.last() as int / 16),
            hex_digit(bytes.last() as int % 16),
        ]
    }
}

/// The text is twice as long as the bytes.
pub proof fn lemma_lower_hex_len(bytes: Seq<u8>)
    ensures
        lower_hex(bytes).len() == 2 * bytes.len(),
    decreases bytes.len(),
{
    if bytes.len() > 0 {
        lemma_lower_hex_len(bytes.drop_last());
    }
}

fn hex_digit_char(n: u8) -> (c: char)
    requires
        n < 16,
    ensures
        c == hex_digit(n as int),
{
    if n == 0 { '0' } else if n == 1 { '1' } else if n == 2 { '2' } else if n == 3 { '3' }
    else if n == 4 { '4' } else if n == 5 { '5' } else if n == 6 { '6' } else if n == 7 { '7' }
    else if n == 8 { '8' } else if n == 9 { '9' } else if n == 10 { 'a' } else if n == 11 { 'b' }
    else if n == 12 { 'c' } else if n == 13 { 'd' } else if n == 14 { 'e' } else { 'f' }
}

/// Appends `bytes` in lower-case hexadecimal.
fn push_lower_hex(out: &mut String, bytes: &Vec<u8>)
    ensures
        final(out)@ == old(out)@ + lower_hex(bytes@),
{
    let mut k: usize = 0;
    assert(old(out)@ + lower_hex(bytes@.take(0)) =~= old(out)@);
    while k < bytes.len()
        invariant
            k <= bytes@.len(),
            out@ == old(out)@ + lower_hex(bytes@.take(k as int)),
        decreases bytes.len() - k,
    {
        let b = bytes[k];
        assert(bytes@.take(k + 1).drop_last() =~= bytes@.take(k as int));
        push_char(out, hex_digit_char(b / 16));
        push_char(out, hex_digit_char(b % 16));
        assert(out@ =~= old(out)@ + lower_hex(bytes@.take(k + 1)));
        k = k + 1;
    }
    assert(bytes@.take(bytes@.len() as int) =~= bytes@);
}

/// Appends the bytes of `b`.
fn push_bytes(out: &mut Vec<u8>, b: &[u8])
    ensures
        final(out)@ == old(out)@ + b@,
{
    let mut k: usize = 0;
    while k < b.len()
        invariant
            k <= b@.len(),
            out@ == old(out)@ + b@.take(k as int),
        decreases b.len() - k,
    {
        out.push(b[k]);
        assert(b@.take(k + 1) =~= b@.take(k as int).push(b@[k as int]));
        k = k + 1;
    }
    assert(b@.take(b@.len() as int) =~= b@);
}

/// The UTF-8 bytes of the trimmed text.
fn trimmed_bytes(s: &str) -> (r: Vec<u8>)
    ensures
        r@ == encode_utf8(trim(s@)),
{
    let t = trim_str(s);
    let mut r: Vec<u8> = Vec::new();
    push_bytes(&mut r, t.as_str().as_bytes());
    r
}

/// The lower-case hexadecimal SHA-256 digest of `data`.
pub fn sha256_hex_digest(data: &[u8]) -> (r: String)
    ensures
        r@ == lower_hex(sha256_of(data@)),
        r@.len() == 64,
{
    let d = sha256_digest(data);
    let mut r = String::new();
    push_lower_hex(&mut r, &d);
    proof {
        lemma_lower_hex_len(d@);
    }
    r
}

/// "`sha256:`" and the lower-case hexadecimal digest of `data`.
pub fn sha256_hex(data: &[u8]) -> (r: String)
    ensures
        r@ == "sha256:"@ + lower_hex(sha256_of(data@)),
{
    let h = sha256_hex_digest(data);
    concat_str("sha256:", h.as_str())
}

/// The digest of a share token as stored: "`sha256:`" and the hexadecimal
/// SHA-256 of the token's UTF-8 bytes without surrounding white space.
pub open spec fn share_token_digest(token: Seq<char>) -> Seq<char> {
    "sha256:"@ + lower_hex(sha256_of(encode_utf8(trim(token))))
}

/// Tokens that differ only in surrounding white space have one digest, and
/// the digest of a token is that of its trimmed form.
pub proof fn share_token_digest_ignores_surrounding_white_space(a: Seq<char>, b: Seq<char>)
    requires
        trim(a) == trim(b),
    ensures
        share_token_digest(a) == share_token_digest(b),
        share_token_digest(trim(a)) == share_token_digest(a),
{
    crate::text::lemma_trim_idempotent(a);
}

/// The digest of a share token as stored.
pub fn drive_share_token_hash(token: &str) -> (r: String)
    ensures
        r@ == share_token_digest(token@),
{
    let b = trimmed_bytes(token);
    sha256_hex(b.as_slice())
}

/// The digest of a watch-channel token as stored: the hexadecimal SHA-256
/// of the token without surrounding white space.
pub fn hash_watch_token(token: &str) -> (r: String)
    ensures
        r@ == lower_hex(sha256_of(encode_utf8(trim(token@)))),
{
    let b = trimmed_bytes(token);
    sha256_hex_digest(b.as_slice())
}

/// The bytes of the trimmed parts, each pair separated by a zero byte.
pub open spec fn zero_joined(parts: Seq<Seq<char>>) -> Seq<u8>
    decreases parts.len(),
{
    if parts.len() == 0 {
        Seq::<u8>::empty()
    } else if parts.len() == 1 {
        encode_utf8(trim(parts[0]))
    } else {
        zero_joined(parts.drop_last()) + seq![0u8] + encode_utf8(trim(parts.last()))
    }
}

fn zero_joined_bytes(parts: &Vec<&str>) -> (r: Vec<u8>)
    ensures
        r@ == zero_joined(parts@.map_values(|p: &str| p@)),
{
    let ghost ps = parts@.map_values(|p: &str| p@);
    let mut r: Vec<u8> = Vec::new();
    let mut k: usize = 0;
    while k < parts.len()
        invariant
            ps == parts@.map_values(|p: &str| p@),
            k <= parts@.len(),
            r@ == zero_joined(ps.take(k as int)),
        decreases parts.len() - k,
    {
        assert(ps.take(k + 1).drop_last() =~= ps.take(k as int));
        assert(ps.take(k + 1).last() == parts@[k as int]@);
        if k > 0 {
            r.push(0u8);
        }
        let b = trimmed_bytes(parts[k]);
        push_bytes(&mut r, b.as_slice());
        proof {
            if k == 0 {
                assert(ps.take(1)[0] == parts@[0]@);
            }
            assert(r@ =~= zero_joined(ps.take(k + 1)));
        }
        k = k + 1;
    }
    assert(ps.take(parts@.len() as int) =~= ps);
    r
}

/// `prefix` and the first 62 hexadecimal digits of the digest of `data`.
fn prefixed_short_digest(prefix: &str, data: &Vec<u8>) -> (r: String)
    ensures
        r@ == prefix@ + lower_hex(sha256_of(data@)).take(62),
{
    let d = sha256_digest(data.as_slice());
    let mut r = copy_str(prefix);
    let mut k: usize = 0;
    while k < 31
        invariant
            k <= 31,
            d@.len() == 32,
            r@ == prefix@ + lower_hex(d@.take(k as int)),
        decreases 31 - k,
    {
        let b = d[k];
        assert(d@.take(k + 1).drop_last() =~= d@.take(k as int));
        push_char(&mut r, hex_digit_char(b / 16));
        push_char(&mut r, hex_digit_char(b % 16));
        assert(r@ =~= prefix@ + lower_hex(d@.take(k + 1)));
        k = k + 1;
    }
    proof {
        lemma_lower_hex_prefix(d@, 31);
    }
    r
}

/// The hexadecimal text of a prefix of the bytes is the prefix of the text.
pub proof fn lemma_lower_hex_prefix(bytes: Seq<u8>, n: int)
    requires
        0 <= n <= bytes.len(),
    ensures
        lower_hex(bytes).take(2 * n) == lower_hex(bytes.take(n)),
    decreases bytes.len(),
{
    lemma_lower_hex_len(bytes);
    lemma_lower_hex_len(bytes.take(n));
    if n == bytes.len() {
        assert(bytes.take(n) =~= bytes);
        assert(lower_hex(bytes).take(2 * n) =~= lower_hex(bytes));
    } else {
        assert(bytes.drop_last().take(n) =~= bytes.take(n));
        lemma_lower_hex_prefix(bytes.drop_last(), n);
        lemma_lower_hex_len(bytes.drop_last());
        assert(lower_hex(bytes).take(2 * n) =~= lower_hex(bytes.drop_last()).take(2 * n));
    }
}

/// The id of a node property: "`p:`" and 62 hexadecimal digits of the
/// digest of tenant, node, visibility and key, trimmed and zero-separated.
pub fn build_node_property_id(
    tenant_id: &str,
    node_id: &str,
    property_key: &str,
    visibility: &str,
) -> (r: String)
    ensures
        r@ == "p:"@ + lower_hex(
            sha256_of(zero_joined(seq![tenant_id@, node_id@, visibility@, property_key@])),
        ).take(62),
{
    let parts = vec![tenant_id, node_id, visibility, property_key];
    let data = zero_joined_bytes(&parts);
    assert(parts@.map_values(|p: &str| p@) =~= seq![
        tenant_id@,
        node_id@,
        visibility@,
        property_key@,
    ]);
    prefixed_short_digest("p:", &data)
}

/// The id of a node label: "`l:`" and 62 hexadecimal digits of the digest
/// of tenant, node and label, trimmed and zero-separated.
pub fn build_node_label_id(tenant_id: &str, node_id: &str, label_id: &str) -> (r: String)
    ensures
        r@ == "l:"@ + lower_hex(sha256_of(zero_joined(seq![tenant_id@, node_id@, label_id@]))).take(
            62,
        ),
{
    let parts = vec![tenant_id, node_id, label_id];
    let data = zero_joined_bytes(&parts);
    assert(parts@.map_values(|p: &str| p@) =~= seq![tenant_id@, node_id@, label_id@]);
    prefixed_short_digest("l:", &data)
}

/// The id of a favorite: "`fav:`" and tenant, subject type, subject id and
/// node, separated by colons.
pub fn build_favorite_id(tenant_id: &str, subject_type: &str, subject_id: &str, node_id: &str) -> (r:
    String)
    ensures
        r@ == "fav:"@ + tenant_id@ + ":"@ + subject_type@ + ":"@ + subject_id@ + ":"@ + node_id@,
{
    let a = concat_str("fav:", tenant_id);
    let b = concat_str(a.as_str(), ":");
    let c = concat_str(b.as_str(), subject_type);
    let d = concat_str(c.as_str(), ":");
    let e = concat_str(d.as_str(), subject_id);
    let f = concat_str(e.as_str(), ":");
    concat_str(f.as_str(), node_id)
}

/// The id of a sensitive operation: the hexadecimal digest of tenant,
/// operation type, upload item and storage object, joined by colons.
pub fn sensitive_operation_id(
    tenant_id: &str,
    operation_type: &str,
    upload_item_id: &str,
    storage_object_id: &str,
) -> (r: String)
    ensures
        r@ == lower_hex(
            sha256_of(
                encode_utf8(
                    tenant_id@ + ":"@ + operation_type@ + ":"@ + upload_item_id@ + ":"@
                        + storage_object_id@,
                ),
            ),
        ),
{
    let a = concat_str(tenant_id, ":");
    let b = concat_str(a.as_str(), operation_type);
    let c = concat_str(b.as_str(), ":");
    let d = concat_str(c.as_str(), upload_item_id);
    let e = concat_str(d.as_str(), ":");
    let raw = concat_str(e.as_str(), storage_object_id);
    sha256_hex_digest(raw.as_str().as_bytes())
}

} // verus!
