//! Validation of request fields: required texts, page requests, roles,
//! MIME types, checksums, object keys and watch-channel fields.
use vstd::prelude::*;
use crate::errors::{ProblemDetail, validation_problem, is_validation_problem};
use crate::numbers::{
    decimal_text, format_i64, parse_i64, parse_i64_text, decimal_text_parses_back,
    lemma_decimal_text_ends, is_digit,
};
use crate::text::{
    trim, trim_str, concat_str, copy_str, text_eq, has_prefix, starts_with_text, split_on,
    split_text, views, normalized_text, normalize_optional_text, opt_view, chars_of, trim_start,
    trim_end, is_white_space,
};

verus! {

/// A page of a listing: at most `limit` items after skipping `offset`.
#[derive(Debug, Clone, Copy, PartialEq, Eq)]
pub struct PageRequest {
    pub limit: i64,
    pub offset: i64,
}

/// `r` is a validation problem with this detail.
pub open spec fn fails_with<T>(r: Result<T, ProblemDetail>, detail: Seq<char>) -> bool {
    r matches Err(p) && is_validation_problem(p, detail)
}

/// `r` is the owned text `v`.
pub open spec fn gives_text(r: Result<String, ProblemDetail>, v: Seq<char>) -> bool {
    r matches Ok(x) && x@ == v
}

/// The number of bytes that UTF-8 encodes `c` with.
pub open spec fn char_utf8_width(c: char) -> int {
    let u = c as u32;
    if u < 0x80 {
        1
    } else if u < 0x800 {
        2
    } else if u < 0x10000 {
        3
    } else {
        4
    }
}

/// The number of UTF-8 bytes of a text, which is what `str::len` counts.
pub open spec fn utf8_len(s: Seq<char>) -> int
    decreases s.len(),
{
    if s.len() == 0 {
        0
    } else {
        utf8_len(s.drop_last()) + char_utf8_width(s.last())
    }
}

/// The number of UTF-8 bytes of a text.
pub fn utf8_byte_len(s: &str) -> (n: u128)
    ensures
        n == utf8_len(s@),
{
    let v = chars_of(s);
    let mut acc: u128 = 0;
    let mut k: usize = 0;
    while k < v.len()
        invariant
            v@ == s@,
            k <= v@.len(),
            acc == utf8_len(v@.take(k as int)),
            acc <= 4 * k,
        decreases v.len() - k,
    {
        let u = v[k] as u32;
        let w: u128 = if u < 0x80 {
            1
        } else if u < 0x800 {
            2
        } else if u < 0x10000 {
            3
        } else {
            4
        };
        assert(v@.take(k + 1).drop_last() =~= v@.take(k as int));
        acc = acc + w;
        k = k + 1;
    }
    assert(v@.take(v@.len() as int) =~= v@);
    acc
}

/// `r` is the answer to a required text: the trimmed text, or a validation
/// problem "`field` is required" when the text is absent or blank.
pub open spec fn required_text_result(
    r: Result<String, ProblemDetail>,
    value: Option<Seq<char>>,
    field: Seq<char>,
) -> bool {
    match normalized_text(value) {
        Some(t) => gives_text(r, t),
        None => fails_with(r, field + " is required"@),
    }
}

fn required_problem(field_name: &str) -> (p: ProblemDetail)
    ensures
        is_validation_problem(p, field_name@ + " is required"@),
{
    validation_problem(concat_str(field_name, " is required"))
}

/// A required text of a request body: trimmed, and not blank.
pub fn require_body_value(value: Option<String>, field_name: &str) -> (r: Result<
    String,
    ProblemDetail,
>)
    ensures
        required_text_result(r, opt_view(value), field_name@),
{
    match normalize_optional_text(value) {
        Some(t) => Ok(t),
        None => Err(required_problem(field_name)),
    }
}

/// A required query parameter: trimmed, and not blank.
pub fn require_query_value(value: Option<String>, field_name: &str) -> (r: Result<
    String,
    ProblemDetail,
>)
    ensures
        required_text_result(r, opt_view(value), field_name@),
{
    require_body_value(value, field_name)
}

/// A required text: trimmed, and not blank.
pub fn require_non_empty_text(value: String, field_name: &str) -> (r: Result<
    String,
    ProblemDetail,
>)
    ensures
        required_text_result(r, Some(value@), field_name@),
{
    require_body_value(Some(value), field_name)
}

/// "`field` must be between `min` and `max`".
pub open spec fn between_detail(field: Seq<char>, min: int, max: int) -> Seq<char> {
    field + " must be between "@ + decimal_text(min) + " and "@ + decimal_text(max)
}

fn between_text(field_name: &str, min_value: i64, max_value: i64) -> (s: String)
    ensures
        s@ == between_detail(field_name@, min_value as int, max_value as int),
{
    let a = concat_str(field_name, " must be between ");
    let b = concat_str(a.as_str(), format_i64(min_value).as_str());
    let c = concat_str(b.as_str(), " and ");
    concat_str(c.as_str(), format_i64(max_value).as_str())
}

/// A page size, or the default when absent, within `min_value..=max_value`.
pub fn validate_page_size_i64(
    value: Option<i64>,
    default_value: i64,
    min_value: i64,
    max_value: i64,
    field_name: &str,
) -> (r: Result<i64, ProblemDetail>)
    ensures
        ({
            let size = match value {
                Some(v) => v,
                None => default_value,
            };
            if size < min_value || size > max_value {
                fails_with(r, between_detail(field_name@, min_value as int, max_value as int))
            } else {
                r == Ok::<i64, ProblemDetail>(size)
            }
        }),
{
    let page_size = match value {
        Some(v) => v,
        None => default_value,
    };
    if page_size < min_value || page_size > max_value {
        return Err(validation_problem(between_text(field_name, min_value, max_value)));
    }
    Ok(page_size)
}

/// The offset a page token stands for: absent means `default_offset`; a
/// token that is not a non-negative decimal integer has none.
pub open spec fn page_offset(token: Option<Seq<char>>, default_offset: int) -> Option<int> {
    match normalized_text(token) {
        Some(raw) => match parse_i64_text(raw) {
            Some(v) => if v < 0 {
                None
            } else {
                Some(v as int)
            },
            None => None,
        },
        None => if default_offset < 0 {
            None
        } else {
            Some(default_offset)
        },
    }
}

/// `r` is the page request for these parameters: the page size (default
/// 200) must lie in 1..=200, then the offset must be valid.
pub open spec fn page_request_result(
    r: Result<PageRequest, ProblemDetail>,
    page_size: Option<i64>,
    token: Option<Seq<char>>,
    default_offset: int,
) -> bool {
    let size = match page_size {
        Some(v) => v,
        None => 200,
    };
    if size < 1 || size > 200 {
        fails_with(r, between_detail("pageSize"@, 1, 200))
    } else {
        match page_offset(token, default_offset) {
            Some(off) => r matches Ok(page) && page.limit == size && page.offset == off,
            None => fails_with(r, "pageToken is invalid"@),
        }
    }
}

/// The token that ends a page reads back as the offset right after the
/// page: handed to the page parser with an accepted page size, it resumes
/// the listing there.
pub proof fn next_page_token_resumes_after_the_page(
    page: PageRequest,
    page_size: Option<i64>,
    next: Result<PageRequest, ProblemDetail>,
)
    requires
        0 <= page.offset,
        0 <= page.limit,
        page.offset + page.limit <= i64::MAX,
        page_size matches Some(v) ==> 1 <= v <= 200,
        page_request_result(next, page_size, Some(decimal_text(page.offset + page.limit)), 0),
    ensures
        next matches Ok(p) && p.offset == page.offset + page.limit && p.limit == match page_size {
            Some(v) => v,
            None => 200,
        },
{
    let n = page.offset + page.limit;
    let t = decimal_text(n);
    lemma_decimal_text_ends(n);
    decimal_text_parses_back(n as i64);
    assert(!is_white_space(t[0])) by {
        assert(t[0] == '-' || is_digit(t[0]));
    }
    assert(!is_white_space(t.last()));
    assert(trim_start(t) == t);
    assert(trim_end(t) == t);
    assert(trim(t) == t);
}

fn page_token_problem() -> (p: ProblemDetail)
    ensures
        is_validation_problem(p, "pageToken is invalid"@),
{
    validation_problem(copy_str("pageToken is invalid"))
}

/// The page request of a listing: page size and offset token.
pub fn parse_page_request(page_size: Option<i64>, page_token: Option<String>) -> (r: Result<
    PageRequest,
    ProblemDetail,
>)
    ensures
        page_request_result(r, page_size, opt_view(page_token), 0),
{
    parse_change_page_request(page_size, page_token, None)
}

/// The page request of the change feed: as `parse_page_request`, but an
/// absent token starts at `cursor` (or 0).
pub fn parse_change_page_request(
    page_size: Option<i64>,
    page_token: Option<String>,
    cursor: Option<i64>,
) -> (r: Result<PageRequest, ProblemDetail>)
    ensures
        page_request_result(
            r,
            page_size,
            opt_view(page_token),
            match cursor {
                Some(c) => c as int,
                None => 0,
            },
        ),
{
    let limit = validate_page_size_i64(page_size, 200, 1, 200, "pageSize")?;
    let offset = match normalize_optional_text(page_token) {
        Some(raw) => match parse_i64(raw.as_str()) {
            Some(v) => v,
            None => {
                return Err(page_token_problem());
            },
        },
        None => match cursor {
            Some(c) => c,
            None => 0,
        },
    };
    if offset < 0 {
        return Err(page_token_problem());
    }
    Ok(PageRequest { limit, offset })
}

/// Trims a fetched page of `limit + 1` items to `limit` and gives the token
/// of the next page when the extra item shows there is one.
pub fn next_page_token<T>(items: &mut Vec<T>, page: PageRequest) -> (r: Option<String>)
    requires
        old(items)@.len() > page.limit ==> i64::MIN <= page.offset + page.limit <= i64::MAX,
    ensures
        if old(items)@.len() > page.limit {
            &&& final(items)@ == (if old(items)@.len() > 0 {
                old(items)@.drop_last()
            } else {
                old(items)@
            })
            &&& opt_view(r) == Some(decimal_text(page.offset + page.limit))
        } else {
            &&& final(items)@ == old(items)@
            &&& r is None
        },
{
    if items.len() as i128 > page.limit as i128 {
        items.pop();
        Some(format_i64(page.offset + page.limit))
    } else {
        None
    }
}

/// The roles a permission grant may carry.
pub open spec fn is_permission_role(role: Seq<char>) -> bool {
    role == "reader"@ || role == "commenter"@ || role == "writer"@ || role == "owner"@
}

/// The roles a share link may carry.
pub open spec fn is_share_link_role(role: Seq<char>) -> bool {
    role == "reader"@ || role == "commenter"@ || role == "writer"@
}

/// Accepts a permission role.
pub fn validate_permission_role(role: &str) -> (r: Result<(), ProblemDetail>)
    ensures
        is_permission_role(role@) ==> r is Ok,
        !is_permission_role(role@) ==> fails_with(r, "permission role is invalid"@),
{
    if text_eq(role, "reader") || text_eq(role, "commenter") || text_eq(role, "writer") || text_eq(
        role,
        "owner",
    ) {
        return Ok(());
    }
    Err(validation_problem(copy_str("permission role is invalid")))
}

/// Accepts a share-link role.
pub fn validate_share_link_role(role: &str) -> (r: Result<(), ProblemDetail>)
    ensures
        is_share_link_role(role@) ==> r is Ok,
        !is_share_link_role(role@) ==> fails_with(r, "share link role is invalid"@),
{
    if text_eq(role, "reader") || text_eq(role, "commenter") || text_eq(role, "writer") {
        return Ok(());
    }
    Err(validation_problem(copy_str("share link role is invalid")))
}

/// Accepts an absent value or one that is not negative.
pub fn validate_optional_non_negative_i64(value: Option<i64>, field_name: &str) -> (r: Result<
    (),
    ProblemDetail,
>)
    ensures
        (value matches Some(v) && v < 0) ==> fails_with(r, field_name@ + " must be greater than or equal to 0"@),
        !(value matches Some(v) && v < 0) ==> r is Ok,
{
    match value {
        Some(v) => {
            if v < 0 {
                return Err(
                    validation_problem(concat_str(field_name, " must be greater than or equal to 0")),
                );
            }
            Ok(())
        },
        None => Ok(()),
    }
}

/// Calls `chrono::Utc::now().timestamp_millis()`: the current time in
/// milliseconds since the Unix epoch. Nothing is stated of the value.
#[verifier::external_body]
pub(crate) fn current_epoch_ms() -> (now: i64) {
    chrono::Utc::now().timestamp_millis()
}

/// The answer of the future-time check with the clock at `now`: refused
/// when a value is given that is not after `now`, else accepted.
pub open spec fn future_epoch_answer(
    r: Result<(), ProblemDetail>,
    value: Option<i64>,
    field_name: Seq<char>,
    now: i64,
) -> bool {
    &&& (value matches Some(v) && v <= now) ==> fails_with(r, field_name + " must be in the future"@)
    &&& !(value matches Some(v) && v <= now) ==> r is Ok
}

/// Accepts an absent instant or one after `now_epoch_ms`.
pub fn validate_optional_future_epoch_ms_at(
    value: Option<i64>,
    field_name: &str,
    now_epoch_ms: i64,
) -> (r: Result<(), ProblemDetail>)
    ensures
        future_epoch_answer(r, value, field_name@, now_epoch_ms),
{
    match value {
        Some(v) => {
            if v <= now_epoch_ms {
                return Err(validation_problem(concat_str(field_name, " must be in the future")));
            }
            Ok(())
        },
        None => Ok(()),
    }
}

/// Accepts an absent instant or one in the future of the clock.
pub fn validate_optional_future_epoch_ms(value: Option<i64>, field_name: &str) -> (r: Result<
    (),
    ProblemDetail,
>)
    ensures
        exists|now: i64| #[trigger] future_epoch_answer(r, value, field_name@, now),
{
    validate_optional_future_epoch_ms_at(value, field_name, current_epoch_ms())
}

/// A requested time to live in seconds, or the default, within `min..=max`.
pub fn validate_requested_ttl_seconds(
    value: Option<u32>,
    default_seconds: u32,
    min_seconds: u32,
    max_seconds: u32,
    field_name: &str,
) -> (r: Result<u32, ProblemDetail>)
    ensures
        ({
            let ttl = match value {
                Some(v) => v,
                None => default_seconds,
            };
            if ttl < min_seconds || ttl > max_seconds {
                fails_with(r, between_detail(field_name@, min_seconds as int, max_seconds as int)
                        + " seconds"@)
            } else {
                r == Ok::<u32, ProblemDetail>(ttl)
            }
        }),
{
    let ttl_seconds = match value {
        Some(v) => v,
        None => default_seconds,
    };
    if ttl_seconds < min_seconds || ttl_seconds > max_seconds {
        let text = between_text(field_name, min_seconds as i64, max_seconds as i64);
        return Err(validation_problem(concat_str(text.as_str(), " seconds")));
    }
    Ok(ttl_seconds)
}

/// A character allowed in a MIME type or subtype token (RFC 6838 / 7230 tchar).
pub open spec fn is_mime_token_char(c: char) -> bool {
    ||| 'a' <= c <= 'z'
    ||| 'A' <= c <= 'Z'
    ||| '0' <= c <= '9'
    ||| c == '!' || c == '#' || c == '$' || c == '%' || c == '&' || c == '\''
    ||| c == '*' || c == '+' || c == '-' || c == '.' || c == '^' || c == '_'
    ||| c == '`' || c == '|' || c == '~'
}

/// A non-empty MIME token.
pub open spec fn mime_token(s: Seq<char>) -> bool {
    s.len() > 0 && forall|i: int| 0 <= i < s.len() ==> is_mime_token_char(#[trigger] s[i])
}

/// `type/subtype`, both tokens.
pub open spec fn is_mime_type(s: Seq<char>) -> bool {
    exists|i: int|
        0 <= i < s.len() && s[i] == '/' && mime_token(#[trigger] s.take(i)) && mime_token(
            s.skip(i + 1),
        )
}

fn is_mime_token_char_exec(c: char) -> (r: bool)
    ensures
        r == is_mime_token_char(c),
{
    ('a' <= c && c <= 'z') || ('A' <= c && c <= 'Z') || ('0' <= c && c <= '9') || c == '!' || c
        == '#' || c == '$' || c == '%' || c == '&' || c == '\'' || c == '*' || c == '+' || c == '-'
        || c == '.' || c == '^' || c == '_' || c == '`' || c == '|' || c == '~'
}

/// Whether `v[lo..hi]` is a MIME token.
fn is_mime_token_range(v: &Vec<char>, lo: usize, hi: usize) -> (r: bool)
    requires
        lo <= hi <= v@.len(),
    ensures
        r == mime_token(v@.subrange(lo as int, hi as int)),
{
    if lo == hi {
        return false;
    }
    let mut k = lo;
    while k < hi
        invariant
            lo <= k <= hi <= v@.len(),
            forall|t: int| lo <= t < k ==> is_mime_token_char(#[trigger] v@[t]),
        decreases hi - k,
    {
        if !is_mime_token_char_exec(v[k]) {
            assert(v@.subrange(lo as int, hi as int)[k - lo] == v@[k as int]);
            return false;
        }
        k = k + 1;
    }
    assert forall|i: int| 0 <= i < v@.subrange(lo as int, hi as int).len() implies is_mime_token_char(
        #[trigger] v@.subrange(lo as int, hi as int)[i],
    ) by {
        assert(v@.subrange(lo as int, hi as int)[i] == v@[lo + i]);
    }
    true
}

/// Whether a text is a MIME token: one or more token characters.
pub fn is_mime_token(value: &str) -> (r: bool)
    ensures
        r == mime_token(value@),
{
    let v = chars_of(value);
    let n = v.len();
    let r = is_mime_token_range(&v, 0, n);
    assert(v@.subrange(0, n as int) =~= value@);
    r
}

/// Whether a text is `type/subtype` with both parts MIME tokens.
pub fn is_mime_type_text(s: &str) -> (r: bool)
    ensures
        r == is_mime_type(s@),
{
    let v = chars_of(s);
    let n = v.len();
    let mut i: usize = 0;
    while i < n && v[i] != '/'
        invariant
            i <= n == v@.len(),
            v@ == s@,
            forall|t: int| 0 <= t < i ==> v@[t] != '/',
        decreases n - i,
    {
        i = i + 1;
    }
    if i == n {
        assert forall|j: int| 0 <= j < s@.len() && s@[j] == '/' implies !mime_token(
            #[trigger] s@.take(j),
        ) by {}
        return false;
    }
    let ok = is_mime_token_range(&v, 0, i) && is_mime_token_range(&v, i + 1, n);
    proof {
        assert(v@.subrange(0, i as int) =~= s@.take(i as int));
        assert(v@.subrange(i + 1, n as int) =~= s@.skip(i + 1));
        if !ok {
            assert forall|j: int|
                0 <= j < s@.len() && s@[j] == '/' && mime_token(#[trigger] s@.take(j))
                    implies !mime_token(s@.skip(j + 1)) by {
                if j > i {
                    assert(s@.take(j)[i as int] == '/');
                    assert(!is_mime_token_char(s@.take(j)[i as int]));
                } else if j < i {
                    assert(false);
                }
            }
        }
    }
    ok
}

/// A content type is a trimmed MIME type of 1 to 255 UTF-8 bytes.
pub open spec fn content_type_shape_ok(v: Seq<char>) -> bool {
    trim(v).len() > 0 && utf8_len(trim(v)) <= 255 && trim(v) == v
}

/// Validates a MIME content type.
pub fn validate_content_type(value: &str, field_name: &str) -> (r: Result<String, ProblemDetail>)
    ensures
        !content_type_shape_ok(value@) ==> fails_with(r, field_name@ + " must be a trimmed MIME type up to 255 characters"@),
        content_type_shape_ok(value@) && !is_mime_type(value@) ==> fails_with(r, field_name@ + " must be a valid MIME type"@),
        content_type_shape_ok(value@) && is_mime_type(value@) ==> gives_text(r, value@),
{
    let trimmed = trim_str(value);
    if trimmed.as_str().is_empty() || utf8_byte_len(trimmed.as_str()) > 255 || !text_eq(
        trimmed.as_str(),
        value,
    ) {
        return Err(
            validation_problem(
                concat_str(field_name, " must be a trimmed MIME type up to 255 characters"),
            ),
        );
    }
    if !is_mime_type_text(value) {
        return Err(validation_problem(concat_str(field_name, " must be a valid MIME type")));
    }
    Ok(trimmed)
}

/// A lowercase hexadecimal digit.
pub open spec fn is_lower_hex(c: char) -> bool {
    '0' <= c <= '9' || 'a' <= c <= 'f'
}

/// `sha256:` followed by 64 lowercase hex digits, with nothing around it.
pub open spec fn is_sha256_checksum(v: Seq<char>) -> bool {
    &&& trim(v) == v
    &&& has_prefix(v, "sha256:"@)
    &&& v.len() == 71
    &&& forall|i: int| 7 <= i < 71 ==> is_lower_hex(#[trigger] v[i])
}

/// Validates a `sha256:<hex>` checksum.
pub fn validate_sha256_checksum(value: &str, field_name: &str) -> (r: Result<
    String,
    ProblemDetail,
>)
    ensures
        is_sha256_checksum(value@) ==> gives_text(r, value@),
        !is_sha256_checksum(value@) ==> fails_with(r, field_name@ + " must use sha256:<64 lowercase hex characters>"@),
{
    proof {
        reveal_strlit("sha256:");
    }
    let trimmed = trim_str(value);
    let ok_shape = text_eq(trimmed.as_str(), value) && starts_with_text(value, "sha256:");
    if !ok_shape {
        return Err(
            validation_problem(
                concat_str(field_name, " must use sha256:<64 lowercase hex characters>"),
            ),
        );
    }
    let v = chars_of(value);
    if v.len() != 71 {
        return Err(
            validation_problem(
                concat_str(field_name, " must use sha256:<64 lowercase hex characters>"),
            ),
        );
    }
    let mut k: usize = 7;
    while k < 71
        invariant
            7 <= k <= 71,
            v@ == value@,
            v@.len() == 71,
            forall|i: int| 7 <= i < k ==> is_lower_hex(#[trigger] v@[i]),
        decreases 71 - k,
    {
        let c = v[k];
        if !(('0' <= c && c <= '9') || ('a' <= c && c <= 'f')) {
            return Err(
                validation_problem(
                    concat_str(field_name, " must use sha256:<64 lowercase hex characters>"),
                ),
            );
        }
        k = k + 1;
    }
    Ok(trimmed)
}

/// A path segment that an object key may not hold.
pub open spec fn is_bad_segment(s: Seq<char>) -> bool {
    s.len() == 0 || s == "."@ || s == ".."@
}

/// The checks of an object key, in the order they are made, on the
/// trimmed key `t`; `None` when the key passes.
pub open spec fn object_key_issue(t: Seq<char>) -> Option<Seq<char>> {
    if utf8_len(t) > 1024 {
        Some(" must be at most 1024 UTF-8 bytes"@)
    } else if t.contains('\0') {
        Some(" must not contain NUL bytes"@)
    } else if t[0] == '/' || t.last() == '/' {
        Some(" must not start or end with slash"@)
    } else if exists|i: int|
        0 <= i < split_on(t, '/').len() && is_bad_segment(#[trigger] split_on(t, '/')[i]) {
        Some(" must not contain empty or period-only path segments"@)
    } else {
        None
    }
}

/// Validates a storage object key: trimmed, not blank, at most 1024 bytes,
/// no NUL, no leading or trailing slash, and no empty, `.` or `..` segment.
pub fn validate_object_key(value: String, field_name: &str) -> (r: Result<String, ProblemDetail>)
    ensures
        trim(value@).len() == 0 ==> fails_with(r, field_name@ + " is required"@),
        trim(value@).len() > 0 ==> match object_key_issue(trim(value@)) {
            Some(issue) => fails_with(r, field_name@ + issue),
            None => gives_text(r, trim(value@)),
        },
{
    let trimmed = require_non_empty_text(value, field_name)?;
    if utf8_byte_len(trimmed.as_str()) > 1024 {
        return Err(validation_problem(concat_str(field_name, " must be at most 1024 UTF-8 bytes")));
    }
    if crate::text::contains_char(trimmed.as_str(), '\0') {
        return Err(validation_problem(concat_str(field_name, " must not contain NUL bytes")));
    }
    let v = chars_of(trimmed.as_str());
    if v[0] == '/' || v[v.len() - 1] == '/' {
        return Err(
            validation_problem(concat_str(field_name, " must not start or end with slash")),
        );
    }
    let segments = split_text(trimmed.as_str(), '/');
    let mut k: usize = 0;
    while k < segments.len()
        invariant
            views(segments@) == split_on(trimmed@, '/'),
            trimmed@ == trim(value@),
            trim(value@).len() > 0,
            !(utf8_len(trimmed@) > 1024),
            !trimmed@.contains('\0'),
            !(trimmed@[0] == '/' || trimmed@.last() == '/'),
            k <= segments@.len(),
            forall|i: int| 0 <= i < k ==> !is_bad_segment(#[trigger] split_on(trimmed@, '/')[i]),
        decreases segments.len() - k,
    {
        let seg = &segments[k];
        assert(split_on(trimmed@, '/')[k as int] == seg@);
        if seg.as_str().is_empty() || text_eq(seg.as_str(), ".") || text_eq(seg.as_str(), "..") {
            return Err(
                validation_problem(
                    concat_str(
                        field_name,
                        " must not contain empty or period-only path segments",
                    ),
                ),
            );
        }
        k = k + 1;
    }
    Ok(trimmed)
}

/// The subject types a grant or request may name.
pub open spec fn is_subject_type(s: Seq<char>) -> bool {
    s == "user"@ || s == "group"@ || s == "domain"@ || s == "app"@
}

/// Accepts a subject type.
pub fn validate_subject_type(subject_type: &str) -> (r: Result<(), ProblemDetail>)
    ensures
        is_subject_type(subject_type@) ==> r is Ok,
        !is_subject_type(subject_type@) ==> fails_with(r, "subjectType is invalid"@),
{
    if text_eq(subject_type, "user") || text_eq(subject_type, "group") || text_eq(
        subject_type,
        "domain",
    ) || text_eq(subject_type, "app") {
        return Ok(());
    }
    Err(validation_problem(copy_str("subjectType is invalid")))
}

/// A character of a key: ASCII letter or digit, `.`, `_`, `:` or `-`.
pub open spec fn is_key_char(c: char) -> bool {
    'a' <= c <= 'z' || 'A' <= c <= 'Z' || '0' <= c <= '9' || c == '.' || c == '_' || c == ':' || c
        == '-'
}

/// A key of 1 to `max_len` key characters.
pub open spec fn is_key(s: Seq<char>, max_len: int) -> bool {
    0 < s.len() <= max_len && forall|i: int| 0 <= i < s.len() ==> is_key_char(#[trigger] s[i])
}

/// The trimmed text when it is a key of at most `max_len` characters.
fn trimmed_key(value: &str, max_len: usize) -> (r: Option<String>)
    ensures
        is_key(trim(value@), max_len as int) ==> (r matches Some(v) && v@ == trim(value@)),
        !is_key(trim(value@), max_len as int) ==> r is None,
{
    let trimmed = trim_str(value);
    let v = chars_of(trimmed.as_str());
    if v.len() == 0 || v.len() > max_len {
        return None;
    }
    let mut k: usize = 0;
    while k < v.len()
        invariant
            v@ == trim(value@),
            k <= v@.len(),
            forall|i: int| 0 <= i < k ==> is_key_char(#[trigger] v@[i]),
        decreases v.len() - k,
    {
        let c = v[k];
        if !(('a' <= c && c <= 'z') || ('A' <= c && c <= 'Z') || ('0' <= c && c <= '9') || c == '.'
            || c == '_' || c == ':' || c == '-') {
            return None;
        }
        k = k + 1;
    }
    Some(trimmed)
}

/// Validates a node property key (at most 128 key characters once trimmed).
pub fn validate_node_property_key(property_key: &str) -> (r: Result<String, ProblemDetail>)
    ensures
        is_key(trim(property_key@), 128) ==> gives_text(r, trim(property_key@)),
        !is_key(trim(property_key@), 128) ==> fails_with(r, "propertyKey is invalid"@),
{
    match trimmed_key(property_key, 128) {
        Some(v) => Ok(v),
        None => Err(validation_problem(copy_str("propertyKey is invalid"))),
    }
}

/// Validates a label key (at most 128 key characters once trimmed).
pub fn validate_label_key(label_key: &str) -> (r: Result<String, ProblemDetail>)
    ensures
        is_key(trim(label_key@), 128) ==> gives_text(r, trim(label_key@)),
        !is_key(trim(label_key@), 128) ==> fails_with(r, "labelKey is invalid"@),
{
    match trimmed_key(label_key, 128) {
        Some(v) => Ok(v),
        None => Err(validation_problem(copy_str("labelKey is invalid"))),
    }
}

/// Validates a watch channel id (at most 64 key characters once trimmed).
pub fn validate_watch_channel_id(channel_id: &str) -> (r: Result<String, ProblemDetail>)
    ensures
        is_key(trim(channel_id@), 64) ==> gives_text(r, trim(channel_id@)),
        !is_key(trim(channel_id@), 64) ==> fails_with(r, "id is invalid"@),
{
    match trimmed_key(channel_id, 64) {
        Some(v) => Ok(v),
        None => Err(validation_problem(copy_str("id is invalid"))),
    }
}

/// Validates a node property visibility: `private` or `app_public`.
pub fn validate_node_property_visibility(visibility: &str) -> (r: Result<String, ProblemDetail>)
    ensures
        (trim(visibility@) == "private"@ || trim(visibility@) == "app_public"@) ==> gives_text(r, trim(visibility@)),
        !(trim(visibility@) == "private"@ || trim(visibility@) == "app_public"@) ==> fails_with(r, "visibility is invalid"@),
{
    let t = trim_str(visibility);
    if text_eq(t.as_str(), "private") || text_eq(t.as_str(), "app_public") {
        return Ok(t);
    }
    Err(validation_problem(copy_str("visibility is invalid")))
}

/// Validates a webhook address: trimmed, at most 2048 bytes, `https://`.
pub fn validate_watch_channel_address(address: &str) -> (r: Result<String, ProblemDetail>)
    ensures
        (utf8_len(trim(address@)) <= 2048 && has_prefix(trim(address@), "https://"@)) ==> gives_text(r, trim(address@)),
        !(utf8_len(trim(address@)) <= 2048 && has_prefix(trim(address@), "https://"@)) ==> fails_with(r, "address must be an https webhook URL"@),
{
    let t = trim_str(address);
    if utf8_byte_len(t.as_str()) > 2048 || !starts_with_text(t.as_str(), "https://") {
        return Err(validation_problem(copy_str("address must be an https webhook URL")));
    }
    Ok(t)
}

/// Validates a watch channel type: only `web_hook`.
pub fn validate_watch_channel_type(channel_type: &str) -> (r: Result<String, ProblemDetail>)
    ensures
        trim(channel_type@) == "web_hook"@ ==> gives_text(r, trim(channel_type@)),
        trim(channel_type@) != "web_hook"@ ==> fails_with(r, "channelType is invalid"@),
{
    let t = trim_str(channel_type);
    if text_eq(t.as_str(), "web_hook") {
        return Ok(t);
    }
    Err(validation_problem(copy_str("channelType is invalid")))
}

/// Validates a watched resource type: `changes` or `node`.
pub fn validate_watch_resource_type(resource_type: &str) -> (r: Result<String, ProblemDetail>)
    ensures
        (trim(resource_type@) == "changes"@ || trim(resource_type@) == "node"@) ==> gives_text(r, trim(resource_type@)),
        !(trim(resource_type@) == "changes"@ || trim(resource_type@) == "node"@) ==> fails_with(r, "resourceType is invalid"@),
{
    let t = trim_str(resource_type);
    if text_eq(t.as_str(), "changes") || text_eq(t.as_str(), "node") {
        return Ok(t);
    }
    Err(validation_problem(copy_str("resourceType is invalid")))
}

/// Validates a watch channel lifecycle status: `active`, `stopped` or `expired`.
pub fn validate_watch_lifecycle_status(lifecycle_status: &str) -> (r: Result<
    String,
    ProblemDetail,
>)
    ensures
        (trim(lifecycle_status@) == "active"@ || trim(lifecycle_status@) == "stopped"@ || trim(
            lifecycle_status@,
        ) == "expired"@) ==> gives_text(r, trim(lifecycle_status@)),
        !(trim(lifecycle_status@) == "active"@ || trim(lifecycle_status@) == "stopped"@ || trim(
            lifecycle_status@,
        ) == "expired"@) ==> fails_with(r, "lifecycleStatus is invalid"@),
{
    let t = trim_str(lifecycle_status);
    if text_eq(t.as_str(), "active") || text_eq(t.as_str(), "stopped") || text_eq(
        t.as_str(),
        "expired",
    ) {
        return Ok(t);
    }
    Err(validation_problem(copy_str("lifecycleStatus is invalid")))
}

/// The answer of the expiration check with the clock at `now`: accepted
/// when the expiration is after `now`, else refused.
pub open spec fn watch_expiration_answer(r: Result<(), ProblemDetail>, expiration_epoch_ms: i64, now: i64) -> bool {
    &&& expiration_epoch_ms > now ==> r is Ok
    &&& expiration_epoch_ms <= now ==> fails_with(r, "expirationEpochMs must be in the future"@)
}

/// Accepts an expiration after `now_epoch_ms`.
pub fn validate_watch_expiration_at(expiration_epoch_ms: i64, now_epoch_ms: i64) -> (r: Result<
    (),
    ProblemDetail,
>)
    ensures
        watch_expiration_answer(r, expiration_epoch_ms, now_epoch_ms),
{
    if expiration_epoch_ms <= now_epoch_ms {
        return Err(validation_problem(copy_str("expirationEpochMs must be in the future")));
    }
    Ok(())
}

/// Accepts an expiration in the future of the clock.
pub fn validate_watch_expiration(expiration_epoch_ms: i64) -> (r: Result<(), ProblemDetail>)
    ensures
        exists|now: i64| #[trigger] watch_expiration_answer(r, expiration_epoch_ms, now),
{
    validate_watch_expiration_at(expiration_epoch_ms, current_epoch_ms())
}

} // verus!
