use vstd::prelude::*;

verus! {

/// The lowercase hexadecimal digit for `n` in `0..16`.
pub open spec fn hex_digit(n: int) -> char {
    if n < 10 {
        (n + 48) as char
    } else {
        (n + 87) as char
    }
}

/// The `k`-th hexadecimal digit of `id`, counting from the most
/// significant one (`k` in `0..32`).
pub open spec fn nibble(id: u128, k: int) -> int {
    ((id >> (((31 - k) * 4) as u128)) & 0xf) as int
}

/// Which digit of the 32 stands at position `i` of the hyphenated form.
pub open spec fn digit_index(i: int) -> int {
    if i < 8 {
        i
    } else if i < 13 {
        i - 1
    } else if i < 18 {
        i - 2
    } else if i < 23 {
        i - 3
    } else {
        i - 4
    }
}

/// The hyphenated lowercase text of a UUID: 32 hex digits in groups of
/// 8-4-4-4-12, as in `67e55044-10b1-426f-9247-bb680e5fe0c8`.
pub open spec fn uuid_text(id: u128) -> Seq<char> {
    Seq::new(
        36,
        |i: int|
            if i == 8 || i == 13 || i == 18 || i == 23 {
                '-'
            } else {
                hex_digit(nibble(id, digit_index(i)))
            },
    )
}

/// Calls `uuid::Uuid::new_v4` and returns its 128 bits (`as_u128`). The
/// result is random; what the crate guarantees of every outcome is that the
/// version field is 4 and the variant bits are `10`.
#[verifier::external_body]
pub(crate) fn random_uuid() -> (id: u128)
    ensures
        (id >> 76u128) & 0xf == 4,
        (id >> 62u128) & 0x3 == 2,
{
    uuid::Uuid::new_v4().as_u128()
}

/// Calls `uuid::Uuid::from_u128(id)` and formats it with `Display`, which
/// the crate writes as the hyphenated lowercase hex form (`uuid_text`).
#[verifier::external_body]
pub(crate) fn uuid_string(id: u128) -> (s: String)
    ensures
        s@ == uuid_text(id),
{
    uuid::Uuid::from_u128(id).to_string()
}

} // verus!
