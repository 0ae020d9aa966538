//! Identifiers: the 128-bit values of UUIDs, and the calls into the uuid crate
//! that make them and write and read their text.

use vstd::prelude::*;

verus! {

/// The version nibble of a UUID (bits 76 to 79).
pub open spec fn uuid_version(id: u128) -> u128 {
    (id >> 76u128) & 0xfu128
}

/// The two top variant bits of a UUID (bits 62 and 63).
pub open spec fn uuid_variant(id: u128) -> u128 {
    (id >> 62u128) & 0x3u128
}

/// A fresh random identifier (`uuid::Uuid::new_v4()`, as `as_u128`).
///
/// Trusted: uuid 1.x fills the value with random bits and then sets the version
/// nibble to 4 and the variant bits to `10`; the contract states those bits and
/// nothing of the random rest. uuid stops the program when the operating
/// system gives no random bytes, which is taken as a fault of the machine.
#[verifier::external_body]
pub(crate) fn new_v4() -> (id: u128)
    ensures
        uuid_version(id) == 4,
        uuid_variant(id) == 2,
{
    uuid::Uuid::new_v4().as_u128()
}

/// A version 4 identifier is never the nil identifier 0.
pub proof fn lemma_v4_is_not_nil(id: u128)
    requires
        uuid_version(id) == 4,
    ensures
        id != 0,
{
    assert(((id >> 76u128) & 0xfu128) == 4 ==> id != 0) by (bit_vector);
}

/// The `x`-th spare version 4 identifier (for `x` below 2^64): the bits of
/// `x` in the 62 random bits of the low half and in the two lowest bits of the
/// high half, under the version nibble 4 and the variant bits `10`.
pub open spec fn spare_id(x: u128) -> u128 {
    (x & 0x3fff_ffff_ffff_ffffu128) | ((x >> 62u128) << 64u128) | 0x0000_0000_0000_4000_8000_0000_0000_0000u128
}

/// Spare identifiers are version 4 identifiers, and different numbers give
/// different ones.
pub proof fn lemma_spare_ids(x: u128, y: u128)
    requires
        x < 0x1_0000_0000_0000_0000u128,
        y < 0x1_0000_0000_0000_0000u128,
    ensures
        uuid_version(spare_id(x)) == 4,
        uuid_variant(spare_id(x)) == 2,
        x != y ==> spare_id(x) != spare_id(y),
{
    assert((((x & 0x3fff_ffff_ffff_ffffu128) | ((x >> 62u128) << 64u128)
        | 0x0000_0000_0000_4000_8000_0000_0000_0000u128) >> 76u128) & 0xfu128 == 4u128) by (bit_vector)
        requires
            x < 0x1_0000_0000_0000_0000u128,
    ;
    assert((((x & 0x3fff_ffff_ffff_ffffu128) | ((x >> 62u128) << 64u128)
        | 0x0000_0000_0000_4000_8000_0000_0000_0000u128) >> 62u128) & 0x3u128 == 2u128) by (bit_vector)
        requires
            x < 0x1_0000_0000_0000_0000u128,
    ;
    assert(x != y ==> ((x & 0x3fff_ffff_ffff_ffffu128) | ((x >> 62u128) << 64u128)
        | 0x0000_0000_0000_4000_8000_0000_0000_0000u128) != ((y & 0x3fff_ffff_ffff_ffffu128) | ((y
        >> 62u128) << 64u128) | 0x0000_0000_0000_4000_8000_0000_0000_0000u128)) by (bit_vector)
        requires
            x < 0x1_0000_0000_0000_0000u128,
            y < 0x1_0000_0000_0000_0000u128,
    ;
}

/// A sequence of `n` identifiers misses one of the first `n + 1` spare ones.
pub proof fn lemma_a_spare_id_is_free(taken: Seq<u128>)
    requires
        taken.len() < 0x1_0000_0000_0000_0000u128,
    ensures
        exists|x: u128| x <= taken.len() && !taken.contains(#[trigger] spare_id(x)),
{
    let n = taken.len();
    let spares = Seq::new(n + 1, |j: int| spare_id(j as u128));
    assert forall|i: int, j: int| 0 <= i < spares.len() && 0 <= j < spares.len() && i != j implies spares[i]
        != spares[j] by {
        lemma_spare_ids(i as u128, j as u128);
    }
    assert(spares.no_duplicates());
    spares.unique_seq_to_set();
    taken.lemma_cardinality_of_set();
    if forall|x: u128| x <= taken.len() ==> taken.contains(#[trigger] spare_id(x)) {
        assert forall|v: u128| spares.to_set().contains(v) implies taken.to_set().contains(v) by {
            let j = choose|j: int| 0 <= j < spares.len() && spares[j] == v;
            assert(taken.contains(spare_id(j as u128)));
        }
        vstd::set_lib::lemma_len_subset(spares.to_set(), taken.to_set());
    }
}

/// Whether `id` is one of `ids`.
pub fn holds_id(ids: &Vec<u128>, id: u128) -> (r: bool)
    ensures
        r == ids@.contains(id),
{
    let mut i: usize = 0;
    while i < ids.len()
        invariant
            0 <= i <= ids@.len(),
            forall|j: int| 0 <= j < i ==> ids@[j] != id,
        decreases ids@.len() - i,
    {
        if ids[i] == id {
            return true;
        }
        i += 1;
    }
    false
}

/// The identifier for a new record beside the records with the identifiers
/// `taken`: the drawn one, unless a record has it (which a random version 4
/// identifier all but never meets); then the first spare version 4
/// identifier that no record has.
pub fn fresh_id(drawn: u128, taken: &Vec<u128>) -> (r: u128)
    requires
        uuid_version(drawn) == 4,
        uuid_variant(drawn) == 2,
    ensures
        !taken@.contains(r),
        uuid_version(r) == 4,
        uuid_variant(r) == 2,
        r != 0,
        !taken@.contains(drawn) ==> r == drawn,
{
    proof {
        lemma_v4_is_not_nil(drawn);
    }
    if !holds_id(taken, drawn) {
        return drawn;
    }
    let n = taken.len();
    let mut k: u64 = 0;
    while (k as usize) < n
        invariant
            n == taken@.len(),
            k <= n,
            taken@.contains(drawn),
            forall|x: u128| x < k ==> taken@.contains(#[trigger] spare_id(x)),
        decreases n - k,
    {
        let candidate = (k as u128 & 0x3fff_ffff_ffff_ffffu128) | ((k as u128 >> 62u128) << 64u128)
            | 0x0000_0000_0000_4000_8000_0000_0000_0000u128;
        proof {
            lemma_spare_ids(k as u128, k as u128);
            lemma_v4_is_not_nil(candidate);
        }
        if !holds_id(taken, candidate) {
            return candidate;
        }
        k += 1;
    }
    let candidate = (k as u128 & 0x3fff_ffff_ffff_ffffu128) | ((k as u128 >> 62u128) << 64u128)
        | 0x0000_0000_0000_4000_8000_0000_0000_0000u128;
    proof {
        lemma_spare_ids(k as u128, k as u128);
        lemma_v4_is_not_nil(candidate);
    }
    if !holds_id(taken, candidate) {
        return candidate;
    }
    proof {
        lemma_a_spare_id_is_free(taken@);
        let x = choose|x: u128| x <= taken@.len() && !taken@.contains(#[trigger] spare_id(x));
        if x < k {
            assert(taken@.contains(spare_id(x)));
        } else {
            assert(x == k);
        }
    }
    drawn
}

/// 16 to the power `n`.
pub open spec fn pow16(n: nat) -> nat
    decreases n,
{
    if n == 0 {
        1
    } else {
        16 * pow16((n - 1) as nat)
    }
}

/// The `i`-th of the 32 hexadecimal digits of `id`, from the most significant.
pub open spec fn uuid_nibble(id: u128, i: int) -> nat {
    ((id as nat) / pow16((31 - i) as nat)) % 16
}

/// The lower-case character of a hexadecimal digit.
pub open spec fn lower_hex_char(d: nat) -> char {
    if d < 10 {
        ((d + 48) as u32) as char
    } else {
        ((d + 87) as u32) as char
    }
}

/// The 32 lower-case hexadecimal digits of `id`.
pub open spec fn uuid_hex(id: u128) -> Seq<char> {
    Seq::new(32, |i: int| lower_hex_char(uuid_nibble(id, i)))
}

/// The hyphenated text of `id`: its 32 digits in groups of 8, 4, 4, 4 and 12,
/// joined by `-`, as `uuid::Uuid`'s `Display` writes it.
pub open spec fn uuid_text(id: u128) -> Seq<char> {
    let h = uuid_hex(id);
    h.subrange(0, 8) + seq!['-'] + h.subrange(8, 12) + seq!['-'] + h.subrange(12, 16) + seq!['-']
        + h.subrange(16, 20) + seq!['-'] + h.subrange(20, 32)
}

/// The identifier that `uuid::Uuid::parse_str` reads from the text, if it reads one.
pub uninterp spec fn uuid_value(s: Seq<char>) -> Option<u128>;

/// The hyphenated text of an identifier (`Uuid::from_u128(id).to_string()`).
///
/// Trusted: uuid 1.x writes a UUID through its lower-case hyphenated form, the
/// 32 hexadecimal digits of the value from the most significant, in groups of
/// 8, 4, 4, 4 and 12.
#[verifier::external_body]
pub(crate) fn uuid_to_string(id: u128) -> (s: String)
    ensures
        s@ == uuid_text(id),
{
    uuid::Uuid::from_u128(id).to_string()
}

/// Reads an identifier (`uuid::Uuid::parse_str`).
///
/// Trusted: the result is named; uuid 1.x reads the hyphenated form, with
/// lower-case digits among others, so the text that `uuid_to_string` writes
/// reads back as the identifier it was written from.
#[verifier::external_body]
pub(crate) fn parse_uuid(s: &str) -> (r: Option<u128>)
    ensures
        r == uuid_value(s@),
        forall|id: u128| s@ == uuid_text(id) ==> r == Some(id),
{
    match uuid::Uuid::parse_str(s) {
        Ok(u) => Some(u.as_u128()),
        Err(_) => None,
    }
}

} // verus!
