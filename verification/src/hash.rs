//! The content hash: a 32-byte digest with a canonical text form and a total
//! order.

use crate::codec::{base64url_decoding, base64url_encoding, decode, encode};
use std::cmp::Ordering;
use vstd::prelude::*;
use vstd::std_specs::cmp::{PartialEqSpecImpl, PartialOrdSpecImpl};
use vstd::std_specs::convert::FromSpecImpl;

verus! {

/// Number of bytes in a content hash.
pub const HASH_LEN: usize = 32;

/// Why a text is not the canonical form of a content hash.
#[derive(Debug, Clone, Copy, PartialEq, Eq, Structural)]
pub enum ParseError {
    /// The text is not unpadded URL-safe base64.
    InvalidEncoding,
    /// The text decodes to this many bytes instead of 32.
    InvalidLength(usize),
}

/// The BLAKE3 digest of `bytes`.
pub uninterp spec fn blake3_hash(bytes: Seq<u8>) -> Seq<u8>;

/// Calls `blake3::hash` and takes the digest's 32 bytes.
/// Trusted: the bytes are the BLAKE3 digest of the buffer, the same for the
/// same buffer.
#[verifier::external_body]
fn blake3_digest(buf: &[u8]) -> (digest: [u8; 32])
    ensures
        digest@ == blake3_hash(buf@),
{
    blake3::hash(buf).into()
}

/// Hash type used throughout: the digest that identifies a byte sequence.
#[derive(Debug, Clone, Copy, Hash, Eq, Ord)]
pub struct Hash {
    bytes: [u8; 32],
}

impl View for Hash {
    type V = Seq<u8>;

    /// The 32 raw bytes.
    open spec fn view(&self) -> Seq<u8> {
        self.bytes_spec()@
    }
}

/// What parsing makes of a text: the 32 bytes it stands for, or the reason
/// why it stands for no hash.
pub open spec fn parse_outcome(text: Seq<char>) -> Result<Seq<u8>, ParseError> {
    match base64url_decoding(text) {
        None => Err(ParseError::InvalidEncoding),
        Some(bytes) => if bytes.len() == HASH_LEN {
            Ok(bytes)
        } else {
            Err(ParseError::InvalidLength(bytes.len() as usize))
        },
    }
}

/// Whether two byte strings agree at every index below `i`.
pub open spec fn agree_below(a: Seq<u8>, b: Seq<u8>, i: int) -> bool {
    forall|j: int| 0 <= j < i ==> a[j] == b[j]
}

/// Strict lexicographic order on byte strings of equal length: at the first
/// index where they differ, `a` holds the smaller byte.
pub open spec fn bytes_less(a: Seq<u8>, b: Seq<u8>) -> bool {
    exists|i: int| 0 <= i < a.len() && a[i] < b[i] && #[trigger] agree_below(a, b, i)
}

/// The lexicographic order of two byte strings of equal length.
pub open spec fn lex_order(a: Seq<u8>, b: Seq<u8>) -> Ordering {
    if a == b {
        Ordering::Equal
    } else if bytes_less(a, b) {
        Ordering::Less
    } else {
        Ordering::Greater
    }
}

/// The first index at which the two arrays differ, or 32 if they are equal.
fn first_mismatch(a: &[u8; 32], b: &[u8; 32]) -> (i: usize)
    ensures
        i <= HASH_LEN,
        agree_below(a@, b@, i as int),
        i < HASH_LEN ==> a@[i as int] != b@[i as int],
{
    let mut i: usize = 0;
    while i < HASH_LEN
        invariant
            i <= HASH_LEN,
            agree_below(a@, b@, i as int),
        decreases HASH_LEN - i,
    {
        if a[i] != b[i] {
            return i;
        }
        i = i + 1;
    }
    i
}

impl Hash {
    /// The raw bytes, as a specification value.
    pub closed spec fn bytes_spec(&self) -> [u8; 32] {
        self.bytes
    }

    /// The hash that holds the given raw bytes, as a specification value.
    pub closed spec fn with_bytes(bytes: [u8; 32]) -> Hash {
        Hash { bytes }
    }

    /// Calculate the hash of the provided bytes.
    pub fn new(buf: &[u8]) -> (hash: Hash)
        ensures
            hash@ == blake3_hash(buf@),
    {
        Hash { bytes: blake3_digest(buf) }
    }

    /// The hash with the given raw bytes.
    pub fn from_bytes(bytes: [u8; 32]) -> (hash: Hash)
        ensures
            hash == Hash::with_bytes(bytes),
            hash@ == bytes@,
    {
        Hash { bytes }
    }

    /// The raw bytes.
    pub fn as_bytes(&self) -> (bytes: &[u8; 32])
        ensures
            bytes@ == self@,
    {
        &self.bytes
    }

    /// The hash whose raw bytes are those of the slice, if there are 32.
    pub fn from_slice(bytes: &[u8]) -> (hash: Option<Hash>)
        ensures
            bytes@.len() == HASH_LEN ==> (hash matches Some(h) && h@ == bytes@),
            bytes@.len() != HASH_LEN ==> hash is None,
    {
        if bytes.len() != HASH_LEN {
            return None;
        }
        let mut arr: [u8; 32] = [0u8; 32];
        let mut i: usize = 0;
        while i < HASH_LEN
            invariant
                i <= HASH_LEN,
                bytes@.len() == HASH_LEN,
                forall|j: int| 0 <= j < i ==> arr@[j] == bytes@[j],
            decreases HASH_LEN - i,
        {
            arr[i] = bytes[i];
            i = i + 1;
        }
        assert(arr@ =~= bytes@);
        Some(Hash { bytes: arr })
    }

    /// The canonical text form: the raw bytes in unpadded URL-safe base64.
    /// Parsing the text gives this hash back.
    pub fn to_string(&self) -> (text: String)
        ensures
            text@ == base64url_encoding(self@),
            parse_outcome(text@) == Ok::<Seq<u8>, ParseError>(self@),
    {
        encode(self.bytes.as_slice())
    }

    /// Reads a hash from its canonical text form.
    pub fn parse(text: &str) -> (parsed: Result<Hash, ParseError>)
        ensures
            match parse_outcome(text@) {
                Ok(bytes) => (parsed matches Ok(h) && h@ == bytes),
                Err(e) => parsed == Err::<Hash, ParseError>(e),
            },
    {
        match decode(text) {
            Err(_) => Err(ParseError::InvalidEncoding),
            Ok(val) => match Hash::from_slice(val.as_slice()) {
                Some(hash) => Ok(hash),
                None => Err(ParseError::InvalidLength(val.len())),
            },
        }
    }
}

impl From<[u8; 32]> for Hash {
    fn from(value: [u8; 32]) -> (hash: Hash) {
        Hash::from_bytes(value)
    }
}

impl FromSpecImpl<[u8; 32]> for Hash {
    open spec fn obeys_from_spec() -> bool {
        true
    }

    /// The hash made from 32 bytes holds exactly those bytes.
    open spec fn from_spec(value: [u8; 32]) -> Hash {
        Hash::with_bytes(value)
    }
}

impl std::str::FromStr for Hash {
    type Err = ParseError;

    /// Reads a hash from its canonical text form, as `Hash::parse` does.
    fn from_str(s: &str) -> (parsed: Result<Hash, ParseError>)
        ensures
            match parse_outcome(s@) {
                Ok(bytes) => (parsed matches Ok(h) && h@ == bytes),
                Err(e) => parsed == Err::<Hash, ParseError>(e),
            },
    {
        Hash::parse(s)
    }
}

impl PartialEq for Hash {
    fn eq(&self, other: &Self) -> (same: bool) {
        let i = first_mismatch(&self.bytes, &other.bytes);
        proof {
            if i == HASH_LEN {
                assert(self@ =~= other@);
            }
        }
        i == HASH_LEN
    }
}

impl PartialEqSpecImpl for Hash {
    open spec fn obeys_eq_spec() -> bool {
        true
    }

    /// Two hashes are equal exactly when their raw bytes are.
    open spec fn eq_spec(&self, other: &Self) -> bool {
        self@ == other@
    }
}

impl PartialOrd for Hash {
    fn partial_cmp(&self, other: &Self) -> (order: Option<Ordering>) {
        let i = first_mismatch(&self.bytes, &other.bytes);
        if i == HASH_LEN {
            proof {
                assert(self@ =~= other@);
            }
            Some(Ordering::Equal)
        } else if self.bytes[i] < other.bytes[i] {
            proof {
                assert(bytes_less(self@, other@));
                lemma_order_asymmetric(self@, other@);
            }
            Some(Ordering::Less)
        } else {
            proof {
                lemma_agreement_is_mutual(self@, other@);
                assert(bytes_less(other@, self@));
                lemma_order_asymmetric(other@, self@);
            }
            Some(Ordering::Greater)
        }
    }
}

impl PartialOrdSpecImpl for Hash {
    open spec fn obeys_partial_cmp_spec() -> bool {
        true
    }

    /// Hashes are ordered as their raw bytes are, lexicographically.
    open spec fn partial_cmp_spec(&self, other: &Self) -> Option<Ordering> {
        Some(lex_order(self@, other@))
    }
}

/// Two hashes are equal exactly when their 32 raw bytes are the same.
pub proof fn lemma_equal_iff_same_bytes(a: Hash, b: Hash)
    ensures
        a == b <==> a@ == b@,
        a@.len() == HASH_LEN,
{
    if a@ == b@ {
        assert(a.bytes =~= b.bytes);
    }
}

/// A byte string that holds the smaller byte at the first difference is the
/// smaller one, and the two are not equal.
pub proof fn lemma_order_by_first_difference(a: Seq<u8>, b: Seq<u8>, i: int)
    requires
        0 <= i < a.len(),
        agree_below(a, b, i),
        a[i] < b[i],
    ensures
        bytes_less(a, b),
        a != b,
{
}

/// Agreement below an index does not depend on which byte string is named
/// first.
pub proof fn lemma_agreement_is_mutual(a: Seq<u8>, b: Seq<u8>)
    ensures
        forall|i: int| #[trigger] agree_below(a, b, i) ==> agree_below(b, a, i),
{
}

/// The lexicographic order of two byte strings of equal length is `Equal`
/// exactly when they are the same, and `Less` one way exactly when it is
/// `Greater` the other way.
pub proof fn lemma_lex_order_total(a: Seq<u8>, b: Seq<u8>)
    requires
        a.len() == b.len(),
    ensures
        lex_order(a, b) is Equal <==> a == b,
        lex_order(a, b) is Less <==> lex_order(b, a) is Greater,
        lex_order(a, b) is Less <==> bytes_less(a, b),
        lex_order(a, b) is Greater <==> bytes_less(b, a),
{
    lemma_order_total(a, b);
}

/// No byte string lies below another that lies below it, and none lies below
/// itself.
pub proof fn lemma_order_asymmetric(a: Seq<u8>, b: Seq<u8>)
    requires
        bytes_less(a, b),
    ensures
        !bytes_less(b, a),
        a != b,
{
    let i = choose|i: int| 0 <= i < a.len() && a[i] < b[i] && #[trigger] agree_below(a, b, i);
    if bytes_less(b, a) {
        let k = choose|k: int| 0 <= k < b.len() && b[k] < a[k] && #[trigger] agree_below(b, a, k);
        if k < i {
            assert(a[k] == b[k]);
        } else if i < k {
            assert(b[i] == a[i]);
        }
    }
}

/// The order is transitive.
pub proof fn lemma_order_transitive(a: Seq<u8>, b: Seq<u8>, c: Seq<u8>)
    requires
        a.len() == b.len(),
        b.len() == c.len(),
        bytes_less(a, b),
        bytes_less(b, c),
    ensures
        bytes_less(a, c),
{
    let i = choose|i: int| 0 <= i < a.len() && a[i] < b[i] && #[trigger] agree_below(a, b, i);
    let k = choose|k: int| 0 <= k < b.len() && b[k] < c[k] && #[trigger] agree_below(b, c, k);
    let m = if i <= k { i } else { k };
    assert(agree_below(a, c, m)) by {
        assert forall|j: int| 0 <= j < m implies a[j] == c[j] by {
            assert(a[j] == b[j]);
            assert(b[j] == c[j]);
        }
    }
    if i < k {
        assert(b[i] == c[i]);
    } else if k < i {
        assert(a[k] == b[k]);
    }
    assert(a[m] < c[m]);
}

/// The order is total: of two byte strings of equal length, either they are
/// equal or exactly one lies below the other.
pub proof fn lemma_order_total(a: Seq<u8>, b: Seq<u8>)
    requires
        a.len() == b.len(),
    ensures
        a == b || bytes_less(a, b) || bytes_less(b, a),
        !(bytes_less(a, b) && bytes_less(b, a)),
        a == b ==> !bytes_less(a, b) && !bytes_less(b, a),
{
    if bytes_less(a, b) {
        lemma_order_asymmetric(a, b);
    }
    if bytes_less(b, a) {
        lemma_order_asymmetric(b, a);
    }
    if a != b {
        lemma_differing_index(a, b, 0);
        let i = choose|i: int| 0 <= i < a.len() && a[i] != b[i] && agree_below(a, b, i);
        if a[i] < b[i] {
            lemma_order_by_first_difference(a, b, i);
        } else {
            assert(agree_below(b, a, i));
            lemma_order_by_first_difference(b, a, i);
        }
    }
}

/// Two different byte strings of equal length that agree below `from` have a
/// first index at which they differ.
proof fn lemma_differing_index(a: Seq<u8>, b: Seq<u8>, from: int)
    requires
        a.len() == b.len(),
        a != b,
        0 <= from <= a.len(),
        agree_below(a, b, from),
    ensures
        exists|i: int| 0 <= i < a.len() && a[i] != b[i] && agree_below(a, b, i),
    decreases a.len() - from,
{
    if from == a.len() {
        assert(a =~= b);
    } else if a[from] != b[from] {
    } else {
        assert(agree_below(a, b, from + 1));
        lemma_differing_index(a, b, from + 1);
    }
}

} // verus!
