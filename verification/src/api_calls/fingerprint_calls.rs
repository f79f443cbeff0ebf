use crate::api_calls::correlate::{in_request_order, order_by_request, Answer};
use crate::decimal::{decimal_of, decimal_text};
use crate::foreign::murmur2_of;
use crate::request::{
    is_request_to, join_of, read_address, resolve, Address, Body, Method, Request,
};
use crate::structures::fingerprint_structs::Match;
use crate::structures::ID;
use crate::{Error, Furse};
use vstd::prelude::*;

verus! {

/// The seed with which CurseForge hashes file contents.
pub const FINGERPRINT_SEED: u32 = 1;

/// Whether CurseForge drops the byte `b` before hashing:
/// tab, line feed, carriage return and space.
pub open spec fn is_skipped(b: u8) -> bool {
    b == 9 || b == 10 || b == 13 || b == 32
}

/// The bytes of `bytes` that are hashed, in their original order.
pub open spec fn hashed_bytes(bytes: Seq<u8>) -> Seq<u8> {
    bytes.filter(|b: u8| !is_skipped(b))
}

/// The CurseForge fingerprint of a file with the contents `bytes`.
pub open spec fn fingerprint_of(bytes: Seq<u8>) -> u32 {
    murmur2_of(hashed_bytes(bytes), FINGERPRINT_SEED)
}

/// Appending one byte to the input appends it to the hashed bytes, unless it
/// is skipped.
pub proof fn lemma_hashed_bytes_push(bytes: Seq<u8>, b: u8)
    ensures
        hashed_bytes(bytes.push(b)) == if is_skipped(b) {
            hashed_bytes(bytes)
        } else {
            hashed_bytes(bytes).push(b)
        },
{
    reveal(Seq::filter);
    assert(bytes.push(b).drop_last() == bytes);
}

/// None of the hashed bytes is a skipped one, and input without skipped bytes
/// is hashed as it is.
pub proof fn lemma_hashed_bytes_are_kept_bytes(bytes: Seq<u8>)
    ensures
        forall|i: int|
            0 <= i < hashed_bytes(bytes).len() ==> !is_skipped(#[trigger] hashed_bytes(bytes)[i]),
        (forall|i: int| 0 <= i < bytes.len() ==> !is_skipped(#[trigger] bytes[i]))
            ==> hashed_bytes(bytes) == bytes,
    decreases bytes.len(),
{
    reveal(Seq::filter);
    if bytes.len() > 0 {
        let front = bytes.drop_last();
        lemma_hashed_bytes_are_kept_bytes(front);
        assert(front.push(bytes.last()) == bytes);
        lemma_hashed_bytes_push(front, bytes.last());
        if forall|i: int| 0 <= i < bytes.len() ==> !is_skipped(#[trigger] bytes[i]) {
            assert forall|i: int| 0 <= i < front.len() implies !is_skipped(
                #[trigger] front[i],
            ) by {
                assert(front[i] == bytes[i]);
            }
            assert(!is_skipped(bytes[bytes.len() - 1]));
        }
    }
}

/// The hashed bytes of two inputs in a row are the hashed bytes of the one
/// after those of the other.
pub proof fn lemma_hashed_bytes_of_parts(front: Seq<u8>, back: Seq<u8>)
    ensures
        hashed_bytes(front + back) == hashed_bytes(front) + hashed_bytes(back),
{
    Seq::filter_distributes_over_add(front, back, |b: u8| !is_skipped(b));
}

/// A skipped byte that is put into the input at any place changes neither the
/// hashed bytes nor the fingerprint.
pub proof fn lemma_skipped_byte_changes_nothing(bytes: Seq<u8>, at: int, b: u8)
    requires
        0 <= at <= bytes.len(),
        is_skipped(b),
    ensures
        hashed_bytes(bytes.insert(at, b)) == hashed_bytes(bytes),
        fingerprint_of(bytes.insert(at, b)) == fingerprint_of(bytes),
{
    let front = bytes.take(at);
    let back = bytes.skip(at);
    assert(bytes.insert(at, b) == front.push(b) + back);
    assert(bytes == front + back);
    lemma_hashed_bytes_push(front, b);
    lemma_hashed_bytes_of_parts(front.push(b), back);
    lemma_hashed_bytes_of_parts(front, back);
}

/// The fingerprint depends on the contents alone: two inputs of one length
/// that agree byte for byte have the same fingerprint.
pub proof fn lemma_fingerprint_depends_on_contents_alone(a: Seq<u8>, b: Seq<u8>)
    requires
        a.len() == b.len(),
        forall|i: int| 0 <= i < a.len() ==> a[i] == b[i],
    ensures
        fingerprint_of(a) == fingerprint_of(b),
{
    assert(a =~= b);
}

/// Two inputs that are the same once the skipped bytes are taken out of both
/// have the same fingerprint.
pub proof fn lemma_fingerprint_ignores_skipped_bytes(a: Seq<u8>, b: Seq<u8>)
    requires
        hashed_bytes(a) == hashed_bytes(b),
    ensures
        fingerprint_of(a) == fingerprint_of(b),
{
}

/// Copy `bytes` without the bytes that CurseForge skips.
pub fn strip_skipped(bytes: &[u8]) -> (kept: Vec<u8>)
    ensures
        kept@ == hashed_bytes(bytes@),
{
    let mut kept: Vec<u8> = Vec::new();
    let mut i: usize = 0;
    while i < bytes.len()
        invariant
            i <= bytes.len(),
            kept@ == hashed_bytes(bytes@.take(i as int)),
        decreases bytes.len() - i,
    {
        let b = bytes[i];
        proof {
            assert(bytes@.take(i + 1) == bytes@.take(i as int).push(b));
            lemma_hashed_bytes_push(bytes@.take(i as int), b);
        }
        if !(b == 9 || b == 10 || b == 13 || b == 32) {
            kept.push(b);
        }
        i += 1;
    }
    assert(bytes@.take(i as int) == bytes@);
    kept
}

/// Calculate the CurseForge fingerprint for the `bytes` provided
///
/// CurseForge uses a modified version of murmur2 where some bytes are stripped,
/// and the resulting bytes are hashed with seed `1`
pub fn cf_fingerprint(bytes: &[u8]) -> (fingerprint: usize)
    ensures
        fingerprint == fingerprint_of(bytes@),
{
    let kept = strip_skipped(bytes);
    let hash: u32 = murmur2::murmur2(kept.as_slice(), FINGERPRINT_SEED);
    hash as usize
}

/// The address that answers requests for fingerprint matches.
pub open spec fn fingerprints_url_of(base: Address) -> Address {
    join_of(base, "fingerprints"@)
}

/// The address that answers requests for fingerprint matches among the files
/// of the game with ID `game_id`.
pub open spec fn game_fingerprints_url_of(base: Address, game_id: ID) -> Address {
    join_of(join_of(base, "fingerprints/"@), decimal_of(game_id as int))
}

impl Answer<usize> for Match {
    /// A match answers the request for the fingerprint of its file. The
    /// service writes a fingerprint as a signed number: a negative one
    /// answers no request.
    open spec fn answers(&self, key: usize) -> bool {
        self.file.file_fingerprint == key
    }

    fn is_answer_to(&self, key: &usize) -> (is: bool) {
        self.file.file_fingerprint >= 0 && self.file.file_fingerprint as u64 == *key as u64
    }

    proof fn lemma_answers_one_key(&self, a: usize, b: usize) {
    }
}

impl Furse {
    /// Get file structs from the `fingerprints` provided
    ///
    /// All the fingerprints go into the one request. The answer to it holds
    /// the matches in an order of the service's own: [`matches_in_order`]
    /// sorts a list of them.
    pub fn get_fingerprint_matches(
        &self,
        fingerprints: Vec<usize>,
    ) -> (built: Result<Request, Error>)
        ensures
            is_request_to(
                built,
                *self,
                Method::Post,
                fingerprints_url_of(self.base_of()),
                Some(Body::Fingerprints(fingerprints)),
            ),
    {
        let base = read_address(self.base_url())?;
        let url = resolve(&base, "fingerprints")?;
        Ok(self.post(url, Body::Fingerprints(fingerprints)))
    }

    /// Get file structs from the `fingerprints` provided, among the files of
    /// the game with ID `game_id` (Minecraft is `432`)
    ///
    /// All the fingerprints go into the one request, and the answer is that
    /// of [`Furse::get_fingerprint_matches`].
    pub fn get_game_fingerprint_matches(
        &self,
        game_id: ID,
        fingerprints: Vec<usize>,
    ) -> (built: Result<Request, Error>)
        ensures
            is_request_to(
                built,
                *self,
                Method::Post,
                game_fingerprints_url_of(self.base_of(), game_id),
                Some(Body::Fingerprints(fingerprints)),
            ),
    {
        let base = read_address(self.base_url())?;
        let all_games = resolve(&base, "fingerprints/")?;
        let url = resolve(&all_games, decimal_text(game_id).as_str())?;
        Ok(self.post(url, Body::Fingerprints(fingerprints)))
    }
}

/// Sort the `matches` that the service returned in the order the
/// `fingerprints` were requested in, and leave `None` in places where a
/// fingerprint was not matched.
pub fn matches_in_order(
    fingerprints: &Vec<usize>,
    matches: Vec<Match>,
) -> (ordered: Vec<Option<Match>>)
    ensures
        ordered@ == in_request_order(fingerprints@, matches@),
{
    order_by_request(fingerprints, matches)
}

} // verus!
