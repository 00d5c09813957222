//! The fingerprint of a scan.
//!
//! Each answer gives three characters: the rank of its cipher suite in two
//! hexadecimal digits and a letter for its version. Behind the characters of
//! all answers stand the first 32 hexadecimal digits of the SHA-256 digest
//! of the protocol names and extension types of all answers. A scan without
//! one ServerHello has a fingerprint of 62 zeros.

use vstd::prelude::*;
use vstd::std_specs::iter::IteratorSpec;
use vstd::slice::slice_subrange;
use vstd::string::{StrSliceExecFns, StringExecFns};
use crate::encoding::{hex_digits, hex_encode, hex_lower};
use crate::server_hello::{sentinel, JarmPart};
use crate::tables::CIPHER_RANKS;

verus! {

/// The rank of a cipher suite that the table of ranks does not hold.
pub const UNKNOWN_CIPHER_RANK: u8 = 70;

/// The cipher suite of rank `i + 1`.
pub open spec fn ranked_suite(i: int) -> Seq<u8> {
    seq![CIPHER_RANKS[2 * i], CIPHER_RANKS[2 * i + 1]]
}

/// The rank of `cipher` among the suites from place `from` on: one more
/// than the place of the first suite whose hexadecimal notation is
/// `cipher`, or 70 where there is none.
pub open spec fn rank_from(cipher: Seq<char>, from: int) -> int
    decreases 69 - from,
{
    if from < 0 || from >= 69 {
        70
    } else if hex_lower(ranked_suite(from)) == cipher {
        from + 1
    } else {
        rank_from(cipher, from + 1)
    }
}

/// The rank of a cipher suite in hexadecimal notation: 0 for the empty
/// text, its place in the table of ranks for a suite of the table, and 70
/// for any other text.
pub open spec fn cipher_rank(cipher: Seq<char>) -> int {
    if cipher.len() == 0 {
        0
    } else {
        rank_from(cipher, 0)
    }
}

/// The text is the hexadecimal notation of a suite of the table of ranks.
pub open spec fn is_ranked(cipher: Seq<char>) -> bool {
    exists|i: int| 0 <= i < 69 && hex_lower(#[trigger] ranked_suite(i)) == cipher
}

/// The letter of a version in hexadecimal notation: `a` to `f` for a fourth
/// character from `0` to `5`. A text without a fourth character, the empty
/// text among them, and a text with another fourth character have no
/// letter and get a `0`.
pub open spec fn version_letter(version: Seq<char>) -> char {
    if version.len() < 4 {
        '0'
    } else if version[3] == '0' {
        'a'
    } else if version[3] == '1' {
        'b'
    } else if version[3] == '2' {
        'c'
    } else if version[3] == '3' {
        'd'
    } else if version[3] == '4' {
        'e'
    } else if version[3] == '5' {
        'f'
    } else {
        '0'
    }
}

/// The hexadecimal notation of a byte tells the byte.
proof fn lemma_hex_tells_the_byte(first: u8, second: u8)
    ensures
        hex_lower(seq![first]) == hex_lower(seq![second]) ==> first == second,
{
    let a = hex_lower(seq![first]);
    let b = hex_lower(seq![second]);
    if a == b {
        assert(a[0] == b[0]);
        assert(a[1] == b[1]);
    }
}

/// The hexadecimal notation of a cipher suite tells the suite.
proof fn lemma_hex_tells_the_suite(first: Seq<u8>, second: Seq<u8>)
    requires
        first.len() == 2,
        second.len() == 2,
        hex_lower(first) == hex_lower(second),
    ensures
        first == second,
{
    let a = hex_lower(first);
    let b = hex_lower(second);
    assert(hex_lower(seq![first[0]]) =~= seq![a[0], a[1]]);
    assert(hex_lower(seq![second[0]]) =~= seq![b[0], b[1]]);
    assert(hex_lower(seq![first[1]]) =~= seq![a[2], a[3]]);
    assert(hex_lower(seq![second[1]]) =~= seq![b[2], b[3]]);
    lemma_hex_tells_the_byte(first[0], second[0]);
    lemma_hex_tells_the_byte(first[1], second[1]);
}

/// No cipher suite stands twice in the table of ranks.
proof fn lemma_ranked_suites_differ(i: int, j: int)
    requires
        0 <= i < j < 69,
    ensures
        ranked_suite(i) != ranked_suite(j),
{
}

/// The suite at place `i` of the table of ranks is found at that place
/// wherever the search begins before it.
proof fn lemma_rank_from_finds(i: int, from: int)
    requires
        0 <= from <= i < 69,
    ensures
        rank_from(hex_lower(ranked_suite(i)), from) == i + 1,
    decreases i - from,
{
    if from < i {
        lemma_ranked_suites_differ(from, i);
        if hex_lower(ranked_suite(from)) == hex_lower(ranked_suite(i)) {
            lemma_hex_tells_the_suite(ranked_suite(from), ranked_suite(i));
        }
        lemma_rank_from_finds(i, from + 1);
    }
}

/// A text that is no suite of the table of ranks is found nowhere.
proof fn lemma_rank_from_misses(cipher: Seq<char>, from: int)
    requires
        0 <= from <= 69,
        !is_ranked(cipher),
    ensures
        rank_from(cipher, from) == 70,
    decreases 69 - from,
{
    if from < 69 {
        lemma_rank_from_misses(cipher, from + 1);
    }
}

/// The ranks of the suites of the table go from 1 for the first to 69 for
/// the last: the suite at place `i`, counted from 0, has rank `i + 1`.
pub proof fn lemma_rank_of_suite(i: int)
    requires
        0 <= i < 69,
    ensures
        cipher_rank(hex_lower(ranked_suite(i))) == i + 1,
{
    lemma_rank_from_finds(i, 0);
}

/// A text that is not empty and no suite of the table has rank 70.
pub proof fn lemma_rank_of_unknown(cipher: Seq<char>)
    requires
        cipher.len() > 0,
        !is_ranked(cipher),
    ensures
        cipher_rank(cipher) == 70,
{
    lemma_rank_from_misses(cipher, 0);
}

/// The two digits of the ranks at the ends of the scale: `00` for no cipher
/// suite, `01` and `45` for the first and the last suite of the table, `46`
/// for an unknown suite.
pub proof fn lemma_rank_digits()
    ensures
        hex_lower(seq![0u8]) == seq!['0', '0'],
        hex_lower(seq![1u8]) == seq!['0', '1'],
        hex_lower(seq![69u8]) == seq!['4', '5'],
        hex_lower(seq![70u8]) == seq!['4', '6'],
{
}

/// The rank of a cipher suite in two hexadecimal digits, see
/// [`cipher_rank`]. The letters of `cipher` must be in lower case to be
/// found.
pub fn cipher_bytes(cipher: &str) -> (text: String)
    ensures
        text@ == hex_lower(seq![cipher_rank(cipher@) as u8]),
        0 <= cipher_rank(cipher@) <= 70,
        cipher@.len() == 0 ==> text@ == seq!['0', '0'],
        cipher@.len() > 0 && !is_ranked(cipher@) ==> text@ == seq!['4', '6'],
{
    proof {
        lemma_rank_digits();
        if cipher@.len() > 0 && !is_ranked(cipher@) {
            lemma_rank_of_unknown(cipher@);
        }
    }
    let mut rank: u8 = UNKNOWN_CIPHER_RANK;
    if cipher.is_empty() {
        rank = 0;
    } else {
        let wanted = String::from_str(cipher);
        let mut i: usize = 0;
        while i < 69
            invariant_except_break
                i <= 69,
                rank == 70,
                rank_from(cipher@, 0) == rank_from(cipher@, i as int),
            invariant
                wanted@ == cipher@,
            ensures
                rank == rank_from(cipher@, 0),
                0 <= rank <= 70,
            decreases 69 - i,
        {
            let suite = slice_subrange(CIPHER_RANKS.as_slice(), 2 * i, 2 * i + 2);
            assert(suite@ =~= ranked_suite(i as int));
            let encoded = hex_encode(suite);
            if encoded == wanted {
                rank = (i + 1) as u8;
                break ;
            }
            i = i + 1;
        }
    }
    let packed = vec![rank];
    hex_encode(packed.as_slice())
}

/// The letter of a version, see [`version_letter`].
pub fn version_byte(version: &str) -> (letter: char)
    ensures
        letter == version_letter(version@),
{
    if version.unicode_len() < 4 {
        return '0';
    }
    let digit = version.get_char(3);
    if digit == '0' {
        'a'
    } else if digit == '1' {
        'b'
    } else if digit == '2' {
        'c'
    } else if digit == '3' {
        'd'
    } else if digit == '4' {
        'e'
    } else if digit == '5' {
        'f'
    } else {
        '0'
    }
}

/// The number of `|` in a text.
pub open spec fn bars(text: Seq<char>) -> nat
    decreases text.len(),
{
    if text.len() == 0 {
        0
    } else if text.last() == '|' {
        bars(text.drop_last()) + 1
    } else {
        bars(text.drop_last())
    }
}

/// Field `k` of a summary, counted from 0: the characters other than `|`
/// that stand behind exactly `k` of the `|`. A field that the summary does
/// not have is empty.
pub open spec fn field(text: Seq<char>, k: nat) -> Seq<char>
    decreases text.len(),
{
    if text.len() == 0 {
        Seq::empty()
    } else if text.last() != '|' && bars(text.drop_last()) == k {
        field(text.drop_last(), k).push(text.last())
    } else {
        field(text.drop_last(), k)
    }
}

/// The three characters that a summary gives to the fingerprint: the rank
/// of its cipher suite in two hexadecimal digits, then the letter of its
/// version.
pub open spec fn fuzzy_part(raw: Seq<char>) -> Seq<char> {
    hex_lower(seq![cipher_rank(field(raw, 0)) as u8]).push(version_letter(field(raw, 1)))
}

/// What a summary gives to the digest: its protocol name, then its
/// extension types.
pub open spec fn hashed_part(raw: Seq<char>) -> Seq<char> {
    field(raw, 2) + field(raw, 3)
}

/// The characters that the summaries give to the fingerprint, in the order
/// of the summaries.
pub open spec fn fuzzy_hash(parts: Seq<Seq<char>>) -> Seq<char> {
    parts.map_values(|raw: Seq<char>| fuzzy_part(raw)).flatten()
}

/// The text whose digest ends the fingerprint: what the summaries give to
/// it, in the order of the summaries.
pub open spec fn hashed_text(parts: Seq<Seq<char>>) -> Seq<char> {
    parts.map_values(|raw: Seq<char>| hashed_part(raw)).flatten()
}

/// No summary is that of a ServerHello.
pub open spec fn all_sentinel(parts: Seq<Seq<char>>) -> bool {
    forall|i: int| 0 <= i < parts.len() ==> #[trigger] parts[i] == sentinel()
}

/// The fingerprint of a scan without a ServerHello: 62 zeros.
pub open spec fn empty_fingerprint() -> Seq<char> {
    Seq::new(62, |i: int| '0')
}

/// The fingerprint of the summaries, where `digest` is the digest of
/// [`hashed_text`]: the fuzzy part, then the first 16 bytes of the digest
/// in hexadecimal notation.
pub open spec fn fingerprint(parts: Seq<Seq<char>>, digest: Seq<u8>) -> Seq<char> {
    if all_sentinel(parts) {
        empty_fingerprint()
    } else {
        fuzzy_hash(parts) + hex_lower(digest.take(16))
    }
}

/// The texts of the summaries.
pub open spec fn part_texts(parts: Seq<JarmPart>) -> Seq<Seq<char>> {
    parts.map_values(|part: JarmPart| part.raw@)
}

/// The first four fields of a summary.
struct Fields {
    cipher: String,
    version: String,
    protocol: String,
    extensions: String,
}

/// Splits a summary at its `|`.
fn split_fields(raw: &str) -> (fields: Fields)
    ensures
        fields.cipher@ == field(raw@, 0),
        fields.version@ == field(raw@, 1),
        fields.protocol@ == field(raw@, 2),
        fields.extensions@ == field(raw@, 3),
{
    broadcast use vstd::string::group_string_axioms;

    let mut cipher = String::new();
    let mut version = String::new();
    let mut protocol = String::new();
    let mut extensions = String::new();
    let mut seen: u8 = 0;
    let mut chars = raw.chars();
    let ghost mut done: Seq<char> = Seq::empty();
    loop
        invariant
            chars.obeys_prophetic_iter_laws(),
            chars.decrease() is Some,
            done + chars.remaining() == raw@,
            seen <= 4,
            seen < 4 ==> seen == bars(done),
            seen == 4 ==> bars(done) >= 4,
            cipher@ == field(done, 0),
            version@ == field(done, 1),
            protocol@ == field(done, 2),
            extensions@ == field(done, 3),
        ensures
            cipher@ == field(raw@, 0),
            version@ == field(raw@, 1),
            protocol@ == field(raw@, 2),
            extensions@ == field(raw@, 3),
        decreases chars.decrease()->0,
    {
        let ghost before = done;
        match chars.next() {
            Some(ch) => {
                proof {
                    done = before.push(ch);
                    assert(done.drop_last() =~= before);
                }
                if ch == '|' {
                    if seen < 4 {
                        seen = seen + 1;
                    }
                } else if seen == 0 {
                    cipher.push(ch);
                } else if seen == 1 {
                    version.push(ch);
                } else if seen == 2 {
                    protocol.push(ch);
                } else if seen == 3 {
                    extensions.push(ch);
                }
            },
            None => {
                break ;
            },
        }
    }
    Fields { cipher, version, protocol, extensions }
}

/// Whether no summary is that of a ServerHello.
pub(crate) fn is_unanswered(parts: &Vec<JarmPart>) -> (none: bool)
    ensures
        none == all_sentinel(part_texts(parts@)),
{
    proof {
        reveal_strlit("|||");
    }
    let marker = String::from_str("|||");
    let mut i: usize = 0;
    while i < parts.len()
        invariant
            i <= parts@.len(),
            marker@ == sentinel(),
            forall|j: int| 0 <= j < i ==> #[trigger] part_texts(parts@)[j] == sentinel(),
        decreases parts@.len() - i,
    {
        if !(parts[i].raw == marker) {
            assert(part_texts(parts@)[i as int] != sentinel());
            return false;
        }
        i = i + 1;
    }
    true
}

/// The fuzzy part of the fingerprint and the text for the digest.
fn fold_parts(parts: &Vec<JarmPart>) -> (folded: (String, String))
    ensures
        folded.0@ == fuzzy_hash(part_texts(parts@)),
        folded.1@ == hashed_text(part_texts(parts@)),
{
    let mut fuzzy = String::new();
    let mut alpns_and_ext = String::new();
    let ghost texts = part_texts(parts@);
    let ghost fuzzy_parts = texts.map_values(|raw: Seq<char>| fuzzy_part(raw));
    let ghost hashed_parts = texts.map_values(|raw: Seq<char>| hashed_part(raw));
    let mut i: usize = 0;
    while i < parts.len()
        invariant
            i <= parts@.len(),
            texts == part_texts(parts@),
            fuzzy_parts == texts.map_values(|raw: Seq<char>| fuzzy_part(raw)),
            hashed_parts == texts.map_values(|raw: Seq<char>| hashed_part(raw)),
            fuzzy@ == fuzzy_parts.take(i as int).flatten(),
            alpns_and_ext@ == hashed_parts.take(i as int).flatten(),
        decreases parts@.len() - i,
    {
        let fields = split_fields(parts[i].raw.as_str());
        let rank = cipher_bytes(fields.cipher.as_str());
        let letter = version_byte(fields.version.as_str());
        proof {
            let raw = texts[i as int];
            assert(fuzzy_parts.take(i + 1) =~= fuzzy_parts.take(i as int).push(fuzzy_part(raw)));
            assert(hashed_parts.take(i + 1) =~= hashed_parts.take(i as int).push(
                hashed_part(raw),
            ));
            fuzzy_parts.take(i as int).lemma_flatten_push(fuzzy_part(raw));
            hashed_parts.take(i as int).lemma_flatten_push(hashed_part(raw));
        }
        fuzzy.append(rank.as_str());
        fuzzy.push(letter);
        alpns_and_ext.append(fields.protocol.as_str());
        alpns_and_ext.append(fields.extensions.as_str());
        i = i + 1;
    }
    assert(fuzzy_parts.take(parts@.len() as int) =~= fuzzy_parts);
    assert(hashed_parts.take(parts@.len() as int) =~= hashed_parts);
    (fuzzy, alpns_and_ext)
}

/// The fingerprint of a scan without a ServerHello.
pub(crate) fn zeros() -> (text: String)
    ensures
        text@ == empty_fingerprint(),
{
    proof {
        reveal_strlit("00000000000000000000000000000000000000000000000000000000000000");
    }
    String::from_str("00000000000000000000000000000000000000000000000000000000000000")
}

/// The text whose digest ends the fingerprint of the summaries, see
/// [`hashed_text`].
pub fn alpns_and_extensions(parts: &Vec<JarmPart>) -> (text: String)
    ensures
        text@ == hashed_text(part_texts(parts@)),
{
    let (_, alpns_and_ext) = fold_parts(parts);
    alpns_and_ext
}

/// The fingerprint of the summaries, see [`fingerprint`], for a digest that
/// was computed before. `digest` has the 32 bytes of a SHA-256 digest.
pub fn fingerprint_with_digest(parts: &Vec<JarmPart>, digest: &[u8]) -> (text: String)
    requires
        digest@.len() == 32,
    ensures
        text@ == fingerprint(part_texts(parts@), digest@),
{
    if is_unanswered(parts) {
        return zeros();
    }
    let (mut fuzzy, _) = fold_parts(parts);
    let head = slice_subrange(digest, 0, 16);
    let suffix = hex_encode(head);
    fuzzy.append(suffix.as_str());
    fuzzy
}

/// Every summary gives three characters to the fingerprint.
pub proof fn lemma_fuzzy_hash_length(parts: Seq<Seq<char>>)
    ensures
        fuzzy_hash(parts).len() == 3 * parts.len(),
    decreases parts.len(),
{
    let pieces = parts.map_values(|raw: Seq<char>| fuzzy_part(raw));
    if parts.len() > 0 {
        lemma_fuzzy_hash_length(parts.drop_last());
        assert(pieces.drop_last() =~= parts.drop_last().map_values(
            |raw: Seq<char>| fuzzy_part(raw),
        ));
        assert(pieces =~= pieces.drop_last().push(pieces.last()));
        pieces.drop_last().lemma_flatten_push(pieces.last());
    }
}

/// A fingerprint of ten summaries has 62 characters, and it is made of
/// zeros where no summary is that of a ServerHello.
pub proof fn lemma_fingerprint_shape(parts: Seq<Seq<char>>, digest: Seq<u8>)
    requires
        digest.len() >= 16,
    ensures
        parts.len() == 10 ==> fingerprint(parts, digest).len() == 62,
        all_sentinel(parts) ==> fingerprint(parts, digest) == Seq::new(62, |i: int| '0'),
        !all_sentinel(parts) ==> fingerprint(parts, digest).len() == 3 * parts.len() + 32,
{
    lemma_fuzzy_hash_length(parts);
}

} // verus!
