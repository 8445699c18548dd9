//! The encrypted-search hasher: salted trigram hashing, cardinality-hiding
//! padding, and transliteration, backed by a process-wide reseeding random
//! generator behind a mutex.

use crate::errors::ApiError;
use rand::SeedableRng;
use vstd::prelude::*;

verus! {

/// The set of 32-bit trigram hashes that the search-helper library computes
/// for a string under a partition id and a salt: a function of those three
/// alone.
pub uninterp spec fn trigram_hashes(
    s: Seq<char>,
    partition_id: Option<Seq<char>>,
    salt: Seq<u8>,
) -> Set<u32>;

/// The transliteration the search-helper library applies: a deterministic
/// function of the characters alone.
pub uninterp spec fn transliterated(s: Seq<char>) -> Seq<char>;

/// The UTF-8 width of one character.
pub open spec fn char_utf8_len(c: char) -> nat {
    if (c as u32) < 0x80 {
        1
    } else if (c as u32) < 0x800 {
        2
    } else if (c as u32) < 0x10000 {
        3
    } else {
        4
    }
}

/// The UTF-8 byte length of a string: the bound the hasher checks before it
/// accepts an input.
pub open spec fn utf8_len(s: Seq<char>) -> nat
    decreases s.len(),
{
    if s.len() == 0 {
        0
    } else {
        char_utf8_len(s[0]) + utf8_len(s.drop_first())
    }
}

/// The characters the transliteration strips before mapping the rest.
pub open spec fn is_filtered_char(c: char) -> bool {
    ||| c == '!'
    ||| c == '@'
    ||| c == '#'
    ||| c == '$'
    ||| c == '%'
    ||| c == '^'
    ||| c == '&'
    ||| c == '*'
    ||| c == '('
    ||| c == ')'
    ||| c == '{'
    ||| c == '}'
    ||| c == '_'
    ||| c == '<'
    ||| c == '>'
    ||| c == ':'
    ||| c == ';'
    ||| c == ','
    ||| c == '.'
    ||| c == '"'
    ||| c == '\''
    ||| c == '`'
    ||| c == '|'
    ||| c == '+'
    ||| c == '='
    ||| c == '/'
    ||| c == '~'
    ||| c == '['
    ||| c == ']'
    ||| c == '\\'
    ||| c == '-'
}

/// True of a string none of whose characters is stripped by the
/// transliteration filter.
pub open spec fn no_filtered_chars(s: Seq<char>) -> bool {
    forall|i: int| 0 <= i < s.len() ==> !is_filtered_char(#[trigger] s[i])
}

/// The view of an optional string.
pub open spec fn opt_str_view(o: Option<String>) -> Option<Seq<char>> {
    match o {
        Some(s) => Some(s@),
        None => None,
    }
}

/// Hash determinism: two results of the trigram hasher for identical
/// arguments hold exactly the same values, each being the trigram-hash set
/// of those arguments.
pub proof fn lemma_hash_determinism(
    s: Seq<char>,
    partition_id: Option<Seq<char>>,
    salt: Seq<u8>,
    first: Seq<u32>,
    second: Seq<u32>,
)
    requires
        forall|h: u32| first.contains(h) <==> trigram_hashes(s, partition_id, salt).contains(h),
        forall|h: u32| second.contains(h) <==> trigram_hashes(s, partition_id, salt).contains(h),
    ensures
        forall|h: u32| first.contains(h) <==> second.contains(h),
{
}

/// Padding superset: a result of the padded hasher contains every value of
/// the plain hasher's result for the same arguments, since the real
/// trigram-hash set is contained in both.
pub proof fn lemma_padding_superset(
    s: Seq<char>,
    partition_id: Option<Seq<char>>,
    salt: Seq<u8>,
    plain: Seq<u32>,
    padded: Seq<u32>,
)
    requires
        forall|h: u32| plain.contains(h) <==> trigram_hashes(s, partition_id, salt).contains(h),
        forall|h: u32| trigram_hashes(s, partition_id, salt).contains(h) ==> padded.contains(h),
    ensures
        forall|h: u32| plain.contains(h) ==> padded.contains(h),
{
}

/// The searchable-encryption hasher. Its one field is the reseeding ChaCha
/// generator behind its mutex, whose type cannot be declared to the verifier
/// (the type's bounds name outside traits), so the struct is held opaque.
#[verifier::external_body]
pub struct EncryptedSearch {
    rng: std::sync::Mutex<recrypt::api::DefaultRng>,
}

/// Relies on ironcore_search_helpers::generate_hashes_for_string: it rejects
/// exactly the inputs over 200 bytes with its message, and otherwise returns
/// the distinct trigram hashes of the string under the partition id and
/// salt, a deterministic set handed out in arbitrary order.
#[verifier::external_body]
fn engine_hashes(s: &str, partition_id: &Option<String>, salt: &Vec<u8>) -> (r: Result<
    Vec<u32>,
    ApiError,
>)
    ensures
        r is Ok <==> utf8_len(s@) <= 200,
        r matches Ok(v) ==> v@.no_duplicates() && (forall|h: u32|
            v@.contains(h) <==> trigram_hashes(s@, opt_str_view(*partition_id), salt@).contains(
                h,
            )),
        r matches Err(e) ==> e@ is EngineError,
{
    match ironcore_search_helpers::generate_hashes_for_string(s, partition_id.as_deref(), salt) {
        Ok(hashes) => Ok(hashes.into_iter().collect()),
        Err(message) => Err(ApiError::EngineError { message }),
    }
}

/// Relies on ironcore_search_helpers::transliterate_string: a deterministic
/// map over the characters. Its source strips the filtered characters and
/// maps each remaining character either to itself (when the transliteration
/// table has nothing for it) or to the lowercase Latin text the table gives;
/// the table leaves printable ASCII unchanged, so a result without filtered
/// characters transliterates to itself.
#[verifier::external_body]
fn engine_transliterate(s: &str) -> (r: String)
    ensures
        r@ == transliterated(s@),
        no_filtered_chars(r@) ==> transliterated(r@) == r@,
{
    ironcore_search_helpers::transliterate_string(s)
}

impl EncryptedSearch {
    /// Relies on rand's ReseedingRng over rand_chacha's ChaChaCore: a
    /// generator seeded from the operating system that reseeds itself after
    /// ten mebibytes, guarded by a mutex.
    #[verifier::external_body]
    pub fn new() -> EncryptedSearch {
        EncryptedSearch {
            rng: std::sync::Mutex::new(
                rand::rngs::adapter::ReseedingRng::new(
                    rand_chacha::ChaChaCore::from_entropy(),
                    // 10 MiB between reseeds
                    10 * 1024 * 1024,
                    rand::rngs::OsRng,
                ),
            ),
        }
    }

    /// Relies on ironcore_search_helpers::generate_hashes_for_string_with_padding:
    /// the same rejection bound, and otherwise a set that holds every real
    /// trigram hash together with randomly drawn decoys, so the count alone
    /// does not reveal how many trigrams were found.
    #[verifier::external_body]
    fn engine_hashes_padded(&self, s: &str, partition_id: &Option<String>, salt: &Vec<u8>) -> (r:
        Result<Vec<u32>, ApiError>)
        ensures
            r is Ok <==> utf8_len(s@) <= 200,
            r matches Ok(v) ==> v@.no_duplicates() && (forall|h: u32|
                trigram_hashes(s@, opt_str_view(*partition_id), salt@).contains(h)
                    ==> v@.contains(h)),
            r matches Err(e) ==> e@ is EngineError,
    {
        match ironcore_search_helpers::generate_hashes_for_string_with_padding(
            s,
            partition_id.as_deref(),
            salt,
            &self.rng,
        ) {
            Ok(hashes) => Ok(hashes.into_iter().collect()),
            Err(message) => Err(ApiError::EngineError { message }),
        }
    }

    /// Hash every trigram of the string, prefixed with the partition id and
    /// salt: a deterministic set of distinct 32-bit values, rejected only
    /// when the input is over 200 bytes.
    pub fn generateHashesForString(
        &self,
        s: &str,
        salt: &Vec<u8>,
        partition_id: Option<String>,
    ) -> (r: Result<Vec<u32>, ApiError>)
        ensures
            r is Ok <==> utf8_len(s@) <= 200,
            r matches Ok(v) ==> v@.no_duplicates() && (forall|h: u32|
                v@.contains(h) <==> trigram_hashes(s@, opt_str_view(partition_id), salt@).contains(
                    h,
                )),
            r matches Err(e) ==> e@ is EngineError,
    {
        engine_hashes(s, &partition_id, salt)
    }

    /// As `generateHashesForString`, plus a randomized number of decoy
    /// values merged in: every real trigram hash is in the result, but the
    /// result is not reproducible.
    pub fn generateHashesForStringWithPadding(
        &self,
        s: &str,
        salt: &Vec<u8>,
        partition_id: Option<String>,
    ) -> (r: Result<Vec<u32>, ApiError>)
        ensures
            r is Ok <==> utf8_len(s@) <= 200,
            r matches Ok(v) ==> v@.no_duplicates() && (forall|h: u32|
                trigram_hashes(s@, opt_str_view(partition_id), salt@).contains(h) ==> v@.contains(
                    h,
                )),
            r matches Err(e) ==> e@ is EngineError,
    {
        self.engine_hashes_padded(s, &partition_id, salt)
    }

    /// Latinize a string with the same map the tokenizer uses: deterministic,
    /// and idempotent on every result free of filtered characters.
    pub fn transliterateString(s: &str) -> (r: String)
        ensures
            r@ == transliterated(s@),
            no_filtered_chars(r@) ==> transliterated(r@) == r@,
    {
        engine_transliterate(s)
    }
}

} // verus!
