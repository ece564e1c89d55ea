//! The keystore record: the immutable output bundle of one run, with
//! every byte field hex-encoded for storage or display.

use vstd::prelude::*;
use vstd::string::{StringExecFns, StringSliceAdditionalSpecFns};
use vstd::utf8::{encode_utf8, is_ascii_chars_encode_utf8};
use crate::ascii::{ascii_lower, to_ascii_lower};
use crate::clock;
use crate::digest::{md5_digest, md5_of};
use crate::entropy;
use crate::envelope;
use crate::hexenc::{
    hex_decode, hex_encode, hex_of, is_hex_digit, lemma_hex_of_digits, lemma_hex_of_injective,
    lemma_hex_of_len,
};
use crate::sealing::{aes128_seal, aes256_seal};
use crate::signing;
use crate::signing::scalar_ok;

verus! {

/// What can go wrong while a record is produced.
#[derive(Clone, Copy, Debug, PartialEq, Eq, Structural)]
pub enum KeystoreError {
    /// The password source yielded nothing.
    MissingCredential,
    /// Every signing-key candidate within the retry bound was rejected.
    KeyDerivationFailure,
}

/// One keystore record. Random-key mode fills `pk`, `nonce` and `aad`
/// and leaves the password fields empty; password mode fills all five.
#[derive(Debug)]
pub struct Keystore {
    /// Hex of the sealed payload: the ciphertext with the tag appended.
    pub pk: String,
    /// Hex of the 12-byte nonce the payload was sealed under.
    pub nonce: String,
    /// The associated data as text: the timestamp in random-key mode,
    /// the hex of the signing-key bytes in password mode.
    pub aad: String,
    /// Password mode only: the password digest, "0x"-prefixed hex.
    pub digest: Option<String>,
    /// Password mode only: the signing-key bytes, "0x"-prefixed hex.
    pub sk: Option<String>,
}

/// How a random-key record relates to the key, nonce and filler drawn
/// while it was made: the payload is the filler sealed under the key and
/// nonce with the record's own associated-data text bound.
pub open spec fn random_record_matches(
    k: Keystore,
    key: Seq<u8>,
    nonce: Seq<u8>,
    filler: Seq<u8>,
) -> bool {
    &&& k.nonce@ == hex_of(nonce)
    &&& k.pk@ == hex_of(aes256_seal(key, nonce, encode_utf8(k.aad@), filler))
    &&& k.digest is None
    &&& k.sk is None
}

/// How a password-mode record relates to the password bytes and the
/// signing key and nonce drawn while it was made: the payload is the
/// lowercased signing-key bytes, sealed under the lowercased digest with
/// the raw signing-key bytes bound as associated data.
pub open spec fn password_record_matches(
    k: Keystore,
    password: Seq<u8>,
    sk: Seq<u8>,
    nonce: Seq<u8>,
) -> bool {
    &&& k.digest is Some
    &&& k.digest->Some_0@ == seq!['0', 'x'] + hex_of(md5_of(password))
    &&& k.sk is Some
    &&& k.sk->Some_0@ == seq!['0', 'x'] + hex_of(sk)
    &&& k.aad@ == hex_of(sk)
    &&& k.nonce@ == hex_of(nonce)
    &&& k.pk@ == hex_of(aes128_seal(ascii_lower(md5_of(password)), nonce, sk, ascii_lower(sk)))
}

/// The payload field could only have come from the nonce it was sealed
/// under: sealing the same password-mode plaintext under any other
/// 12-byte nonce gives other bytes.
pub open spec fn payload_nonce_sensitive(
    k: Keystore,
    password: Seq<u8>,
    sk: Seq<u8>,
    nonce: Seq<u8>,
) -> bool {
    forall|n2: Seq<u8>|
        n2.len() == 12 && n2 != nonce ==> k.pk@ != hex_of(
            #[trigger] aes128_seal(ascii_lower(md5_of(password)), n2, sk, ascii_lower(sk)),
        )
}

/// Hex with the "0x" prefix that the password-mode fields carry.
pub fn prefixed_hex(data: &[u8]) -> (r: String)
    ensures
        r@ == seq!['0', 'x'] + hex_of(data@),
{
    let mut s = String::from_str("0x");
    proof {
        reveal_strlit("0x");
        assert(s@ =~= seq!['0', 'x']);
    }
    let h = hex_encode(data);
    s.append(h.as_str());
    s
}

impl Keystore {
    /// Random-key mode: draw a fresh 256-bit key and 32 bytes of filler,
    /// seal the filler under the key with the current time bound as
    /// associated data, and return the key beside the record. The caller
    /// is responsible for keeping the key; the record alone cannot
    /// recover the payload.
    pub fn create() -> (r: (Vec<u8>, Keystore))
        ensures
            r.0@.len() == 32,
            r.1.nonce@.len() == 24,
            r.1.pk@.len() == 96,
            encode_utf8(r.1.aad@).len() <= 64,
            exists|nonce: Seq<u8>, filler: Seq<u8>|
                nonce.len() == 12 && filler.len() == 32 && #[trigger] random_record_matches(
                    r.1,
                    r.0@,
                    nonce,
                    filler,
                ),
    {
        let key = entropy::fresh_key();
        let filler = entropy::fresh_filler();
        let aad_text = clock::utc_now_text();
        proof {
            is_ascii_chars_encode_utf8(aad_text@);
        }
        let aad_bytes = aad_text.as_str().as_bytes();
        let (nonce, sealed) = envelope::encrypt(key.as_slice(), filler.as_slice(), aad_bytes);
        let record = Keystore {
            pk: hex_encode(sealed.as_slice()),
            nonce: hex_encode(nonce.as_slice()),
            aad: aad_text,
            digest: None,
            sk: None,
        };
        proof {
            lemma_hex_of_len(sealed@);
            lemma_hex_of_len(nonce@);
            assert(random_record_matches(record, key@, nonce@, filler@));
        }
        (key, record)
    }

    /// Random-key mode without handing the key back: the record of a
    /// fresh run, made exactly as `create` makes it.
    pub fn new() -> (r: Keystore)
        ensures
            r.nonce@.len() == 24,
            r.pk@.len() == 96,
            exists|key: Seq<u8>, nonce: Seq<u8>, filler: Seq<u8>|
                key.len() == 32 && nonce.len() == 12 && filler.len() == 32
                    && #[trigger] random_record_matches(r, key, nonce, filler),
    {
        let (key, record) = Keystore::create();
        proof {
            let (nonce, filler) = choose|nonce: Seq<u8>, filler: Seq<u8>|
                nonce.len() == 12 && filler.len() == 32 && #[trigger] random_record_matches(
                    record,
                    key@,
                    nonce,
                    filler,
                );
            assert(random_record_matches(record, key@, nonce, filler));
        }
        record
    }
}

/// Open a random-key record with the key that `create` returned beside
/// it: decode the nonce and payload fields and decrypt with the record's
/// own associated-data text bound. Whatever key, nonce and filler the
/// record was made from, exactly that filler comes back.
pub fn open_random_record(key: &[u8], k: &Keystore) -> (r: Option<Vec<u8>>)
    requires
        key@.len() == 32,
        k.pk@.len() == 96,
        encode_utf8(k.aad@).len() <= 0xffff_ffff,
        exists|nonce: Seq<u8>, filler: Seq<u8>|
            nonce.len() == 12 && filler.len() == 32 && #[trigger] random_record_matches(
                *k,
                key@,
                nonce,
                filler,
            ),
    ensures
        r is Some,
        forall|nonce: Seq<u8>, filler: Seq<u8>|
            nonce.len() == 12 && filler.len() == 32 && #[trigger] random_record_matches(
                *k,
                key@,
                nonce,
                filler,
            ) ==> r->Some_0@ == filler,
{
    let ghost (nonce0, filler0) = choose|nonce: Seq<u8>, filler: Seq<u8>|
        nonce.len() == 12 && filler.len() == 32 && #[trigger] random_record_matches(
            *k,
            key@,
            nonce,
            filler,
        );
    proof {
        assert(k.nonce@ == hex_of(nonce0));
        assert(k.pk@ == hex_of(aes256_seal(key@, nonce0, encode_utf8(k.aad@), filler0)));
    }
    let nonce_bytes = hex_decode(k.nonce.as_str());
    let sealed = hex_decode(k.pk.as_str());
    proof {
        lemma_hex_of_injective(nonce_bytes@, nonce0);
        lemma_hex_of_injective(sealed@, aes256_seal(key@, nonce0, encode_utf8(k.aad@), filler0));
        lemma_hex_of_len(sealed@);
        lemma_hex_of_len(nonce_bytes@);
    }
    let aad_bytes = k.aad.as_str().as_bytes();
    let opened = envelope::decrypt(key, nonce_bytes.as_slice(), aad_bytes, sealed.as_slice());
    proof {
        assert(sealed@ == aes256_seal(key@, nonce_bytes@, aad_bytes@, filler0));
        if opened is None {
            assert(false);
        }
        assert forall|nonce: Seq<u8>, filler: Seq<u8>|
            nonce.len() == 12 && filler.len() == 32 && random_record_matches(
                *k,
                key@,
                nonce,
                filler,
            ) implies opened->Some_0@ == filler by {
            lemma_hex_of_injective(nonce_bytes@, nonce);
            lemma_hex_of_injective(
                sealed@,
                aes256_seal(key@, nonce, encode_utf8(k.aad@), filler),
            );
        }
    }
    opened
}

/// Making a random-key record and opening it again with its own key
/// gives back exactly the filler that was sealed into it.
pub fn create_and_reopen() -> (r: (Keystore, Option<Vec<u8>>))
    ensures
        r.1 is Some,
        exists|key: Seq<u8>, nonce: Seq<u8>, filler: Seq<u8>|
            key.len() == 32 && nonce.len() == 12 && filler.len() == 32
                && #[trigger] random_record_matches(r.0, key, nonce, filler) && r.1->Some_0@
                == filler,
{
    let (key, record) = Keystore::create();
    proof {
        let (nonce, filler) = choose|nonce: Seq<u8>, filler: Seq<u8>|
            nonce.len() == 12 && filler.len() == 32 && #[trigger] random_record_matches(
                record,
                key@,
                nonce,
                filler,
            );
        assert(random_record_matches(record, key@, nonce, filler));
    }
    let opened = open_random_record(key.as_slice(), &record);
    let result = (record, opened);
    proof {
        let (nonce, filler) = choose|nonce: Seq<u8>, filler: Seq<u8>|
            nonce.len() == 12 && filler.len() == 32 && #[trigger] random_record_matches(
                result.0,
                key@,
                nonce,
                filler,
            );
        assert(random_record_matches(result.0, key@, nonce, filler));
        assert(result.1->Some_0@ == filler);
    }
    result
}

impl Default for Keystore {
    /// A fresh random-key record, made exactly as `new` makes one.
    fn default() -> (r: Keystore)
        ensures
            r.nonce@.len() == 24,
            r.pk@.len() == 96,
            exists|key: Seq<u8>, nonce: Seq<u8>, filler: Seq<u8>|
                key.len() == 32 && nonce.len() == 12 && filler.len() == 32
                    && #[trigger] random_record_matches(r, key, nonce, filler),
    {
        Keystore::new()
    }
}

/// Password mode: digest the password, draw a signing key from the seeded
/// generator, and seal the lowercased signing-key bytes under the
/// lowercased digest with the raw signing-key bytes bound as associated
/// data. An empty password is refused; a run of rejected candidates that
/// reaches the retry bound fails key derivation.
pub fn keystore_create(password: &str, filler_seed: u64) -> (r: Result<Keystore, KeystoreError>)
    ensures
        password@.len() == 0 <==> r == Result::<Keystore, KeystoreError>::Err(
            KeystoreError::MissingCredential,
        ),
        password@.len() > 0 ==> (r is Ok || r == Result::<Keystore, KeystoreError>::Err(
            KeystoreError::KeyDerivationFailure,
        )),
        (match r {
            Ok(k) => {
                &&& k.nonce@.len() == 24
                &&& k.pk@.len() == 96
                &&& k.aad@.len() == 64
                &&& k.digest matches Some(d) && d@.len() == 34
                &&& k.sk matches Some(s) && s@.len() == 66
                &&& exists|sk: Seq<u8>, nonce: Seq<u8>|
                    sk.len() == 32 && scalar_ok(sk) && nonce.len() == 12
                        && #[trigger] password_record_matches(
                        k,
                        password.spec_bytes(),
                        sk,
                        nonce,
                    ) && payload_nonce_sensitive(k, password.spec_bytes(), sk, nonce)
            },
            Err(_) => true,
        }),
{
    if password.is_empty() {
        return Err(KeystoreError::MissingCredential);
    }
    let digest = md5_digest(password.as_bytes());
    let mut rng = entropy::filler_rng(filler_seed);
    let sk = match signing::generate_signing_key(&mut rng) {
        Some(sk) => sk,
        None => {
            return Err(KeystoreError::KeyDerivationFailure);
        },
    };
    let key = to_ascii_lower(digest.as_slice());
    let data = to_ascii_lower(sk.as_slice());
    let (nonce, sealed) = envelope::encrypt_derived(
        key.as_slice(),
        data.as_slice(),
        sk.as_slice(),
    );
    let record = Keystore {
        pk: hex_encode(sealed.as_slice()),
        nonce: hex_encode(nonce.as_slice()),
        aad: hex_encode(sk.as_slice()),
        digest: Some(prefixed_hex(digest.as_slice())),
        sk: Some(prefixed_hex(sk.as_slice())),
    };
    proof {
        lemma_hex_of_len(sealed@);
        lemma_hex_of_len(nonce@);
        lemma_hex_of_len(sk@);
        lemma_hex_of_len(digest@);
        assert(password_record_matches(record, password.spec_bytes(), sk@, nonce@));
        assert forall|n2: Seq<u8>| n2.len() == 12 && n2 != nonce@ implies record.pk@ != hex_of(
            aes128_seal(ascii_lower(md5_of(password.spec_bytes())), n2, sk@, ascii_lower(sk@)),
        ) by {
            lemma_hex_of_injective(
                sealed@,
                aes128_seal(ascii_lower(md5_of(password.spec_bytes())), n2, sk@, ascii_lower(sk@)),
            );
        }
        assert(payload_nonce_sensitive(record, password.spec_bytes(), sk@, nonce@));
    }
    Ok(record)
}

/// The digest is deterministic in the password: two password-mode
/// records for the same password carry the same digest field, whatever
/// signing keys and nonces were drawn.
pub proof fn lemma_digest_deterministic(
    k1: Keystore,
    k2: Keystore,
    password: Seq<u8>,
    sk1: Seq<u8>,
    nonce1: Seq<u8>,
    sk2: Seq<u8>,
    nonce2: Seq<u8>,
)
    requires
        password_record_matches(k1, password, sk1, nonce1),
        password_record_matches(k2, password, sk2, nonce2),
    ensures
        k1.digest is Some && k2.digest is Some,
        k1.digest->Some_0@ == k2.digest->Some_0@,
{
}

/// Randomizing the nonce changes the payload: two password-mode records
/// for the same password and signing key, sealed under distinct nonces,
/// differ in their payload field. The nonce sensitivity of the first
/// record is the clause `keystore_create` states beside the record
/// relation.
pub proof fn lemma_nonce_randomization_changes_payload(
    k1: Keystore,
    k2: Keystore,
    password: Seq<u8>,
    sk: Seq<u8>,
    n1: Seq<u8>,
    n2: Seq<u8>,
)
    requires
        password_record_matches(k1, password, sk, n1),
        password_record_matches(k2, password, sk, n2),
        payload_nonce_sensitive(k1, password, sk, n1),
        n2.len() == 12,
        n1 != n2,
    ensures
        k1.pk@ != k2.pk@,
{
}

/// Distinct nonce draws give distinct nonce fields: the hex encoding in
/// the record is injective.
pub proof fn lemma_distinct_nonces_distinct_fields(
    k1: Keystore,
    k2: Keystore,
    key1: Seq<u8>,
    key2: Seq<u8>,
    n1: Seq<u8>,
    n2: Seq<u8>,
    f1: Seq<u8>,
    f2: Seq<u8>,
)
    requires
        random_record_matches(k1, key1, n1, f1),
        random_record_matches(k2, key2, n2, f2),
        n1 != n2,
    ensures
        k1.nonce@ != k2.nonce@,
{
    lemma_hex_of_injective(n1, n2);
}

/// A random-key record's payload and nonce fields are bare lowercase
/// hex: every character is one of the sixteen digits, so neither field
/// carries the "0x" marker of the password-mode fields.
pub proof fn lemma_random_record_fields_bare_hex(
    k: Keystore,
    key: Seq<u8>,
    nonce: Seq<u8>,
    filler: Seq<u8>,
)
    requires
        random_record_matches(k, key, nonce, filler),
    ensures
        forall|i: int| 0 <= i < k.pk@.len() ==> is_hex_digit(#[trigger] k.pk@[i]),
        forall|i: int| 0 <= i < k.nonce@.len() ==> is_hex_digit(#[trigger] k.nonce@[i]),
{
    lemma_hex_of_digits(aes256_seal(key, nonce, encode_utf8(k.aad@), filler));
    lemma_hex_of_digits(nonce);
}

} // verus!
