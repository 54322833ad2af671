use vstd::prelude::*;

use core::marker::PhantomData;

use crate::bytes::{
    append_bytes, before_sep, after_sep, copy_range, count_byte, lemma_split_parts,
    split_once_byte,
};
use crate::hexcodec::{
    hex_bytes, hex_decode, hex_encode, hex_of_bytes, hex_valid, lemma_hex_of_bytes_valid,
    lemma_hex_valid_excludes,
};

verus! {

/// Marker for an account whose credential field still holds the
/// encrypted blob; no private key is accessible in this state.
#[derive(Clone, Copy, Debug)]
pub struct Locked;

/// Marker for an account whose credential field holds the decrypted
/// secret, reachable only through the explicit accessor.
#[derive(Clone, Copy, Debug)]
pub struct Unlocked;

/// How working with an account's credential can fail.
#[derive(Clone, Copy, Debug, PartialEq, Eq, Structural)]
pub enum CredentialError {
    /// The encrypted credential was malformed, or the cipher rejected it.
    DecryptionFailure,
    /// The wallet secret handed to re-encryption was malformed, or the
    /// cipher rejected the re-encryption.
    EncryptionFailure,
}

/// The byte separating the credential's components: `:`.
pub const CREDENTIAL_SEPARATOR: u8 = 58;

/// The longest data the cipher is fed in one call. The one-shot entry
/// points hand the whole buffer, plus one padding block, to the C
/// library, whose lengths are 31-bit signed; longer data does not return.
pub const MAX_CIPHER_DATA_LEN: usize = 0x7fff_ffef;

/// One custodial trading identity. While `Locked`, the credential field
/// holds the ASCII blob `hex(iv):hex(ciphertext)`; while `Unlocked`, it
/// holds the decrypted secret, reachable only through `private_key` —
/// and never through anything printable.
pub struct Account<State> {
    address: Vec<u8>,
    algorithm: u64,
    interval: u16,
    pair: (Vec<u8>, Vec<u8>),
    private_key: Vec<u8>,
    state: PhantomData<State>,
}

/// Ciphertext of AES-256-CBC under the given 32-byte key and 16-byte IV.
/// Left uninterpreted: the cipher's definition is the cipher library's
/// business; the contracts only relate decryption back to it.
pub uninterp spec fn aes256_cbc_encrypt(key: Seq<u8>, iv: Seq<u8>, plaintext: Seq<u8>) -> Seq<u8>;

/// What decryption promises: any plaintext whose encryption under this key
/// and IV is `data` comes back exactly.
pub open spec fn decryption_inverts(
    key: Seq<u8>,
    iv: Seq<u8>,
    data: Seq<u8>,
    r: Result<Vec<u8>, CredentialError>,
) -> bool {
    forall|pt: Seq<u8>| data == aes256_cbc_encrypt(key, iv, pt) ==> (r matches Ok(p) && p@ == pt)
}

/// Relies on openssl::symm::encrypt with Cipher::aes_256_cbc: given a
/// 32-byte key, a 16-byte IV and data within the one-shot length limit it
/// returns without panicking, and a success is exactly the CBC encryption
/// of the data under them.
#[verifier::external_body]
fn aes256_cbc_encrypt_call(key: &Vec<u8>, iv: &Vec<u8>, data: &Vec<u8>) -> (r: Result<Vec<u8>, CredentialError>)
    requires
        key@.len() == 32,
        iv@.len() == 16,
        data@.len() <= MAX_CIPHER_DATA_LEN,
    ensures
        r matches Ok(c) ==> c@ == aes256_cbc_encrypt(key@, iv@, data@),
        r matches Err(e) ==> e == CredentialError::EncryptionFailure,
{
    match openssl::symm::encrypt(openssl::symm::Cipher::aes_256_cbc(), key, Some(iv), data) {
        Ok(ciphertext) => Ok(ciphertext),
        Err(_) => Err(CredentialError::EncryptionFailure),
    }
}

/// Relies on openssl::symm::decrypt with Cipher::aes_256_cbc: given a
/// 32-byte key, a 16-byte IV and data within the one-shot length limit it
/// returns without panicking, and CBC decryption inverts CBC encryption
/// under the same key and IV.
#[verifier::external_body]
fn aes256_cbc_decrypt(key: &Vec<u8>, iv: &Vec<u8>, data: &Vec<u8>) -> (r: Result<Vec<u8>, CredentialError>)
    requires
        key@.len() == 32,
        iv@.len() == 16,
        data@.len() <= MAX_CIPHER_DATA_LEN,
    ensures
        decryption_inverts(key@, iv@, data@, r),
        r matches Err(e) ==> e == CredentialError::DecryptionFailure,
{
    match openssl::symm::decrypt(openssl::symm::Cipher::aes_256_cbc(), key, Some(iv), data) {
        Ok(plain) => Ok(plain),
        Err(_) => Err(CredentialError::DecryptionFailure),
    }
}

/// The credential's first component, the hexadecimal IV.
pub open spec fn credential_iv_hex(cred: Seq<u8>) -> Seq<u8> {
    before_sep(cred, CREDENTIAL_SEPARATOR)
}

/// The credential's second component, the hexadecimal ciphertext.
pub open spec fn credential_ct_hex(cred: Seq<u8>) -> Seq<u8> {
    after_sep(cred, CREDENTIAL_SEPARATOR)
}

/// The IV a well-formed credential encodes.
pub open spec fn credential_iv(cred: Seq<u8>) -> Seq<u8> {
    hex_bytes(credential_iv_hex(cred))
}

/// The ciphertext a well-formed credential encodes.
pub open spec fn credential_ciphertext(cred: Seq<u8>) -> Seq<u8> {
    hex_bytes(credential_ct_hex(cred))
}

/// The symmetric key a hexadecimal wallet secret encodes.
pub open spec fn wallet_key(key_hex: Seq<u8>) -> Seq<u8> {
    hex_bytes(key_hex)
}

/// A decryptable credential: exactly one separator, both components and
/// the wallet secret valid hexadecimal, a 32-byte key, a 16-byte IV, and
/// a ciphertext the cipher takes in one call.
pub open spec fn credential_well_formed(cred: Seq<u8>, key_hex: Seq<u8>) -> bool {
    &&& count_byte(cred, CREDENTIAL_SEPARATOR) == 1
    &&& hex_valid(credential_iv_hex(cred))
    &&& hex_valid(credential_ct_hex(cred))
    &&& hex_valid(key_hex)
    &&& wallet_key(key_hex).len() == 32
    &&& credential_iv(cred).len() == 16
    &&& credential_ciphertext(cred).len() <= MAX_CIPHER_DATA_LEN
}

/// A credential that decomposes around a lone separator does so uniquely.
pub proof fn lemma_credential_parts(cred: Seq<u8>, a: Seq<u8>, b: Seq<u8>)
    requires
        cred == a + seq![CREDENTIAL_SEPARATOR] + b,
        !a.contains(CREDENTIAL_SEPARATOR),
        !b.contains(CREDENTIAL_SEPARATOR),
    ensures
        credential_iv_hex(cred) == a,
        credential_ct_hex(cred) == b,
        count_byte(cred, CREDENTIAL_SEPARATOR) == 1,
{
    lemma_split_parts(cred, a, b, CREDENTIAL_SEPARATOR);
}

impl<State> Account<State> {
    /// The account's 20-byte on-chain address.
    pub closed spec fn spec_address(self) -> Seq<u8> {
        self.address@
    }

    /// Identifier of the account's algorithm in the algorithm catalog.
    pub closed spec fn spec_algorithm(self) -> u64 {
        self.algorithm
    }

    /// Signal interval, in minutes.
    pub closed spec fn spec_interval(self) -> u16 {
        self.interval
    }

    /// Symbols of the account's trading pair, base first.
    pub closed spec fn spec_pair(self) -> (Seq<u8>, Seq<u8>) {
        (self.pair.0@, self.pair.1@)
    }

    /// The credential field: the encrypted blob while `Locked`, the
    /// decrypted secret while `Unlocked`.
    pub closed spec fn spec_credential(self) -> Seq<u8> {
        self.private_key@
    }

    /// The account's on-chain address.
    pub fn address(&self) -> (r: &Vec<u8>)
        ensures
            r@ == self.spec_address(),
    {
        &self.address
    }

    /// The account's algorithm identifier.
    pub fn algorithm(&self) -> (r: u64)
        ensures
            r == self.spec_algorithm(),
    {
        self.algorithm
    }

    /// The account's signal interval, in minutes.
    pub fn interval(&self) -> (r: u16)
        ensures
            r == self.spec_interval(),
    {
        self.interval
    }

    /// The symbols of the account's trading pair.
    pub fn pair(&self) -> (r: &(Vec<u8>, Vec<u8>))
        ensures
            r.0@ == self.spec_pair().0,
            r.1@ == self.spec_pair().1,
    {
        &self.pair
    }
}

impl Account<Locked> {
    /// Builds a locked account around an encrypted credential blob.
    pub fn new(
        address: Vec<u8>,
        algorithm: u64,
        interval: u16,
        pair: (Vec<u8>, Vec<u8>),
        encrypted_private_key: Vec<u8>,
    ) -> (r: Account<Locked>)
        ensures
            r.spec_address() == address@,
            r.spec_algorithm() == algorithm,
            r.spec_interval() == interval,
            r.spec_pair().0 == pair.0@,
            r.spec_pair().1 == pair.1@,
            r.spec_credential() == encrypted_private_key@,
    {
        Account {
            address,
            algorithm,
            interval,
            pair,
            private_key: encrypted_private_key,
            state: PhantomData,
        }
    }

    /// Decrypts the account's credential with the deployment's wallet
    /// secret, producing the unlocked twin of the account.
    ///
    /// A malformed credential — wrong separator count, a component or a
    /// secret that is not hexadecimal, a key that is not 32 bytes, an IV
    /// that is not 16, or a ciphertext past the cipher's one-shot limit —
    /// is rejected as `DecryptionFailure`, as is anything the cipher
    /// itself refuses. When the ciphertext was produced by AES-256-CBC
    /// under this key and IV, unlocking returns exactly the plaintext
    /// that was encrypted.
    pub fn unlock(&self, key_hex: &Vec<u8>) -> (r: Result<Account<Unlocked>, CredentialError>)
        ensures
            r matches Err(e) ==> e == CredentialError::DecryptionFailure,
            !credential_well_formed(self.spec_credential(), key_hex@) ==> r is Err,
            r matches Ok(u) ==> {
                &&& credential_well_formed(self.spec_credential(), key_hex@)
                &&& u.spec_address() == self.spec_address()
                &&& u.spec_algorithm() == self.spec_algorithm()
                &&& u.spec_interval() == self.spec_interval()
                &&& u.spec_pair() == self.spec_pair()
            },
            forall|pt: Seq<u8>|
                credential_well_formed(self.spec_credential(), key_hex@)
                    && credential_ciphertext(self.spec_credential()) == aes256_cbc_encrypt(
                    wallet_key(key_hex@),
                    credential_iv(self.spec_credential()),
                    pt,
                ) ==> (r matches Ok(u) && u.spec_credential() == pt),
    {
        let parts = match split_once_byte(&self.private_key, CREDENTIAL_SEPARATOR) {
            Some(parts) => parts,
            None => {
                return Err(CredentialError::DecryptionFailure);
            },
        };
        proof {
            lemma_credential_parts(self.private_key@, parts.0@, parts.1@);
        }
        let key = match hex_decode(key_hex) {
            Some(key) => key,
            None => {
                return Err(CredentialError::DecryptionFailure);
            },
        };
        let iv = match hex_decode(&parts.0) {
            Some(iv) => iv,
            None => {
                return Err(CredentialError::DecryptionFailure);
            },
        };
        let encrypted = match hex_decode(&parts.1) {
            Some(encrypted) => encrypted,
            None => {
                return Err(CredentialError::DecryptionFailure);
            },
        };
        if key.len() != 32 || iv.len() != 16 || encrypted.len() > MAX_CIPHER_DATA_LEN {
            return Err(CredentialError::DecryptionFailure);
        }
        let plain = match aes256_cbc_decrypt(&key, &iv, &encrypted) {
            Ok(plain) => plain,
            Err(e) => {
                return Err(e);
            },
        };
        Ok(
            Account {
                address: copy_range(&self.address, 0, self.address.len()),
                algorithm: self.algorithm,
                interval: self.interval,
                pair: (
                    copy_range(&self.pair.0, 0, self.pair.0.len()),
                    copy_range(&self.pair.1, 0, self.pair.1.len()),
                ),
                private_key: plain,
                state: PhantomData,
            },
        )
    }
}

impl Account<Unlocked> {
    /// The inverse of `unlock`: re-encrypts the secret under the wallet
    /// secret and the given IV, restoring the locked form
    /// `hex(iv):hex(ciphertext)`. The same scheme as `unlock`, so a locked
    /// twin produced here unlocks back to this account's secret.
    pub fn lock(&self, key_hex: &Vec<u8>, iv: &Vec<u8>) -> (r: Result<Account<Locked>, CredentialError>)
        ensures
            r matches Err(e) ==> e == CredentialError::EncryptionFailure,
            !(hex_valid(key_hex@) && wallet_key(key_hex@).len() == 32 && iv@.len() == 16)
                ==> r is Err,
            r matches Ok(l) ==> {
                &&& l.spec_address() == self.spec_address()
                &&& l.spec_algorithm() == self.spec_algorithm()
                &&& l.spec_interval() == self.spec_interval()
                &&& l.spec_pair() == self.spec_pair()
                &&& credential_well_formed(l.spec_credential(), key_hex@)
                &&& credential_iv(l.spec_credential()) == iv@
                &&& credential_ciphertext(l.spec_credential()) == aes256_cbc_encrypt(
                    wallet_key(key_hex@),
                    iv@,
                    self.spec_credential(),
                )
            },
    {
        let key = match hex_decode(key_hex) {
            Some(key) => key,
            None => {
                return Err(CredentialError::EncryptionFailure);
            },
        };
        if key.len() != 32 || iv.len() != 16 || self.private_key.len() > MAX_CIPHER_DATA_LEN {
            return Err(CredentialError::EncryptionFailure);
        }
        let ciphertext = match aes256_cbc_encrypt_call(&key, iv, &self.private_key) {
            Ok(ciphertext) => ciphertext,
            Err(e) => {
                return Err(e);
            },
        };
        if ciphertext.len() > MAX_CIPHER_DATA_LEN {
            return Err(CredentialError::EncryptionFailure);
        }
        let mut credential = hex_encode(iv);
        credential.push(CREDENTIAL_SEPARATOR);
        let ciphertext_hex = hex_encode(&ciphertext);
        append_bytes(&mut credential, &ciphertext_hex);
        proof {
            lemma_hex_of_bytes_valid(iv@);
            lemma_hex_of_bytes_valid(ciphertext@);
            lemma_hex_valid_excludes(hex_of_bytes(iv@), CREDENTIAL_SEPARATOR);
            lemma_hex_valid_excludes(hex_of_bytes(ciphertext@), CREDENTIAL_SEPARATOR);
            assert(credential@ =~= hex_of_bytes(iv@) + seq![CREDENTIAL_SEPARATOR] + hex_of_bytes(
                ciphertext@,
            ));
            lemma_credential_parts(credential@, hex_of_bytes(iv@), hex_of_bytes(ciphertext@));
        }
        Ok(
            Account {
                address: copy_range(&self.address, 0, self.address.len()),
                algorithm: self.algorithm,
                interval: self.interval,
                pair: (
                    copy_range(&self.pair.0, 0, self.pair.0.len()),
                    copy_range(&self.pair.1, 0, self.pair.1.len()),
                ),
                private_key: credential,
                state: PhantomData,
            },
        )
    }

    /// The decrypted secret. Only an unlocked account exposes it.
    pub fn private_key(&self) -> (r: &Vec<u8>)
        ensures
            r@ == self.spec_credential(),
    {
        &self.private_key
    }
}

} // verus!
