//! Password hashing with PBKDF2 over HMAC.
//!
//! A [`Pbkdf2Hash`] holds the hash function, the number of iterations and the
//! salt. Its parameters can be read as a map of strings ([`Pbkdf2Hash::get_parameters`])
//! and set from strings ([`Pbkdf2Hash::set_parameter`]); what is read back
//! can be set again and leaves the hasher as it was.

use vstd::prelude::*;
use vstd::hash_map::StringHashMap;

use crate::decimal::{
    all_digits, decimal, digits_value, lemma_decimal_canonical, lemma_decimal_unique,
    lemma_parse_decimal, parse_usize, parse_usize_spec, usize_to_decimal,
};
use crate::pass::ErrorCode;
use super::crypto::{
    derive_sha1, derive_sha224, derive_sha256, derive_sha384, derive_sha512, derive_sha512_224,
    derive_sha512_256, os_random_bytes, pbkdf2_hmac_sha1, pbkdf2_hmac_sha224, pbkdf2_hmac_sha256,
    pbkdf2_hmac_sha384, pbkdf2_hmac_sha512, pbkdf2_hmac_sha512_224, pbkdf2_hmac_sha512_256,
};

verus! {

/// The hash functions that HMAC can be built on.
#[derive(Clone, Copy, Debug, PartialEq, Eq, Structural)]
pub enum HashFunction {
    Sha1,
    Sha224,
    Sha256,
    Sha384,
    Sha512,
    Sha512Trunc224,
    Sha512Trunc256,
}

/// The hash function of a new hasher.
pub const DEFAULT_HASH_FUNCTION: HashFunction = HashFunction::Sha256;

/// The salt length of a new hasher, in bytes.
pub const DEFAULT_SALT_LENGTH: usize = 16;

/// The shortest salt accepted, in bytes.
pub const MIN_SALT_LENGTH: usize = 4;

/// The longest salt accepted, in bytes.
pub const MAX_SALT_LENGTH: usize = 256;

/// The number of iterations of a new hasher.
pub const DEFAULT_ITER: usize = 45000;

/// The fewest iterations that `set_parameter` accepts.
pub const MIN_ITER: usize = 10000;

/// The most iterations that `set_parameter` accepts.
pub const MAX_ITER: usize = 200000;

/// A PBKDF2 password hasher: the hash function under HMAC, the number of
/// iterations and the salt.
pub struct Pbkdf2Hash {
    pub hash_function: HashFunction,
    pub nb_iter: usize,
    pub salt: Vec<u8>,
}

/// What a [`Pbkdf2Hash`] holds, with the salt as a sequence of bytes.
pub struct Pbkdf2Settings {
    pub hash_function: HashFunction,
    pub nb_iter: usize,
    pub salt: Seq<u8>,
}

impl View for Pbkdf2Hash {
    type V = Pbkdf2Settings;

    open spec fn view(&self) -> Pbkdf2Settings {
        Pbkdf2Settings { hash_function: self.hash_function, nb_iter: self.nb_iter, salt: self.salt@ }
    }
}

/// The identifier of this hashing scheme: `pbkdf2`.
pub open spec fn pbkdf2_id() -> Seq<char> {
    seq!['p', 'b', 'k', 'd', 'f', '2']
}

/// The name of the iterations parameter: `iter`.
pub open spec fn iter_key() -> Seq<char> {
    seq!['i', 't', 'e', 'r']
}

/// The name of the hash function parameter: `hash`.
pub open spec fn hash_key() -> Seq<char> {
    seq!['h', 'a', 's', 'h']
}

/// The name under which a hash function is read and set.
pub open spec fn hash_function_name(h: HashFunction) -> Seq<char> {
    match h {
        HashFunction::Sha1 => seq!['s', 'h', 'a', '1'],
        HashFunction::Sha224 => seq!['s', 'h', 'a', '2', '2', '4'],
        HashFunction::Sha256 => seq!['s', 'h', 'a', '2', '5', '6'],
        HashFunction::Sha384 => seq!['s', 'h', 'a', '3', '8', '4'],
        HashFunction::Sha512 => seq!['s', 'h', 'a', '5', '1', '2'],
        HashFunction::Sha512Trunc224 => seq!['s', 'h', 'a', '5', '1', '2', 't', '2', '2', '4'],
        HashFunction::Sha512Trunc256 => seq!['s', 'h', 'a', '5', '1', '2', 't', '2', '5', '6'],
    }
}

/// The hash function whose name is exactly `name`, if there is one.
pub open spec fn hash_function_from_name(name: Seq<char>) -> Option<HashFunction> {
    if name == hash_function_name(HashFunction::Sha1) {
        Some(HashFunction::Sha1)
    } else if name == hash_function_name(HashFunction::Sha224) {
        Some(HashFunction::Sha224)
    } else if name == hash_function_name(HashFunction::Sha256) {
        Some(HashFunction::Sha256)
    } else if name == hash_function_name(HashFunction::Sha384) {
        Some(HashFunction::Sha384)
    } else if name == hash_function_name(HashFunction::Sha512) {
        Some(HashFunction::Sha512)
    } else if name == hash_function_name(HashFunction::Sha512Trunc224) {
        Some(HashFunction::Sha512Trunc224)
    } else if name == hash_function_name(HashFunction::Sha512Trunc256) {
        Some(HashFunction::Sha512Trunc256)
    } else {
        None
    }
}

/// The output length of a hash function, in bytes: the length of the
/// derived key.
pub open spec fn digest_len(h: HashFunction) -> usize {
    match h {
        HashFunction::Sha1 => 20,
        HashFunction::Sha224 => 28,
        HashFunction::Sha256 => 32,
        HashFunction::Sha384 => 48,
        HashFunction::Sha512 => 64,
        HashFunction::Sha512Trunc224 => 28,
        HashFunction::Sha512Trunc256 => 32,
    }
}

/// The key derived from `password` under the settings `s`: PBKDF2 with HMAC
/// over the hash function, `s.nb_iter` rounds and the salt, as long as one
/// output of the hash function.
pub open spec fn pbkdf2_output(s: Pbkdf2Settings, password: Seq<u8>) -> Seq<u8> {
    let rounds = s.nb_iter;
    let len = digest_len(s.hash_function);
    match s.hash_function {
        HashFunction::Sha1 => pbkdf2_hmac_sha1(password, s.salt, rounds, len),
        HashFunction::Sha224 => pbkdf2_hmac_sha224(password, s.salt, rounds, len),
        HashFunction::Sha256 => pbkdf2_hmac_sha256(password, s.salt, rounds, len),
        HashFunction::Sha384 => pbkdf2_hmac_sha384(password, s.salt, rounds, len),
        HashFunction::Sha512 => pbkdf2_hmac_sha512(password, s.salt, rounds, len),
        HashFunction::Sha512Trunc224 => pbkdf2_hmac_sha512_224(password, s.salt, rounds, len),
        HashFunction::Sha512Trunc256 => pbkdf2_hmac_sha512_256(password, s.salt, rounds, len),
    }
}

/// The parameters of the settings `s` as strings: `iter` to the number of
/// iterations in canonical decimal, `hash` to the name of the hash function.
pub open spec fn parameters(s: Pbkdf2Settings) -> Map<Seq<char>, Seq<char>> {
    map![iter_key() => decimal(s.nb_iter as nat), hash_key() => hash_function_name(s.hash_function)]
}

/// What setting the parameter `name` to `value` does to the settings `s`:
/// the new settings, or the error when the name is unknown or the value is
/// refused. `iter` takes what `str::parse::<usize>` reads, from `MIN_ITER` to
/// `MAX_ITER`; `hash` takes the name of a hash function.
pub open spec fn set_parameter_outcome(s: Pbkdf2Settings, name: Seq<char>, value: Seq<char>) -> Result<
    Pbkdf2Settings,
    ErrorCode,
> {
    if name == iter_key() {
        match parse_usize_spec(value) {
            Some(i) => if MIN_ITER <= i && i <= MAX_ITER {
                Ok(Pbkdf2Settings { hash_function: s.hash_function, nb_iter: i, salt: s.salt })
            } else {
                Err(ErrorCode::InvalidPasswordFormat)
            },
            None => Err(ErrorCode::InvalidPasswordFormat),
        }
    } else if name == hash_key() {
        match hash_function_from_name(value) {
            Some(h) => Ok(Pbkdf2Settings { hash_function: h, nb_iter: s.nb_iter, salt: s.salt }),
            None => Err(ErrorCode::InvalidPasswordFormat),
        }
    } else {
        Err(ErrorCode::InvalidPasswordFormat)
    }
}

/// What setting the salt to `salt` does to the settings `s`: a salt of
/// `MIN_SALT_LENGTH` to `MAX_SALT_LENGTH` bytes replaces the old one, any
/// other is refused.
pub open spec fn set_salt_outcome(s: Pbkdf2Settings, salt: Seq<u8>) -> Result<Pbkdf2Settings, ErrorCode> {
    if MIN_SALT_LENGTH <= salt.len() && salt.len() <= MAX_SALT_LENGTH {
        Ok(Pbkdf2Settings { hash_function: s.hash_function, nb_iter: s.nb_iter, salt: salt })
    } else {
        Err(ErrorCode::InvalidPasswordFormat)
    }
}

/// Every hash function is found again by its name, and by no other string.
pub proof fn lemma_hash_function_name(h: HashFunction, name: Seq<char>)
    ensures
        hash_function_from_name(hash_function_name(h)) == Some(h),
        hash_function_from_name(name) == Some(h) <==> name == hash_function_name(h),
{
    let n1 = hash_function_name(HashFunction::Sha1);
    let n224 = hash_function_name(HashFunction::Sha224);
    let n256 = hash_function_name(HashFunction::Sha256);
    let n384 = hash_function_name(HashFunction::Sha384);
    let n512 = hash_function_name(HashFunction::Sha512);
    let t224 = hash_function_name(HashFunction::Sha512Trunc224);
    let t256 = hash_function_name(HashFunction::Sha512Trunc256);
    assert(n224[4] != n256[4]);
    assert(n224[3] != n384[3]);
    assert(n224[3] != n512[3]);
    assert(n256[3] != n384[3]);
    assert(n256[3] != n512[3]);
    assert(n384[3] != n512[3]);
    assert(t224[8] != t256[8]);
    assert(n1 != n224);
    assert(n1 != n256);
    assert(n1 != n384);
    assert(n1 != n512);
    assert(n1 != t224);
    assert(n1 != t256);
    assert(n224 != n256);
    assert(n224 != n384);
    assert(n224 != n512);
    assert(n224 != t224);
    assert(n224 != t256);
    assert(n256 != n384);
    assert(n256 != n512);
    assert(n256 != t224);
    assert(n256 != t256);
    assert(n384 != n512);
    assert(n384 != t224);
    assert(n384 != t256);
    assert(n512.len() == 6 && t224.len() == 10 && t256.len() == 10);
    assert(n512 != t224);
    assert(n512 != t256);
    assert(t224 != t256);
}

/// Whatever `get_parameters` reads from a hasher whose number of iterations
/// lies from `MIN_ITER` to `MAX_ITER` can be given back to `set_parameter`:
/// the call succeeds and leaves the settings as they were.
pub proof fn lemma_parameters_round_trip(s: Pbkdf2Settings, name: Seq<char>)
    requires
        MIN_ITER <= s.nb_iter <= MAX_ITER,
        parameters(s).contains_key(name),
    ensures
        set_parameter_outcome(s, name, parameters(s)[name]) == Ok::<Pbkdf2Settings, ErrorCode>(s),
{
    assert(iter_key()[0] != hash_key()[0]);
    lemma_parse_decimal(s.nb_iter);
    lemma_hash_function_name(s.hash_function, hash_function_name(s.hash_function));
}

/// The key that `hash` derives depends on nothing but the hash function, the
/// number of iterations, the salt and the input: two hashers that agree on
/// these derive the same key from the same input.
pub proof fn lemma_hash_determined(a: Pbkdf2Settings, b: Pbkdf2Settings, x: Seq<u8>, y: Seq<u8>)
    requires
        a.hash_function == b.hash_function,
        a.nb_iter == b.nb_iter,
        a.salt == b.salt,
        x == y,
    ensures
        pbkdf2_output(a, x) == pbkdf2_output(b, y),
{
}

/// The key is PBKDF2 over HMAC with the chosen hash function, with exactly
/// `nb_iter` rounds, the salt, and one output of that function as length.
pub proof fn lemma_hash_derivation(s: Pbkdf2Settings, password: Seq<u8>)
    ensures
        s.hash_function == HashFunction::Sha1 ==> pbkdf2_output(s, password) == pbkdf2_hmac_sha1(
            password, s.salt, s.nb_iter, 20),
        s.hash_function == HashFunction::Sha224 ==> pbkdf2_output(s, password)
            == pbkdf2_hmac_sha224(password, s.salt, s.nb_iter, 28),
        s.hash_function == HashFunction::Sha256 ==> pbkdf2_output(s, password)
            == pbkdf2_hmac_sha256(password, s.salt, s.nb_iter, 32),
        s.hash_function == HashFunction::Sha384 ==> pbkdf2_output(s, password)
            == pbkdf2_hmac_sha384(password, s.salt, s.nb_iter, 48),
        s.hash_function == HashFunction::Sha512 ==> pbkdf2_output(s, password)
            == pbkdf2_hmac_sha512(password, s.salt, s.nb_iter, 64),
        s.hash_function == HashFunction::Sha512Trunc224 ==> pbkdf2_output(s, password)
            == pbkdf2_hmac_sha512_224(password, s.salt, s.nb_iter, 28),
        s.hash_function == HashFunction::Sha512Trunc256 ==> pbkdf2_output(s, password)
            == pbkdf2_hmac_sha512_256(password, s.salt, s.nb_iter, 32),
{
}

/// Setting `iter` to any text that reads as a count from 10000 to 200000
/// succeeds and stores exactly that count; the hash function and the salt
/// stay as they were.
pub proof fn lemma_set_iter(s: Pbkdf2Settings, value: Seq<char>, i: usize)
    requires
        parse_usize_spec(value) == Some(i),
        10000 <= i <= 200000,
    ensures
        set_parameter_outcome(s, iter_key(), value) matches Ok(n) && n.nb_iter == i
            && n.hash_function == s.hash_function && n.salt == s.salt,
{
}

/// Setting `iter` to a text that does not read as a count, or to a count
/// outside 10000 to 200000, is refused.
pub proof fn lemma_set_iter_refused(s: Pbkdf2Settings, value: Seq<char>)
    requires
        parse_usize_spec(value) matches Some(i) ==> !(10000 <= i <= 200000),
    ensures
        set_parameter_outcome(s, iter_key(), value) == Err::<Pbkdf2Settings, ErrorCode>(
            ErrorCode::InvalidPasswordFormat,
        ),
{
}

/// Setting `hash` to the name of any hash function succeeds and selects that
/// function; the number of iterations and the salt stay as they were.
pub proof fn lemma_set_hash(s: Pbkdf2Settings, h: HashFunction)
    ensures
        set_parameter_outcome(s, hash_key(), hash_function_name(h)) matches Ok(n)
            && n.hash_function == h && n.nb_iter == s.nb_iter && n.salt == s.salt,
{
    assert(iter_key()[0] != hash_key()[0]);
    lemma_hash_function_name(h, hash_function_name(h));
}

/// Setting `hash` to a text that names no hash function is refused.
pub proof fn lemma_set_hash_refused(s: Pbkdf2Settings, value: Seq<char>)
    requires
        forall|h: HashFunction| value != #[trigger] hash_function_name(h),
    ensures
        set_parameter_outcome(s, hash_key(), value) == Err::<Pbkdf2Settings, ErrorCode>(
            ErrorCode::InvalidPasswordFormat,
        ),
{
    assert(iter_key()[0] != hash_key()[0]);
    assert(value != hash_function_name(HashFunction::Sha1));
    assert(value != hash_function_name(HashFunction::Sha224));
    assert(value != hash_function_name(HashFunction::Sha256));
    assert(value != hash_function_name(HashFunction::Sha384));
    assert(value != hash_function_name(HashFunction::Sha512));
    assert(value != hash_function_name(HashFunction::Sha512Trunc224));
    assert(value != hash_function_name(HashFunction::Sha512Trunc256));
}

/// A parameter other than `iter` and `hash` is refused, whatever its value.
pub proof fn lemma_set_unknown_parameter(s: Pbkdf2Settings, name: Seq<char>, value: Seq<char>)
    requires
        name != iter_key(),
        name != hash_key(),
    ensures
        set_parameter_outcome(s, name, value) == Err::<Pbkdf2Settings, ErrorCode>(
            ErrorCode::InvalidPasswordFormat,
        ),
{
}

/// `set_salt` accepts a salt exactly when it has 4 to 256 bytes, whatever the
/// other settings; an accepted salt replaces the old one and nothing else.
pub proof fn lemma_set_salt(s: Pbkdf2Settings, salt: Seq<u8>)
    ensures
        set_salt_outcome(s, salt) is Ok <==> 4 <= salt.len() <= 256,
        set_salt_outcome(s, salt) matches Ok(n) ==> n.salt == salt && n.hash_function
            == s.hash_function && n.nb_iter == s.nb_iter,
        set_salt_outcome(s, salt) matches Err(e) ==> e == ErrorCode::InvalidPasswordFormat,
{
}

/// The parameters are exactly `iter` and `hash`: `iter` is the number of
/// iterations written in ASCII digits with no sign and no leading zero, the
/// only such text worth that number, and `hash` is the name of the hash
/// function.
pub proof fn lemma_parameters_canonical(s: Pbkdf2Settings, text: Seq<char>)
    ensures
        parameters(s).dom() == set![iter_key(), hash_key()],
        parameters(s)[iter_key()] == decimal(s.nb_iter as nat),
        parameters(s)[hash_key()] == hash_function_name(s.hash_function),
        all_digits(parameters(s)[iter_key()]),
        digits_value(parameters(s)[iter_key()]) == s.nb_iter,
        parameters(s)[iter_key()].len() > 0,
        parameters(s)[iter_key()][0] != '0' || parameters(s)[iter_key()].len() == 1,
        text.len() > 0 && all_digits(text) && (text[0] != '0' || text.len() == 1) && digits_value(
            text,
        ) == s.nb_iter ==> text == parameters(s)[iter_key()],
{
    assert(iter_key()[0] != hash_key()[0]);
    lemma_decimal_canonical(s.nb_iter as nat);
    if text.len() > 0 && all_digits(text) && (text[0] != '0' || text.len() == 1) && digits_value(
        text,
    ) == s.nb_iter {
        lemma_decimal_unique(s.nb_iter as nat, text);
    }
}

/// A salt that `set_salt` accepts is what `get_salt` gives back afterwards,
/// and the other settings stay as they were.
pub proof fn lemma_salt_round_trip(s: Pbkdf2Settings, salt: Seq<u8>)
    requires
        MIN_SALT_LENGTH <= salt.len() <= MAX_SALT_LENGTH,
    ensures
        set_salt_outcome(s, salt) matches Ok(n) && n.salt == salt && n.hash_function
            == s.hash_function && n.nb_iter == s.nb_iter,
{
}

/// The name of the hash function `h`, as a `String`.
fn hash_function_name_string(h: HashFunction) -> (s: String)
    ensures
        s@ == hash_function_name(h),
{
    match h {
        HashFunction::Sha1 => {
            let s = String::from_str("sha1");
            proof { reveal_strlit("sha1"); }
            assert(s@ =~= hash_function_name(h));
            s
        },
        HashFunction::Sha224 => {
            let s = String::from_str("sha224");
            proof { reveal_strlit("sha224"); }
            assert(s@ =~= hash_function_name(h));
            s
        },
        HashFunction::Sha256 => {
            let s = String::from_str("sha256");
            proof { reveal_strlit("sha256"); }
            assert(s@ =~= hash_function_name(h));
            s
        },
        HashFunction::Sha384 => {
            let s = String::from_str("sha384");
            proof { reveal_strlit("sha384"); }
            assert(s@ =~= hash_function_name(h));
            s
        },
        HashFunction::Sha512 => {
            let s = String::from_str("sha512");
            proof { reveal_strlit("sha512"); }
            assert(s@ =~= hash_function_name(h));
            s
        },
        HashFunction::Sha512Trunc224 => {
            let s = String::from_str("sha512t224");
            proof { reveal_strlit("sha512t224"); }
            assert(s@ =~= hash_function_name(h));
            s
        },
        HashFunction::Sha512Trunc256 => {
            let s = String::from_str("sha512t256");
            proof { reveal_strlit("sha512t256"); }
            assert(s@ =~= hash_function_name(h));
            s
        },
    }
}

/// The hash function named `name`, if any.
fn hash_function_by_name(name: &String) -> (r: Option<HashFunction>)
    ensures
        r == hash_function_from_name(name@),
{
    if *name == hash_function_name_string(HashFunction::Sha1) {
        Some(HashFunction::Sha1)
    } else if *name == hash_function_name_string(HashFunction::Sha224) {
        Some(HashFunction::Sha224)
    } else if *name == hash_function_name_string(HashFunction::Sha256) {
        Some(HashFunction::Sha256)
    } else if *name == hash_function_name_string(HashFunction::Sha384) {
        Some(HashFunction::Sha384)
    } else if *name == hash_function_name_string(HashFunction::Sha512) {
        Some(HashFunction::Sha512)
    } else if *name == hash_function_name_string(HashFunction::Sha512Trunc224) {
        Some(HashFunction::Sha512Trunc224)
    } else if *name == hash_function_name_string(HashFunction::Sha512Trunc256) {
        Some(HashFunction::Sha512Trunc256)
    } else {
        None
    }
}

/// `iter` as a `String`.
fn iter_key_string() -> (s: String)
    ensures
        s@ == iter_key(),
{
    let s = String::from_str("iter");
    proof { reveal_strlit("iter"); }
    assert(s@ =~= iter_key());
    s
}

/// `hash` as a `String`.
fn hash_key_string() -> (s: String)
    ensures
        s@ == hash_key(),
{
    let s = String::from_str("hash");
    proof { reveal_strlit("hash"); }
    assert(s@ =~= hash_key());
    s
}

impl Pbkdf2Hash {
    /// A hasher with the default settings: SHA-256, `DEFAULT_ITER`
    /// iterations and a fresh random salt of `DEFAULT_SALT_LENGTH` bytes.
    pub fn new() -> (h: Pbkdf2Hash)
        ensures
            h.hash_function == DEFAULT_HASH_FUNCTION,
            h.nb_iter == DEFAULT_ITER,
            h.salt@.len() == DEFAULT_SALT_LENGTH,
    {
        Pbkdf2Hash {
            hash_function: DEFAULT_HASH_FUNCTION,
            nb_iter: DEFAULT_ITER,
            salt: os_random_bytes(DEFAULT_SALT_LENGTH),
        }
    }

    /// The identifier of the scheme, `pbkdf2`, whatever the settings.
    pub fn get_id(&self) -> (id: String)
        ensures
            id@ == pbkdf2_id(),
    {
        let id = String::from_str("pbkdf2");
        proof { reveal_strlit("pbkdf2"); }
        assert(id@ =~= pbkdf2_id());
        id
    }

    /// The parameters as strings: `iter` and `hash`.
    pub fn get_parameters(&self) -> (params: StringHashMap<String>)
        ensures
            params@.dom() == parameters(self@).dom(),
            forall|k: Seq<char>| #[trigger]
                params@.contains_key(k) ==> params@[k]@ == parameters(self@)[k],
            params@.dom() == set![iter_key(), hash_key()],
            params@[iter_key()]@ == decimal(self.nb_iter as nat),
            params@[hash_key()]@ == hash_function_name(self.hash_function),
    {
        let mut params: StringHashMap<String> = StringHashMap::new();
        params.insert(iter_key_string(), usize_to_decimal(self.nb_iter));
        params.insert(hash_key_string(), hash_function_name_string(self.hash_function));
        assert(params@.dom() =~= parameters(self@).dom());
        assert(iter_key()[0] != hash_key()[0]);
        params
    }

    /// Sets the parameter `name` to `value`, as `set_parameter_outcome` says;
    /// a refused parameter leaves the hasher unchanged.
    pub fn set_parameter(&mut self, name: String, value: String) -> (r: Result<(), ErrorCode>)
        ensures
            match set_parameter_outcome(old(self)@, name@, value@) {
                Ok(n) => r is Ok && final(self)@ == n,
                Err(e) => r == Err::<(), ErrorCode>(e) && final(self)@ == old(self)@,
            },
            name@ == iter_key() ==> (r is Ok <==> (parse_usize_spec(value@) matches Some(i) && 10000
                <= i <= 200000)),
            name@ == iter_key() && r is Ok ==> parse_usize_spec(value@) == Some(final(self).nb_iter)
                && final(self).hash_function == old(self).hash_function && final(self).salt@ == old(
                self,
            ).salt@,
            forall|h: HashFunction|
                name@ == hash_key() && value@ == #[trigger] hash_function_name(h) ==> r is Ok
                    && final(self).hash_function == h && final(self).nb_iter == old(self).nb_iter
                    && final(self).salt@ == old(self).salt@,
            name@ != iter_key() && name@ != hash_key() ==> r is Err,
            r is Err ==> r == Err::<(), ErrorCode>(ErrorCode::InvalidPasswordFormat) && final(self)@
                == old(self)@,
    {
        proof {
            let s0 = self@;
            assert(iter_key()[0] != hash_key()[0]);
            assert forall|h: HashFunction| #[trigger] hash_function_name(h) == hash_function_name(h) implies
                set_parameter_outcome(s0, hash_key(), hash_function_name(h)) matches Ok(n)
                    && n.hash_function == h && n.nb_iter == s0.nb_iter && n.salt == s0.salt by {
                lemma_set_hash(s0, h);
            }
        }
        if name == iter_key_string() {
            match parse_usize(value.as_str()) {
                Some(i) => {
                    if MIN_ITER <= i && i <= MAX_ITER {
                        self.nb_iter = i;
                        Ok(())
                    } else {
                        Err(ErrorCode::InvalidPasswordFormat)
                    }
                },
                None => Err(ErrorCode::InvalidPasswordFormat),
            }
        } else if name == hash_key_string() {
            match hash_function_by_name(&value) {
                Some(h) => {
                    self.hash_function = h;
                    Ok(())
                },
                None => Err(ErrorCode::InvalidPasswordFormat),
            }
        } else {
            Err(ErrorCode::InvalidPasswordFormat)
        }
    }

    /// A copy of the salt; there always is one.
    pub fn get_salt(&self) -> (salt: Option<Vec<u8>>)
        ensures
            salt matches Some(v) && v@ == self.salt@,
    {
        let copy = self.salt.clone();
        assert(copy@ =~= self.salt@);
        Some(copy)
    }

    /// Replaces the salt, as `set_salt_outcome` says; a refused salt leaves
    /// the hasher unchanged.
    pub fn set_salt(&mut self, salt: Vec<u8>) -> (r: Result<(), ErrorCode>)
        ensures
            match set_salt_outcome(old(self)@, salt@) {
                Ok(n) => r is Ok && final(self)@ == n,
                Err(e) => r == Err::<(), ErrorCode>(e) && final(self)@ == old(self)@,
            },
            r is Ok <==> 4 <= salt@.len() <= 256,
            r is Ok ==> final(self).salt@ == salt@ && final(self).hash_function == old(
                self,
            ).hash_function && final(self).nb_iter == old(self).nb_iter,
            r is Err ==> r == Err::<(), ErrorCode>(ErrorCode::InvalidPasswordFormat) && final(self)@
                == old(self)@,
    {
        if MIN_SALT_LENGTH <= salt.len() && salt.len() <= MAX_SALT_LENGTH {
            self.salt = salt;
            Ok(())
        } else {
            Err(ErrorCode::InvalidPasswordFormat)
        }
    }

    /// Derives the key of `input` under the settings: PBKDF2 with HMAC over the
    /// hash function, as long as one output of that function.
    pub fn hash(&self, input: &Vec<u8>) -> (key: Vec<u8>)
        ensures
            key@ == pbkdf2_output(self@, input@),
            key@.len() == digest_len(self.hash_function),
            self.hash_function == HashFunction::Sha1 ==> key@ == pbkdf2_hmac_sha1(
                input@, self.salt@, self.nb_iter, 20),
            self.hash_function == HashFunction::Sha224 ==> key@ == pbkdf2_hmac_sha224(
                input@, self.salt@, self.nb_iter, 28),
            self.hash_function == HashFunction::Sha256 ==> key@ == pbkdf2_hmac_sha256(
                input@, self.salt@, self.nb_iter, 32),
            self.hash_function == HashFunction::Sha384 ==> key@ == pbkdf2_hmac_sha384(
                input@, self.salt@, self.nb_iter, 48),
            self.hash_function == HashFunction::Sha512 ==> key@ == pbkdf2_hmac_sha512(
                input@, self.salt@, self.nb_iter, 64),
            self.hash_function == HashFunction::Sha512Trunc224 ==> key@ == pbkdf2_hmac_sha512_224(
                input@, self.salt@, self.nb_iter, 28),
            self.hash_function == HashFunction::Sha512Trunc256 ==> key@ == pbkdf2_hmac_sha512_256(
                input@, self.salt@, self.nb_iter, 32),
    {
        let rounds = self.nb_iter;
        let password = input.as_slice();
        let salt = self.salt.as_slice();
        match self.hash_function {
            HashFunction::Sha1 => derive_sha1(password, salt, rounds, 20),
            HashFunction::Sha224 => derive_sha224(password, salt, rounds, 28),
            HashFunction::Sha256 => derive_sha256(password, salt, rounds, 32),
            HashFunction::Sha384 => derive_sha384(password, salt, rounds, 48),
            HashFunction::Sha512 => derive_sha512(password, salt, rounds, 64),
            HashFunction::Sha512Trunc224 => derive_sha512_224(password, salt, rounds, 28),
            HashFunction::Sha512Trunc256 => derive_sha512_256(password, salt, rounds, 32),
        }
    }
}

} // verus!
