//! Sign-up input: user names, e-mail addresses and passwords, and the
//! Argon2 hashing and checking of passwords.

use vstd::prelude::*;
use vstd::utf8::encode_utf8;
use argon2::password_hash::rand_core::OsRng;
use argon2::password_hash::{PasswordHash, PasswordHasher, PasswordVerifier, Salt, SaltString};
use argon2::Argon2;
use validator::ValidateEmail;
use crate::text::{
    chars_of, has_white_space, has_whitespace_in, is_white_space, lemma_char_count_at_most_utf8_len,
    lemma_trim_without_white_space, trim, trim_bounds, utf8_len, utf8_len_capped,
};

verus! {

#[verifier::external_type_specification]
#[verifier::external_body]
pub struct ExArgon2Error(argon2::password_hash::Error);

/// What `validator`'s `ValidateEmail::validate_email` answers for a string
/// (the WHATWG e-mail address rules, IP literals and IDN domains included).
pub uninterp spec fn valid_email_address(s: Seq<char>) -> bool;

/// The PHC string that Argon2 with its default parameters (`Argon2::default()`)
/// produces for `password` and the B64 `salt`, or `None` where hashing fails.
pub uninterp spec fn argon2_phc(password: Seq<u8>, salt: Seq<char>) -> Option<Seq<char>>;

/// What checking `password` against the PHC string `phc` with Argon2 gives:
/// `Some(true)` on a match, `Some(false)` on a mismatch, `None` where the PHC
/// string cannot be parsed or the computation fails.
pub uninterp spec fn argon2_check(password: Seq<u8>, phc: Seq<char>) -> Option<bool>;

/// Whether `s` has the shape of an e-mail address: it holds an `@` that is
/// neither its first nor its last character and after which no other `@`
/// comes (the local part before the last `@` and the domain after it are
/// both non-empty).
pub open spec fn has_address_shape(s: Seq<char>) -> bool {
    exists|i: int|
        0 < i < s.len() - 1 && #[trigger] s[i] == '@' && forall|j: int|
            i < j < s.len() ==> s[j] != '@'
}

/// Whether `c` belongs to the standard Base64 alphabet.
pub open spec fn is_b64_char(c: char) -> bool {
    ||| ('A' <= c && c <= 'Z')
    ||| ('a' <= c && c <= 'z')
    ||| ('0' <= c && c <= '9')
    ||| c == '+'
    ||| c == '/'
}

/// Whether `s` is the unpadded standard Base64 text of 16 bytes: 22
/// characters of the alphabet, the last of which carries two data bits and
/// four zero bits (so is one of `A`, `Q`, `g`, `w`).
pub open spec fn is_b64_of_16_bytes(s: Seq<char>) -> bool {
    &&& s.len() == 22
    &&& forall|i: int| 0 <= i < s.len() ==> is_b64_char(#[trigger] s[i])
    &&& (s[21] == 'A' || s[21] == 'Q' || s[21] == 'g' || s[21] == 'w')
}

/// Whether `h` begins with `$argon2id$`, the mark of an Argon2id PHC string.
pub open spec fn is_argon2id_phc(h: Seq<char>) -> bool {
    h.len() >= 10 && h.subrange(0, 10) == "$argon2id$"@
}

/// The longest password Argon2 hashes, in bytes (`argon2::MAX_PWD_LEN`).
pub open spec fn argon2_max_password_len() -> nat {
    0xFFFF_FFFF
}

/// Calls `ValidateEmail::validate_email` of the `validator` crate. Trusted:
/// the answer is `valid_email_address(s@)`; and, as its source shows, an
/// accepted string has the shape of an address (`has_address_shape`): the
/// source refuses a string without `@` and matches the part before the last
/// `@` and the part after it against patterns that need at least one
/// character each.
#[verifier::external_body]
fn validate_email_address(s: &str) -> (b: bool)
    ensures
        b == valid_email_address(s@),
        b ==> has_address_shape(s@),
{
    ValidateEmail::validate_email(&s)
}

/// Draws a fresh random salt with `SaltString::generate(&mut OsRng)` and
/// returns its B64 text. Trusted: the text is the unpadded standard Base64
/// of the 16 random bytes the source draws (`Salt::RECOMMENDED_LENGTH`).
/// Which bytes is not claimed: they are random.
#[verifier::external_body]
fn fresh_salt() -> (salt: String)
    ensures
        is_b64_of_16_bytes(salt@),
{
    SaltString::generate(&mut OsRng).as_str().to_owned()
}

/// Calls `PasswordHasher::hash_password` of `Argon2::default()` on
/// `password` and the B64 `salt` (read with `Salt::from_b64`) and renders
/// the hash as a PHC string. Trusted: it succeeds exactly where
/// `argon2_phc(password@, salt@)` is `Some`, and then returns that string;
/// as the sources show, it succeeds for the Base64 text of 16 bytes and a
/// password of at most `MAX_PWD_LEN` bytes, fails for a longer password,
/// and the string it renders is `$argon2id$v=19$m=19456,t=2,p=1$`, the salt
/// text, `$` and the 43-character B64 of the 32-byte output: it begins with
/// `$argon2id$`, is 75 characters longer than the salt text and holds no
/// white space.
#[verifier::external_body]
fn argon2_hash(password: &[u8], salt: &str) -> (r: Result<String, argon2::password_hash::Error>)
    ensures
        r is Ok <==> argon2_phc(password@, salt@) is Some,
        r matches Ok(h) ==> argon2_phc(password@, salt@) == Some(h@),
        r is Ok || !(is_b64_of_16_bytes(salt@) && password@.len()
            <= argon2_max_password_len()),
        r is Err || password@.len() <= argon2_max_password_len(),
        r matches Ok(h) ==> is_argon2id_phc(h@),
        r matches Ok(h) ==> h@.len() == salt@.len() + 75 && !has_white_space(h@),
{
    let salt = Salt::from_b64(salt)?;
    Argon2::default().hash_password(password, salt).map(|h| h.to_string())
}

/// Calls `PasswordVerifier::verify_password` of `Argon2::default()` on
/// `password` and the PHC string `phc` (read with `PasswordHash::new`).
/// `Err(None)` is the mismatch error (`Error::Password`) of the check,
/// `Err(Some(e))` any other error, a parse error included. Trusted: the
/// outcome is the one `argon2_check(password@, phc@)` names; a PHC string
/// that Argon2 produced for `password` with some salt is accepted; and a PHC
/// string that Argon2 produced for any password is read and recomputed
/// without error for a password of at most `MAX_PWD_LEN` bytes; and such a
/// string accepts `password` only where hashing `password` with the same
/// salt gives that very string (the check recomputes the hash with the salt
/// and parameters it reads from the string, and compares the outputs).
#[verifier::external_body]
fn argon2_verify(password: &[u8], phc: &str) -> (r: Result<(), Option<argon2::password_hash::Error>>)
    ensures
        r is Ok <==> argon2_check(password@, phc@) == Some(true),
        (r matches Err(None)) <==> argon2_check(password@, phc@) == Some(false),
        (r matches Err(Some(_))) <==> argon2_check(password@, phc@) is None,
        r is Ok || forall|salt: Seq<char>| argon2_phc(password@, salt) != Some(phc@),
        r is Err || forall|other: Seq<u8>, salt: Seq<char>|
            #[trigger] argon2_phc(other, salt) == Some(phc@) ==> argon2_phc(password@, salt)
                == Some(phc@),
        !(r matches Err(Some(_))) || password@.len() > argon2_max_password_len() || forall|
            other: Seq<u8>,
            salt: Seq<char>,
        | #[trigger] argon2_phc(other, salt) != Some(phc@),
{
    let hash = PasswordHash::new(phc).map_err(Some)?;
    match Argon2::default().verify_password(password, &hash) {
        Ok(()) => Ok(()),
        Err(argon2::password_hash::Error::Password) => Err(None),
        Err(e) => Err(Some(e)),
    }
}

/// A user about to be registered: validated name and e-mail address and
/// the PHC hash of the password.
pub struct NewUser {
    pub username: Username,
    pub email: UserEmail,
    pub password_hash: String,
}

/// Why a password was refused or could not be hashed or checked.
pub enum PasswordError {
    HashingError(argon2::password_hash::Error),
    InvalidPassword,
}

/// Why sign-up input was refused.
pub enum NewUserError {
    UsernameParsingError,
    EmailParsingError,
    PasswordError(PasswordError),
}

/// Characters a user name may not hold (after trimming).
pub open spec fn is_forbidden_username_char(c: char) -> bool {
    ||| c == '@' || c == '#' || c == '$' || c == '%' || c == '&' || c == ','
    ||| c == '(' || c == ')' || c == '-' || c == '+' || c == '=' || c == '{'
    ||| c == '}' || c == '[' || c == ']' || c == '<' || c == '>' || c == ';'
    ||| c == '.' || c == '^' || c == '*' || c == ' '
}

/// A user name is accepted where, once trimmed, it is not empty and holds no
/// forbidden character, and its UTF-8 encoding is at most 50 bytes long.
pub open spec fn is_valid_username(s: Seq<char>) -> bool {
    let t = trim(s);
    &&& t.len() > 0
    &&& utf8_len(s) <= 50
    &&& forall|i: int| 0 <= i < t.len() ==> !is_forbidden_username_char(#[trigger] t[i])
}

/// A password is accepted where, once trimmed, its UTF-8 encoding is 8 to
/// 64 bytes long and it holds no white space.
pub open spec fn is_valid_password(s: Seq<char>) -> bool {
    let t = trim(s);
    &&& 8 <= utf8_len(t) <= 64
    &&& !has_white_space(t)
}

/// A user name is refused where its trimmed text holds, at any position, one
/// of `@ # $ % & , ( ) - + = { } [ ] < > ; . ^ *` or a space.
pub proof fn law_forbidden_character_anywhere_refuses_name(s: Seq<char>, i: int)
    requires
        0 <= i < trim(s).len(),
        ({
            let c = trim(s)[i];
            ||| c == '@' || c == '#' || c == '$' || c == '%' || c == '&' || c == ','
            ||| c == '(' || c == ')' || c == '-' || c == '+' || c == '=' || c == '{'
            ||| c == '}' || c == '[' || c == ']' || c == '<' || c == '>' || c == ';'
            ||| c == '.' || c == '^' || c == '*' || c == ' '
        }),
    ensures
        !is_valid_username(s),
{
}

/// A user name whose trimmed text is non-empty and made only of ASCII letters,
/// digits and underscores, and whose UTF-8 encoding is at most 50 bytes, is
/// accepted.
pub proof fn law_plain_names_are_accepted(s: Seq<char>)
    requires
        trim(s).len() > 0,
        utf8_len(s) <= 50,
        forall|i: int|
            0 <= i < trim(s).len() ==> {
                let c = #[trigger] trim(s)[i];
                ('a' <= c && c <= 'z') || ('A' <= c && c <= 'Z') || ('0' <= c && c <= '9') || c
                    == '_'
            },
    ensures
        is_valid_username(s),
{
}

/// A password is accepted exactly where its trimmed text is 8 to 64 UTF-8
/// bytes long and holds no white space: no other character matters.
pub proof fn law_length_and_white_space_decide_passwords(s: Seq<char>)
    ensures
        is_valid_password(s) <==> (8 <= utf8_len(trim(s)) <= 64 && forall|i: int|
            0 <= i < trim(s).len() ==> !is_white_space(#[trigger] trim(s)[i])),
{
}

/// The bytes a password is hashed and checked as.
pub open spec fn password_bytes(s: Seq<char>) -> Seq<u8> {
    encode_utf8(s)
}

fn is_forbidden_username_char_exec(c: char) -> (b: bool)
    ensures
        b == is_forbidden_username_char(c),
{
    c == '@' || c == '#' || c == '$' || c == '%' || c == '&' || c == ',' || c == '(' || c == ')'
        || c == '-' || c == '+' || c == '=' || c == '{' || c == '}' || c == '[' || c == ']' || c
        == '<' || c == '>' || c == ';' || c == '.' || c == '^' || c == '*' || c == ' '
}

/// Whether some character of `v@[lo..hi]` is forbidden in a user name.
fn has_forbidden_in(v: &Vec<char>, lo: usize, hi: usize) -> (b: bool)
    requires
        lo <= hi <= v.len(),
    ensures
        b == exists|k: int|
            0 <= k < hi - lo && is_forbidden_username_char(
                #[trigger] v@.subrange(lo as int, hi as int)[k],
            ),
{
    let mut i: usize = lo;
    while i < hi
        invariant
            lo <= i <= hi <= v.len(),
            forall|k: int| lo <= k < i ==> !is_forbidden_username_char(#[trigger] v@[k]),
        decreases hi - i,
    {
        if is_forbidden_username_char_exec(v[i]) {
            assert(v@.subrange(lo as int, hi as int)[i - lo] == v@[i as int]);
            return true;
        }
        i = i + 1;
    }
    assert forall|k: int| 0 <= k < hi - lo implies !is_forbidden_username_char(
        #[trigger] v@.subrange(lo as int, hi as int)[k],
    ) by {
        assert(v@.subrange(lo as int, hi as int)[k] == v@[k + lo]);
    }
    false
}

/// A validated user name; it keeps the text as given, untrimmed.
pub struct Username(String);

impl View for Username {
    type V = Seq<char>;

    closed spec fn view(&self) -> Seq<char> {
        self.0@
    }
}

impl Username {
    /// Accepts `s` as a user name where `is_valid_username` holds of it.
    pub fn parse(s: String) -> (r: Result<Username, NewUserError>)
        ensures
            is_valid_username(s@) ==> (r matches Ok(u) && u@ == s@),
            !is_valid_username(s@) ==> r matches Err(NewUserError::UsernameParsingError),
            (exists|i: int|
                0 <= i < trim(s@).len() && is_forbidden_username_char(#[trigger] trim(s@)[i]))
                ==> r matches Err(NewUserError::UsernameParsingError),
    {
        let v = chars_of(s.as_str());
        let (lo, hi) = trim_bounds(&v);
        let is_empty_or_whitespace = lo == hi;
        let is_too_long = utf8_len_capped(&v, 0, v.len(), 51) > 50;
        proof {
            assert(v@.subrange(0, v@.len() as int) =~= v@);
        }
        let contains_forbidden_characters = has_forbidden_in(&v, lo, hi);
        if is_empty_or_whitespace || is_too_long || contains_forbidden_characters {
            Err(NewUserError::UsernameParsingError)
        } else {
            Ok(Username(s))
        }
    }

    /// The user name as given.
    pub fn as_str(&self) -> (r: &str)
        ensures
            r@ == self@,
    {
        self.0.as_str()
    }
}

/// A validated e-mail address, kept as given.
pub struct UserEmail(String);

impl View for UserEmail {
    type V = Seq<char>;

    closed spec fn view(&self) -> Seq<char> {
        self.0@
    }
}

impl UserEmail {
    /// Accepts `s` where `validator` deems it an e-mail address.
    pub fn parse(s: String) -> (r: Result<UserEmail, NewUserError>)
        ensures
            valid_email_address(s@) ==> (r matches Ok(e) && e@ == s@),
            !valid_email_address(s@) ==> r matches Err(NewUserError::EmailParsingError),
            !has_address_shape(s@) ==> r matches Err(NewUserError::EmailParsingError),
    {
        if validate_email_address(s.as_str()) {
            Ok(UserEmail(s))
        } else {
            Err(NewUserError::EmailParsingError)
        }
    }

    /// The address as given.
    pub fn as_str(&self) -> (r: &str)
        ensures
            r@ == self@,
    {
        self.0.as_str()
    }
}

/// A validated password, kept as given (untrimmed).
pub struct Password(String);

impl View for Password {
    type V = Seq<char>;

    closed spec fn view(&self) -> Seq<char> {
        self.0@
    }
}

impl Password {
    /// Accepts `s` as a password where `is_valid_password` holds of it.
    pub fn parse(s: String) -> (r: Result<Password, PasswordError>)
        ensures
            is_valid_password(s@) ==> (r matches Ok(p) && p@ == s@),
            !is_valid_password(s@) ==> r matches Err(PasswordError::InvalidPassword),
            8 <= utf8_len(trim(s@)) <= 64 && (forall|i: int|
                0 <= i < trim(s@).len() ==> !is_white_space(#[trigger] trim(s@)[i])) ==> (r matches Ok(
                p,
            ) && p@ == s@),
    {
        let v = chars_of(s.as_str());
        let (lo, hi) = trim_bounds(&v);
        let len: usize = utf8_len_capped(&v, lo, hi, 65);
        if len < 8 || len > 64 || has_whitespace_in(&v, lo, hi) {
            Err(PasswordError::InvalidPassword)
        } else {
            Ok(Password(s))
        }
    }

    /// The password as given.
    pub fn as_str(&self) -> (r: &str)
        ensures
            r@ == self@,
    {
        self.0.as_str()
    }

    /// Hashes the password with Argon2 (default parameters) and a fresh
    /// random salt, giving the PHC string: the Argon2id hash of the
    /// password's UTF-8 bytes under some salt. It succeeds for every password
    /// of at most `argon2_max_password_len()` bytes and fails for a longer one.
    pub fn hash(&self) -> (r: Result<String, PasswordError>)
        ensures
            password_bytes(self@).len() <= argon2_max_password_len() ==> r is Ok,
            password_bytes(self@).len() > argon2_max_password_len() ==> r matches Err(
                PasswordError::HashingError(_),
            ),
            r matches Ok(h) ==> exists|salt: Seq<char>|
                #[trigger] argon2_phc(password_bytes(self@), salt) == Some(h@),
            r matches Ok(h) ==> is_argon2id_phc(h@),
            r matches Ok(h) ==> h@.len() == 97 && !has_white_space(h@),
            r matches Err(e) ==> e is HashingError,
    {
        let salt = fresh_salt();
        match argon2_hash(self.0.as_str().as_bytes(), salt.as_str()) {
            Ok(h) => {
                assert(argon2_phc(password_bytes(self@), salt@) == Some(h@));
                Ok(h)
            },
            Err(e) => Err(PasswordError::HashingError(e)),
        }
    }

    /// Checks `password` against the PHC string `password_hash`: `Ok(true)`
    /// on a match, `InvalidPassword` on a mismatch, `HashingError` where the
    /// string cannot be read or the check fails. A hash that Argon2 made of
    /// the same password, with any salt, always matches.
    pub fn verify(password: &String, password_hash: &String) -> (r: Result<bool, PasswordError>)
        ensures
            r is Ok <==> argon2_check(password_bytes(password@), password_hash@) == Some(true),
            r is Ok ==> r == Ok::<bool, PasswordError>(true),
            r matches Err(PasswordError::InvalidPassword) <==> argon2_check(
                password_bytes(password@),
                password_hash@,
            ) == Some(false),
            r matches Err(PasswordError::HashingError(_)) <==> argon2_check(
                password_bytes(password@),
                password_hash@,
            ) is None,
            (exists|salt: Seq<char>|
                #[trigger] argon2_phc(password_bytes(password@), salt) == Some(password_hash@))
                ==> r == Ok::<bool, PasswordError>(true),
            (exists|other: Seq<u8>, salt: Seq<char>|
                #[trigger] argon2_phc(other, salt) == Some(password_hash@)) && password_bytes(
                password@,
            ).len() <= argon2_max_password_len() ==> (r is Ok || r matches Err(
                PasswordError::InvalidPassword,
            )),
            forall|other: Seq<u8>, salt: Seq<char>|
                #[trigger] argon2_phc(other, salt) == Some(password_hash@) && argon2_phc(
                    password_bytes(password@),
                    salt,
                ) != Some(password_hash@) && password_bytes(password@).len()
                    <= argon2_max_password_len() ==> r matches Err(
                    PasswordError::InvalidPassword,
                ),
    {
        match argon2_verify(password.as_str().as_bytes(), password_hash.as_str()) {
            Ok(()) => Ok(true),
            Err(None) => Err(PasswordError::InvalidPassword),
            Err(Some(e)) => Err(PasswordError::HashingError(e)),
        }
    }
}

impl NewUser {
    /// Validates sign-up input in order (user name, then e-mail address, then
    /// password), reporting the first failure, and hashes the password.
    pub fn new(username: String, email: String, password: String) -> (r: Result<
        NewUser,
        NewUserError,
    >)
        ensures
            !is_valid_username(username@) ==> r matches Err(NewUserError::UsernameParsingError),
            is_valid_username(username@) && !valid_email_address(email@) ==> r matches Err(
                NewUserError::EmailParsingError,
            ),
            is_valid_username(username@) && !has_address_shape(email@) ==> r matches Err(
                NewUserError::EmailParsingError,
            ),
            is_valid_username(username@) && valid_email_address(email@) && !is_valid_password(
                password@,
            ) ==> r matches Err(NewUserError::PasswordError(PasswordError::InvalidPassword)),
            is_valid_username(username@) && valid_email_address(email@) && is_valid_password(
                password@,
            ) && password_bytes(password@).len() <= argon2_max_password_len() ==> r is Ok,
            is_valid_username(username@) && valid_email_address(email@) && is_valid_password(
                password@,
            ) && password_bytes(password@).len() > argon2_max_password_len() ==> r matches Err(
                NewUserError::PasswordError(PasswordError::HashingError(_)),
            ),
            r matches Ok(u) ==> {
                &&& u.username@ == username@
                &&& u.email@ == email@
                &&& exists|salt: Seq<char>|
                    #[trigger] argon2_phc(password_bytes(password@), salt) == Some(
                        u.password_hash@,
                    )
                &&& is_argon2id_phc(u.password_hash@)
                &&& u.password_hash@ != password@
            },
    {
        let username = match Username::parse(username) {
            Ok(u) => u,
            Err(e) => return Err(e),
        };
        let email = match UserEmail::parse(email) {
            Ok(e) => e,
            Err(e) => return Err(e),
        };
        let password = match Password::parse(password) {
            Ok(p) => p,
            Err(e) => return Err(NewUserError::PasswordError(e)),
        };
        let password_hash = match password.hash() {
            Ok(h) => h,
            Err(e) => return Err(NewUserError::PasswordError(e)),
        };
        proof {
            if password_hash@ == password@ {
                lemma_trim_without_white_space(password@);
                lemma_char_count_at_most_utf8_len(password@);
            }
        }
        Ok(NewUser { username, email, password_hash })
    }
}

} // verus!
