use vstd::prelude::*;

verus! {

/// Whether bcrypt accepts `password` against the encoded hash `hash`
/// (the result of `pwhash::bcrypt::verify`).
pub uninterp spec fn bcrypt_verifies(password: Seq<char>, hash: Seq<char>) -> bool;

#[verifier::external_type_specification]
#[verifier::external_body]
pub struct ExHashError(pwhash::error::Error);

/// Whether every character of `s` lies between U+0020 and U+007F: the
/// range that bcrypt's decoding of a stored hash can read without fault.
pub open spec fn hash_chars_ok(s: Seq<char>) -> bool {
    forall|i: int| 0 <= i < s.len() ==> 0x20 <= (#[trigger] s[i] as u32) <= 0x7f
}

/// Whether `c` belongs to bcrypt's base-64 alphabet.
pub open spec fn bcrypt_base64(c: char) -> bool {
    c == '.' || c == '/' || ('A' <= c <= 'Z') || ('a' <= c <= 'z') || ('0' <= c <= '9')
}

/// Whether `h` has the shape of a bcrypt hash of variant 2b at cost 10:
/// the prefix `$2b$10$`, then 53 characters of salt and checksum.
pub open spec fn bcrypt_shaped(h: Seq<char>) -> bool {
    &&& h.len() == 60
    &&& h.subrange(0, 7) == "$2b$10$"@
    &&& forall|i: int| 7 <= i < 60 ==> bcrypt_base64(#[trigger] h[i])
}

/// Whether `password` matches the stored hash `hash`: the hash can be read,
/// and bcrypt accepts the password against it.
pub open spec fn password_matches(password: Seq<char>, hash: Seq<char>) -> bool {
    hash_chars_ok(hash) && bcrypt_verifies(password, hash)
}

/// Relies on `pwhash::bcrypt::hash`: hashes `password` with a fresh random
/// salt at the default cost 10 in variant 2b, and always returns `Ok`; the
/// hash is `$2b$10$`, 22 characters of salt and 31 of checksum, all from
/// bcrypt's base-64 alphabet; `pwhash::bcrypt::verify` accepts the password
/// against it. It panics only where the operating system's random source
/// fails.
#[verifier::external_body]
fn bcrypt_hash(password: &String) -> (r: Result<String, pwhash::error::Error>)
    ensures
        r is Ok,
        r matches Ok(h) ==> bcrypt_shaped(h@) && bcrypt_verifies(password@, h@),
{
    pwhash::bcrypt::hash(password.as_str())
}

/// Relies on `pwhash::bcrypt::verify`: whether `password` matches the
/// encoded bcrypt hash `hash`. Its decoding of the salt faults on
/// characters outside U+0020..U+007F, which `requires` leaves out.
#[verifier::external_body]
fn bcrypt_verify(password: &String, hash: &String) -> (r: bool)
    requires
        hash_chars_ok(hash@),
    ensures
        r == bcrypt_verifies(password@, hash@),
{
    pwhash::bcrypt::verify(password.as_str(), hash.as_str())
}

proof fn lemma_shaped_chars_ok(h: Seq<char>)
    requires
        bcrypt_shaped(h),
    ensures
        hash_chars_ok(h),
{
    reveal_strlit("$2b$10$");
    assert forall|i: int| 0 <= i < h.len() implies 0x20 <= (#[trigger] h[i] as u32) <= 0x7f by {
        if i < 7 {
            assert(h[i] == h.subrange(0, 7)[i]);
        }
    }
}

/// Hashes a plaintext password for storage.
pub fn hash_password(password: &String) -> (r: String)
    ensures
        bcrypt_shaped(r@),
        password_matches(password@, r@),
{
    let h = bcrypt_hash(password).unwrap();
    proof {
        lemma_shaped_chars_ok(h@);
    }
    h
}

/// Whether every character of `s` lies between U+0020 and U+007F.
pub fn chars_in_hash_range(s: &String) -> (r: bool)
    ensures
        r == hash_chars_ok(s@),
{
    let n = s.as_str().unicode_len();
    let mut i: usize = 0;
    while i < n
        invariant
            n == s@.len(),
            i <= n,
            forall|k: int| 0 <= k < i ==> 0x20 <= (#[trigger] s@[k] as u32) <= 0x7f,
        decreases n - i,
    {
        let c = s.as_str().get_char(i);
        if (c as u32) < 0x20 || (c as u32) > 0x7f {
            return false;
        }
        i = i + 1;
    }
    true
}

/// Whether a plaintext password matches a stored hash; a stored value that
/// cannot be a bcrypt hash matches nothing.
pub fn validate_password(password: &String, hash: &String) -> (r: bool)
    ensures
        r == password_matches(password@, hash@),
{
    if !chars_in_hash_range(hash) {
        return false;
    }
    bcrypt_verify(password, hash)
}

} // verus!
