//! htpasswd credentials for Traefik basic authentication, in the `{SHA}`
//! format (SHA-1 digest, Base64 encoded).
use base64::Engine;
use sha1::Digest;
use vstd::prelude::*;
use crate::text::owned;

verus! {

/// The SHA-1 digest of `data`, as the `sha1` crate computes it.
pub uninterp spec fn sha1_digest(data: Seq<u8>) -> Seq<u8>;

/// The character of the standard Base64 alphabet for the six-bit value `v`:
/// `A`-`Z`, `a`-`z`, `0`-`9`, `+`, `/`.
pub open spec fn base64_symbol(v: int) -> char {
    if v < 26 {
        (65 + v) as char
    } else if v < 52 {
        (97 + (v - 26)) as char
    } else if v < 62 {
        (48 + (v - 52)) as char
    } else if v == 62 {
        '+'
    } else {
        '/'
    }
}

/// The standard Base64 encoding of `data` with `=` padding (RFC 4648): each
/// group of three bytes gives four symbols of six bits each; a last group of
/// one byte gives two symbols and `==`, one of two bytes three symbols and `=`.
pub open spec fn base64_standard(data: Seq<u8>) -> Seq<char>
    decreases data.len(),
{
    if data.len() == 0 {
        Seq::empty()
    } else if data.len() == 1 {
        let b0 = data[0] as int;
        seq![base64_symbol(b0 / 4), base64_symbol((b0 % 4) * 16), '=', '=']
    } else if data.len() == 2 {
        let b0 = data[0] as int;
        let b1 = data[1] as int;
        seq![base64_symbol(b0 / 4), base64_symbol((b0 % 4) * 16 + b1 / 16), base64_symbol((b1 % 16) * 4), '=']
    } else {
        let b0 = data[0] as int;
        let b1 = data[1] as int;
        let b2 = data[2] as int;
        seq![
            base64_symbol(b0 / 4),
            base64_symbol((b0 % 4) * 16 + b1 / 16),
            base64_symbol((b1 % 16) * 4 + b2 / 64),
            base64_symbol(b2 % 64),
        ] + base64_standard(data.subrange(3, data.len() as int))
    }
}

/// A character of the standard Base64 alphabet, or the padding `=`.
pub open spec fn is_base64_char(c: char) -> bool {
    ('A' <= c <= 'Z') || ('a' <= c <= 'z') || ('0' <= c <= '9') || c == '+' || c == '/' || c == '='
}

/// Every six-bit value has a symbol of the alphabet.
pub proof fn lemma_base64_symbol(v: int)
    requires
        0 <= v < 64,
    ensures
        is_base64_char(base64_symbol(v)),
        base64_symbol(v) != '=',
{
}

/// The encoding is four characters for every group of three bytes begun, all
/// of the alphabet or `=`, and ends in `=` exactly when the last group is
/// short.
pub proof fn lemma_base64_shape(data: Seq<u8>)
    ensures
        base64_standard(data).len() == 4 * ((data.len() + 2) / 3),
        forall|i: int| 0 <= i < base64_standard(data).len() ==> is_base64_char(#[trigger] base64_standard(data)[i]),
        data.len() > 0 ==> (base64_standard(data).last() == '=' <==> data.len() % 3 != 0),
    decreases data.len(),
{
    if data.len() == 0 {
    } else if data.len() == 1 {
        let b0 = data[0] as int;
        lemma_base64_symbol(b0 / 4);
        lemma_base64_symbol((b0 % 4) * 16);
    } else if data.len() == 2 {
        let b0 = data[0] as int;
        let b1 = data[1] as int;
        lemma_base64_symbol(b0 / 4);
        lemma_base64_symbol((b0 % 4) * 16 + b1 / 16);
        lemma_base64_symbol((b1 % 16) * 4);
    } else {
        let b0 = data[0] as int;
        let b1 = data[1] as int;
        let b2 = data[2] as int;
        let rest = data.subrange(3, data.len() as int);
        lemma_base64_symbol(b0 / 4);
        lemma_base64_symbol((b0 % 4) * 16 + b1 / 16);
        lemma_base64_symbol((b1 % 16) * 4 + b2 / 64);
        lemma_base64_symbol(b2 % 64);
        lemma_base64_shape(rest);
        let head = seq![
            base64_symbol(b0 / 4),
            base64_symbol((b0 % 4) * 16 + b1 / 16),
            base64_symbol((b1 % 16) * 4 + b2 / 64),
            base64_symbol(b2 % 64),
        ];
        let e = base64_standard(data);
        assert(e == head + base64_standard(rest));
        assert forall|i: int| 0 <= i < e.len() implies is_base64_char(#[trigger] e[i]) by {
            if i >= 4 {
                assert(e[i] == base64_standard(rest)[i - 4]);
            }
        }
        if rest.len() == 0 {
            assert(data.len() == 3);
            assert(e.last() == head[3]);
        } else {
            assert(e.last() == base64_standard(rest).last());
        }
    }
}

/// The SHA-1 digest of `data` (`sha1::Sha1::digest`): stated to be the
/// named digest of exactly the bytes given, 20 bytes long.
#[verifier::external_body]
fn sha1_of(data: &[u8]) -> (r: Vec<u8>)
    ensures
        r@ == sha1_digest(data@),
        r@.len() == 20,
{
    sha1::Sha1::digest(data).to_vec()
}

/// The standard Base64 encoding of `data` (`base64::engine::general_purpose::STANDARD.encode`):
/// stated to be `base64_standard` of exactly the bytes given, the padded
/// encoding with the standard alphabet.
#[verifier::external_body]
fn base64_of(data: &[u8]) -> (r: String)
    ensures
        r@ == base64_standard(data@),
{
    base64::engine::general_purpose::STANDARD.encode(data)
}

/// The htpasswd entry for `username` with `password`:
/// `username:{SHA}` followed by the Base64 of the password's SHA-1 digest.
pub open spec fn htpasswd_entry_spec(username: Seq<char>, password: Seq<char>) -> Seq<char> {
    username + ":{SHA}"@ + base64_standard(sha1_digest(vstd::utf8::encode_utf8(password)))
}

/// The htpasswd record `username:{SHA}<base64 of SHA-1>` for `password`.
pub fn htpasswd_sha1_entry(username: &str, password: &str) -> (r: String)
    ensures
        r@ == htpasswd_entry_spec(username@, password@),
        forall|i: int|
            username@.len() + 6 <= i < r@.len() ==> is_base64_char(#[trigger] r@[i]),
        r@.len() == username@.len() + 6 + 28,
        r@.last() == '=',
{
    let digest = sha1_of(password.as_bytes());
    let b64 = base64_of(digest.as_slice());
    proof {
        lemma_base64_shape(digest@);
    }
    let mut r = owned(username);
    r.append(":{SHA}");
    proof {
        reveal_strlit(":{SHA}");
    }
    let ghost head = r@;
    r.append(b64.as_str());
    assert forall|i: int| username@.len() + 6 <= i < r@.len() implies is_base64_char(#[trigger] r@[i]) by {
        assert(r@[i] == b64@[i - head.len()]);
    }
    r
}

/// An entry starts with the user name and `:{SHA}`, and has a space only
/// where the user name has one.
pub proof fn lemma_htpasswd_entry_shape(username: Seq<char>, entry: Seq<char>)
    requires
        entry.len() >= username.len() + 6,
        entry.subrange(0, username.len() as int) == username,
        entry.subrange(username.len() as int, (username.len() + 6) as int) == ":{SHA}"@,
        forall|i: int| username.len() + 6 <= i < entry.len() ==> is_base64_char(#[trigger] entry[i]),
        forall|i: int| 0 <= i < username.len() ==> username[i] != ' ',
    ensures
        forall|i: int| 0 <= i < entry.len() ==> entry[i] != ' ',
{
    reveal_strlit(":{SHA}");
    assert forall|i: int| 0 <= i < entry.len() implies entry[i] != ' ' by {
        if i < username.len() {
            assert(entry[i] == entry.subrange(0, username.len() as int)[i]);
        } else if i < username.len() + 6 {
            assert(entry[i] == entry.subrange(username.len() as int, (username.len() + 6) as int)[i - username.len()]);
        }
    }
}

} // verus!
