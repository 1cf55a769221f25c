//! Access tokens: how they are made, stored (as SHA-256 digests in hex)
//! and checked by the tunnel server.

use vstd::prelude::*;
use vstd::string::StringExecFns;
use sha2::Digest;
use crate::text::{chars_eq, chars_of, lines_of, split, split_on, string_of, strip_cr, trim, trimmed, trim_end_char, trim_end_matches, lemma_split_on_nonempty};
use crate::transport::same_text;

verus! {

/// The lower-case hexadecimal digit of `n` (below 16).
pub open spec fn hex_digit(n: int) -> char {
    if n < 10 {
        (48 + n) as char
    } else {
        (87 + n) as char
    }
}

/// Bytes in lower-case hexadecimal, high digit first.
pub open spec fn hex_spec(b: Seq<u8>) -> Seq<char>
    decreases b.len(),
{
    if b.len() == 0 {
        Seq::empty()
    } else {
        hex_spec(b.drop_last()) + seq![hex_digit(b.last() as int / 16), hex_digit(b.last() as int % 16)]
    }
}

/// A lower-case hexadecimal digit.
pub open spec fn is_lower_hex(c: char) -> bool {
    ('0' <= c && c <= '9') || ('a' <= c && c <= 'f')
}

/// Bytes in hex take two digits each, every one a lower-case hex digit.
pub proof fn lemma_hex_shape(b: Seq<u8>)
    ensures
        hex_spec(b).len() == 2 * b.len(),
        forall|i: int| 0 <= i < hex_spec(b).len() ==> is_lower_hex(#[trigger] hex_spec(b)[i]),
    decreases b.len(),
{
    if b.len() > 0 {
        lemma_hex_shape(b.drop_last());
        let hi = b.last() as int / 16;
        let lo = b.last() as int % 16;
        assert(0 <= hi < 16 && 0 <= lo < 16);
        assert(is_lower_hex(hex_digit(hi)));
        assert(is_lower_hex(hex_digit(lo)));
        let prev = hex_spec(b.drop_last());
        assert forall|i: int| 0 <= i < hex_spec(b).len() implies is_lower_hex(#[trigger] hex_spec(b)[i]) by {
            if i < prev.len() {
                assert(hex_spec(b)[i] == prev[i]);
            }
        }
    }
}

/// `hex::encode`: each byte as two lower-case hexadecimal digits.
#[verifier::external_body]
fn hex_encode(data: &[u8]) -> (s: String)
    ensures
        s@ == hex_spec(data@),
{
    hex::encode(data)
}

/// The SHA-256 digest of `data`.
pub uninterp spec fn sha256_spec(data: Seq<u8>) -> Seq<u8>;

/// `sha2::Sha256::digest`: the digest, named `sha256_spec(data)`; it has 32 bytes.
#[verifier::external_body]
fn sha256(data: &[u8]) -> (d: Vec<u8>)
    ensures
        d@ == sha256_spec(data@),
        d@.len() == 32,
{
    sha2::Sha256::digest(data).to_vec()
}

/// How a token is stored: the hex digits of the SHA-256 digest of its UTF-8 bytes.
pub open spec fn token_hash_spec(token: Seq<char>) -> Seq<char> {
    hex_spec(sha256_spec(vstd::utf8::encode_utf8(token)))
}

/// The text a token is stored as.
pub fn hash_token(token: &str) -> (h: String)
    ensures
        h@ == token_hash_spec(token@),
        h@.len() == 64,
        forall|i: int| 0 <= i < h@.len() ==> is_lower_hex(#[trigger] h@[i]),
{
    let digest = sha256(token.as_bytes());
    proof {
        lemma_hex_shape(digest@);
    }
    hex_encode(digest.as_slice())
}

/// A gateway or device key made from random bytes: the bytes in hex.
pub fn key_from_bytes(bytes: &[u8]) -> (k: String)
    ensures
        k@ == hex_spec(bytes@),
{
    hex_encode(bytes)
}

/// The token made from random bytes: `tmcp_` and the bytes in hex.
pub fn token_from_bytes(bytes: &[u8]) -> (t: String)
    ensures
        t@ == "tmcp_"@ + hex_spec(bytes@),
{
    let mut t = "tmcp_".to_string();
    let h = hex_encode(bytes);
    t.append(h.as_str());
    t
}

/// How a generated token is printed: `{"token": "<token>"}` for the
/// `json` format, the bare token otherwise.
pub fn token_output(format: &str, token: &str) -> (s: String)
    ensures
        format@ == "json"@ ==> s@ == "{\"token\": \""@ + token@ + "\"}"@,
        format@ != "json"@ ==> s@ == token@,
{
    if same_text(format, "json") {
        let mut s = "{\"token\": \"".to_string();
        s.append(token);
        s.append("\"}");
        s
    } else {
        token.to_string()
    }
}

/// The status endpoint of `token` on `server`: trailing slashes of the
/// server address dropped, then `/v1/<token>/status`.
pub fn status_url(server: &str, token: &str) -> (u: String)
    ensures
        u@ == trim_end_char(server@, '/') + "/v1/"@ + token@ + "/status"@,
{
    let base = trim_end_matches(&chars_of(server), '/');
    let mut u = string_of(&base);
    u.append("/v1/");
    u.append(token);
    u.append("/status");
    u
}

/// Whether the tunnel server admits `token` with the token backend
/// `backend`: `allow_all` admits every token; `static_file` admits a token
/// whose stored form is a line of the token file (surrounding whitespace
/// ignored), and nothing when there is no readable file (`file_content`
/// is `None`); any other backend admits nothing.
pub open spec fn token_accepted(token: Seq<char>, backend: Seq<char>, file_content: Option<Seq<char>>) -> bool {
    if backend == "allow_all"@ {
        true
    } else if backend == "static_file"@ {
        match file_content {
            Some(c) => file_admits(c, token),
            None => false,
        }
    } else {
        false
    }
}

/// Some line of the token file `c` is the stored form of `token`.
pub open spec fn file_admits(c: Seq<char>, token: Seq<char>) -> bool {
    exists|i: int| 0 <= i < lines_of(c).len() && #[trigger] line_is(c, i, token_hash_spec(token))
}

/// Line `i` of `c`, without surrounding whitespace, is `h`.
pub open spec fn line_is(c: Seq<char>, i: int, h: Seq<char>) -> bool {
    trimmed(lines_of(c)[i]) == h
}

/// Checks a token as the tunnel server does.
pub fn validate_token(token: &str, backend: &str, file_content: Option<&str>) -> (ok: bool)
    ensures
        ok == token_accepted(token@, backend@, match file_content {
            Some(c) => Some(c@),
            None => None,
        }),
{
    if same_text(backend, "allow_all") {
        return true;
    }
    if !same_text(backend, "static_file") {
        return false;
    }
    let content = match file_content {
        Some(c) => c,
        None => {
            return false;
        },
    };
    let h = hash_token(token);
    let hc = chars_of(h.as_str());
    let cc = chars_of(content);
    let pieces = split(&cc, '\n');
    proof {
        lemma_split_on_nonempty(cc@, '\n');
    }
    let ghost p = split_on(cc@, '\n');
    let ghost lines = lines_of(cc@);
    let last_empty = pieces[pieces.len() - 1].len() == 0;
    let n = if last_empty {
        pieces.len() - 1
    } else {
        pieces.len()
    };
    assert(n == lines.len());
    let mut i: usize = 0;
    while i < n
        invariant
            backend@ == "static_file"@,
            backend@ != "allow_all"@,
            file_content == Some(content),
            cc@ == content@,
            n == lines.len(),
            lines == lines_of(cc@),
            p == split_on(cc@, '\n'),
            pieces@.len() == p.len(),
            n <= pieces@.len(),
            forall|j: int| 0 <= j < pieces@.len() ==> #[trigger] pieces@[j]@ == p[j],
            hc@ == token_hash_spec(token@),
            i <= n,
            forall|j: int| 0 <= j < i ==> !#[trigger] line_is(cc@, j, token_hash_spec(token@)),
        decreases n - i,
    {
        let piece = &pieces[i];
        let mut line: Vec<char> = Vec::new();
        let cut = i + 1 < pieces.len() && piece.len() > 0 && piece[piece.len() - 1] == '\r';
        let end = if cut {
            piece.len() - 1
        } else {
            piece.len()
        };
        let mut k: usize = 0;
        while k < end
            invariant
                end <= piece.len(),
                k <= end,
                line@ == piece@.subrange(0, k as int),
            decreases end - k,
        {
            line.push(piece[k]);
            k = k + 1;
            assert(line@ =~= piece@.subrange(0, k as int));
        }
        assert(line@ == lines[i as int]) by {
            assert(pieces@[i as int]@ == p[i as int]);
            if cut {
                assert(line@ =~= strip_cr(p[i as int]));
            } else {
                assert(line@ =~= p[i as int]);
            }
        }
        let t = trim(&line);
        if chars_eq(&t, &hc) {
            assert(trimmed(lines_of(content@)[i as int]) == token_hash_spec(token@));
            assert(0 <= i < lines_of(content@).len());
            assert(line_is(content@, i as int, token_hash_spec(token@)));
            assert(file_admits(content@, token@));
            return true;
        }
        i = i + 1;
    }
    false
}

} // verus!
