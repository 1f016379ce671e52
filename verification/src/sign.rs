use vstd::prelude::*;
use vstd::string::StrSliceExecFns;
use vstd::string::StringExecFns;
use vstd::utf8::encode_utf8;

verus! {

/// The 16-byte MD5 digest of a byte sequence. The digest depends on the
/// bytes alone, so it is named rather than spelled out.
pub uninterp spec fn md5_of(bytes: Seq<u8>) -> Seq<u8>;

/// Relies on `md5::compute`: the digest is a function of the input bytes
/// alone and is always 16 bytes long.
#[verifier::external_body]
fn md5_bytes(data: &Vec<u8>) -> (r: Vec<u8>)
    ensures
        r@ == md5_of(data@),
        r@.len() == 16,
{
    md5::compute(data.as_slice()).0.to_vec()
}

/// The character for one hexadecimal digit, lowercase.
pub open spec fn spec_hex_char(d: int) -> char {
    if d < 10 {
        crate::text::spec_digit_char(d)
    } else if d == 10 {
        'a'
    } else if d == 11 {
        'b'
    } else if d == 12 {
        'c'
    } else if d == 13 {
        'd'
    } else if d == 14 {
        'e'
    } else {
        'f'
    }
}

/// Lowercase hexadecimal rendering of a byte sequence, two digits per byte.
pub open spec fn spec_hex(bytes: Seq<u8>) -> Seq<char>
    decreases bytes.len(),
{
    if bytes.len() == 0 {
        Seq::<char>::empty()
    } else {
        spec_hex(bytes.drop_last()) + seq![
            spec_hex_char(bytes.last() as int / 16),
            spec_hex_char(bytes.last() as int % 16),
        ]
    }
}

fn hex_digit_str(d: u8) -> (r: &'static str)
    requires
        d < 16,
    ensures
        r@ == seq![spec_hex_char(d as int)],
{
    let s = match d {
        0 => "0",
        1 => "1",
        2 => "2",
        3 => "3",
        4 => "4",
        5 => "5",
        6 => "6",
        7 => "7",
        8 => "8",
        9 => "9",
        10 => "a",
        11 => "b",
        12 => "c",
        13 => "d",
        14 => "e",
        _ => "f",
    };
    proof {
        reveal_strlit("0");
        reveal_strlit("1");
        reveal_strlit("2");
        reveal_strlit("3");
        reveal_strlit("4");
        reveal_strlit("5");
        reveal_strlit("6");
        reveal_strlit("7");
        reveal_strlit("8");
        reveal_strlit("9");
        reveal_strlit("a");
        reveal_strlit("b");
        reveal_strlit("c");
        reveal_strlit("d");
        reveal_strlit("e");
        reveal_strlit("f");
        assert(s@ =~= seq![spec_hex_char(d as int)]);
    }
    s
}

/// Hexadecimal rendering writes two digits per byte.
proof fn lemma_spec_hex_len(bytes: Seq<u8>)
    ensures
        spec_hex(bytes).len() == 2 * bytes.len(),
    decreases bytes.len(),
{
    if bytes.len() > 0 {
        lemma_spec_hex_len(bytes.drop_last());
    }
}

/// Renders bytes as lowercase hexadecimal.
pub fn to_hex(bytes: &Vec<u8>) -> (r: String)
    ensures
        r@ == spec_hex(bytes@),
{
    let mut s = String::new();
    let mut i: usize = 0;
    while i < bytes.len()
        invariant
            i <= bytes@.len(),
            s@ == spec_hex(bytes@.take(i as int)),
        decreases bytes@.len() - i,
    {
        let b = bytes[i];
        s.append(hex_digit_str(b / 16));
        s.append(hex_digit_str(b % 16));
        i += 1;
        proof {
            assert(bytes@.take(i as int).drop_last() =~= bytes@.take(i - 1));
            assert(bytes@.take(i as int).last() == bytes@[i - 1]);
        }
    }
    proof {
        assert(bytes@.take(bytes@.len() as int) =~= bytes@);
    }
    s
}

/// The provider's request signature: the lowercase hexadecimal MD5 digest of
/// the UTF-8 bytes of `appId ++ query ++ salt ++ secretKey`, in that order.
pub open spec fn spec_sign(
    app_id: Seq<char>,
    query: Seq<char>,
    salt: Seq<char>,
    secret_key: Seq<char>,
) -> Seq<char> {
    spec_hex(md5_of(encode_utf8(app_id + query + salt + secret_key)))
}

/// Computes the per-request signature the provider's authentication scheme
/// demands. The concatenation order and the digest algorithm are fixed by the
/// provider; any deviation is rejected on the provider's side.
pub fn generate_sign(app_id: &str, query: &str, salt: &str, secret_key: &str) -> (r: String)
    ensures
        r@ == spec_sign(app_id@, query@, salt@, secret_key@),
        r@.len() == 32,
{
    let mut s = String::new();
    s.append(app_id);
    s.append(query);
    s.append(salt);
    s.append(secret_key);
    assert(s@ == app_id@ + query@ + salt@ + secret_key@);
    let bytes = s.as_str().as_bytes_vec();
    let digest = md5_bytes(&bytes);
    proof {
        lemma_spec_hex_len(digest@);
    }
    to_hex(&digest)
}

/// The signature is deterministic: it depends only on the four inputs, so two
/// signatures over equal inputs are equal.
pub proof fn lemma_sign_deterministic(
    a1: Seq<char>,
    q1: Seq<char>,
    s1: Seq<char>,
    k1: Seq<char>,
    a2: Seq<char>,
    q2: Seq<char>,
    s2: Seq<char>,
    k2: Seq<char>,
)
    requires
        a1 == a2,
        q1 == q2,
        s1 == s2,
        k1 == k2,
    ensures
        spec_sign(a1, q1, s1, k1) == spec_sign(a2, q2, s2, k2),
{
}

} // verus!
