//! The URL operations that the link builders hand to the URL parser: adding a query
//! pair and setting a fragment.

use vstd::prelude::*;
use vstd::string::*;
use vstd::utf8::{encode_utf8, has_width_1_encoding, leading_byte_width_1};

verus! {

/// The longest input, in characters, that the URL operations below are given. It keeps
/// every serialization well under the parser's 32-bit offsets.
pub const URL_LIMIT: usize = 0x100_0000;

/// A byte that form-urlencoding keeps as it is: an ASCII letter or digit, or `* - . _`.
pub open spec fn form_unchanged(b: u8) -> bool {
    ||| b == 0x2a || b == 0x2d || b == 0x2e || b == 0x5f
    ||| 0x30 <= b <= 0x39
    ||| 0x41 <= b <= 0x5a
    ||| 0x61 <= b <= 0x7a
}

/// The upper-case hexadecimal digit for `d < 16`.
pub open spec fn hex_upper(d: u8) -> char {
    if d < 10 {
        (0x30 + d) as char
    } else {
        (0x37 + d) as char
    }
}

/// One byte, form-urlencoded: kept, `+` for a space, else `%` and two upper-case digits.
pub open spec fn form_byte(b: u8) -> Seq<char> {
    if form_unchanged(b) {
        seq![b as char]
    } else if b == 0x20 {
        seq!['+']
    } else {
        seq!['%', hex_upper(b / 16), hex_upper(b % 16)]
    }
}

/// The `application/x-www-form-urlencoded` serialization of the bytes `b`.
pub open spec fn form_urlencoded(b: Seq<u8>) -> Seq<char>
    decreases b.len(),
{
    if b.len() == 0 {
        seq![]
    } else {
        form_byte(b[0]) + form_urlencoded(b.drop_first())
    }
}

/// `s` ends with `t`.
pub open spec fn has_suffix(s: Seq<char>, t: Seq<char>) -> bool {
    t.len() <= s.len() && s.subrange(s.len() - t.len(), s.len() as int) == t
}

/// `c` holds neither a `?` nor a `#`: nothing in it starts a query or a fragment.
pub open spec fn no_query_or_fragment(c: Seq<char>) -> bool {
    forall|k: int| 0 <= k < c.len() ==> #[trigger] c[k] != '?' && c[k] != '#'
}

/// A character that form-urlencoding keeps as it is.
pub open spec fn form_plain_char(c: char) -> bool {
    ||| c == '*' || c == '-' || c == '.' || c == '_'
    ||| '0' <= c <= '9'
    ||| 'A' <= c <= 'Z'
    ||| 'a' <= c <= 'z'
}

/// Form-urlencoding distributes over concatenation.
pub proof fn lemma_form_concat(x: Seq<u8>, y: Seq<u8>)
    ensures
        form_urlencoded(x + y) == form_urlencoded(x) + form_urlencoded(y),
    decreases x.len(),
{
    if x.len() == 0 {
        assert(x + y =~= y);
    } else {
        lemma_form_concat(x.drop_first(), y);
        assert((x + y).drop_first() =~= x.drop_first() + y);
        assert(form_urlencoded(x + y) =~= form_urlencoded(x) + form_urlencoded(y));
    }
}

/// UTF-8 encoding distributes over concatenation.
pub proof fn lemma_encode_concat(a: Seq<char>, b: Seq<char>)
    ensures
        encode_utf8(a + b) == encode_utf8(a) + encode_utf8(b),
    decreases a.len(),
{
    if a.len() == 0 {
        assert(a + b =~= b);
        assert(encode_utf8(a) =~= Seq::<u8>::empty());
        assert(encode_utf8(a + b) =~= encode_utf8(a) + encode_utf8(b));
    } else {
        lemma_encode_concat(a.drop_first(), b);
        assert((a + b).drop_first() =~= a.drop_first() + b);
        assert(encode_utf8(a + b) =~= encode_utf8(a) + encode_utf8(b));
    }
}

/// The UTF-8 encoding of one ASCII character is its code.
proof fn lemma_encode_ascii_char(c: char)
    requires
        c as u32 <= 0x7f,
    ensures
        encode_utf8(seq![c]) == seq![c as u8],
{
    let v = c as u32;
    assert(leading_byte_width_1(v) == v as u8) by (bit_vector)
        requires
            v <= 0x7f,
    ;
    assert(has_width_1_encoding(v));
    assert(seq![c].drop_first() =~= Seq::<char>::empty());
    assert(encode_utf8(Seq::<char>::empty()) =~= Seq::<u8>::empty());
    assert(encode_utf8(seq![c]) =~= seq![c as u8]);
}

/// Form-urlencoding keeps text made of `form_plain_char`s as it is.
pub proof fn lemma_form_plain(s: Seq<char>)
    requires
        forall|i: int| 0 <= i < s.len() ==> form_plain_char(#[trigger] s[i]),
    ensures
        form_urlencoded(encode_utf8(s)) == s,
    decreases s.len(),
{
    if s.len() > 0 {
        let c = s[0];
        assert(form_plain_char(c));
        let rest = s.drop_first();
        assert(s =~= seq![c] + rest);
        lemma_encode_concat(seq![c], rest);
        lemma_encode_ascii_char(c);
        lemma_form_concat(seq![c as u8], encode_utf8(rest));
        lemma_form_plain(rest);
        let one = seq![c as u8];
        assert(one.drop_first() =~= Seq::<u8>::empty());
        assert(form_urlencoded(Seq::<u8>::empty()) =~= Seq::<char>::empty());
        assert(form_unchanged(c as u8));
        assert(((c as u8) as char) == c);
        assert(form_byte(c as u8) =~= seq![c]);
        assert(form_urlencoded(one) =~= seq![c]);
    } else {
        assert(encode_utf8(s) =~= Seq::<u8>::empty());
    }
}

/// Form-urlencoding turns a `/` into `%2F`.
pub proof fn lemma_form_slash()
    ensures
        form_urlencoded(encode_utf8(seq!['/'])) == seq!['%', '2', 'F'],
{
    lemma_encode_ascii_char('/');
    let one = seq!['/' as u8];
    assert(one.drop_first() =~= Seq::<u8>::empty());
    assert(form_urlencoded(Seq::<u8>::empty()) =~= Seq::<char>::empty());
    assert(('/' as u8) == 0x2f);
    assert(hex_upper(2) == '2');
    assert(hex_upper(15) == 'F');
    assert(form_byte(0x2f) =~= seq!['%', '2', 'F']);
    assert(form_urlencoded(one) =~= seq!['%', '2', 'F']);
}

/// The query that carries the branch `b` as the form-urlencoded reference
/// `refs/heads/<b>`: the `/`s of the prefix come out as `%2F`.
pub open spec fn encoded_ref_query(b: Seq<char>) -> Seq<char> {
    "?at=refs%2Fheads%2F"@ + form_urlencoded(encode_utf8(b))
}

/// The pair `at=refs/heads/<b>`, form-urlencoded after a `?`, is `encoded_ref_query(b)`.
pub proof fn lemma_ref_query(b: Seq<char>)
    ensures
        seq!['?'] + form_urlencoded(encode_utf8("at"@)) + seq!['='] + form_urlencoded(
            encode_utf8("refs/heads/"@ + b),
        ) == encoded_ref_query(b),
{
    reveal_strlit("at");
    reveal_strlit("refs/heads/");
    reveal_strlit("?at=refs%2Fheads%2F");
    lemma_form_plain("at"@);
    let refs = seq!['r', 'e', 'f', 's'];
    let heads = seq!['h', 'e', 'a', 'd', 's'];
    let slash = seq!['/'];
    assert("refs/heads/"@ + b =~= refs + slash + heads + slash + b);
    lemma_encode_concat(refs + slash + heads + slash, b);
    lemma_encode_concat(refs + slash + heads, slash);
    lemma_encode_concat(refs + slash, heads);
    lemma_encode_concat(refs, slash);
    lemma_form_concat(encode_utf8(refs + slash + heads + slash), encode_utf8(b));
    lemma_form_concat(encode_utf8(refs + slash + heads), encode_utf8(slash));
    lemma_form_concat(encode_utf8(refs + slash), encode_utf8(heads));
    lemma_form_concat(encode_utf8(refs), encode_utf8(slash));
    lemma_form_plain(refs);
    lemma_form_plain(heads);
    lemma_form_slash();
    assert(seq!['?'] + form_urlencoded(encode_utf8("at"@)) + seq!['='] + form_urlencoded(
        encode_utf8("refs/heads/"@ + b),
    ) =~= encoded_ref_query(b));
}

/// Text without `?` or `#` stays so when joined to more such text.
pub proof fn lemma_no_query_or_fragment_concat(a: Seq<char>, b: Seq<char>)
    ensures
        no_query_or_fragment(a) && no_query_or_fragment(b) ==> no_query_or_fragment(a + b),
{
    assert forall|k: int|
        no_query_or_fragment(a) && no_query_or_fragment(b) && 0 <= k < (a + b).len() implies #[trigger] (a + b)[k] != '?' && (a
        + b)[k] != '#' by {
        if k < a.len() {
            assert((a + b)[k] == a[k]);
        } else {
            assert((a + b)[k] == b[k - a.len()]);
        }
    }
}

/// The serialization of the absolute URL `base` with the pair `key=value` added to its
/// query, or `None` where `base` is not an absolute URL.
pub uninterp spec fn url_with_query_pair(base: Seq<char>, key: Seq<char>, value: Seq<char>) -> Option<Seq<char>>;

/// The serialization of the absolute URL `url` with its fragment set to `fragment`, or
/// `None` where `url` is not an absolute URL.
pub uninterp spec fn url_with_fragment(url: Seq<char>, fragment: Seq<char>) -> Option<Seq<char>>;

#[verifier::external_type_specification]
#[verifier::external_body]
pub struct ExUrlParseError(url::ParseError);

/// Relies on url::Url::parse_with_params: it parses `base` as an absolute URL and appends
/// `key=value` to its query, each form-urlencoded from its UTF-8 bytes
/// (form_urlencoded::byte_serialize). Where `base` has no query and no fragment, the pair
/// ends the serialization, after a `?`.
#[verifier::external_body]
pub(crate) fn parse_with_query_pair(base: &str, key: &str, value: &str) -> (r: Result<String, url::ParseError>)
    requires
        base@.len() + key@.len() + value@.len() < URL_LIMIT,
    ensures
        r is Ok <==> url_with_query_pair(base@, key@, value@) is Some,
        r matches Ok(t) ==> url_with_query_pair(base@, key@, value@) == Some(t@),
        r matches Ok(t) ==> no_query_or_fragment(base@) ==> has_suffix(
            t@,
            seq!['?'] + form_urlencoded(encode_utf8(key@)) + seq!['='] + form_urlencoded(
                encode_utf8(value@),
            ),
        ),
{
    match url::Url::parse_with_params(base, &[(key, value)]) {
        Ok(u) => Ok(u.into()),
        Err(e) => Err(e),
    }
}

/// Relies on url::Url::parse and url::Url::set_fragment: it parses `url` as an absolute
/// URL and replaces its fragment with `fragment`, which ASCII digits pass through
/// unchanged.
#[verifier::external_body]
pub(crate) fn parse_with_fragment(url: &str, fragment: &str) -> (r: Result<String, url::ParseError>)
    requires
        url@.len() + fragment@.len() < URL_LIMIT,
    ensures
        r is Ok <==> url_with_fragment(url@, fragment@) is Some,
        r matches Ok(t) ==> url_with_fragment(url@, fragment@) == Some(t@),
        r matches Ok(t) ==> (forall|k: int| 0 <= k < fragment@.len() ==> '0' <= #[trigger] fragment@[k] <= '9')
            ==> has_suffix(t@, seq!['#'] + fragment@),
{
    match url::Url::parse(url) {
        Ok(mut u) => {
            u.set_fragment(Some(fragment));
            Ok(u.into())
        },
        Err(e) => Err(e),
    }
}

} // verus!
