//! The session cookie: where the token stands in a request's `Cookie` header, and what
//! the `Set-Cookie` headers that store and remove it look like.

use vstd::prelude::*;
use vstd::string::*;
use crate::text::{
    after_last,
    chars_of,
    find,
    first_starting_with,
    lemma_after_last,
    lemma_first_occurrence,
    lemma_first_occurrence_in_rest,
    matches_at,
    occurs_at,
    split,
    starts_with,
};

verus! {

/// Name of the cookie that carries the session token.
pub const AUTH_COOKIE: &'static str = "token";

/// What stands between two cookies in a `Cookie` header.
pub const COOKIE_SEPARATOR: &'static str = "; ";

/// What stands between a cookie's name and its value.
pub const COOKIE_ASSIGN: &'static str = "=";

/// What follows the token in the header that stores it.
pub const STORE_ATTRIBUTES: &'static str = "; path=/; HttpOnly";

/// What follows the cookie's name in the header that removes it.
pub const REMOVE_ATTRIBUTES: &'static str = "=; path=/; expires=Thu, 01 Jan 1970 00:00:00 GMT";

/// `http::HeaderMap`, the headers of a request, carried through as they are.
#[verifier::external_type_specification]
#[verifier::external_body]
#[verifier::reject_recursive_types(T)]
pub struct ExHeaderMap<T>(http::HeaderMap<T>);

/// `http::HeaderValue`, the value of one header, carried through as it is.
#[verifier::external_type_specification]
#[verifier::external_body]
pub struct ExHeaderValue(http::HeaderValue);

/// The bytes of a header value.
pub uninterp spec fn header_value_bytes(value: http::HeaderValue) -> Seq<u8>;

/// The values that a header map holds under the name `cookie`, each as its bytes, in the
/// order in which they were added.
pub uninterp spec fn cookie_values(headers: http::HeaderMap<http::HeaderValue>) -> Seq<Seq<u8>>;

/// A byte that may stand in a header value read as text: printable ASCII, or a tab.
pub open spec fn is_visible_ascii(byte: u8) -> bool {
    (32 <= byte < 127) || byte == 9
}

/// All bytes of a header value may stand in text.
pub open spec fn is_visible_text(bytes: Seq<u8>) -> bool {
    forall|i: int| 0 <= i < bytes.len() ==> is_visible_ascii(#[trigger] bytes[i])
}

/// ASCII bytes as the characters they encode.
pub open spec fn ascii_text(bytes: Seq<u8>) -> Seq<char> {
    Seq::new(bytes.len(), |i: int| bytes[i] as char)
}

/// `http::HeaderMap::get` with the name `http::header::COOKIE`. Of several values under
/// that name it hands out the first, and none where there is no such header.
#[verifier::external_body]
fn first_cookie<'a>(headers: &'a http::HeaderMap<http::HeaderValue>) -> (value: Option<
    &'a http::HeaderValue,
>)
    ensures
        value is Some <==> cookie_values(*headers).len() > 0,
        value matches Some(v) ==> header_value_bytes(*v) == cookie_values(*headers)[0],
{
    headers.get(http::header::COOKIE)
}

/// `http::HeaderValue::to_str`, its error dropped. The value is handed out as text
/// exactly if each of its bytes is printable ASCII or a tab; the text is then those
/// bytes, one character each.
#[verifier::external_body]
fn visible_text<'a>(value: &'a http::HeaderValue) -> (text: Option<&'a str>)
    ensures
        text is Some <==> is_visible_text(header_value_bytes(*value)),
        text matches Some(t) ==> t@ == ascii_text(header_value_bytes(*value)),
{
    value.to_str().ok()
}

/// The token of the first of `pieces` whose text begins with the cookie's name: what
/// follows its last `=`, or all of it where it holds none.
pub open spec fn token_among(pieces: Seq<Seq<char>>) -> Option<Seq<char>> {
    match first_starting_with(pieces, AUTH_COOKIE@) {
        Some(piece) => Some(after_last(piece, '=')),
        None => None,
    }
}

/// The session token in the text of a `Cookie` header: the header is cut at each
/// `"; "`, and the first piece that begins with the cookie's name gives the token.
pub open spec fn auth_token_of(cookie: Seq<char>) -> Option<Seq<char>> {
    token_among(split(cookie, COOKIE_SEPARATOR@))
}

/// The session token that a request's headers carry: that of the first `Cookie`
/// header, if there is one and it is text.
pub open spec fn auth_token_in(cookies: Seq<Seq<u8>>) -> Option<Seq<char>> {
    if cookies.len() > 0 && is_visible_text(cookies[0]) {
        auth_token_of(ascii_text(cookies[0]))
    } else {
        None
    }
}

/// Where in the piece of `text` from `start` to `end` the token begins: just after the
/// piece's last `=`, or at `start`.
fn token_start(text: &Vec<char>, start: usize, end: usize) -> (cut: usize)
    requires
        start <= end <= text.len(),
    ensures
        start <= cut <= end,
        after_last(text@.subrange(start as int, end as int), '=') == text@.subrange(
            cut as int,
            end as int,
        ),
{
    let mut cut: usize = end;
    while cut > start && text[cut - 1] != '='
        invariant
            start <= cut <= end <= text.len(),
            forall|i: int| cut <= i < end ==> text[i] != '=',
        decreases cut,
    {
        cut -= 1;
    }
    proof {
        let piece = text@.subrange(start as int, end as int);
        lemma_after_last(piece, '=', cut - start);
        assert(piece.subrange(cut - start, piece.len() as int) =~= text@.subrange(
            cut as int,
            end as int,
        ));
    }
    cut
}

/// Reads the session token out of the text of a `Cookie` header.
pub fn auth_token(cookie: &str) -> (token: Option<String>)
    ensures
        match token {
            Some(t) => auth_token_of(cookie@) == Some(t@),
            None => auth_token_of(cookie@) is None,
        },
{
    let text = chars_of(cookie);
    let separator = chars_of(COOKIE_SEPARATOR);
    let name = chars_of(AUTH_COOKIE);
    proof {
        reveal_strlit("; ");
        assert(text@.subrange(0, text@.len() as int) =~= text@);
    }
    let mut start: usize = 0;
    loop
        invariant
            text@ == cookie@,
            separator@ == COOKIE_SEPARATOR@,
            separator@.len() == 2,
            name@ == AUTH_COOKIE@,
            start <= text.len(),
            auth_token_of(cookie@) == token_among(
                split(text@.subrange(start as int, text@.len() as int), separator@),
            ),
        decreases text.len() - start,
    {
        let found = find(&text, &separator, start);
        let end = match found {
            Some(at) => at,
            None => text.len(),
        };
        proof {
            lemma_first_occurrence(text@, separator@, start as int);
            lemma_first_occurrence_in_rest(text@, separator@, start as int, start as int);
        }
        let ghost rest = text@.subrange(start as int, text@.len() as int);
        let ghost piece = text@.subrange(start as int, end as int);
        let ghost pieces = split(rest, separator@);
        proof {
            assert(first_starting_with(Seq::<Seq<char>>::empty(), name@) is None);
            if found is Some {
                assert(rest.subrange(0, end - start) =~= piece);
                assert(rest.subrange(end - start + 2, rest.len() as int) =~= text@.subrange(
                    end + 2,
                    text@.len() as int,
                ));
                assert(pieces == seq![piece] + split(
                    text@.subrange(end + 2, text@.len() as int),
                    separator@,
                ));
                assert(pieces.drop_first() =~= split(
                    text@.subrange(end + 2, text@.len() as int),
                    separator@,
                ));
            } else {
                assert(rest == piece);
                assert(pieces == seq![piece]);
                assert(pieces.drop_first() =~= Seq::<Seq<char>>::empty());
            }
            assert(pieces[0] == piece);
            assert(first_starting_with(pieces, name@) == if starts_with(piece, name@) {
                Some(piece)
            } else {
                first_starting_with(pieces.drop_first(), name@)
            });
            if start + name@.len() <= end {
                assert(piece.subrange(0, name@.len() as int) =~= text@.subrange(
                    start as int,
                    start + name@.len(),
                ));
            }
            assert(starts_with(piece, name@) <==> (occurs_at(text@, name@, start as int) && start
                + name@.len() <= end));
        }
        if matches_at(&text, &name, start) && name.len() <= end - start {
            let cut = token_start(&text, start, end);
            return Some(cookie.substring_char(cut, end).to_owned());
        }
        match found {
            Some(at) => {
                start = at + separator.len();
            },
            None => {
                return None;
            },
        }
    }
}

/// Reads the session token out of a request's headers: out of the first `Cookie`
/// header, where that is text.
pub fn read_auth_cookie(headers: &http::HeaderMap<http::HeaderValue>) -> (token: Option<String>)
    ensures
        match token {
            Some(t) => auth_token_in(cookie_values(*headers)) == Some(t@),
            None => auth_token_in(cookie_values(*headers)) is None,
        },
{
    match first_cookie(headers) {
        Some(value) => match visible_text(value) {
            Some(text) => auth_token(text),
            None => None,
        },
        None => None,
    }
}

/// The text of the `Set-Cookie` header that stores a token.
pub open spec fn store_header_of(token: Seq<char>) -> Seq<char> {
    AUTH_COOKIE@ + COOKIE_ASSIGN@ + token + STORE_ATTRIBUTES@
}

/// The `Set-Cookie` header that stores a token: readable on every path, and by no script.
pub fn store_cookie_header(token: &str) -> (header: String)
    ensures
        header@ == store_header_of(token@),
{
    let mut header = AUTH_COOKIE.to_owned();
    header.append(COOKIE_ASSIGN);
    header.append(token);
    header.append(STORE_ATTRIBUTES);
    header
}

/// The `Set-Cookie` header that removes the token: an empty value that expired long ago.
pub fn remove_cookie_header() -> (header: String)
    ensures
        header@ == AUTH_COOKIE@ + REMOVE_ATTRIBUTES@,
{
    let mut header = AUTH_COOKIE.to_owned();
    header.append(REMOVE_ATTRIBUTES);
    header
}

/// What a client sends back of a stored token is read as the token it was stored with:
/// a `Cookie` header of the cookie's name, `=` and a token gives that token, where the
/// token holds neither `=` nor `;`.
pub proof fn lemma_stored_token_is_read_back(token: Seq<char>)
    requires
        !token.contains('='),
        !token.contains(';'),
    ensures
        auth_token_of(AUTH_COOKIE@ + COOKIE_ASSIGN@ + token) == Some(token),
{
    reveal_strlit("token");
    reveal_strlit("=");
    reveal_strlit("; ");
    let cookie = AUTH_COOKIE@ + COOKIE_ASSIGN@ + token;
    assert(cookie.len() == 6 + token.len());
    assert forall|i: int| 0 <= i < cookie.len() implies cookie[i] != ';' by {
        if i >= 6 {
            assert(cookie[i] == token[i - 6]);
        }
    }
    assert forall|i: int| 0 <= i implies !occurs_at(cookie, COOKIE_SEPARATOR@, i) by {
        if i + 2 <= cookie.len() {
            assert(cookie.subrange(i, i + 2)[0] == cookie[i]);
        }
    }
    lemma_first_occurrence(cookie, COOKIE_SEPARATOR@, 0);
    assert(split(cookie, COOKIE_SEPARATOR@) == seq![cookie]);
    assert(cookie.subrange(0, 5) =~= AUTH_COOKIE@);
    assert(first_starting_with(seq![cookie], AUTH_COOKIE@) == Some(cookie));
    assert forall|i: int| 6 <= i < cookie.len() implies cookie[i] != '=' by {
        assert(cookie[i] == token[i - 6]);
    }
    lemma_after_last(cookie, '=', 6);
    assert(cookie.subrange(6, cookie.len() as int) =~= token);
}

} // verus!
