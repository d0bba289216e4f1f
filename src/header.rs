use vstd::prelude::*;
use crate::cookies::{cookie_pairs, lemma_pairs_visible, split_cookie_pairs};

verus! {

/// Declares `reqwest::header::HeaderValue` (the `http` crate's header value),
/// carried opaquely from the cookie jar to the library and back.
#[verifier::external_type_specification]
#[verifier::external_body]
pub struct ExHeaderValue(reqwest::header::HeaderValue);

/// A character that may stand in a header value: its UTF-8 bytes are all
/// tab or at least 32 and not DEL.
pub open spec fn header_char(c: char) -> bool {
    (c as u32 >= 32 && c as u32 != 127) || c as u32 == 9
}

/// A character that is visible ASCII or tab.
pub open spec fn visible_char(c: char) -> bool {
    (32 <= (c as u32) && (c as u32) < 127) || c as u32 == 9
}

/// Text that a header value can be built from.
pub open spec fn header_text(s: Seq<char>) -> bool {
    forall|i: int| 0 <= i < s.len() ==> #[trigger] header_char(s[i])
}

/// Text made only of visible ASCII characters and tabs.
pub open spec fn visible_text(s: Seq<char>) -> bool {
    forall|i: int| 0 <= i < s.len() ==> #[trigger] visible_char(s[i])
}

/// The bytes a header value holds.
pub uninterp spec fn header_bytes_of(v: reqwest::header::HeaderValue) -> Seq<u8>;

/// A byte that is visible ASCII or tab.
pub open spec fn visible_byte(b: u8) -> bool {
    (32 <= b && b < 127) || b == 9
}

/// Bytes that are all visible ASCII or tabs.
pub open spec fn visible_bytes(b: Seq<u8>) -> bool {
    forall|i: int| 0 <= i < b.len() ==> #[trigger] visible_byte(b[i])
}

/// ASCII bytes read as characters, one for one.
pub open spec fn ascii_chars(b: Seq<u8>) -> Seq<char> {
    Seq::new(b.len(), |i: int| b[i] as char)
}

/// Relies on `HeaderValue::from_str`: it accepts a string exactly when every
/// byte is a tab or at least 32 and not 127. Bytes of a non-ASCII character are
/// all at least 128, so the test reads per character.
#[verifier::external_body]
fn header_value_from(s: &str) -> (r: Option<reqwest::header::HeaderValue>)
    ensures
        r.is_some() <==> header_text(s@),
        r matches Some(h) ==> (visible_text(s@) ==> ascii_chars(header_bytes_of(h)) == s@),
{
    reqwest::header::HeaderValue::from_str(s).ok()
}

/// Relies on `HeaderValue::to_str`: it yields text exactly when every byte
/// is visible ASCII or a tab, and that text is the bytes read as characters.
#[verifier::external_body]
pub(crate) fn header_value_text(v: &reqwest::header::HeaderValue) -> (r: Option<String>)
    ensures
        r is Some <==> visible_bytes(header_bytes_of(*v)),
        r matches Some(t) ==> t@ == ascii_chars(header_bytes_of(*v)),
{
    v.to_str().ok().map(|t| t.to_string())
}

/// ASCII bytes that are all visible read as visible text.
pub proof fn lemma_visible_bytes_text(b: Seq<u8>)
    requires
        visible_bytes(b),
    ensures
        visible_text(ascii_chars(b)),
{
    let t = ascii_chars(b);
    assert forall|i: int| 0 <= i < t.len() implies #[trigger] visible_char(t[i]) by {
        assert(visible_byte(b[i]));
    }
}

/// Rebuilds the cookie headers that a stored session carries, one per
/// `name=value` pair. The stored text must hold at least one pair, and each
/// pair must be a valid header value.
pub fn session_cookie_headers(cookies: &String) -> (r: Result<Vec<reqwest::header::HeaderValue>, crate::ClientError>)
    ensures
        r is Ok <==> {
            &&& cookie_pairs(cookies@).len() > 0
            &&& forall|j: int| 0 <= j < cookie_pairs(cookies@).len() ==> header_text(#[trigger] cookie_pairs(cookies@)[j])
        },
        r matches Err(e) ==> e is InvalidSessionFormat,
        r matches Ok(hs) ==> {
            &&& hs@.len() == cookie_pairs(cookies@).len()
            &&& forall|j: int|
                0 <= j < hs@.len() && visible_text(cookie_pairs(cookies@)[j]) ==> ascii_chars(
                    header_bytes_of(#[trigger] hs@[j]),
                ) == cookie_pairs(cookies@)[j]
        },
{
    let pairs = split_cookie_pairs(cookies.as_str());
    if pairs.len() == 0 {
        return Err(crate::ClientError::InvalidSessionFormat);
    }
    let mut headers: Vec<reqwest::header::HeaderValue> = Vec::new();
    let mut j: usize = 0;
    while j < pairs.len()
        invariant
            j <= pairs@.len(),
            pairs@.len() == cookie_pairs(cookies@).len(),
            forall|k: int| 0 <= k < pairs@.len() ==> #[trigger] pairs@[k]@ == cookie_pairs(cookies@)[k],
            headers@.len() == j,
            forall|k: int| 0 <= k < j ==> header_text(#[trigger] cookie_pairs(cookies@)[k]),
            forall|k: int|
                0 <= k < j && visible_text(cookie_pairs(cookies@)[k]) ==> ascii_chars(header_bytes_of(#[trigger] headers@[k]))
                    == cookie_pairs(cookies@)[k],
        decreases pairs@.len() - j,
    {
        match header_value_from(pairs[j].as_str()) {
            Some(h) => headers.push(h),
            None => {
                assert(!header_text(cookie_pairs(cookies@)[j as int]));
                return Err(crate::ClientError::InvalidSessionFormat);
            },
        }
        j = j + 1;
    }
    Ok(headers)
}

/// A record that a login leaves behind (`SessionRecord::wf`, as
/// `session_from_login` ensures of every record) is accepted back by
/// `session_cookie_headers`, and each header it yields holds exactly the
/// text of its cookie pair.
pub proof fn lemma_login_cookies_reload(rec: crate::SessionRecord)
    requires
        rec.wf(),
    ensures
        cookie_pairs(rec.cookies@).len() > 0,
        forall|j: int| 0 <= j < cookie_pairs(rec.cookies@).len() ==> header_text(#[trigger] cookie_pairs(rec.cookies@)[j]),
        forall|j: int| 0 <= j < cookie_pairs(rec.cookies@).len() ==> visible_text(#[trigger] cookie_pairs(rec.cookies@)[j]),
{
    let s = rec.cookies@;
    lemma_pairs_visible(s);
    assert forall|j: int| 0 <= j < cookie_pairs(s).len() implies header_text(#[trigger] cookie_pairs(s)[j]) by {
        lemma_visible_text_is_header_text(cookie_pairs(s)[j]);
    }
}

/// Visible text is header text.
pub proof fn lemma_visible_text_is_header_text(s: Seq<char>)
    requires
        visible_text(s),
    ensures
        header_text(s),
{
    assert forall|i: int| 0 <= i < s.len() implies #[trigger] header_char(s[i]) by {
        assert(visible_char(s[i]));
    }
}

} // verus!
