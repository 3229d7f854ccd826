use vstd::prelude::*;
use vstd::utf8::{decode_utf8, pop_first_scalar, valid_utf8};

verus! {

/// A byte that may stand in a header value read as text: a visible ASCII
/// character, a space or a tab.
pub open spec fn is_visible_ascii(b: u8) -> bool {
    (32 <= b && b < 127) || b == 9
}

/// A header value whose bytes all read as text.
pub open spec fn is_visible_value(v: Seq<u8>) -> bool {
    forall|i: int| 0 <= i < v.len() ==> is_visible_ascii(#[trigger] v[i])
}

/// ASCII bytes read as characters.
pub open spec fn ascii_chars(v: Seq<u8>) -> Seq<char> {
    v.map_values(|b: u8| b as char)
}

/// Received headers: names, and values as raw bytes.
pub open spec fn raw_headers_view(raw: Seq<(String, Vec<u8>)>) -> Seq<(Seq<char>, Seq<u8>)> {
    raw.map_values(|h: (String, Vec<u8>)| (h.0@, h.1@))
}

/// The headers whose values read as text, in the order received, with
/// their values as text; the others are left out.
pub open spec fn visible_headers_of(raw: Seq<(Seq<char>, Seq<u8>)>) -> Seq<(Seq<char>, Seq<char>)>
    decreases raw.len(),
{
    if raw.len() == 0 {
        seq![]
    } else {
        let rest = visible_headers_of(raw.drop_last());
        let (name, value) = raw.last();
        if is_visible_value(value) {
            rest.push((name, ascii_chars(value)))
        } else {
            rest
        }
    }
}

/// Every header, with its value as text.
pub open spec fn all_headers_of(raw: Seq<(Seq<char>, Seq<u8>)>) -> Seq<(Seq<char>, Seq<char>)> {
    raw.map_values(|h: (Seq<char>, Seq<u8>)| (h.0, ascii_chars(h.1)))
}

/// All received header values read as text.
pub open spec fn all_visible(raw: Seq<(Seq<char>, Seq<u8>)>) -> bool {
    forall|i: int| 0 <= i < raw.len() ==> is_visible_value(#[trigger] raw[i].1)
}

/// A byte reads as text exactly when it lies in 32..=126 or is a tab.
pub proof fn lemma_visible_byte(b: u8)
    ensures
        is_visible_ascii(b) <==> ((32 <= b && b <= 126) || b == 9),
{
}

/// A received header is kept, with its value as text, exactly when every
/// byte of its value lies in 32..=126 or is a tab; the headers before it are
/// kept as they were.
pub proof fn lemma_visible_headers_push(
    raw: Seq<(Seq<char>, Seq<u8>)>,
    name: Seq<char>,
    value: Seq<u8>,
)
    ensures
        (forall|i: int| 0 <= i < value.len() ==> ((32 <= #[trigger] value[i] && value[i] <= 126)
            || value[i] == 9)) ==> visible_headers_of(raw.push((name, value)))
            == visible_headers_of(raw).push((name, value.map_values(|b: u8| b as char))),
        !(forall|i: int| 0 <= i < value.len() ==> ((32 <= #[trigger] value[i] && value[i] <= 126)
            || value[i] == 9)) ==> visible_headers_of(raw.push((name, value)))
            == visible_headers_of(raw),
{
    let all = raw.push((name, value));
    assert(all.drop_last() =~= raw);
    assert(all.last() == (name, value));
}

/// ASCII bytes are well-formed UTF-8, and decode to the characters with the
/// same numbers.
pub proof fn lemma_ascii_decodes(bytes: Seq<u8>)
    requires
        forall|i: int| 0 <= i < bytes.len() ==> #[trigger] bytes[i] < 128,
    ensures
        valid_utf8(bytes),
        decode_utf8(bytes) == ascii_chars(bytes),
    decreases bytes.len(),
{
    if bytes.len() > 0 {
        let b = bytes[0];
        assert(b & 0x7f == b) by (bit_vector)
            requires
                b < 128,
        ;
        assert(pop_first_scalar(bytes) =~= bytes.drop_first());
        let rest = bytes.drop_first();
        assert forall|i: int| 0 <= i < rest.len() implies #[trigger] rest[i] < 128 by {
            assert(rest[i] == bytes[i + 1]);
        }
        lemma_ascii_decodes(rest);
        assert(decode_utf8(bytes) =~= ascii_chars(bytes));
    }
}

/// When every value reads as text, no header is left out.
pub proof fn lemma_all_visible_keeps_all(raw: Seq<(Seq<char>, Seq<u8>)>)
    requires
        all_visible(raw),
    ensures
        visible_headers_of(raw) == all_headers_of(raw),
    decreases raw.len(),
{
    if raw.len() > 0 {
        let init = raw.drop_last();
        assert forall|i: int| 0 <= i < init.len() implies is_visible_value(#[trigger] init[i].1) by {
            assert(init[i] == raw[i]);
        }
        lemma_all_visible_keeps_all(init);
        assert(is_visible_value(raw[raw.len() - 1].1));
        assert(all_headers_of(raw) =~= all_headers_of(init).push(
            (raw.last().0, ascii_chars(raw.last().1)),
        ));
    }
}

/// `String::from_utf8`: the text that well-formed UTF-8 bytes encode, and
/// `None` for any other bytes.
#[verifier::external_body]
fn utf8_to_string(bytes: &[u8]) -> (r: Option<String>)
    ensures
        r is Some <==> valid_utf8(bytes@),
        r matches Some(s) ==> s@ == decode_utf8(bytes@),
{
    String::from_utf8(bytes.to_vec()).ok()
}

/// Whether every byte of a header value reads as text.
pub fn is_visible_header_value(value: &[u8]) -> (r: bool)
    ensures
        r == is_visible_value(value@),
        r <==> forall|i: int|
            0 <= i < value@.len() ==> ((32 <= #[trigger] value@[i] && value@[i] <= 126)
                || value@[i] == 9),
{
    let mut i: usize = 0;
    while i < value.len()
        invariant
            i <= value.len(),
            forall|j: int| 0 <= j < i ==> is_visible_ascii(#[trigger] value@[j]),
        decreases value.len() - i,
    {
        let b = value[i];
        if !((32 <= b && b < 127) || b == 9) {
            return false;
        }
        i = i + 1;
    }
    true
}

/// A header value that reads as text, as a string.
fn visible_value_to_string(value: &[u8]) -> (s: String)
    requires
        is_visible_value(value@),
    ensures
        s@ == ascii_chars(value@),
{
    proof {
        assert forall|i: int| 0 <= i < value@.len() implies #[trigger] value@[i] < 128 by {
            assert(is_visible_ascii(value@[i]));
        }
        lemma_ascii_decodes(value@);
    }
    match utf8_to_string(value) {
        Some(s) => s,
        None => {
            proof {
                assert(false);
            }
            String::new()
        },
    }
}

/// Keeps the headers whose values read as text, in the order received, and
/// turns their values into strings.
pub fn visible_headers(raw: &Vec<(String, Vec<u8>)>) -> (r: Vec<(String, String)>)
    ensures
        crate::simplehttp::owned_headers_view(r@) == visible_headers_of(raw_headers_view(raw@)),
{
    let mut out: Vec<(String, String)> = Vec::new();
    let mut i: usize = 0;
    while i < raw.len()
        invariant
            i <= raw.len(),
            crate::simplehttp::owned_headers_view(out@) == visible_headers_of(
                raw_headers_view(raw@.take(i as int)),
            ),
        decreases raw.len() - i,
    {
        let name = &raw[i].0;
        let value = raw[i].1.as_slice();
        proof {
            assert(raw_headers_view(raw@.take(i as int + 1)).drop_last() =~= raw_headers_view(
                raw@.take(i as int),
            ));
            assert(raw_headers_view(raw@.take(i as int + 1)).last() == (name@, value@));
        }
        if is_visible_header_value(value) {
            let text = visible_value_to_string(value);
            out.push((name.clone(), text));
            proof {
                assert(crate::simplehttp::owned_headers_view(out@) =~= visible_headers_of(
                    raw_headers_view(raw@.take(i as int)),
                ).push((name@, ascii_chars(value@))));
            }
        }
        i = i + 1;
    }
    proof {
        assert(raw@.take(raw.len() as int) =~= raw@);
    }
    out
}

} // verus!
