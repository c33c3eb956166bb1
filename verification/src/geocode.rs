//! Geocoding of lots: which address is looked up, within which monthly
//! quota, where the request goes and which answer counts.
use vstd::prelude::*;
use vstd::utf8::encode_utf8;
use crate::model::LotDetail;
use crate::text::{has_nonblank, owned, same_text, trimmed};

verus! {

/// How many addresses may be geocoded per calendar month.
pub const MONTHLY_GEOCODE_QUOTA: u32 = 1000;

/// The bytes that percent-encoding leaves alone: ASCII letters, digits and `-_.~`.
pub open spec fn is_unreserved_byte(b: u8) -> bool {
    ||| (48 <= b && b <= 57)
    ||| (65 <= b && b <= 90)
    ||| (97 <= b && b <= 122)
    ||| b == 45
    ||| b == 46
    ||| b == 95
    ||| b == 126
}

/// An upper-case hexadecimal digit.
pub open spec fn hex_digit_char(d: u8) -> char {
    if d < 10 {
        (48 + d) as char
    } else {
        (55 + d) as char
    }
}

/// Each byte percent-encoded: an unreserved byte as its character, any
/// other as `%` and two upper-case hexadecimal digits.
pub open spec fn percent_encoded(bytes: Seq<u8>) -> Seq<char>
    decreases bytes.len(),
{
    if bytes.len() == 0 {
        Seq::empty()
    } else {
        let b = bytes.last();
        percent_encoded(bytes.drop_last()) + if is_unreserved_byte(b) {
            seq![b as char]
        } else {
            seq!['%', hex_digit_char(b / 16), hex_digit_char(b % 16)]
        }
    }
}

/// `urlencoding::encode`: percent-encodes every byte of the UTF-8 encoding
/// of `s` except ASCII letters, digits and `-`, `_`, `.`, `~`, with
/// upper-case hexadecimal digits.
#[verifier::external_body]
fn url_encode(s: &str) -> (res: String)
    ensures
        res@ == percent_encoded(encode_utf8(s@)),
{
    urlencoding::encode(s).into_owned()
}

/// The Geocoding API request for `address`.
pub open spec fn geocode_url_text(api_key: Seq<char>, address: Seq<char>) -> Seq<char> {
    "https://maps.googleapis.com/maps/api/geocode/json?address="@ + percent_encoded(
        encode_utf8(address),
    ) + "&key="@ + api_key
}

/// Where the coordinates of `address` are asked for.
pub fn geocode_url(api_key: &str, address: &str) -> (res: String)
    ensures
        res@ == geocode_url_text(api_key@, address@),
{
    let mut url = owned("https://maps.googleapis.com/maps/api/geocode/json?address=");
    let encoded = url_encode(address);
    url.append(encoded.as_str());
    url.append("&key=");
    url.append(api_key);
    url
}

/// The address of the first item of a lot, where the lot lists items and the
/// first has an address.
pub open spec fn first_item_address(d: LotDetail) -> Option<Seq<char>> {
    match d.content {
        Some(c) => match c.barangs {
            Some(bs) => if bs@.len() > 0 {
                match bs@[0].alamat {
                    Some(a) => Some(a@),
                    None => None,
                }
            } else {
                None
            },
            None => None,
        },
        None => None,
    }
}

/// The address looked up for a lot: that of its first item, else the
/// location of the lot.
pub open spec fn address_of(d: LotDetail) -> Option<Seq<char>> {
    match first_item_address(d) {
        Some(a) => Some(a),
        None => match d.nama_lokasi {
            Some(l) => Some(l@),
            None => None,
        },
    }
}

/// The address to geocode for a lot.
pub fn geocode_address(detail: &LotDetail) -> (res: Option<String>)
    ensures
        match res {
            Some(a) => address_of(*detail) == Some(a@),
            None => address_of(*detail) == None::<Seq<char>>,
        },
{
    let mut first: Option<String> = None;
    if let Some(content) = &detail.content {
        if let Some(barangs) = &content.barangs {
            if barangs.len() > 0 {
                if let Some(a) = &barangs[0].alamat {
                    first = Some(a.clone());
                }
            }
        }
    }
    match first {
        Some(a) => Some(a),
        None => match &detail.nama_lokasi {
            Some(l) => Some(l.clone()),
            None => None,
        },
    }
}

/// The address to geocode for a lot, if an API key is there and the lot's
/// address is not blank.
pub open spec fn target_of(has_api_key: bool, d: LotDetail) -> Option<Seq<char>> {
    if has_api_key {
        match address_of(d) {
            Some(a) => if trimmed(a).len() > 0 {
                Some(a)
            } else {
                None
            },
            None => None,
        }
    } else {
        None
    }
}

/// The address that is to be geocoded for a lot, if any.
pub fn geocoding_target(has_api_key: bool, detail: &LotDetail) -> (res: Option<String>)
    ensures
        match res {
            Some(a) => target_of(has_api_key, *detail) == Some(a@),
            None => target_of(has_api_key, *detail) == None::<Seq<char>>,
        },
{
    if !has_api_key {
        return None;
    }
    match geocode_address(detail) {
        Some(a) => if has_nonblank(a.as_str()) {
            Some(a)
        } else {
            None
        },
        None => None,
    }
}

/// Whether a further address may be geocoded this month, `used` having been
/// geocoded already.
pub fn within_quota(used: u32) -> (res: bool)
    ensures
        res == (used < MONTHLY_GEOCODE_QUOTA),
{
    used < MONTHLY_GEOCODE_QUOTA
}

/// Whether a Geocoding API answer gives coordinates: its status is `OK` and
/// it holds a result; the first result is then the one taken.
pub fn geocode_found(status: &str, result_count: usize) -> (res: bool)
    ensures
        res == (status@ == "OK"@ && result_count > 0),
{
    same_text(status, "OK") && result_count > 0
}

/// Whether the first item of a lot has an address.
pub open spec fn has_first_item_address(d: LotDetail) -> bool {
    d.content matches Some(c) && c.barangs matches Some(bs) && bs@.len() > 0
        && bs@[0].alamat is Some
}

/// The address looked up for a lot is the first item's address where there
/// is one, and the lot's location otherwise (none where that is absent too).
pub proof fn law_address_choice(d: LotDetail)
    ensures
        has_first_item_address(d) ==> address_of(d) == Some(
            d.content->Some_0.barangs->Some_0@[0].alamat->Some_0@,
        ),
        !has_first_item_address(d) ==> address_of(d) == match d.nama_lokasi {
            Some(l) => Some(l@),
            None => None::<Seq<char>>,
        },
{
}

/// Without an API key nothing is geocoded; with one, the lot's address (its
/// first item's, else its location) is geocoded exactly when it is not blank.
pub proof fn law_geocoding_target(has_api_key: bool, d: LotDetail)
    ensures
        !has_api_key ==> target_of(has_api_key, d) == None::<Seq<char>>,
        has_api_key && has_first_item_address(d) ==> target_of(has_api_key, d) == {
            let a = d.content->Some_0.barangs->Some_0@[0].alamat->Some_0@;
            if trimmed(a).len() > 0 {
                Some(a)
            } else {
                None
            }
        },
        has_api_key && !has_first_item_address(d) ==> target_of(has_api_key, d) == match d.nama_lokasi {
            Some(l) => if trimmed(l@).len() > 0 {
                Some(l@)
            } else {
                None
            },
            None => None::<Seq<char>>,
        },
{
}

/// The value of an upper-case hexadecimal digit, `None` for any other character.
pub open spec fn hex_value(c: char) -> Option<int> {
    if '0' <= c && c <= '9' {
        Some(c as int - 48)
    } else if 'A' <= c && c <= 'F' {
        Some(c as int - 55)
    } else {
        None
    }
}

proof fn lemma_hex_digit(d: u8)
    requires
        d < 16,
    ensures
        hex_value(hex_digit_char(d)) == Some(d as int),
{
    if d < 10 {
        assert(hex_digit_char(d) as int == 48 + d);
    } else {
        assert(hex_digit_char(d) as int == 55 + d);
    }
}

proof fn lemma_percent_encoded_concat(a: Seq<u8>, b: Seq<u8>)
    ensures
        percent_encoded(a + b) == percent_encoded(a) + percent_encoded(b),
    decreases b.len(),
{
    if b.len() == 0 {
        assert(a + b =~= a);
        assert(percent_encoded(a) + percent_encoded(b) =~= percent_encoded(a));
    } else {
        lemma_percent_encoded_concat(a, b.drop_last());
        assert((a + b).drop_last() =~= a + b.drop_last());
        assert((a + b).last() == b.last());
    }
}

/// Percent-encoding goes byte by byte: the encoding of two byte strings one
/// after the other is their encodings one after the other; ASCII letters,
/// digits and `-._~` stand for themselves; any other byte becomes `%` and
/// two upper-case hexadecimal digits that denote it.
pub proof fn law_percent_encoding(a: Seq<u8>, b: Seq<u8>, x: u8)
    ensures
        percent_encoded(a + b) == percent_encoded(a) + percent_encoded(b),
        percent_encoded(Seq::empty()) == Seq::<char>::empty(),
        is_unreserved_byte(x) ==> percent_encoded(seq![x]) == seq![x as char],
        is_unreserved_byte(x) <==> ((48 <= x <= 57) || (65 <= x <= 90) || (97 <= x <= 122) || x
            == 45 || x == 46 || x == 95 || x == 126),
        !is_unreserved_byte(x) ==> {
            let e = percent_encoded(seq![x]);
            &&& e.len() == 3
            &&& e[0] == '%'
            &&& hex_value(e[1]) is Some
            &&& hex_value(e[2]) is Some
            &&& hex_value(e[1])->Some_0 * 16 + hex_value(e[2])->Some_0 == x
        },
{
    lemma_percent_encoded_concat(a, b);
    assert(seq![x].drop_last() =~= Seq::<u8>::empty());
    assert(seq![x].last() == x);
    assert(percent_encoded(Seq::<u8>::empty()) == Seq::<char>::empty());
    if is_unreserved_byte(x) {
        assert(percent_encoded(seq![x]) =~= Seq::<char>::empty() + seq![x as char]);
    } else {
        let hi = x / 16;
        let lo = x % 16;
        assert(hi < 16 && lo < 16);
        assert(hi * 16 + lo == x);
        lemma_hex_digit(hi);
        lemma_hex_digit(lo);
        assert(percent_encoded(seq![x]) =~= Seq::<char>::empty() + seq![
            '%',
            hex_digit_char(hi),
            hex_digit_char(lo),
        ]);
    }
}

} // verus!
