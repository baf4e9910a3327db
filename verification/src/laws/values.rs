//! Texts, numerals, base64 and JSON documents.
use vstd::prelude::*;

use crate::base64::{decode_base64, encode, law_decode_encode, law_encode_decode};
use crate::json::{array_view, last_field, object_view, value_view, Json, JsonView};
use crate::laws::failures::{lemma_says, says};
use crate::text::{chars_of, contains_text, decimal, digit, push_decimal, same_text, string_of};

verus! {

/// The characters of a text are taken as they are, and so is a part of them.
pub proof fn law_characters_are_kept(
    s: &str,
    chars: Vec<char>,
    from: usize,
    to: usize,
    part: String,
)
    requires
        call_ensures(chars_of, (s,), chars),
        from <= to <= chars@.len(),
        call_ensures(string_of, (&chars, from, to), part),
    ensures
        chars@ == s@,
        part@.len() == to - from,
        forall|i: int| 0 <= i < to - from ==> part@[i] == s@[from + i],
{
}

/// Two texts are the same exactly where their characters are.
pub proof fn law_same_texts_have_the_same_characters(a: &str, b: &str, same: bool)
    requires
        call_ensures(same_text, (a, b), same),
    ensures
        same <==> a@ == b@,
{
}

/// A phrase is found exactly where the text can be cut before and behind it.
pub proof fn law_phrase_is_found_where_it_stands(text: &str, phrase: &str, found: bool)
    requires
        call_ensures(contains_text, (text, phrase), found),
    ensures
        found <==> says(text@, phrase@),
{
    lemma_says(text@, phrase@);
}

/// The number that a row of digits stands for.
pub open spec fn number_of(digits: Seq<char>) -> int
    decreases digits.len(),
{
    if digits.len() == 0 {
        0
    } else {
        10 * number_of(digits.drop_last()) + (digits.last() as int - '0' as int)
    }
}

/// Whether a text is a decimal numeral: digits only, at least one, and no zero in
/// front of others.
pub open spec fn is_numeral(digits: Seq<char>) -> bool {
    &&& digits.len() > 0
    &&& forall|i: int| 0 <= i < digits.len() ==> '0' <= #[trigger] digits[i] <= '9'
    &&& digits[0] == '0' ==> digits.len() == 1
}

proof fn lemma_decimal(n: nat)
    ensures
        is_numeral(decimal(n)),
        number_of(decimal(n)) == n,
        decimal(n)[0] == '0' ==> n == 0,
    decreases n,
{
    if n >= 10 {
        lemma_decimal(n / 10);
        let front = decimal(n / 10);
        assert(decimal(n).drop_last() =~= front);
        assert(decimal(n)[0] == front[0]);
        assert(front[0] != '0');
    } else {
        let one = seq![digit(n)];
        assert(decimal(n) == one);
        assert(one.drop_last() =~= Seq::empty());
        assert(number_of(Seq::empty()) == 0);
    }
}

/// A number is written behind what is there, as the decimal numeral that stands for
/// it.
pub proof fn law_numbers_are_written_in_decimal(out: &mut String, n: u128)
    requires
        call_ensures(push_decimal, (out, n), ()),
    ensures
        ({
            let before = old(out)@;
            let after = final(out)@;
            let written = after.skip(before.len() as int);
            &&& before.len() <= after.len()
            &&& after.take(before.len() as int) == before
            &&& is_numeral(written)
            &&& number_of(written) == n
        }),
{
    lemma_decimal(n as nat);
    let before = old(out)@;
    assert((before + decimal(n as nat)).skip(before.len() as int) =~= decimal(n as nat));
    assert((before + decimal(n as nat)).take(before.len() as int) =~= before);
}

/// The numerals that messages and names are made of stand for their numbers.
pub proof fn law_numerals_stand_for_their_numbers(n: nat)
    ensures
        is_numeral(decimal(n)),
        number_of(decimal(n)) == n,
{
    lemma_decimal(n);
}

/// Base64 text stands for exactly one row of bytes, and no other text for any.
pub proof fn law_base64_is_read_back(text: &str, bytes: Seq<u8>, decoded: Option<Vec<u8>>)
    requires
        call_ensures(decode_base64, (text,), decoded),
    ensures
        decoded matches Some(d) ==> encode(d@) == text@,
        text@ == encode(bytes) ==> (decoded matches Some(d) && d@ == bytes),
{
    law_decode_encode(bytes);
    law_encode_decode(text@);
}

/// Whether `c` is the character of the standard alphabet for `v`: the capital
/// letters, the small letters, the digits, and then `+` and `/`.
pub open spec fn stands_for(c: char, v: int) -> bool {
    &&& 0 <= v < 26 ==> c as int == 'A' as int + v
    &&& 26 <= v < 52 ==> c as int == 'a' as int + v - 26
    &&& 52 <= v < 62 ==> c as int == '0' as int + v - 52
    &&& v == 62 ==> c == '+'
    &&& v == 63 ==> c == '/'
}

/// Base64 cuts three bytes into four values of six bits, writes each as its
/// character, and goes on behind them; one or two bytes at the end are filled up
/// with zero bits and written with `=` for what is missing.
pub proof fn law_base64_cuts_three_bytes_into_four(bytes: Seq<u8>, v: Seq<int>)
    requires
        v.len() == 4,
        forall|i: int| 0 <= i < 4 ==> 0 <= #[trigger] v[i] < 64,
    ensures
        bytes.len() == 0 ==> encode(bytes).len() == 0,
        bytes.len() == 1 && v[0] * 64 + v[1] == bytes[0] * 16 ==> {
            let text = encode(bytes);
            &&& text.len() == 4
            &&& stands_for(text[0], v[0])
            &&& stands_for(text[1], v[1])
            &&& text[2] == '='
            &&& text[3] == '='
        },
        bytes.len() == 2 && v[0] * 4096 + v[1] * 64 + v[2] == (bytes[0] * 256 + bytes[1]) * 4
            ==> {
            let text = encode(bytes);
            &&& text.len() == 4
            &&& stands_for(text[0], v[0])
            &&& stands_for(text[1], v[1])
            &&& stands_for(text[2], v[2])
            &&& text[3] == '='
        },
        bytes.len() >= 3 && v[0] * 262144 + v[1] * 4096 + v[2] * 64 + v[3] == bytes[0] * 65536
            + bytes[1] * 256 + bytes[2] ==> {
            let text = encode(bytes);
            &&& text.len() == 4 + encode(bytes.skip(3)).len()
            &&& stands_for(text[0], v[0])
            &&& stands_for(text[1], v[1])
            &&& stands_for(text[2], v[2])
            &&& stands_for(text[3], v[3])
            &&& text.skip(4) == encode(bytes.skip(3))
        },
{
    assert(0 <= v[0] < 64 && 0 <= v[1] < 64 && 0 <= v[2] < 64 && 0 <= v[3] < 64);
    if bytes.len() == 1 && v[0] * 64 + v[1] == bytes[0] * 16 {
        let a = bytes[0] as int;
        assert(a / 4 == v[0] && a % 4 * 16 == v[1]);
    }
    if bytes.len() == 2 && v[0] * 4096 + v[1] * 64 + v[2] == (bytes[0] * 256 + bytes[1]) * 4 {
        let a = bytes[0] as int;
        let b = bytes[1] as int;
        assert(a / 4 == v[0]);
        assert(a % 4 * 16 + b / 16 == v[1]);
        assert(b % 16 * 4 == v[2]);
    }
    if bytes.len() >= 3 && v[0] * 262144 + v[1] * 4096 + v[2] * 64 + v[3] == bytes[0] * 65536
        + bytes[1] * 256 + bytes[2] {
        let a = bytes[0] as int;
        let b = bytes[1] as int;
        let c = bytes[2] as int;
        assert(a / 4 == v[0]);
        assert(a % 4 * 16 + b / 16 == v[1]);
        assert(b % 16 * 4 + c / 64 == v[2]);
        assert(c % 64 == v[3]);
        assert(encode(bytes).skip(4) =~= encode(bytes.skip(3)));
    }
}

/// A document reads as what it is, and as nothing else.
pub proof fn law_documents_read_as_what_they_are(
    json: &Json,
    text: Option<&str>,
    number: Option<u64>,
    truth: Option<bool>,
    items: Option<&Vec<Json>>,
)
    requires
        call_ensures(Json::as_str, (json,), text),
        call_ensures(Json::as_u64, (json,), number),
        call_ensures(Json::as_bool, (json,), truth),
        call_ensures(Json::as_array, (json,), items),
    ensures
        match text {
            Some(t) => json matches Json::Str(s) && s@ == t@,
            None => !(json is Str),
        },
        match number {
            Some(n) => json matches Json::UInt(u) && u == n,
            None => !(json is UInt),
        },
        match truth {
            Some(b) => json matches Json::Bool(x) && x == b,
            None => !(json is Bool),
        },
        match items {
            Some(list) => json matches Json::Array(v) && v@.len() == list@.len() && forall|i: int|
                0 <= i < v@.len() ==> (#[trigger] list@[i])@ == v@[i]@,
            None => !(json is Array),
        },
{
    if let Some(list) = items {
        if let Json::Array(v) = json {
            assert(array_view(v@) == array_view(list@));
            assert(array_view(v@).len() == v@.len());
            assert forall|i: int| 0 <= i < v@.len() implies (#[trigger] list@[i])@ == v@[i]@ by {
                assert(array_view(v@)[i] == v@[i]@);
                assert(array_view(list@)[i] == list@[i]@);
            }
        }
    }
}

proof fn lemma_last_field(fields: Seq<(Seq<char>, JsonView)>, key: Seq<char>)
    ensures
        match last_field(fields, key) {
            Some(v) => exists|i: int|
                #![trigger fields[i]]
                0 <= i < fields.len() && fields[i] == (key, v) && forall|k: int|
                    i < k < fields.len() ==> (#[trigger] fields[k]).0 != key,
            None => forall|k: int| 0 <= k < fields.len() ==> (#[trigger] fields[k]).0 != key,
        },
    decreases fields.len(),
{
    if fields.len() > 0 {
        let n = fields.len() - 1;
        let front = fields.drop_last();
        if fields.last().0 == key {
            assert(fields[n] == (key, fields.last().1));
        } else {
            lemma_last_field(front, key);
            match last_field(front, key) {
                Some(v) => {
                    let i = choose|i: int|
                        #![trigger front[i]]
                        0 <= i < front.len() && front[i] == (key, v) && forall|k: int|
                            i < k < front.len() ==> (#[trigger] front[k]).0 != key;
                    assert(fields[i] == (key, v));
                    assert forall|k: int| i < k < fields.len() implies (#[trigger] fields[k]).0
                        != key by {
                        if k < n {
                            assert(front[k] == fields[k]);
                        }
                    }
                },
                None => {
                    assert forall|k: int| 0 <= k < fields.len() implies (#[trigger] fields[k]).0
                        != key by {
                        if k < n {
                            assert(front[k] == fields[k]);
                        }
                    }
                },
            }
        }
    }
}

/// A field of an object is the last one of that name; an object without one, and
/// anything that is no object, has no such field.
pub proof fn law_field_is_the_last_of_its_name(json: &Json, key: &str, value: Option<&Json>)
    requires
        call_ensures(Json::get, (json, key), value),
    ensures
        json matches Json::Object(fields) ==> match value {
            Some(v) => exists|i: int|
                #![trigger fields@[i]]
                0 <= i < fields@.len() && fields@[i].0@ == key@ && fields@[i].1@ == v@ && forall|
                    k: int,
                |
                    i < k < fields@.len() ==> (#[trigger] fields@[k]).0@ != key@,
            None => forall|k: int|
                0 <= k < fields@.len() ==> (#[trigger] fields@[k]).0@ != key@,
        },
        !(json is Object) ==> value is None,
{
    if let Json::Object(fields) = json {
        let all = object_view(fields@);
        lemma_last_field(all, key@);
        match value {
            Some(v) => {
                let i = choose|i: int|
                    #![trigger all[i]]
                    0 <= i < all.len() && all[i] == (key@, v@) && forall|k: int|
                        i < k < all.len() ==> (#[trigger] all[k]).0 != key@;
                assert(all[i] == (fields@[i].0@, fields@[i].1@));
                assert forall|k: int| i < k < fields@.len() implies (#[trigger] fields@[k]).0@
                    != key@ by {
                    assert(all[k] == (fields@[k].0@, fields@[k].1@));
                }
            },
            None => {
                assert forall|k: int| 0 <= k < fields@.len() implies (#[trigger] fields@[k]).0@
                    != key@ by {
                    assert(all[k] == (fields@[k].0@, fields@[k].1@));
                }
            },
        }
    }
}

/// The text, number, truth value or list in a field is what the field reads as.
pub proof fn law_fields_read_as_what_they_hold(
    json: &Json,
    key: &str,
    value: Option<&Json>,
    text: Option<&str>,
    number: Option<u64>,
    truth: Option<bool>,
    items: Option<&Vec<Json>>,
)
    requires
        call_ensures(Json::get, (json, key), value),
        call_ensures(Json::str_field, (json, key), text),
        call_ensures(Json::u64_field, (json, key), number),
        call_ensures(Json::bool_field, (json, key), truth),
        call_ensures(Json::array_field, (json, key), items),
    ensures
        match text {
            Some(t) => value matches Some(v) && v matches Json::Str(s) && s@ == t@,
            None => value matches Some(v) ==> !(v is Str),
        },
        match number {
            Some(n) => value matches Some(v) && v matches Json::UInt(u) && u == n,
            None => value matches Some(v) ==> !(v is UInt),
        },
        match truth {
            Some(b) => value matches Some(v) && v matches Json::Bool(x) && x == b,
            None => value matches Some(v) ==> !(v is Bool),
        },
        match items {
            Some(list) => value matches Some(v) && v matches Json::Array(a) && array_view(a@)
                == array_view(list@),
            None => value matches Some(v) ==> !(v is Array),
        },
{
}

/// A document is worth what the value that it was made from holds.
pub proof fn law_documents_hold_their_values(v: serde_json::Value, json: Json)
    requires
        call_ensures(Json::from_value, (v,), json),
    ensures
        json@ == value_view(v),
{
}

/// What a document is made of is what it is worth.
pub proof fn law_documents_are_worth_their_parts(
    text: String,
    number: u64,
    truth: bool,
    items: Vec<Json>,
    fields: Vec<(String, Json)>,
)
    ensures
        Json::Null@ == JsonView::Null,
        Json::OtherNumber@ == JsonView::OtherNumber,
        Json::Str(text)@ == JsonView::Str(text@),
        Json::UInt(number)@ == JsonView::UInt(number),
        Json::Bool(truth)@ == JsonView::Bool(truth),
        Json::Array(items)@ matches JsonView::Array(a) && {
            &&& a.len() == items@.len()
            &&& forall|i: int| 0 <= i < a.len() ==> #[trigger] a[i] == items@[i]@
        },
        Json::Object(fields)@ matches JsonView::Object(o) && {
            &&& o.len() == fields@.len()
            &&& forall|i: int|
                0 <= i < o.len() ==> #[trigger] o[i] == (fields@[i].0@, fields@[i].1@)
        },
{
}

} // verus!
