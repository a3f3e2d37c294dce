//! JSON values: their mathematical model, and the `serde_json` operations that
//! the clients use, stated over that model.
use crate::decimal::decimal_text;
use vstd::prelude::*;

verus! {

/// What a JSON value holds. A number is held by its text.
pub enum Json {
    Null,
    Bool(bool),
    Number(Seq<char>),
    Str(Seq<char>),
    Array(Seq<Json>),
    Object(Map<Seq<char>, Json>),
}

#[verifier::external_type_specification]
#[verifier::external_body]
pub struct ExValue(serde_json::Value);

#[verifier::external_type_specification]
#[verifier::external_body]
pub struct ExJsonError(serde_json::Error);

/// What a `serde_json::Value` holds.
pub uninterp spec fn json_of(value: serde_json::Value) -> Json;

/// The value that `serde_json::from_str` reads from `text`, or `None` where it
/// reports an error.
pub uninterp spec fn parsed_json(text: Seq<char>) -> Option<Json>;

/// The compact text that the `Display` of `serde_json::Value` writes.
pub uninterp spec fn json_text(value: Json) -> Seq<char>;

/// The member of an object under `key`; `None` for anything but an object and
/// for an object without that key.
pub open spec fn json_member(value: Json, key: Seq<char>) -> Option<Json> {
    match value {
        Json::Object(members) => if members.dom().contains(key) {
            Some(members[key])
        } else {
            None
        },
        _ => None,
    }
}

/// The text of the string under `key`, or `None` where there is no such string.
pub open spec fn text_member(value: Json, key: Seq<char>) -> Option<Seq<char>> {
    match json_member(value, key) {
        Some(Json::Str(text)) => Some(text),
        _ => None,
    }
}

/// Whether `value` is a string, a boolean or an integer in the range of `u64`.
pub open spec fn is_plain_scalar(value: Json) -> bool {
    match value {
        Json::Str(text) => true,
        Json::Bool(b) => true,
        Json::Number(text) => exists|n: u64| text == #[trigger] decimal_text(n as nat),
        _ => false,
    }
}

/// Whether `value` is a plain scalar, or an object of such values that is at
/// most `depth` objects deep.
pub open spec fn is_record(value: Json, depth: nat) -> bool
    decreases depth,
{
    ||| is_plain_scalar(value)
    ||| {
        &&& depth > 0
        &&& value matches Json::Object(members)
        &&& forall|key: Seq<char>| #[trigger]
            members.dom().contains(key) ==> is_record(members[key], (depth - 1) as nat)
    }
}

/// The members that entries with different keys give an object.
pub open spec fn members_of(entries: Seq<(String, serde_json::Value)>) -> Map<Seq<char>, Json>
    decreases entries.len(),
{
    if entries.len() == 0 {
        Map::empty()
    } else {
        members_of(entries.drop_last()).insert(entries.last().0@, json_of(entries.last().1))
    }
}

/// Whether no two entries have one key.
pub open spec fn keys_differ(entries: Seq<(String, serde_json::Value)>) -> bool {
    forall|i: int, j: int|
        0 <= i < j < entries.len() ==> (#[trigger] entries[i]).0@ != (#[trigger] entries[j]).0@
}

/// `serde_json::from_str` into a `serde_json::Value`. What it returns depends
/// on the text alone.
#[verifier::external_body]
fn parse_value(text: &str) -> (r: Result<serde_json::Value, serde_json::Error>)
    ensures
        match r {
            Ok(value) => parsed_json(text@) == Some(json_of(value)),
            Err(e) => parsed_json(text@) is None,
        },
{
    serde_json::from_str::<serde_json::Value>(text)
}

/// Whether `error` is what reading `text` as JSON came to.
pub closed spec fn rejected_with(text: Seq<char>, error: serde_json::Error) -> bool {
    exists|s: &str| s@ == text && #[trigger] call_ensures(parse_value, (s,), Err(error))
}

/// Reads `text` as JSON.
pub fn read_value(text: &str) -> (r: Result<serde_json::Value, serde_json::Error>)
    ensures
        match r {
            Ok(value) => parsed_json(text@) == Some(json_of(value)),
            Err(error) => parsed_json(text@) is None && rejected_with(text@, error),
        },
{
    parse_value(text)
}

/// `serde_json::Value::get` with a string index: the member of an object under
/// that key, and nothing for a value of another type or a missing key.
#[verifier::external_body]
pub(crate) fn get_member<'a>(value: &'a serde_json::Value, key: &str) -> (r: Option<
    &'a serde_json::Value,
>)
    ensures
        match r {
            Some(member) => json_member(json_of(*value), key@) == Some(json_of(*member)),
            None => json_member(json_of(*value), key@) is None,
        },
{
    value.get(key)
}

/// `serde_json::Value::as_str`: the text of a string, and nothing for a value
/// of another type.
#[verifier::external_body]
pub(crate) fn as_text<'a>(value: &'a serde_json::Value) -> (r: Option<&'a str>)
    ensures
        match r {
            Some(text) => json_of(*value) == Json::Str(text@),
            None => !(json_of(*value) is Str),
        },
{
    value.as_str()
}

/// The `Display` of `serde_json::Value`, which writes compact JSON and depends
/// on the value alone. The text of a record of strings, booleans and unsigned
/// integers, at most eight objects deep, reads back as that record; of other
/// values that is not stated.
#[verifier::external_body]
pub(crate) fn value_text(value: &serde_json::Value) -> (r: String)
    ensures
        r@ == json_text(json_of(*value)),
        is_record(json_of(*value), 8) ==> parsed_json(r@) == Some(json_of(*value)),
{
    value.to_string()
}

/// `serde_json::Value::from` on a string: a JSON string of that text.
#[verifier::external_body]
pub(crate) fn text_value(text: &str) -> (r: serde_json::Value)
    ensures
        json_of(r) == Json::Str(text@),
{
    serde_json::Value::from(text)
}

/// `serde_json::Value::from` on a boolean: that JSON boolean.
#[verifier::external_body]
pub(crate) fn bool_value(b: bool) -> (r: serde_json::Value)
    ensures
        json_of(r) == Json::Bool(b),
{
    serde_json::Value::from(b)
}

/// `serde_json::Value::from` on an unsigned integer: that JSON number, whose
/// text is its decimal notation.
#[verifier::external_body]
pub(crate) fn number_value(n: u32) -> (r: serde_json::Value)
    ensures
        json_of(r) == Json::Number(decimal_text(n as nat)),
{
    serde_json::Value::from(n)
}

/// `serde_json::Map::from_iter`: the object of those entries, no two of which
/// may have one key.
#[verifier::external_body]
pub(crate) fn object_value(entries: Vec<(String, serde_json::Value)>) -> (r: serde_json::Value)
    requires
        keys_differ(entries@),
    ensures
        json_of(r) == Json::Object(members_of(entries@)),
{
    serde_json::Value::Object(serde_json::Map::from_iter(entries))
}

/// `text` as a JSON string: in quotes, with escapes where they are needed.
pub open spec fn quoted(text: Seq<char>) -> Seq<char> {
    json_text(Json::Str(text))
}

/// `text` as a JSON string, which reads back as that string.
pub fn quote(text: &str) -> (r: String)
    ensures
        r@ == quoted(text@),
        parsed_json(r@) == Some(Json::Str(text@)),
{
    value_text(&text_value(text))
}

/// The texts as JSON strings, with commas between them.
pub open spec fn quoted_items(texts: Seq<Seq<char>>) -> Seq<char>
    decreases texts.len(),
{
    if texts.len() == 0 {
        Seq::empty()
    } else if texts.len() == 1 {
        quoted(texts[0])
    } else {
        quoted_items(texts.drop_last()) + ","@ + quoted(texts.last())
    }
}

/// The texts as a JSON array of strings.
pub open spec fn quoted_list(texts: Seq<Seq<char>>) -> Seq<char> {
    "["@ + quoted_items(texts) + "]"@
}

/// A boolean as JSON text.
pub open spec fn bool_text(b: bool) -> Seq<char> {
    if b {
        "true"@
    } else {
        "false"@
    }
}

/// Strings as character sequences.
pub open spec fn texts_view(texts: Seq<String>) -> Seq<Seq<char>> {
    texts.map_values(|text: String| text@)
}

/// The texts as a JSON array of strings.
pub fn quote_list(texts: &Vec<String>) -> (r: String)
    ensures
        r@ == quoted_list(texts_view(texts@)),
{
    let mut r = String::from("[");
    let mut i: usize = 0;
    while i < texts.len()
        invariant
            i <= texts@.len(),
            r@ == "["@ + quoted_items(texts_view(texts@).take(i as int)),
        decreases texts@.len() - i,
    {
        let ghost seen = texts_view(texts@).take(i as int + 1);
        assert(seen.drop_last() =~= texts_view(texts@).take(i as int));
        if i > 0 {
            r.append(",");
        }
        r.append(quote(texts[i].as_str()).as_str());
        assert(r@ =~= "["@ + quoted_items(seen));
        i = i + 1;
    }
    assert(texts_view(texts@).take(texts@.len() as int) =~= texts_view(texts@));
    r.append("]");
    r
}

/// The text of the string member of `value` under `key`.
pub fn member_text<'a>(value: &'a serde_json::Value, key: &str) -> (r: Option<&'a str>)
    ensures
        match r {
            Some(text) => text_member(json_of(*value), key@) == Some(text@),
            None => text_member(json_of(*value), key@) is None,
        },
{
    match get_member(value, key) {
        Some(member) => as_text(member),
        None => None,
    }
}

/// The array of no texts is empty, and one text more stands behind the others,
/// in full and with a comma before it unless it is the first.
pub proof fn law_list_grows(
    fewer: &Vec<String>,
    more: &Vec<String>,
    last: String,
    short: String,
    long: String,
)
    requires
        call_ensures(quote_list, (fewer,), short),
        call_ensures(quote_list, (more,), long),
        more@ == fewer@.push(last),
    ensures
        fewer@.len() == 0 ==> short@ == "[]"@ && long@ == "["@ + json_text(Json::Str(last@)) + "]"@,
        fewer@.len() > 0 ==> long@ == short@.drop_last() + ","@ + json_text(Json::Str(last@))
            + "]"@,
{
    reveal_strlit("[");
    reveal_strlit("]");
    reveal_strlit("[]");
    let texts = texts_view(more@);
    assert(texts.drop_last() =~= texts_view(fewer@));
    assert(texts.last() == last@);
    if fewer@.len() == 0 {
        assert(texts_view(fewer@) =~= Seq::empty());
        assert(short@ =~= "[]"@);
        assert(texts[0] == last@);
    } else {
        assert(short@.drop_last() =~= "["@ + quoted_items(texts_view(fewer@)));
        assert(long@ =~= short@.drop_last() + ","@ + json_text(Json::Str(last@)) + "]"@);
    }
}

/// A text is quoted as the JSON string that reads back as it, in full.
pub proof fn law_quoted(text: &str, json: String)
    requires
        call_ensures(quote, (text,), json),
    ensures
        parsed_json(json@) == Some(Json::Str(text@)),
        json@ == json_text(Json::Str(text@)),
{
}

} // verus!
