use vstd::prelude::*;

use crate::filter::SubscriptionFilter;

verus! {

#[verifier::external_type_specification]
#[verifier::external_body]
pub struct ExJsonError(serde_json::Error);

/// The sixteen lowercase hexadecimal digits, in order.
pub open spec fn hex_chars() -> Seq<char> {
    seq!['0', '1', '2', '3', '4', '5', '6', '7', '8', '9', 'a', 'b', 'c', 'd', 'e', 'f']
}

/// How one character is written inside a JSON string literal: the quote, the
/// backslash and the control characters below U+0020 are escaped (by their
/// short form where JSON has one, else as `\u00xx` in lowercase hex); every
/// other character stands for itself.
pub open spec fn escape_char(c: char) -> Seq<char> {
    if c == '"' {
        seq!['\\', '"']
    } else if c == '\\' {
        seq!['\\', '\\']
    } else if c == '\u{8}' {
        seq!['\\', 'b']
    } else if c == '\t' {
        seq!['\\', 't']
    } else if c == '\n' {
        seq!['\\', 'n']
    } else if c == '\u{c}' {
        seq!['\\', 'f']
    } else if c == '\r' {
        seq!['\\', 'r']
    } else if (c as u32) < 0x20 {
        seq![
            '\\',
            'u',
            '0',
            '0',
            hex_chars()[((c as u32) / 16) as int],
            hex_chars()[((c as u32) % 16) as int],
        ]
    } else {
        seq![c]
    }
}

/// The characters of `s`, each escaped as in a JSON string literal.
pub open spec fn escaped(s: Seq<char>) -> Seq<char>
    decreases s.len(),
{
    if s.len() == 0 {
        Seq::empty()
    } else {
        escaped(s.drop_last()) + escape_char(s.last())
    }
}

/// The JSON string literal that denotes `s`.
pub open spec fn json_quoted(s: Seq<char>) -> Seq<char> {
    seq!['"'] + escaped(s) + seq!['"']
}

/// `parts` written one after another, separated by commas.
pub open spec fn comma_joined(parts: Seq<Seq<char>>) -> Seq<char>
    decreases parts.len(),
{
    if parts.len() == 0 {
        Seq::empty()
    } else if parts.len() == 1 {
        parts[0]
    } else {
        comma_joined(parts.drop_last()) + seq![','] + parts.last()
    }
}

/// The compact JSON array of the strings of one tag.
pub open spec fn json_tag(tag: Seq<Seq<char>>) -> Seq<char> {
    seq!['['] + comma_joined(Seq::new(tag.len(), |i: int| json_quoted(tag[i]))) + seq![']']
}

/// The compact JSON array of arrays of strings that denotes a tag list.
pub open spec fn json_tag_list(tags: Seq<Seq<Seq<char>>>) -> Seq<char> {
    seq!['['] + comma_joined(Seq::new(tags.len(), |i: int| json_tag(tags[i]))) + seq![']']
}

/// Relies on `serde_json::to_string` on a `str`: it writes into a `Vec`, which
/// cannot fail, and yields the quoted and escaped string.
#[verifier::external_body]
fn json_string(s: &str) -> (r: Result<String, serde_json::Error>)
    ensures
        r is Ok,
        r matches Ok(q) ==> q@ == json_quoted(s@),
{
    serde_json::to_string(s)
}

/// Relies on `serde_json::to_string` on a list of string lists: it writes into
/// a `Vec`, which cannot fail, and yields the compact JSON text.
#[verifier::external_body]
fn json_tags(tags: &Vec<Vec<String>>) -> (r: Result<String, serde_json::Error>)
    ensures
        r is Ok,
        r matches Ok(t) ==> t@ == json_tag_list(tags.deep_view()),
{
    serde_json::to_string(tags)
}

/// The ten decimal digits, in order.
pub open spec fn digit_chars() -> Seq<char> {
    seq!['0', '1', '2', '3', '4', '5', '6', '7', '8', '9']
}

/// The decimal numeral of `n`, without sign or leading zeros.
pub open spec fn decimal(n: nat) -> Seq<char>
    decreases n,
{
    if n < 10 {
        seq![digit_chars()[n as int]]
    } else {
        decimal(n / 10).push(digit_chars()[(n % 10) as int])
    }
}

/// The one-character text of digit `d`.
fn digit_str(d: u64) -> (r: &'static str)
    requires
        d < 10,
    ensures
        r@ == seq![digit_chars()[d as int]],
{
    proof {
        reveal_strlit("0");
        reveal_strlit("1");
        reveal_strlit("2");
        reveal_strlit("3");
        reveal_strlit("4");
        reveal_strlit("5");
        reveal_strlit("6");
        reveal_strlit("7");
        reveal_strlit("8");
        reveal_strlit("9");
    }
    let r = if d == 0 {
        "0"
    } else if d == 1 {
        "1"
    } else if d == 2 {
        "2"
    } else if d == 3 {
        "3"
    } else if d == 4 {
        "4"
    } else if d == 5 {
        "5"
    } else if d == 6 {
        "6"
    } else if d == 7 {
        "7"
    } else if d == 8 {
        "8"
    } else {
        "9"
    };
    assert(r@ =~= seq![digit_chars()[d as int]]);
    r
}

/// The decimal numeral of `n`.
pub fn decimal_string(n: u64) -> (r: String)
    ensures
        r@ == decimal(n as nat),
    decreases n,
{
    if n < 10 {
        String::from_str(digit_str(n))
    } else {
        let mut r = decimal_string(n / 10);
        r.append(digit_str(n % 10));
        r
    }
}

/// The numerals of `kinds`, separated by commas.
pub open spec fn kinds_text(kinds: Seq<u64>) -> Seq<char>
    decreases kinds.len(),
{
    if kinds.len() == 0 {
        Seq::empty()
    } else if kinds.len() == 1 {
        decimal(kinds[0] as nat)
    } else {
        kinds_text(kinds.drop_last()) + ","@ + decimal(kinds.last() as nat)
    }
}

/// The text of `["REQ", <id>, {"#e": [<target>], "kinds": [...]}]` in compact
/// JSON, given the already quoted identifier and target; the `"#e"` member is
/// present only for a reference-scoped filter.
pub open spec fn req_text(
    quoted_id: Seq<char>,
    kinds: Seq<u64>,
    quoted_target: Option<Seq<char>>,
) -> Seq<char> {
    "[\"REQ\","@ + quoted_id + ",{"@ + match quoted_target {
        Some(t) => "\"#e\":["@ + t + "],"@,
        None => Seq::empty(),
    } + "\"kinds\":["@ + kinds_text(kinds) + "]}]"@
}

/// The wire text of a filter, in terms of its fields.
pub open spec fn filter_text(f: SubscriptionFilter) -> Seq<char> {
    req_text(
        json_quoted(f.subscription_id@),
        f.kinds@,
        match f.target {
            Some(t) => Some(json_quoted(t@)),
            None => None,
        },
    )
}

/// Writes the subscription request from its already quoted parts.
pub fn req_from_quoted(quoted_id: &str, kinds: &Vec<u64>, quoted_target: Option<&str>) -> (r:
    String)
    ensures
        r@ == req_text(
            quoted_id@,
            kinds@,
            match quoted_target {
                Some(t) => Some(t@),
                None => None,
            },
        ),
{
    let ghost tail = match quoted_target {
        Some(t) => "\"#e\":["@ + t@ + "],"@,
        None => Seq::<char>::empty(),
    };
    let mut out = String::from_str("[\"REQ\",");
    out.append(quoted_id);
    out.append(",{");
    match quoted_target {
        Some(t) => {
            out.append("\"#e\":[");
            out.append(t);
            out.append("],");
        },
        None => {},
    }
    out.append("\"kinds\":[");
    let ghost head = out@;
    assert(head =~= "[\"REQ\","@ + quoted_id@ + ",{"@ + tail + "\"kinds\":["@);
    let mut i: usize = 0;
    while i < kinds.len()
        invariant
            0 <= i <= kinds.len(),
            out@ == head + kinds_text(kinds@.subrange(0, i as int)),
        decreases kinds.len() - i,
    {
        let ghost before = kinds@.subrange(0, i as int);
        let ghost after = kinds@.subrange(0, i + 1);
        assert(after.drop_last() =~= before);
        if i > 0 {
            out.append(",");
        }
        let numeral = decimal_string(kinds[i]);
        out.append(numeral.as_str());
        assert(out@ =~= head + kinds_text(after));
        i += 1;
    }
    assert(kinds@.subrange(0, kinds.len() as int) =~= kinds@);
    out.append("]}]");
    assert(out@ =~= req_text(
        quoted_id@,
        kinds@,
        match quoted_target {
            Some(t) => Some(t@),
            None => None,
        },
    ));
    out
}

/// Writes the `REQ` message that submits `filter` to a relay.
pub fn encode_req(filter: &SubscriptionFilter) -> (r: String)
    ensures
        r@ == filter_text(*filter),
{
    let quoted_id = json_string(filter.subscription_id.as_str()).unwrap();
    match &filter.target {
        Some(t) => {
            let quoted_target = json_string(t.as_str()).unwrap();
            req_from_quoted(quoted_id.as_str(), &filter.kinds, Some(quoted_target.as_str()))
        },
        None => req_from_quoted(quoted_id.as_str(), &filter.kinds, None),
    }
}

/// Writes a tag list as the compact JSON text it is stored under.
pub fn encode_tags(tags: &Vec<Vec<String>>) -> (r: String)
    ensures
        r@ == json_tag_list(tags.deep_view()),
{
    json_tags(tags).unwrap()
}

} // verus!
