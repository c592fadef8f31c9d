//! The messages that subscribe to the feeds.

use vstd::prelude::*;

verus! {

/// The hexadecimal digit for `n`.
pub open spec fn hex_digit(n: int) -> char {
    if n < 10 {
        ('0' as int + n) as char
    } else {
        ('a' as int + n - 10) as char
    }
}

/// How one character stands in a JSON string literal.
pub open spec fn json_char(c: char) -> Seq<char> {
    if c == '"' || c == '\\' {
        seq!['\\', c]
    } else if c == '\u{8}' {
        seq!['\\', 'b']
    } else if c == '\t' {
        seq!['\\', 't']
    } else if c == '\n' {
        seq!['\\', 'n']
    } else if c == '\u{c}' {
        seq!['\\', 'f']
    } else if c == '\r' {
        seq!['\\', 'r']
    } else if ' ' > c {
        seq!['\\', 'u', '0', '0', hex_digit(c as int / 16), hex_digit(c as int % 16)]
    } else {
        seq![c]
    }
}

/// How a text stands in a JSON string literal, without the quotation marks.
pub open spec fn json_chars(s: Seq<char>) -> Seq<char>
    decreases s.len(),
{
    if s.len() == 0 {
        Seq::empty()
    } else {
        json_chars(s.drop_last()) + json_char(s.last())
    }
}

/// The JSON string literal that stands for `s`.
pub open spec fn json_string(s: Seq<char>) -> Seq<char> {
    seq!['"'] + json_chars(s) + seq!['"']
}

/// Writes `s` as a JSON string literal.
///
/// Calls `serde_json::Value::from` for `&str` and the `Display` of the value it makes. Claims that
/// the text is `s` between quotation marks, each character by itself: a quotation mark, a backslash
/// and the control characters below the space are escaped, by a letter where JSON has one and by
/// their number otherwise; every other character is copied.
#[verifier::external_body]
fn quoted(s: &str) -> (r: String)
    ensures
        r@ == json_string(s@),
{
    serde_json::Value::from(s).to_string()
}

/// Whether `s` holds no character that a JSON string literal has to escape.
pub open spec fn needs_no_escape(s: Seq<char>) -> bool {
    forall|i: int| 0 <= i < s.len() ==> (#[trigger] s[i]) >= ' ' && s[i] != '"' && s[i] != '\\'
}

/// A text without such a character stands in its literal as it is.
pub proof fn plain_text_is_copied(s: Seq<char>)
    requires
        needs_no_escape(s),
    ensures
        json_string(s) == seq!['"'] + s + seq!['"'],
{
    plain_chars_are_copied(s);
}

proof fn plain_chars_are_copied(s: Seq<char>)
    requires
        needs_no_escape(s),
    ensures
        json_chars(s) == s,
    decreases s.len(),
{
    if s.len() > 0 {
        let rest = s.drop_last();
        assert forall|i: int| 0 <= i < rest.len() implies (#[trigger] rest[i]) >= ' ' && rest[i]
            != '"' && rest[i] != '\\' by {
            assert(rest[i] == s[i]);
        }
        plain_chars_are_copied(rest);
        assert(s[s.len() - 1] >= ' ');
        assert(rest + seq![s.last()] =~= s);
    } else {
        assert(json_chars(s) =~= s);
    }
}

/// The text of a JSON array of string literals, without its brackets.
pub open spec fn json_items(items: Seq<Seq<char>>) -> Seq<char>
    decreases items.len(),
{
    if items.len() == 0 {
        Seq::empty()
    } else if items.len() == 1 {
        json_string(items[0])
    } else {
        json_items(items.drop_last()) + ","@ + json_string(items.last())
    }
}

/// Every item is listed, in its place: those of one list, a comma, and those of the next.
pub proof fn items_are_listed_in_order(first: Seq<Seq<char>>, second: Seq<Seq<char>>, s: Seq<char>)
    ensures
        json_items(seq![s]) == seq!['"'] + json_chars(s) + seq!['"'],
        first.len() > 0 && second.len() > 0 ==> json_items(first + second) == json_items(first)
            + seq![','] + json_items(second),
        json_items(Seq::empty()).len() == 0,
    decreases second.len(),
{
    reveal_strlit(",");
    assert(","@ =~= seq![',']);
    if first.len() > 0 && second.len() > 0 {
        let all = first + second;
        let rest = second.drop_last();
        assert(all.drop_last() =~= first + rest);
        assert(all.last() == second.last());
        if rest.len() == 0 {
            assert(first + rest =~= first);
        } else {
            items_are_listed_in_order(first, rest, s);
            assert(json_items(all) =~= json_items(first) + seq![','] + json_items(second));
        }
    }
}

/// The two subscriptions are told by their type, and each text of the caller stands in them as its
/// literal: the tokens in the list of assets, the market in the list of markets, and each credential
/// behind its own name.
pub proof fn subscriptions_hold_what_they_are_for(
    tokens: Seq<Seq<char>>,
    key: Seq<char>,
    secret: Seq<char>,
    phrase: Seq<char>,
    market: Seq<char>,
)
    ensures
        market_subscription_of(tokens) == "{\"assets_ids\":["@ + json_items(tokens)
            + "],\"custom_feature_enabled\":true,\"type\":\"market\"}"@,
        user_subscription_of(key, secret, phrase, market) == "{\"auth\":{\"apiKey\":"@ + json_string(
            key,
        ) + ",\"passphrase\":"@ + json_string(phrase) + ",\"secret\":"@ + json_string(secret)
            + "},\"markets\":["@ + json_string(market) + "],\"type\":\"user\"}"@,
{
}

/// The message that subscribes to the books of `tokens`.
pub open spec fn market_subscription_of(tokens: Seq<Seq<char>>) -> Seq<char> {
    "{\"assets_ids\":["@ + json_items(tokens)
        + "],\"custom_feature_enabled\":true,\"type\":\"market\"}"@
}

/// The message that subscribes to the trades of an account in the market `condition_id`.
pub open spec fn user_subscription_of(
    api_key: Seq<char>,
    api_secret: Seq<char>,
    passphrase: Seq<char>,
    condition_id: Seq<char>,
) -> Seq<char> {
    "{\"auth\":{\"apiKey\":"@ + json_string(api_key) + ",\"passphrase\":"@ + json_string(passphrase)
        + ",\"secret\":"@ + json_string(api_secret) + "},\"markets\":["@ + json_string(condition_id)
        + "],\"type\":\"user\"}"@
}

/// Writes the message that subscribes to the books of `tokens`.
pub fn market_subscription(tokens: &Vec<String>) -> (r: String)
    ensures
        r@ == market_subscription_of(tokens@.map_values(|t: String| t@)),
{
    let ghost names = tokens@.map_values(|t: String| t@);
    let mut out: String = "{\"assets_ids\":[".to_string();
    let ghost head = out@;
    let mut i: usize = 0;
    assert(out@ =~= head + json_items(names.take(0)));
    while i < tokens.len()
        invariant
            i <= tokens.len(),
            names == tokens@.map_values(|t: String| t@),
            out@ == head + json_items(names.take(i as int)),
        decreases tokens.len() - i,
    {
        proof {
            assert(names.take(i + 1).drop_last() =~= names.take(i as int));
            assert(names.take(i + 1).last() == tokens@[i as int]@);
        }
        let ghost before = out@;
        if i > 0 {
            out.append(",");
        }
        let item: String = quoted(tokens[i].as_str());
        out.append(item.as_str());
        assert(out@ =~= head + json_items(names.take(i + 1)));
        i += 1;
    }
    assert(names.take(i as int) =~= names);
    out.append("],\"custom_feature_enabled\":true,\"type\":\"market\"}");
    out
}

/// Writes the message that subscribes to the trades of an account in the market `condition_id`.
pub fn user_subscription(
    api_key: &str,
    api_secret: &str,
    passphrase: &str,
    condition_id: &str,
) -> (r: String)
    ensures
        r@ == user_subscription_of(api_key@, api_secret@, passphrase@, condition_id@),
{
    let mut out: String = "{\"auth\":{\"apiKey\":".to_string();
    out.append(quoted(api_key).as_str());
    out.append(",\"passphrase\":");
    out.append(quoted(passphrase).as_str());
    out.append(",\"secret\":");
    out.append(quoted(api_secret).as_str());
    out.append("},\"markets\":[");
    out.append(quoted(condition_id).as_str());
    out.append("],\"type\":\"user\"}");
    out
}

} // verus!
