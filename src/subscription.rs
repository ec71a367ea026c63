use vstd::prelude::*;

verus! {

/// Characters that need no escape inside a JSON string: no quote, no
/// backslash, no control character below U+0020.
pub open spec fn json_plain(s: Seq<char>) -> bool {
    forall|i: int| 0 <= i < s.len() ==> #[trigger] s[i] != '"' && s[i] != '\\' && (s[i] as u32) >= 0x20
}

/// The JSON string literal that serde_json writes for `s`.
pub uninterp spec fn json_string_of(s: Seq<char>) -> Seq<char>;

/// Relies on `serde_json::to_string` applied to a `str`: it writes the JSON
/// string literal for `s`, escaping only '"', '\\' and characters below
/// U+0020, so a string of plain characters comes out between two quotes.
/// Serialising a `str` cannot fail.
#[verifier::external_body]
fn json_string(s: &str) -> (r: String)
    ensures
        r@ == json_string_of(s@),
        json_plain(s@) ==> r@ == seq!['"'] + s@ + seq!['"'],
{
    serde_json::to_string(s).unwrap_or_default()
}

/// JSON texts joined with commas, in order.
pub open spec fn comma_joined(items: Seq<Seq<char>>) -> Seq<char>
    decreases items.len(),
{
    if items.len() == 0 {
        Seq::empty()
    } else if items.len() == 1 {
        items[0]
    } else {
        comma_joined(items.drop_last()) + seq![','] + items.last()
    }
}

/// The subscription request text, given the encoded ticket and the encoded
/// symbol codes: a ticket object followed by a ticker-channel request.
pub open spec fn subscription_of(ticket_json: Seq<char>, codes_json: Seq<Seq<char>>) -> Seq<char> {
    "[{\"ticket\":"@ + ticket_json + "},{\"type\":\"ticker\",\"codes\":["@ + comma_joined(codes_json)
        + "]}]"@
}

/// `s` between two double quotes.
pub open spec fn quoted(s: Seq<char>) -> Seq<char> {
    seq!['"'] + s + seq!['"']
}

/// Every code is made of plain characters.
pub open spec fn all_plain(codes: Seq<String>) -> bool {
    forall|i: int| 0 <= i < codes.len() ==> json_plain(#[trigger] codes[i]@)
}

/// Each plain code between quotes.
pub open spec fn quoted_codes(codes: Seq<String>) -> Seq<Seq<char>> {
    codes.map_values(|c: String| quoted(c@))
}

/// Each code encoded as a JSON string.
pub open spec fn encoded_codes(codes: Seq<String>) -> Seq<Seq<char>> {
    codes.map_values(|c: String| json_string_of(c@))
}

/// Builds the text of a subscription to the ticker channel for `codes`,
/// with `ticket` as the correlation identifier.
pub fn subscription_text(ticket: &str, codes: &Vec<String>) -> (r: String)
    ensures
        r@ == subscription_of(json_string_of(ticket@), encoded_codes(codes@)),
        json_plain(ticket@) && all_plain(codes@) ==> r@ == subscription_of(
            quoted(ticket@),
            quoted_codes(codes@),
        ),
{
    let ghost enc = encoded_codes(codes@);
    let mut out = String::from_str("[{\"ticket\":");
    let t = json_string(ticket);
    out.append(t.as_str());
    out.append("},{\"type\":\"ticker\",\"codes\":[");
    let ghost head = out@;
    let mut i: usize = 0;
    while i < codes.len()
        invariant
            i <= codes.len(),
            enc == encoded_codes(codes@),
            out@ == head + comma_joined(enc.take(i as int)),
            json_string_of(ticket@) == t@,
            json_plain(ticket@) ==> t@ == quoted(ticket@),
            forall|j: int|
                0 <= j < i && json_plain(codes@[j]@) ==> enc[j] == quoted(#[trigger] codes@[j]@),
        decreases codes.len() - i,
    {
        let c = json_string(codes[i].as_str());
        proof {
            assert(enc.take(i + 1).drop_last() =~= enc.take(i as int));
            assert(enc[i as int] == c@);
            assert(enc.take(i + 1).last() == c@);
            reveal_strlit(",");
        }
        if i > 0 {
            out.append(",");
        }
        out.append(c.as_str());
        i = i + 1;
    }
    assert(enc.take(codes.len() as int) =~= enc);
    proof {
        if json_plain(ticket@) && all_plain(codes@) {
            assert(enc =~= quoted_codes(codes@));
        }
    }
    out.append("]}]");
    out
}

/// The ticket sent with the single-symbol subscription.
pub const DEFAULT_TICKET: &'static str = "test";

/// The symbol that the single-symbol subscription asks for.
pub const DEFAULT_CODE: &'static str = "KRW-BTC";

/// The subscription sent when a feed opens: ticket "test", one symbol.
pub fn default_subscription() -> (r: String)
    ensures
        r@ == "[{\"ticket\":\"test\"},{\"type\":\"ticker\",\"codes\":[\"KRW-BTC\"]}]"@,
{
    let mut codes: Vec<String> = Vec::new();
    codes.push(String::from_str(DEFAULT_CODE));
    let r = subscription_text(DEFAULT_TICKET, &codes);
    proof {
        reveal_strlit("test");
        reveal_strlit("KRW-BTC");
        reveal_strlit("[{\"ticket\":");
        reveal_strlit("},{\"type\":\"ticker\",\"codes\":[");
        reveal_strlit("]}]");
        reveal_strlit("[{\"ticket\":\"test\"},{\"type\":\"ticker\",\"codes\":[\"KRW-BTC\"]}]");
        assert(json_plain("test"@));
        assert(json_plain("KRW-BTC"@));
        assert(all_plain(codes@));
        let enc = quoted_codes(codes@);
        assert(comma_joined(enc) == enc[0]);
        assert(r@ =~= "[{\"ticket\":\"test\"},{\"type\":\"ticker\",\"codes\":[\"KRW-BTC\"]}]"@);
    }
    r
}

} // verus!
