use crate::subscription::{
    all_plain, encoded_codes, json_string_of, quoted, quoted_codes, subscription_of,
    subscription_text,
};
use vstd::prelude::*;

verus! {

/// One tradable market of the exchange's catalog.
pub struct MarketDescriptor {
    pub market: String,
    pub korean_name: String,
    pub english_name: String,
}

/// The fixed correlation ticket sent with a whole-catalog subscription.
pub const CATALOG_TICKET: &'static str = "550e8400-e29b-41d4-a716-446655440000";

/// A lower-case hexadecimal digit.
pub open spec fn is_lower_hex(c: char) -> bool {
    ('0' <= c && c <= '9') || ('a' <= c && c <= 'f')
}

/// A UUID in its canonical text form: 36 characters, hyphens at 8, 13, 18 and
/// 23, lower-case hexadecimal digits everywhere else.
pub open spec fn is_canonical_uuid(s: Seq<char>) -> bool {
    &&& s.len() == 36
    &&& forall|i: int|
        0 <= i < 36 ==> if i == 8 || i == 13 || i == 18 || i == 23 {
            #[trigger] s[i] == '-'
        } else {
            is_lower_hex(s[i])
        }
}

/// The characters of an optional string.
pub open spec fn text_view(o: Option<String>) -> Option<Seq<char>> {
    match o {
        Some(t) => Some(t@),
        None => None,
    }
}

/// The canonical text of the UUID that `s` denotes, or none when `s` is no UUID.
pub uninterp spec fn uuid_text_of(s: Seq<char>) -> Option<Seq<char>>;

/// Relies on `uuid::Uuid::parse_str` and the `Display` of `uuid::Uuid`: the
/// parsed identifier written back in lower-case hyphenated form. A string
/// already in that form parses and comes back unchanged.
#[verifier::external_body]
fn canonical_uuid(s: &str) -> (r: Option<String>)
    ensures
        text_view(r) == uuid_text_of(s@),
        is_canonical_uuid(s@) ==> text_view(r) == Some(s@),
{
    uuid::Uuid::parse_str(s).ok().map(|u| u.to_string())
}

/// The codes of a sequence of markets, in the same order.
pub open spec fn codes_of(markets: Seq<MarketDescriptor>) -> Seq<String> {
    markets.map_values(|m: MarketDescriptor| m.market)
}

/// The market codes of `markets`, in catalog order.
pub fn market_codes(markets: &Vec<MarketDescriptor>) -> (r: Vec<String>)
    ensures
        r@ == codes_of(markets@),
{
    let mut r: Vec<String> = Vec::new();
    let mut i: usize = 0;
    while i < markets.len()
        invariant
            i <= markets@.len(),
            r@.len() == i,
            forall|j: int| 0 <= j < i ==> #[trigger] r@[j] == markets@[j].market,
        decreases markets@.len() - i,
    {
        r.push(markets[i].market.clone());
        i = i + 1;
    }
    assert(r@ =~= codes_of(markets@));
    r
}

proof fn lemma_catalog_ticket_canonical()
    ensures
        is_canonical_uuid(CATALOG_TICKET@),
{
    reveal_strlit("550e8400-e29b-41d4-a716-446655440000");
    let s = CATALOG_TICKET@;
    assert forall|i: int| 0 <= i < 36 implies if i == 8 || i == 13 || i == 18 || i == 23 {
        #[trigger] s[i] == '-'
    } else {
        is_lower_hex(s[i])
    } by {}
}

/// Builds the subscription to the ticker channel for every market of the
/// catalog, in catalog order, with the fixed catalog ticket.
pub fn catalog_subscription(markets: &Vec<MarketDescriptor>) -> (r: String)
    ensures
        r@ == subscription_of(
            json_string_of(CATALOG_TICKET@),
            encoded_codes(codes_of(markets@)),
        ),
        all_plain(codes_of(markets@)) ==> r@ == subscription_of(
            quoted(CATALOG_TICKET@),
            quoted_codes(codes_of(markets@)),
        ),
{
    proof {
        lemma_catalog_ticket_canonical();
    }
    let codes = market_codes(markets);
    match canonical_uuid(CATALOG_TICKET) {
        Some(ticket) => subscription_text(ticket.as_str(), &codes),
        None => {
            proof {
                assert(false);
            }
            String::new()
        },
    }
}

} // verus!
