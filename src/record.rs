use vstd::prelude::*;

verus! {

/// One ticker update for one trading symbol, as decoded from an inbound frame.
///
/// The three decimal quantities are carried as the bit patterns of IEEE-754
/// doubles: nothing in the library computes with them, it only keeps and
/// hands them back for rendering.
pub struct TickerRecord {
    pub code: String,
    pub trade_price_bits: u64,
    pub trade_volume_bits: u64,
    pub change: String,
    pub change_rate_bits: u64,
    /// Event time, in milliseconds since the Unix epoch.
    pub timestamp: u64,
}

impl TickerRecord {
    pub fn new(
        code: String,
        trade_price_bits: u64,
        trade_volume_bits: u64,
        change: String,
        change_rate_bits: u64,
        timestamp: u64,
    ) -> (r: TickerRecord)
        ensures
            r.code == code,
            r.trade_price_bits == trade_price_bits,
            r.trade_volume_bits == trade_volume_bits,
            r.change == change,
            r.change_rate_bits == change_rate_bits,
            r.timestamp == timestamp,
    {
        TickerRecord { code, trade_price_bits, trade_volume_bits, change, change_rate_bits, timestamp }
    }
}

} // verus!
