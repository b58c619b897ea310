//! Assembly of a provider response into update records plus the decoded
//! update data.

use crate::codec::{decoded_as, decodes_all, first_malformed, BinaryBlob, BlobDecodeError};
use vstd::prelude::*;

verus! {

#[verifier::external_type_specification]
#[verifier::external_body]
pub struct ExPriceFeed(pyth_sdk::PriceFeed);

/// One record of the result: a parsed price feed and the metadata that the
/// provider does not supply yet, each absent.
#[derive(Debug)]
pub struct PriceFeedUpdate {
    pub price_feed: pyth_sdk::PriceFeed,
    pub slot: Option<u64>,
    pub received_at: Option<i64>,
    pub update_data: Option<Vec<u8>>,
    pub prev_publish_time: Option<i64>,
}

/// The records, and the update data decoded from the provider's blob, kept
/// for the whole batch rather than per record.
#[derive(Debug)]
pub struct PriceFeedsWithUpdateData {
    pub price_feeds: Vec<PriceFeedUpdate>,
    pub update_data: Vec<Vec<u8>>,
}

/// The provider's reply: the parsed price feeds and the blob of signed updates.
#[derive(Debug)]
pub struct BenchmarkUpdates {
    pub parsed: Vec<pyth_sdk::PriceFeed>,
    pub binary: BinaryBlob,
}

/// The record for a parsed price feed: the feed itself, every other field absent.
pub open spec fn is_bare_record(r: PriceFeedUpdate, feed: pyth_sdk::PriceFeed) -> bool {
    &&& r.price_feed == feed
    &&& r.slot is None
    &&& r.received_at is None
    &&& r.update_data is None
    &&& r.prev_publish_time is None
}

/// One bare record per parsed feed, in the same order.
pub open spec fn records_of(records: Seq<PriceFeedUpdate>, parsed: Seq<pyth_sdk::PriceFeed>) -> bool {
    &&& records.len() == parsed.len()
    &&& forall|i: int| 0 <= i < parsed.len() ==> is_bare_record(#[trigger] records[i], parsed[i])
}

impl BenchmarkUpdates {
    /// Pairs each parsed feed with empty metadata and decodes the blob.
    ///
    /// The number of parsed feeds is not compared with the number of strings
    /// in the blob: the two are passed on as the provider aligned them.
    /// A blob that does not decode fails the whole response with its error.
    pub fn assemble(self) -> (r: Result<PriceFeedsWithUpdateData, BlobDecodeError>)
        ensures
            r is Ok <==> decodes_all(self.binary.encoding, self.binary.data@),
            r is Ok ==> records_of(r->Ok_0.price_feeds@, self.parsed@),
            r is Ok ==> decoded_as(self.binary.encoding, self.binary.data@, r->Ok_0.update_data@),
            r is Err ==> first_malformed(
                self.binary.encoding,
                self.binary.data@,
                r->Err_0.index as int,
            ),
    {
        let update_data = match self.binary.decode() {
            Ok(d) => d,
            Err(e) => return Err(e),
        };
        let ghost all = self.parsed@;
        let mut parsed = self.parsed;
        let mut price_feeds: Vec<PriceFeedUpdate> = Vec::new();
        while parsed.len() > 0
            invariant
                price_feeds@.len() + parsed@.len() == all.len(),
                parsed@ == all.subrange(price_feeds@.len() as int, all.len() as int),
                forall|i: int| 0 <= i < price_feeds@.len() ==> is_bare_record(#[trigger] price_feeds@[i], all[i]),
            decreases parsed@.len(),
        {
            let price_feed = parsed.remove(0);
            price_feeds.push(PriceFeedUpdate {
                price_feed,
                slot: None,
                received_at: None,
                update_data: None,
                prev_publish_time: None,
            });
        }
        Ok(PriceFeedsWithUpdateData { price_feeds, update_data })
    }
}

} // verus!
