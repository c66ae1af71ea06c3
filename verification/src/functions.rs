use crate::devii::{first_under, DeviiQueryResult};
use crate::error::{DeviiError, ErrorModel};
use crate::text::{decimal_text, u64_to_decimal};
use vstd::prelude::*;
use vstd::string::StringExecFns;

verus! {

/// The statistics of one chain as an update sends them. The two amounts of
/// coins and the kind of the statistics are held as the text that is sent
/// for them.
pub struct ChainStatsUpdate {
    pub id: String,
    pub total_coin_issuance: String,
    pub blockchain_name: String,
    pub short_description: String,
    pub active_addresses: u32,
    pub block_height: u32,
    pub last_updated: u32,
    pub stat_type: String,
    pub time_offset: u32,
    pub total_active_coins: String,
    pub date_range_start: u32,
    pub date_range_end: u32,
    pub block_range_start: u32,
    pub block_range_end: u32,
}

impl ChainStatsUpdate {
    /// The variables of the update: the identifier, and under `input` every
    /// statistic by its name, the names and the descriptions in quotes.
    pub open spec fn variables_text(&self) -> Seq<char> {
        "{ \n            \"id\" : "@
            + self.id@
            + ", \n            \"input\" : {\n                \"total_coin_issuance\": "@
            + self.total_coin_issuance@
            + ",\n                \"blockchain_name\": \""@
            + self.blockchain_name@
            + "\",\n                \"short_description\": \""@
            + self.short_description@
            + "\",\n                \"active_addresses\": "@
            + decimal_text(self.active_addresses as nat)
            + ",\n                \"block_height\": "@
            + decimal_text(self.block_height as nat)
            + ",\n                \"last_updated\": "@
            + decimal_text(self.last_updated as nat)
            + ",\n                \"stat_type\": \""@
            + self.stat_type@
            + "\",\n                \"time_offset\": "@
            + decimal_text(self.time_offset as nat)
            + ",\n                \"total_active_coins\": "@
            + self.total_active_coins@
            + ",\n                \"date_range_start\": "@
            + decimal_text(self.date_range_start as nat)
            + ",\n                \"date_range_end\": "@
            + decimal_text(self.date_range_end as nat)
            + ",\n                \"block_range_start\": "@
            + decimal_text(self.block_range_start as nat)
            + ",\n                \"block_range_end\": "@
            + decimal_text(self.block_range_end as nat)
            + "\n            }\n        }"@
    }

    /// Writes the variables of the update.
    pub fn variables(&self) -> (r: String)
        ensures
            r@ == self.variables_text(),
    {
        let mut out = String::from_str("{ \n            \"id\" : ");
        out.append(self.id.as_str());
        out.append(", \n            \"input\" : {\n                \"total_coin_issuance\": ");
        out.append(self.total_coin_issuance.as_str());
        out.append(",\n                \"blockchain_name\": \"");
        out.append(self.blockchain_name.as_str());
        out.append("\",\n                \"short_description\": \"");
        out.append(self.short_description.as_str());
        out.append("\",\n                \"active_addresses\": ");
        out.append(u64_to_decimal(self.active_addresses as u64).as_str());
        out.append(",\n                \"block_height\": ");
        out.append(u64_to_decimal(self.block_height as u64).as_str());
        out.append(",\n                \"last_updated\": ");
        out.append(u64_to_decimal(self.last_updated as u64).as_str());
        out.append(",\n                \"stat_type\": \"");
        out.append(self.stat_type.as_str());
        out.append("\",\n                \"time_offset\": ");
        out.append(u64_to_decimal(self.time_offset as u64).as_str());
        out.append(",\n                \"total_active_coins\": ");
        out.append(self.total_active_coins.as_str());
        out.append(",\n                \"date_range_start\": ");
        out.append(u64_to_decimal(self.date_range_start as u64).as_str());
        out.append(",\n                \"date_range_end\": ");
        out.append(u64_to_decimal(self.date_range_end as u64).as_str());
        out.append(",\n                \"block_range_start\": ");
        out.append(u64_to_decimal(self.block_range_start as u64).as_str());
        out.append(",\n                \"block_range_end\": ");
        out.append(u64_to_decimal(self.block_range_end as u64).as_str());
        out.append("\n            }\n        }");
        out
    }
}

/// Takes the rows of statistics from the answer to the query for them.
pub fn chain_stats_rows<T>(result: DeviiQueryResult<Vec<T>>) -> (r: Result<Vec<T>, DeviiError>)
    ensures
        match first_under(result.data@, "chain_stats"@) {
            Some(rows) => r == Ok::<Vec<T>, DeviiError>(rows),
            None => r matches Err(e) && e@ == ErrorModel::MissingKey("chain_stats"@),
        },
{
    result.take("chain_stats")
}

} // verus!
