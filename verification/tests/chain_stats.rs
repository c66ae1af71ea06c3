use devii::devii::DeviiQueryResult;
use devii::error::DeviiError;
use devii::functions::{chain_stats_rows, ChainStatsUpdate};

fn sample() -> ChainStatsUpdate {
    ChainStatsUpdate {
        id: "12".to_string(),
        total_coin_issuance: "18750000".to_string(),
        blockchain_name: "Bitcoin".to_string(),
        short_description: "bitcoin_30_days".to_string(),
        active_addresses: 1000,
        block_height: 700000,
        last_updated: 1630000000,
        stat_type: "Default".to_string(),
        time_offset: 2592000,
        total_active_coins: "1234.5".to_string(),
        date_range_start: 1627408000,
        date_range_end: 1630000000,
        block_range_start: 695000,
        block_range_end: 700000,
    }
}

#[test]
fn update_variables_name_every_statistic() {
    let expected = format!("{{ 
            \"id\" : {}, 
            \"input\" : {{
                \"total_coin_issuance\": {},
                \"blockchain_name\": \"{}\",
                \"short_description\": \"{}\",
                \"active_addresses\": {},
                \"block_height\": {},
                \"last_updated\": {},
                \"stat_type\": \"{}\",
                \"time_offset\": {},
                \"total_active_coins\": {},
                \"date_range_start\": {},
                \"date_range_end\": {},
                \"block_range_start\": {},
                \"block_range_end\": {}
            }}
        }}", 
        "12",
        "18750000",
        "Bitcoin",
        "bitcoin_30_days",
        1000,
        700000,
        1630000000,
        "Default",
        2592000,
        "1234.5",
        1627408000,
        1630000000,
        695000,
        700000
    );
    assert_eq!(sample().variables(), expected);
}

#[test]
fn update_variables_of_zeros_and_the_greatest_numbers() {
    let mut stat = sample();
    stat.active_addresses = 0;
    stat.block_range_end = u32::MAX;
    let text = stat.variables();
    assert!(text.contains("\"active_addresses\": 0,\n"));
    assert!(text.ends_with("\"block_range_end\": 4294967295\n            }\n        }"));
    assert!(text.starts_with("{ \n            \"id\" : 12, \n"));
}

#[test]
fn rows_stand_under_their_name() {
    let result =
        DeviiQueryResult { data: vec![("chain_stats".to_string(), vec![1, 2, 3])] };
    assert_eq!(chain_stats_rows(result), Ok(vec![1, 2, 3]));
    let empty: DeviiQueryResult<Vec<u8>> =
        DeviiQueryResult { data: vec![("chain_stats".to_string(), vec![])] };
    assert_eq!(chain_stats_rows(empty), Ok(vec![]));
}

#[test]
fn rows_under_another_name_are_missing() {
    let result = DeviiQueryResult { data: vec![("stats".to_string(), vec![1])] };
    assert_eq!(
        chain_stats_rows(result),
        Err(DeviiError::MissingKey("chain_stats".to_string()))
    );
}
