use replay_recorder::models::{
    ChunkInfo, GameKey, GameMetaData, PendingAvailableChunkInfo, PendingAvailableKeyFrameInfo,
    Region, SpectatorEndpoint,
};
use replay_recorder::text::{decimal_string, join_path_exec, push_signed_decimal, same_text};

#[test]
fn region_parses_short_names() {
    assert_eq!(Region::parse("kr"), Ok(Region::KR));
    assert_eq!(Region::parse("euw1"), Ok(Region::EUW1));
    assert_eq!(Region::parse("na1"), Ok(Region::NA1));
    let parsed: Region = "na1".parse().unwrap();
    assert_eq!(parsed, Region::NA1);
}

#[test]
fn region_rejects_unknown_name() {
    assert_eq!(Region::parse("KR"), Err("'KR' is not a valid region".to_string()));
    assert_eq!(Region::parse(""), Err("'' is not a valid region".to_string()));
}

#[test]
fn region_endpoint_shape() {
    let e = Region::KR.to_endpoint();
    assert_eq!(e.base_url, "http://spectator-consumer.kr.lol.pvp.net:80");
    assert_eq!(e.platform_id, "KR");
    assert_eq!(Region::EUW1.platform_id(), "EUW1");
    assert_eq!(Region::NA1.base_url(), "http://spectator-consumer.na1.lol.pvp.net:80");
    assert_eq!(Region::EUW1.as_str(), "euw1");
}

#[test]
fn endpoint_new_and_describe() {
    let e = SpectatorEndpoint::new("http://localhost:1".to_string(), "KR".to_string());
    assert_eq!(e.base_url, "http://localhost:1");
    assert_eq!(e.describe(), "Base Url: http://localhost:1\nPlatform Id: KR\n");
}

#[test]
fn chunk_info_describe_lists_every_field() {
    let c = ChunkInfo {
        chunk_id: 53,
        available_since: 4197815,
        next_available_chunk: 0,
        key_frame_id: 26,
        next_chunk_id: 53,
        end_startup_chunk_id: 1,
        start_game_chunk_id: 2,
        end_game_chunk_id: 53,
        duration: 18869,
    };
    assert_eq!(
        c.describe(),
        "Chunk ID: 53\nAvailable Since: 4197815\nNext Available Chunk: 0\nKey Frame ID: 26\n\
         Next Chunk ID: 53\nEnd Startup Chunk ID: 1\nStart Game Chunk ID: 2\n\
         End Game Chunk ID: 53\nDuration: 18869\n"
    );
}

fn sample_meta_data() -> GameMetaData {
    GameMetaData {
        game_key: GameKey { game_id: 6654667050, platform_id: "KR".to_string() },
        game_server_address: "".to_string(),
        port: 0,
        encryption_key: "".to_string(),
        chunk_time_interval: 30000,
        start_time: "Aug 15, 2023 8:01:42 PM".to_string(),
        game_ended: false,
        last_chunk_id: 39,
        last_key_frame_id: 19,
        end_startup_chunk_id: 1,
        delay_time: 180000,
        pending_available_chunk_info: vec![PendingAvailableChunkInfo {
            chunk_id: 33,
            duration: 30020,
            received_time: "Aug 15, 2023 8:17:42 PM".to_string(),
        }],
        pending_available_key_frame_info: vec![PendingAvailableKeyFrameInfo {
            key_frame_id: 16,
            received_time: "Aug 15, 2023 8:17:42 PM".to_string(),
            next_chunk_id: 33,
        }],
        key_frame_time_interval: 60000000,
        decoded_encryption_key: "".to_string(),
        start_game_chunk_id: 2,
        game_length: 0,
        client_added_lag: 0,
        client_back_fetching_enabled: false,
        client_back_fetching_freq: 1000,
        interest_score: 3325,
        featured_game: true,
        create_time: "Aug 15, 2023 8:01:55 PM".to_string(),
        end_game_chunk_id: -1,
        end_game_key_frame_id: -1,
    }
}

#[test]
fn game_key_describe_is_debug_shape() {
    let k = GameKey { game_id: 6654667050, platform_id: "KR".to_string() };
    assert_eq!(k.describe(), format!("{:?}", k));
}

#[test]
fn game_meta_data_describe() {
    let m = sample_meta_data();
    let expected = "Game Key: GameKey { game_id: 6654667050, platform_id: \"KR\" }\n\
        Server Address: \nPort: 0\nEncryption Key: \nChunk Time Interval: 30000\n\
        Start Time: Aug 15, 2023 8:01:42 PM\nGame Ended: false\nLast Chunk ID: 39\n\
        Last Key Frame ID: 19\nEnd Startup Chunk ID: 1\nDelay Time: 180000\n\
        Key Frame Time Interval: 60000000\nDecoded Encryption Key: \nStart Game Chunk ID: 2\n\
        Game Length: 0\nClient Added Lag: 0\nClient Back Fetching Enabled: false\n\
        Client Back Fetching Freq: 1000\nInterest Score: 3325\nFeatured Game: true\n\
        Create Time: Aug 15, 2023 8:01:55 PM\nEnd Game Chunk ID: -1\nEnd Game Key Frame ID: -1\n\
        Pending Available Chunk Info:\n\
        \tChunk ID: 33, Duration: 30020, Received Time: Aug 15, 2023 8:17:42 PM\n\
        Pending Available Key Frame Info:\n\
        \tKey Frame ID: 16, Received Time: Aug 15, 2023 8:17:42 PM, Next Chunk ID: 33\n";
    assert_eq!(m.describe(), expected);
}

#[test]
fn decimal_text() {
    assert_eq!(decimal_string(0), "0");
    assert_eq!(decimal_string(6654667050), "6654667050");
    assert_eq!(decimal_string(u64::MAX), u64::MAX.to_string());
    let mut s = String::from("x");
    push_signed_decimal(&mut s, i64::MIN);
    assert_eq!(s, format!("x{}", i64::MIN));
}

#[test]
fn text_comparison_and_paths() {
    assert!(same_text("abc", "abc"));
    assert!(!same_text("abc", "abd"));
    assert!(!same_text("abc", "ab"));
    assert_eq!(join_path_exec("/data", "KR_1"), "/data/KR_1");
    assert_eq!(join_path_exec("/data/", "KR_1"), "/data/KR_1");
    assert_eq!(join_path_exec("", "KR_1"), "KR_1");
}
