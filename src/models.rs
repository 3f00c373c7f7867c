//! The wire model of the spectator protocol: endpoints, regions, game
//! metadata and last-chunk information.

use crate::text::{
    bool_text, decimal, field_line, push_bool_field, push_decimal, push_decimal_field,
    push_signed_field, push_text_field, same_text, signed_decimal,
};
use vstd::prelude::*;
use vstd::string::*;

verus! {

/// One upstream spectator node.
#[derive(Debug, Clone, PartialEq, Eq)]
pub struct SpectatorEndpoint {
    pub base_url: String,
    pub platform_id: String,
}

/// The description of an endpoint, one labelled line per field.
pub open spec fn endpoint_text(e: SpectatorEndpoint) -> Seq<char> {
    field_line("Base Url: "@, e.base_url@) + field_line("Platform Id: "@, e.platform_id@)
}

impl SpectatorEndpoint {
    /// An endpoint with the given base URL and platform id.
    pub fn new(base_url: String, platform_id: String) -> (r: Self)
        ensures
            r.base_url@ == base_url@,
            r.platform_id@ == platform_id@,
    {
        SpectatorEndpoint { base_url, platform_id }
    }

    /// A readable description: the base URL and the platform id, one line each.
    pub fn describe(&self) -> (r: String)
        ensures
            r@ == endpoint_text(*self),
    {
        let mut s = String::new();
        push_text_field(&mut s, "Base Url: ", self.base_url.as_str());
        assert(s@ =~= field_line("Base Url: "@, self.base_url@));
        push_text_field(&mut s, "Platform Id: ", self.platform_id.as_str());
        s
    }
}

/// The regions with a known public spectator node.
#[derive(Debug, Clone, Copy, PartialEq, Eq, Structural)]
pub enum Region {
    KR,
    EUW1,
    NA1,
}

/// The lower-case short name of a region.
pub open spec fn region_name(r: Region) -> Seq<char> {
    match r {
        Region::KR => "kr"@,
        Region::EUW1 => "euw1"@,
        Region::NA1 => "na1"@,
    }
}

/// The upper-case platform id of a region.
pub open spec fn region_platform_id(r: Region) -> Seq<char> {
    match r {
        Region::KR => "KR"@,
        Region::EUW1 => "EUW1"@,
        Region::NA1 => "NA1"@,
    }
}

/// The base URL of a region's public spectator node.
pub open spec fn region_base_url(r: Region) -> Seq<char> {
    "http://spectator-consumer."@ + region_name(r) + ".lol.pvp.net:80"@
}

/// The message of a rejected region name.
pub open spec fn invalid_region_message(s: Seq<char>) -> Seq<char> {
    "'"@ + s + "' is not a valid region"@
}

impl Region {
    /// The lower-case short name: `kr`, `euw1` or `na1`.
    pub fn as_str(&self) -> (r: &'static str)
        ensures
            r@ == region_name(*self),
    {
        match self {
            Region::KR => "kr",
            Region::EUW1 => "euw1",
            Region::NA1 => "na1",
        }
    }

    /// The platform id: the short name in upper case.
    pub fn platform_id(&self) -> (r: String)
        ensures
            r@ == region_platform_id(*self),
    {
        match self {
            Region::KR => String::from_str("KR"),
            Region::EUW1 => String::from_str("EUW1"),
            Region::NA1 => String::from_str("NA1"),
        }
    }

    /// The base URL of the region's spectator node.
    pub fn base_url(&self) -> (r: String)
        ensures
            r@ == region_base_url(*self),
    {
        let mut s = String::from_str("http://spectator-consumer.");
        s.append(self.as_str());
        s.append(".lol.pvp.net:80");
        s
    }

    /// The spectator endpoint of the region.
    pub fn to_endpoint(&self) -> (r: SpectatorEndpoint)
        ensures
            r.base_url@ == region_base_url(*self),
            r.platform_id@ == region_platform_id(*self),
    {
        SpectatorEndpoint { base_url: self.base_url(), platform_id: self.platform_id() }
    }

    /// Reads a region from its lower-case short name.
    pub fn parse(s: &str) -> (r: Result<Region, String>)
        ensures
            r matches Ok(g) ==> region_name(g) == s@,
            r is Err ==> (forall|g: Region| region_name(g) != s@),
            r matches Err(m) ==> m@ == invalid_region_message(s@),
    {
        if same_text(s, "kr") {
            Ok(Region::KR)
        } else if same_text(s, "euw1") {
            Ok(Region::EUW1)
        } else if same_text(s, "na1") {
            Ok(Region::NA1)
        } else {
            assert forall|g: Region| region_name(g) != s@ by {
                match g {
                    Region::KR => {},
                    Region::EUW1 => {},
                    Region::NA1 => {},
                }
            }
            let mut m = String::from_str("'");
            m.append(s);
            m.append("' is not a valid region");
            Err(m)
        }
    }
}

impl std::str::FromStr for Region {
    type Err = String;

    fn from_str(s: &str) -> Result<Region, String> {
        Region::parse(s)
    }
}

/// The identity of a game on its platform.
#[derive(Debug, Clone, PartialEq, Eq)]
pub struct GameKey {
    pub game_id: u64,
    pub platform_id: String,
}

/// A chunk that upstream announced as available.
#[derive(Debug, Clone, PartialEq, Eq)]
pub struct PendingAvailableChunkInfo {
    pub chunk_id: u32,
    pub duration: u32,
    pub received_time: String,
}

/// A keyframe that upstream announced as available.
#[derive(Debug, Clone, PartialEq, Eq)]
pub struct PendingAvailableKeyFrameInfo {
    pub key_frame_id: u32,
    pub received_time: String,
    pub next_chunk_id: u32,
}

/// The metadata of one game, fetched once per capture.
#[derive(Debug, Clone, PartialEq, Eq)]
pub struct GameMetaData {
    pub game_key: GameKey,
    pub game_server_address: String,
    pub port: u32,
    pub encryption_key: String,
    pub chunk_time_interval: u32,
    pub start_time: String,
    pub game_ended: bool,
    pub last_chunk_id: u32,
    pub last_key_frame_id: u32,
    pub end_startup_chunk_id: u32,
    pub delay_time: u32,
    pub pending_available_chunk_info: Vec<PendingAvailableChunkInfo>,
    pub pending_available_key_frame_info: Vec<PendingAvailableKeyFrameInfo>,
    pub key_frame_time_interval: u64,
    pub decoded_encryption_key: String,
    pub start_game_chunk_id: u32,
    pub game_length: u32,
    pub client_added_lag: u32,
    pub client_back_fetching_enabled: bool,
    pub client_back_fetching_freq: u32,
    pub interest_score: u32,
    pub featured_game: bool,
    pub create_time: String,
    pub end_game_chunk_id: i32,
    pub end_game_key_frame_id: i32,
}

/// The debug form of a game key (the platform id is quoted as it is).
pub open spec fn game_key_text(k: GameKey) -> Seq<char> {
    "GameKey { game_id: "@ + decimal(k.game_id as nat) + ", platform_id: \""@ + k.platform_id@
        + "\" }"@
}

/// The line that describes one announced chunk.
pub open spec fn pending_chunk_line(c: PendingAvailableChunkInfo) -> Seq<char> {
    "\tChunk ID: "@ + decimal(c.chunk_id as nat) + ", Duration: "@ + decimal(c.duration as nat)
        + ", Received Time: "@ + c.received_time@ + "\n"@
}

/// The line that describes one announced keyframe.
pub open spec fn pending_key_frame_line(k: PendingAvailableKeyFrameInfo) -> Seq<char> {
    "\tKey Frame ID: "@ + decimal(k.key_frame_id as nat) + ", Received Time: "@
        + k.received_time@ + ", Next Chunk ID: "@ + decimal(k.next_chunk_id as nat) + "\n"@
}

/// The lines of a list of announced chunks, in order.
pub open spec fn pending_chunk_lines(s: Seq<PendingAvailableChunkInfo>) -> Seq<char>
    decreases s.len(),
{
    if s.len() == 0 {
        Seq::empty()
    } else {
        pending_chunk_lines(s.drop_last()) + pending_chunk_line(s.last())
    }
}

/// The lines of a list of announced keyframes, in order.
pub open spec fn pending_key_frame_lines(s: Seq<PendingAvailableKeyFrameInfo>) -> Seq<char>
    decreases s.len(),
{
    if s.len() == 0 {
        Seq::empty()
    } else {
        pending_key_frame_lines(s.drop_last()) + pending_key_frame_line(s.last())
    }
}

/// The scalar part of a metadata description, one labelled line per field.
pub open spec fn meta_data_fields_text(m: GameMetaData) -> Seq<char> {
    field_line("Game Key: "@, game_key_text(m.game_key))
        + field_line("Server Address: "@, m.game_server_address@)
        + field_line("Port: "@, decimal(m.port as nat))
        + field_line("Encryption Key: "@, m.encryption_key@)
        + field_line("Chunk Time Interval: "@, decimal(m.chunk_time_interval as nat))
        + field_line("Start Time: "@, m.start_time@)
        + field_line("Game Ended: "@, bool_text(m.game_ended))
        + field_line("Last Chunk ID: "@, decimal(m.last_chunk_id as nat))
        + field_line("Last Key Frame ID: "@, decimal(m.last_key_frame_id as nat))
        + field_line("End Startup Chunk ID: "@, decimal(m.end_startup_chunk_id as nat))
        + field_line("Delay Time: "@, decimal(m.delay_time as nat))
        + field_line("Key Frame Time Interval: "@, decimal(m.key_frame_time_interval as nat))
        + field_line("Decoded Encryption Key: "@, m.decoded_encryption_key@)
        + field_line("Start Game Chunk ID: "@, decimal(m.start_game_chunk_id as nat))
        + field_line("Game Length: "@, decimal(m.game_length as nat))
        + field_line("Client Added Lag: "@, decimal(m.client_added_lag as nat))
        + field_line("Client Back Fetching Enabled: "@, bool_text(m.client_back_fetching_enabled))
        + field_line("Client Back Fetching Freq: "@, decimal(m.client_back_fetching_freq as nat))
        + field_line("Interest Score: "@, decimal(m.interest_score as nat))
        + field_line("Featured Game: "@, bool_text(m.featured_game))
        + field_line("Create Time: "@, m.create_time@)
        + field_line("End Game Chunk ID: "@, signed_decimal(m.end_game_chunk_id as int))
        + field_line("End Game Key Frame ID: "@, signed_decimal(m.end_game_key_frame_id as int))
}

/// The full description of game metadata: the scalar fields, then each
/// announced chunk and each announced keyframe on a line of its own.
pub open spec fn meta_data_text(m: GameMetaData) -> Seq<char> {
    meta_data_fields_text(m) + "Pending Available Chunk Info:\n"@ + pending_chunk_lines(
        m.pending_available_chunk_info@,
    ) + "Pending Available Key Frame Info:\n"@ + pending_key_frame_lines(
        m.pending_available_key_frame_info@,
    )
}

impl GameKey {
    /// The debug form: `GameKey { game_id: .., platform_id: ".." }`.
    pub fn describe(&self) -> (r: String)
        ensures
            r@ == game_key_text(*self),
    {
        let mut s = String::from_str("GameKey { game_id: ");
        push_decimal(&mut s, self.game_id);
        s.append(", platform_id: \"");
        s.append(self.platform_id.as_str());
        s.append("\" }");
        s
    }
}

impl GameMetaData {
    fn fields_string(&self) -> (r: String)
        ensures
            r@ == meta_data_fields_text(*self),
    {
        let key = self.game_key.describe();
        let mut t = String::new();
        let s = &mut t;
        push_text_field(s, "Game Key: ", key.as_str());
        assert(s@ =~= field_line("Game Key: "@, game_key_text(self.game_key)));
        push_text_field(s, "Server Address: ", self.game_server_address.as_str());
        push_decimal_field(s, "Port: ", self.port as u64);
        push_text_field(s, "Encryption Key: ", self.encryption_key.as_str());
        push_decimal_field(s, "Chunk Time Interval: ", self.chunk_time_interval as u64);
        push_text_field(s, "Start Time: ", self.start_time.as_str());
        push_bool_field(s, "Game Ended: ", self.game_ended);
        push_decimal_field(s, "Last Chunk ID: ", self.last_chunk_id as u64);
        push_decimal_field(s, "Last Key Frame ID: ", self.last_key_frame_id as u64);
        push_decimal_field(s, "End Startup Chunk ID: ", self.end_startup_chunk_id as u64);
        push_decimal_field(s, "Delay Time: ", self.delay_time as u64);
        push_decimal_field(s, "Key Frame Time Interval: ", self.key_frame_time_interval);
        push_text_field(s, "Decoded Encryption Key: ", self.decoded_encryption_key.as_str());
        push_decimal_field(s, "Start Game Chunk ID: ", self.start_game_chunk_id as u64);
        push_decimal_field(s, "Game Length: ", self.game_length as u64);
        push_decimal_field(s, "Client Added Lag: ", self.client_added_lag as u64);
        push_bool_field(s, "Client Back Fetching Enabled: ", self.client_back_fetching_enabled);
        push_decimal_field(s, "Client Back Fetching Freq: ", self.client_back_fetching_freq as u64);
        push_decimal_field(s, "Interest Score: ", self.interest_score as u64);
        push_bool_field(s, "Featured Game: ", self.featured_game);
        push_text_field(s, "Create Time: ", self.create_time.as_str());
        push_signed_field(s, "End Game Chunk ID: ", self.end_game_chunk_id as i64);
        push_signed_field(s, "End Game Key Frame ID: ", self.end_game_key_frame_id as i64);
        t
    }

    /// A readable description: every scalar field on a labelled line, then
    /// the announced chunks and keyframes, one line each.
    pub fn describe(&self) -> (r: String)
        ensures
            r@ == meta_data_text(*self),
    {
        let mut s = self.fields_string();
        s.append("Pending Available Chunk Info:\n");
        let ghost head = s@;
        let chunks = &self.pending_available_chunk_info;
        let mut i: usize = 0;
        while i < chunks.len()
            invariant
                i <= chunks@.len(),
                s@ == head + pending_chunk_lines(chunks@.subrange(0, i as int)),
            decreases chunks@.len() - i,
        {
            let c = &chunks[i];
            let ghost before = s@;
            s.append("\tChunk ID: ");
            push_decimal(&mut s, c.chunk_id as u64);
            s.append(", Duration: ");
            push_decimal(&mut s, c.duration as u64);
            s.append(", Received Time: ");
            s.append(c.received_time.as_str());
            s.append("\n");
            assert(s@ =~= before + pending_chunk_line(*c));
            assert(chunks@.subrange(0, i + 1).drop_last() =~= chunks@.subrange(0, i as int));
            i += 1;
            assert(s@ =~= head + pending_chunk_lines(chunks@.subrange(0, i as int)));
        }
        assert(chunks@.subrange(0, chunks@.len() as int) =~= chunks@);
        s.append("Pending Available Key Frame Info:\n");
        let ghost head2 = s@;
        let frames = &self.pending_available_key_frame_info;
        let mut j: usize = 0;
        while j < frames.len()
            invariant
                j <= frames@.len(),
                s@ == head2 + pending_key_frame_lines(frames@.subrange(0, j as int)),
            decreases frames@.len() - j,
        {
            let k = &frames[j];
            let ghost before = s@;
            s.append("\tKey Frame ID: ");
            push_decimal(&mut s, k.key_frame_id as u64);
            s.append(", Received Time: ");
            s.append(k.received_time.as_str());
            s.append(", Next Chunk ID: ");
            push_decimal(&mut s, k.next_chunk_id as u64);
            s.append("\n");
            assert(s@ =~= before + pending_key_frame_line(*k));
            assert(frames@.subrange(0, j + 1).drop_last() =~= frames@.subrange(0, j as int));
            j += 1;
            assert(s@ =~= head2 + pending_key_frame_lines(frames@.subrange(0, j as int)));
        }
        assert(frames@.subrange(0, frames@.len() as int) =~= frames@);
        assert(s@ =~= meta_data_text(*self));
        s
    }
}

/// What upstream reports when polled: the newest chunk and keyframe, when the
/// next chunk comes, and where the game ends.
#[derive(Debug, Clone, Copy, PartialEq, Eq, Structural)]
pub struct ChunkInfo {
    pub chunk_id: u32,
    pub available_since: u64,
    pub next_available_chunk: u32,
    pub key_frame_id: u32,
    pub next_chunk_id: u32,
    pub end_startup_chunk_id: u32,
    pub start_game_chunk_id: u32,
    pub end_game_chunk_id: u32,
    pub duration: u32,
}

/// The description of a poll result, one labelled line per field.
pub open spec fn chunk_info_text(c: ChunkInfo) -> Seq<char> {
    field_line("Chunk ID: "@, decimal(c.chunk_id as nat))
        + field_line("Available Since: "@, decimal(c.available_since as nat))
        + field_line("Next Available Chunk: "@, decimal(c.next_available_chunk as nat))
        + field_line("Key Frame ID: "@, decimal(c.key_frame_id as nat))
        + field_line("Next Chunk ID: "@, decimal(c.next_chunk_id as nat))
        + field_line("End Startup Chunk ID: "@, decimal(c.end_startup_chunk_id as nat))
        + field_line("Start Game Chunk ID: "@, decimal(c.start_game_chunk_id as nat))
        + field_line("End Game Chunk ID: "@, decimal(c.end_game_chunk_id as nat))
        + field_line("Duration: "@, decimal(c.duration as nat))
}

impl ChunkInfo {
    /// A readable description, one labelled line per field.
    pub fn describe(&self) -> (r: String)
        ensures
            r@ == chunk_info_text(*self),
    {
        let mut s = String::new();
        push_decimal_field(&mut s, "Chunk ID: ", self.chunk_id as u64);
        assert(s@ =~= field_line("Chunk ID: "@, decimal(self.chunk_id as nat)));
        push_decimal_field(&mut s, "Available Since: ", self.available_since);
        push_decimal_field(&mut s, "Next Available Chunk: ", self.next_available_chunk as u64);
        push_decimal_field(&mut s, "Key Frame ID: ", self.key_frame_id as u64);
        push_decimal_field(&mut s, "Next Chunk ID: ", self.next_chunk_id as u64);
        push_decimal_field(&mut s, "End Startup Chunk ID: ", self.end_startup_chunk_id as u64);
        push_decimal_field(&mut s, "Start Game Chunk ID: ", self.start_game_chunk_id as u64);
        push_decimal_field(&mut s, "End Game Chunk ID: ", self.end_game_chunk_id as u64);
        push_decimal_field(&mut s, "Duration: ", self.duration as u64);
        s
    }
}

} // verus!
