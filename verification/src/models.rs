//! Data model of the pipeline: the score record relayed from the
//! ingestion boundary to the publisher, and the registration types
//! exchanged with the upstream account service.
//!
//! Decimal quantities are held as plain integers in a fixed scale
//! (`*_tenths` counts tenths, `*_centi` counts hundredths), so that the
//! presentation rules can be stated and proved exactly.

use vstd::prelude::*;

verus! {

/// A chat-platform user. Also the `user` part of a canonical
/// registration result, where `created_at` and `roles` may be
/// synthesized by the normalizer.
#[derive(Debug, Clone)]
pub struct User {
    pub discord_id: i64,
    pub username: Option<String>,
    pub created_at: Option<String>,
    pub roles: Option<Vec<String>>,
}

/// One submitted play: the entity flowing through the relay pipeline.
#[derive(Debug, Clone)]
pub struct ScoreReplay {
    pub score: Score,
    pub user: User,
    pub beatmapset_complete: BeatmapsetCompleteExtended,
    pub score_metadata: ScoreMetadata,
    pub score_rating: Option<ScoreRating>,
    pub replay: Option<Replay>,
}

/// Core identity of a play, with the playback rate applied to the
/// chart's base tempo.
#[derive(Debug, Clone)]
pub struct Score {
    pub id: i32,
    pub user_id: i64,
    pub beatmap_id: i32,
    /// Playback speed multiplier, counted in tenths (`15` is 1.5x).
    pub rate_tenths: u64,
    pub mods: i64,
    pub hash: String,
    pub rank: String,
    pub status: String,
}

/// Optional chart-set context plus the list (possibly empty) of chart
/// variants for the played chart.
#[derive(Debug, Clone)]
pub struct BeatmapsetCompleteExtended {
    pub beatmapset: Option<BeatmapsetExtended>,
    pub beatmap: Vec<BeatmapCompleteExtended>,
}

/// Chart-set info: title, artist, creator, cover image and external id.
#[derive(Debug, Clone)]
pub struct BeatmapsetExtended {
    pub id: i32,
    pub osu_id: Option<i32>,
    pub artist: String,
    pub title: String,
    pub creator: String,
    pub cover_url: Option<String>,
}

/// One chart variant with optional difficulty metadata and
/// zero-or-more rating records.
#[derive(Debug, Clone)]
pub struct BeatmapCompleteExtended {
    pub beatmap: Option<BeatmapExtended>,
    pub msd: Vec<MSDExtended>,
}

/// Difficulty metadata of a chart variant.
#[derive(Debug, Clone)]
pub struct BeatmapExtended {
    pub id: i32,
    pub osu_id: Option<i32>,
    pub difficulty: String,
    pub max_combo: i32,
    /// Base tempo in tenths of a beat per minute.
    pub bpm_tenths: u64,
    /// Overall difficulty, in tenths.
    pub od_tenths: u64,
    /// Drain, in tenths.
    pub hp_tenths: u64,
}

/// A computed rating record for a chart variant: overall rating and
/// dominant pattern tags.
#[derive(Debug, Clone)]
pub struct MSDExtended {
    /// Overall rating in hundredths.
    pub overall_centi: Option<u64>,
    /// Dominant pattern tags as a bracketed, comma-separated, quoted
    /// list (for example `["stream","jack"]`).
    pub main_pattern: Option<String>,
}

/// Hit counts and play statistics; always present on a score record.
#[derive(Debug, Clone)]
pub struct ScoreMetadata {
    pub id: i32,
    pub pause_count: u32,
    pub started_at: String,
    pub ended_at: String,
    pub score: u32,
    /// Accuracy in hundredths of a percent (`9876` is 98.76%).
    pub accuracy_centi: u64,
    pub max_combo: u32,
    pub perfect: bool,
    /// Perfect judgements.
    pub count_300: u32,
    /// Good judgements.
    pub count_100: u32,
    /// Bad judgements.
    pub count_50: u32,
    pub count_miss: u32,
    /// Great judgements.
    pub count_katu: u32,
    /// Marvelous judgements.
    pub count_geki: u32,
}

/// Auxiliary rating record; not used by rendering.
#[derive(Debug, Clone)]
pub struct ScoreRating {
    pub id: i32,
    pub score_id: i32,
    /// Rating in hundredths.
    pub rating_centi: u64,
    pub rating_type: String,
}

/// Auxiliary replay record; not used by rendering.
#[derive(Debug, Clone)]
pub struct Replay {
    pub id: i32,
    pub hash: String,
    pub replay_available: bool,
    pub replay_path: String,
}

/// Body of the upstream registration call.
#[derive(Debug, Clone)]
pub struct DiscordRegisterRequest {
    pub discord_id: i64,
    pub username: Option<String>,
}

/// The `{token, message}` upstream response shape.
#[derive(Debug, Clone)]
pub struct TokenMessageResponse {
    pub token: String,
    pub message: String,
}

/// Canonical registration result, produced by the normalizer whatever
/// upstream shape was received.
#[derive(Debug, Clone)]
pub struct DiscordRegisterResponse {
    pub user: User,
    pub message: String,
    pub token: Option<String>,
}

/// What a successfully decoded upstream response object holds, as far
/// as the registration protocol reads it. A field is `Some` when it is
/// present with the expected structure.
#[derive(Debug, Clone)]
pub struct UpstreamObject {
    pub token: Option<String>,
    pub message: Option<String>,
    pub user: Option<User>,
}

/// A decoded upstream registration response body.
#[derive(Debug, Clone)]
pub enum UpstreamBody {
    /// The body was a bare JSON string: the token itself.
    Token(String),
    /// The body was a JSON object.
    Object(UpstreamObject),
    /// The body was not valid JSON (or neither string nor object);
    /// carries the decoder's detail text.
    Malformed(String),
}

/// Failures of a registration command invocation.
#[derive(Debug, Clone)]
pub enum RegisterError {
    /// The upstream body matched none of the accepted shapes; carries
    /// the parse detail.
    ParseError(String),
    /// The alternative shape was missing `user` or `message`.
    IncompleteResponse,
    /// Non-2xx status from the upstream call; carries the user-facing
    /// message.
    UpstreamHttpError(String),
}

} // verus!
