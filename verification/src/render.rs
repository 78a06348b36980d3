//! Score presentation: the pure transformation from a score record to
//! the ordered text sections of the published message.

use vstd::prelude::*;
use vstd::string::*;
use crate::models::{BeatmapExtended, BeatmapsetExtended, MSDExtended, ScoreReplay};
use crate::text::{
    centi_str, dec_str, format_centi, format_tenths, i64_to_string, int_str, tenths_str,
    u128_to_string, u64_to_string,
};

verus! {

/// The chart-set info of a record, when present.
pub open spec fn spec_beatmapset(s: ScoreReplay) -> Option<BeatmapsetExtended> {
    s.beatmapset_complete.beatmapset
}

/// The first chart variant's difficulty metadata, when present.
pub open spec fn spec_beatmap(s: ScoreReplay) -> Option<BeatmapExtended> {
    if s.beatmapset_complete.beatmap@.len() > 0 {
        s.beatmapset_complete.beatmap@[0].beatmap
    } else {
        None
    }
}

/// The first rating record of the first chart variant, when present.
pub open spec fn spec_msd(s: ScoreReplay) -> Option<MSDExtended> {
    if s.beatmapset_complete.beatmap@.len() > 0 && s.beatmapset_complete.beatmap@[0].msd@.len()
        > 0 {
        Some(s.beatmapset_complete.beatmap@[0].msd@[0])
    } else {
        None
    }
}

/// Chart-set title, or the explicit default.
pub open spec fn spec_chart_title(s: ScoreReplay) -> Seq<char> {
    match spec_beatmapset(s) {
        Some(bs) => bs.title@,
        None => "Unknown"@,
    }
}

/// Chart-set creator, or the explicit default.
pub open spec fn spec_chart_creator(s: ScoreReplay) -> Seq<char> {
    match spec_beatmapset(s) {
        Some(bs) => bs.creator@,
        None => "Unknown"@,
    }
}

/// Chart difficulty name, or the explicit default.
pub open spec fn spec_chart_difficulty(s: ScoreReplay) -> Seq<char> {
    match spec_beatmap(s) {
        Some(b) => b.difficulty@,
        None => "Unknown"@,
    }
}

/// Chart-set title, or `"Unknown"` when no chart-set is present.
pub fn chart_title_or_default(s: &ScoreReplay) -> (r: String)
    ensures
        r@ == spec_chart_title(*s),
{
    match &s.beatmapset_complete.beatmapset {
        Some(bs) => bs.title.clone(),
        None => "Unknown".to_owned(),
    }
}

/// Chart-set creator, or `"Unknown"` when no chart-set is present.
pub fn chart_creator_or_default(s: &ScoreReplay) -> (r: String)
    ensures
        r@ == spec_chart_creator(*s),
{
    match &s.beatmapset_complete.beatmapset {
        Some(bs) => bs.creator.clone(),
        None => "Unknown".to_owned(),
    }
}

/// Chart difficulty, or `"Unknown"` when no chart variant is present.
pub fn chart_difficulty_or_default(s: &ScoreReplay) -> (r: String)
    ensures
        r@ == spec_chart_difficulty(*s),
{
    if s.beatmapset_complete.beatmap.len() > 0 {
        match &s.beatmapset_complete.beatmap[0].beatmap {
            Some(b) => b.difficulty.clone(),
            None => "Unknown".to_owned(),
        }
    } else {
        "Unknown".to_owned()
    }
}

/// Effective tempo: base tempo times playback rate, rounded half-up to
/// the nearest whole beat per minute; `0` when no chart variant is
/// present. Tempo and rate are both counted in tenths, hence the
/// division by one hundred.
pub open spec fn spec_effective_tempo(s: ScoreReplay) -> nat {
    match spec_beatmap(s) {
        Some(b) => ((b.bpm_tenths * s.score.rate_tenths + 50) / 100) as nat,
        None => 0,
    }
}

/// Computes the effective tempo of the played chart at the record's
/// playback rate.
pub fn effective_tempo(s: &ScoreReplay) -> (t: u128)
    ensures
        t == spec_effective_tempo(*s),
{
    if s.beatmapset_complete.beatmap.len() > 0 {
        match &s.beatmapset_complete.beatmap[0].beatmap {
            Some(b) => {
                let bpm = b.bpm_tenths as u128;
                let rate = s.score.rate_tenths as u128;
                proof {
                    assert(bpm * rate <= (u64::MAX as int) * (u64::MAX as int))
                        by (nonlinear_arith)
                        requires
                            0 <= bpm <= u64::MAX,
                            0 <= rate <= u64::MAX,
                    ;
                }
                (bpm * rate + 50) / 100
            },
            None => 0,
        }
    } else {
        0
    }
}

/// Marvelous/perfect ratio in tenths; `0` whenever there are no
/// perfect judgements, so the ratio is always defined. The quotient is
/// rounded to the nearest tenth with exact ties — one marvelous to
/// four perfects, say — rounded upward: the rule is fixed here in
/// integers rather than left to a floating-point rendering.
pub open spec fn spec_ratio_tenths(marvelous: u32, perfect: u32) -> nat {
    if perfect == 0 {
        0
    } else {
        ((20 * marvelous + perfect) / (2 * perfect)) as nat
    }
}

/// Computes the marvelous/perfect ratio of a play, in tenths.
pub fn ratio_tenths(marvelous: u32, perfect: u32) -> (r: u64)
    ensures
        r == spec_ratio_tenths(marvelous, perfect),
{
    if perfect == 0 {
        0
    } else {
        (20 * (marvelous as u64) + (perfect as u64)) / (2 * (perfect as u64))
    }
}

/// The external chart link: present exactly when both the chart-set
/// and the chart carry an external id, empty otherwise.
pub open spec fn spec_external_link(s: ScoreReplay) -> Seq<char> {
    match (spec_beatmapset(s), spec_beatmap(s)) {
        (Some(bs), Some(b)) => match (bs.osu_id, b.osu_id) {
            (Some(set_id), Some(map_id)) => "https://osef.me/beatmapsets/"@ + int_str(
                set_id as int,
            ) + "/"@ + int_str(map_id as int),
            _ => Seq::empty(),
        },
        _ => Seq::empty(),
    }
}

/// Builds the external chart link, or the empty string when either
/// external id is absent.
pub fn external_link(s: &ScoreReplay) -> (r: String)
    ensures
        r@ == spec_external_link(*s),
{
    let set_id: Option<i32> = match &s.beatmapset_complete.beatmapset {
        Some(bs) => bs.osu_id,
        None => None,
    };
    let map_id: Option<i32> = if s.beatmapset_complete.beatmap.len() > 0 {
        match &s.beatmapset_complete.beatmap[0].beatmap {
            Some(b) => b.osu_id,
            None => None,
        }
    } else {
        None
    };
    match (set_id, map_id) {
        (Some(si), Some(mi)) => {
            let mut r = "https://osef.me/beatmapsets/".to_owned();
            r.append(i64_to_string(si as i64).as_str());
            r.append("/");
            r.append(i64_to_string(mi as i64).as_str());
            r
        },
        _ => String::new(),
    }
}

/// The cover image URL to attach: the chart-set's cover when present
/// and non-empty, the empty string otherwise.
pub open spec fn spec_cover_url(s: ScoreReplay) -> Seq<char> {
    match spec_beatmapset(s) {
        Some(bs) => match bs.cover_url {
            Some(u) => u@,
            None => Seq::empty(),
        },
        None => Seq::empty(),
    }
}

/// The chart-set cover URL, or the empty string when absent.
pub fn cover_url_or_empty(s: &ScoreReplay) -> (r: String)
    ensures
        r@ == spec_cover_url(*s),
{
    match &s.beatmapset_complete.beatmapset {
        Some(bs) => match &bs.cover_url {
            Some(u) => u.clone(),
            None => String::new(),
        },
        None => String::new(),
    }
}

/// `s` with every leading occurrence of `c` removed.
pub open spec fn strip_leading(s: Seq<char>, c: char) -> Seq<char>
    decreases s.len(),
{
    if s.len() > 0 && s[0] == c {
        strip_leading(s.drop_first(), c)
    } else {
        s
    }
}

/// `s` with every trailing occurrence of `c` removed.
pub open spec fn strip_trailing(s: Seq<char>, c: char) -> Seq<char>
    decreases s.len(),
{
    if s.len() > 0 && s.last() == c {
        strip_trailing(s.drop_last(), c)
    } else {
        s
    }
}

/// What one character of a quoted pattern list contributes to the
/// display: quotes vanish, a comma gains a space, all else stays.
pub open spec fn expand_one(c: char) -> Seq<char> {
    if c == '"' {
        Seq::empty()
    } else if c == ',' {
        ", "@
    } else {
        seq![c]
    }
}

/// The character-wise expansion of a whole string.
pub open spec fn expand_chars(s: Seq<char>) -> Seq<char>
    decreases s.len(),
{
    if s.len() == 0 {
        Seq::empty()
    } else {
        expand_chars(s.drop_last()) + expand_one(s.last())
    }
}

/// A bracketed, quoted pattern list unwrapped into a plain
/// comma-separated list: `["stream","jack"]` becomes `stream, jack`.
pub open spec fn spec_pattern_body(s: Seq<char>) -> Seq<char> {
    expand_chars(strip_trailing(strip_leading(s, '['), ']'))
}

/// The displayed pattern tags of a rating record: `"None"` when the
/// record carries no list or carries the literal `"None"`, the
/// unwrapped list otherwise.
pub open spec fn spec_pattern_display(p: Option<String>) -> Seq<char> {
    match p {
        Some(s) => if s@ == "None"@ {
            "None"@
        } else {
            spec_pattern_body(s@)
        },
        None => "None"@,
    }
}

proof fn lemma_strip_leading_skip(s: Seq<char>, c: char, k: int)
    requires
        0 <= k <= s.len(),
        forall|j: int| 0 <= j < k ==> s[j] == c,
        k == s.len() || s[k] != c,
    ensures
        strip_leading(s, c) == s.skip(k),
    decreases k,
{
    if k == 0 {
        assert(s.skip(0) =~= s);
    } else {
        assert(s.drop_first() =~= s.skip(1));
        lemma_strip_leading_skip(s.skip(1), c, k - 1);
        assert(s.skip(1).skip(k - 1) =~= s.skip(k));
    }
}

proof fn lemma_strip_trailing_take(s: Seq<char>, c: char, e: int)
    requires
        0 <= e <= s.len(),
        forall|j: int| e <= j < s.len() ==> s[j] == c,
        e == 0 || s[e - 1] != c,
    ensures
        strip_trailing(s, c) == s.take(e),
    decreases s.len() - e,
{
    if e == s.len() {
        assert(s.take(e) =~= s);
    } else {
        assert(s.last() == c);
        assert(s.drop_last() =~= s.take(s.len() - 1));
        lemma_strip_trailing_take(s.take(s.len() - 1), c, e);
        assert(s.take(s.len() - 1).take(e) =~= s.take(e));
    }
}

/// Unwraps a bracketed, quoted pattern list into a plain
/// comma-separated list.
pub fn unwrap_pattern_list(s: &str) -> (r: String)
    ensures
        r@ == spec_pattern_body(s@),
{
    let n = s.unicode_len();
    let mut start: usize = 0;
    while start < n && s.get_char(start) == '['
        invariant
            n == s@.len(),
            0 <= start <= n,
            forall|j: int| 0 <= j < start ==> s@[j] == '[',
        decreases n - start,
    {
        start = start + 1;
    }
    let mut end: usize = n;
    while end > start && s.get_char(end - 1) == ']'
        invariant
            n == s@.len(),
            start <= end <= n,
            forall|j: int| end <= j < n ==> s@[j] == ']',
        decreases end,
    {
        end = end - 1;
    }
    proof {
        lemma_strip_leading_skip(s@, '[', start as int);
        let t = s@.skip(start as int);
        lemma_strip_trailing_take(t, ']', end - start);
        assert(t.take(end - start) =~= s@.subrange(start as int, end as int));
    }
    let mut r = String::new();
    let mut i: usize = start;
    while i < end
        invariant
            n == s@.len(),
            start <= i <= end <= n,
            r@ == expand_chars(s@.subrange(start as int, i as int)),
        decreases end - i,
    {
        let c = s.get_char(i);
        proof {
            assert(s@.subrange(start as int, i + 1).drop_last() =~= s@.subrange(
                start as int,
                i as int,
            ));
        }
        if c == '"' {
        } else if c == ',' {
            r.append(", ");
        } else {
            r.push(c);
        }
        i = i + 1;
    }
    r
}

/// The displayed pattern tags for an optional pattern list.
pub fn pattern_display(p: &Option<String>) -> (r: String)
    ensures
        r@ == spec_pattern_display(*p),
{
    match p {
        Some(s) => {
            let none_text = "None".to_owned();
            if s.eq(&none_text) {
                none_text
            } else {
                unwrap_pattern_list(s.as_str())
            }
        },
        None => "None".to_owned(),
    }
}

/// The header line: title, creator, difficulty (with defaults) and the
/// playback rate at one decimal place.
pub open spec fn spec_header(s: ScoreReplay) -> Seq<char> {
    spec_chart_title(s) + " - "@ + spec_chart_creator(s) + " | "@ + spec_chart_difficulty(s)
        + " | Rate: "@ + tenths_str(s.score.rate_tenths as nat)
}

/// The player section: the display name in bold, with a default.
pub open spec fn spec_player_field(s: ScoreReplay) -> Seq<char> {
    "**"@ + (match s.user.username {
        Some(u) => u@,
        None => "Unknown"@,
    }) + "**"@
}

/// The score-and-accuracy section.
pub open spec fn spec_score_field(s: ScoreReplay) -> Seq<char> {
    "**Score:** "@ + dec_str(s.score_metadata.score as nat) + " | **Acc:** "@ + centi_str(
        s.score_metadata.accuracy_centi as nat,
    ) + "%"@
}

/// The overall difficulty of the played chart in tenths, `0` when no
/// chart variant is present.
pub open spec fn spec_od_tenths(s: ScoreReplay) -> nat {
    match spec_beatmap(s) {
        Some(b) => b.od_tenths as nat,
        None => 0,
    }
}

/// The drain of the played chart in tenths, `0` when no chart variant
/// is present.
pub open spec fn spec_hp_tenths(s: ScoreReplay) -> nat {
    match spec_beatmap(s) {
        Some(b) => b.hp_tenths as nat,
        None => 0,
    }
}

/// The chart statistics section: effective tempo, difficulty settings
/// and the play's maximum combo.
pub open spec fn spec_stats_field(s: ScoreReplay) -> Seq<char> {
    "**BPM:** "@ + dec_str(spec_effective_tempo(s)) + " | **OD:** "@ + tenths_str(
        spec_od_tenths(s),
    ) + " | **HP:** "@ + tenths_str(spec_hp_tenths(s)) + " | **Max Combo:** "@ + dec_str(
        s.score_metadata.max_combo as nat,
    )
}

/// The hit-breakdown section: the marvelous/perfect ratio and the six
/// judgement tiers in fixed order.
pub open spec fn spec_hits_field(s: ScoreReplay) -> Seq<char> {
    "**Ratio M:P:** "@ + tenths_str(
        spec_ratio_tenths(s.score_metadata.count_geki, s.score_metadata.count_300),
    ) + ":1 | **Pause:** "@ + dec_str(s.score_metadata.pause_count as nat) + "\n**Marv:** "@
        + dec_str(s.score_metadata.count_geki as nat) + " | **Perf:** "@ + dec_str(
        s.score_metadata.count_300 as nat,
    ) + "\n**Great:** "@ + dec_str(s.score_metadata.count_katu as nat) + " | **Good:** "@
        + dec_str(s.score_metadata.count_100 as nat) + "\n**Bad:** "@ + dec_str(
        s.score_metadata.count_50 as nat,
    ) + " | **Miss:** "@ + dec_str(s.score_metadata.count_miss as nat)
}

/// The rating section: overall rating and the unwrapped pattern tags.
pub open spec fn spec_rating_field(m: MSDExtended) -> Seq<char> {
    "**Overall:** "@ + centi_str(
        match m.overall_centi {
            Some(o) => o as nat,
            None => 0,
        },
    ) + " | **Patterns:** "@ + spec_pattern_display(m.main_pattern)
}

/// The accent colour of every published score message.
pub const EMBED_COLOR: u32 = 0x5865F2;

/// The rendered form of one score record: a header, an optional link,
/// the ordered text sections, and an optional cover image.
#[derive(Debug, Clone)]
pub struct ScoreEmbed {
    pub title: String,
    /// External chart link; empty when either external id is absent.
    pub url: String,
    /// The ordered text sections of the message body.
    pub fields: Vec<String>,
    /// Cover image URL; empty when no non-empty cover is present.
    pub image_url: String,
    pub color: u32,
}

fn header_line(s: &ScoreReplay) -> (r: String)
    ensures
        r@ == spec_header(*s),
{
    let mut r = chart_title_or_default(s);
    r.append(" - ");
    r.append(chart_creator_or_default(s).as_str());
    r.append(" | ");
    r.append(chart_difficulty_or_default(s).as_str());
    r.append(" | Rate: ");
    r.append(format_tenths(s.score.rate_tenths).as_str());
    r
}

fn player_field(s: &ScoreReplay) -> (r: String)
    ensures
        r@ == spec_player_field(*s),
{
    let mut r = "**".to_owned();
    match &s.user.username {
        Some(u) => r.append(u.as_str()),
        None => r.append("Unknown"),
    }
    r.append("**");
    r
}

fn score_field(s: &ScoreReplay) -> (r: String)
    ensures
        r@ == spec_score_field(*s),
{
    let mut r = "**Score:** ".to_owned();
    r.append(u64_to_string(s.score_metadata.score as u64).as_str());
    r.append(" | **Acc:** ");
    r.append(format_centi(s.score_metadata.accuracy_centi).as_str());
    r.append("%");
    r
}

fn stats_field(s: &ScoreReplay) -> (r: String)
    ensures
        r@ == spec_stats_field(*s),
{
    let (od, hp): (u64, u64) = if s.beatmapset_complete.beatmap.len() > 0 {
        match &s.beatmapset_complete.beatmap[0].beatmap {
            Some(b) => (b.od_tenths, b.hp_tenths),
            None => (0, 0),
        }
    } else {
        (0, 0)
    };
    let mut r = "**BPM:** ".to_owned();
    r.append(u128_to_string(effective_tempo(s)).as_str());
    r.append(" | **OD:** ");
    r.append(format_tenths(od).as_str());
    r.append(" | **HP:** ");
    r.append(format_tenths(hp).as_str());
    r.append(" | **Max Combo:** ");
    r.append(u64_to_string(s.score_metadata.max_combo as u64).as_str());
    r
}

fn hits_field(s: &ScoreReplay) -> (r: String)
    ensures
        r@ == spec_hits_field(*s),
{
    let m = &s.score_metadata;
    let mut r = "**Ratio M:P:** ".to_owned();
    r.append(format_tenths(ratio_tenths(m.count_geki, m.count_300)).as_str());
    r.append(":1 | **Pause:** ");
    r.append(u64_to_string(m.pause_count as u64).as_str());
    r.append("\n**Marv:** ");
    r.append(u64_to_string(m.count_geki as u64).as_str());
    r.append(" | **Perf:** ");
    r.append(u64_to_string(m.count_300 as u64).as_str());
    r.append("\n**Great:** ");
    r.append(u64_to_string(m.count_katu as u64).as_str());
    r.append(" | **Good:** ");
    r.append(u64_to_string(m.count_100 as u64).as_str());
    r.append("\n**Bad:** ");
    r.append(u64_to_string(m.count_50 as u64).as_str());
    r.append(" | **Miss:** ");
    r.append(u64_to_string(m.count_miss as u64).as_str());
    r
}

fn rating_field(m: &MSDExtended) -> (r: String)
    ensures
        r@ == spec_rating_field(*m),
{
    let overall: u64 = match m.overall_centi {
        Some(o) => o,
        None => 0,
    };
    let mut r = "**Overall:** ".to_owned();
    r.append(format_centi(overall).as_str());
    r.append(" | **Patterns:** ");
    r.append(pattern_display(&m.main_pattern).as_str());
    r
}

/// Whether `e` is the rendering of the record `s`: every section, the
/// link, the cover and the colour are pinned by the rules above.
pub open spec fn spec_embed_of(e: ScoreEmbed, s: ScoreReplay) -> bool {
    &&& e.title@ == spec_header(s)
    &&& e.url@ == spec_external_link(s)
    &&& e.image_url@ == spec_cover_url(s)
    &&& e.color == EMBED_COLOR
    &&& e.fields@.len() == (if spec_msd(s) is Some {
        5int
    } else {
        4int
    })
    &&& e.fields@[0]@ == spec_player_field(s)
    &&& e.fields@[1]@ == spec_score_field(s)
    &&& e.fields@[2]@ == spec_stats_field(s)
    &&& e.fields@[3]@ == spec_hits_field(s)
    &&& (match spec_msd(s) {
        Some(m) => e.fields@[4]@ == spec_rating_field(m),
        None => true,
    })
}

/// Renders one score record into the ordered sections of the published
/// message. Pure and total: every record renders, with explicit
/// defaults for absent chart data.
pub fn create_score_embed(score: &ScoreReplay) -> (e: ScoreEmbed)
    ensures
        spec_embed_of(e, *score),
{
    let mut fields: Vec<String> = Vec::new();
    fields.push(player_field(score));
    fields.push(score_field(score));
    fields.push(stats_field(score));
    fields.push(hits_field(score));
    if score.beatmapset_complete.beatmap.len() > 0 {
        if score.beatmapset_complete.beatmap[0].msd.len() > 0 {
            fields.push(rating_field(&score.beatmapset_complete.beatmap[0].msd[0]));
        }
    }
    ScoreEmbed {
        title: header_line(score),
        url: external_link(score),
        fields,
        image_url: cover_url_or_empty(score),
        color: EMBED_COLOR,
    }
}

/// Whether both the chart-set and the chart carry an external id.
pub open spec fn has_external_ids(s: ScoreReplay) -> bool {
    match (spec_beatmapset(s), spec_beatmap(s)) {
        (Some(bs), Some(b)) => bs.osu_id is Some && b.osu_id is Some,
        _ => false,
    }
}

/// The external link is empty unless both external ids are present,
/// and non-empty (the interpolated link) when both are.
pub proof fn lemma_external_link_empty_unless_ids(s: ScoreReplay)
    ensures
        has_external_ids(s) <==> spec_external_link(s).len() > 0,
{
    reveal_strlit("https://osef.me/beatmapsets/");
}

/// A record with no chart context renders with explicit defaults:
/// every chart field is `"Unknown"` and the effective tempo is `0`;
/// at the neutral playback rate the whole header is fixed.
pub proof fn lemma_defaults_without_chart_context(s: ScoreReplay)
    requires
        s.beatmapset_complete.beatmapset is None,
        s.beatmapset_complete.beatmap@.len() == 0,
    ensures
        spec_effective_tempo(s) == 0,
        s.score.rate_tenths == 10 ==> spec_header(s) == "Unknown - Unknown | Unknown | Rate: 1.0"@,
{
    if s.score.rate_tenths == 10 {
        reveal_strlit("Unknown - Unknown | Unknown | Rate: 1.0");
        reveal_strlit("Unknown");
        reveal_strlit(" - ");
        reveal_strlit(" | ");
        reveal_strlit(" | Rate: ");
        reveal_strlit(".");
        assert(spec_header(s) =~= "Unknown - Unknown | Unknown | Rate: 1.0"@);
    }
}

} // verus!
