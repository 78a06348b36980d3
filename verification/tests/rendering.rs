use score_relay::models::{
    BeatmapCompleteExtended, BeatmapExtended, BeatmapsetCompleteExtended, BeatmapsetExtended,
    MSDExtended, Replay, Score, ScoreMetadata, ScoreRating, ScoreReplay, User,
};
use score_relay::render::{
    create_score_embed, effective_tempo, external_link, pattern_display, ratio_tenths,
    unwrap_pattern_list, EMBED_COLOR,
};

fn bare_record() -> ScoreReplay {
    ScoreReplay {
        score: Score {
            id: 1,
            user_id: 11,
            beatmap_id: 21,
            rate_tenths: 10,
            mods: 0,
            hash: "h".to_string(),
            rank: "S".to_string(),
            status: "ranked".to_string(),
        },
        user: User { discord_id: 99, username: None, created_at: None, roles: None },
        beatmapset_complete: BeatmapsetCompleteExtended { beatmapset: None, beatmap: vec![] },
        score_metadata: ScoreMetadata {
            id: 5,
            pause_count: 0,
            started_at: "2024-01-01 00:00:00".to_string(),
            ended_at: "2024-01-01 00:02:00".to_string(),
            score: 990000,
            accuracy_centi: 9812,
            max_combo: 700,
            perfect: false,
            count_300: 120,
            count_100: 4,
            count_50: 1,
            count_miss: 2,
            count_katu: 30,
            count_geki: 600,
        },
        score_rating: None,
        replay: None,
    }
}

fn full_record() -> ScoreReplay {
    let mut r = bare_record();
    r.user.username = Some("PlayerOne".to_string());
    r.score.rate_tenths = 15;
    r.beatmapset_complete = BeatmapsetCompleteExtended {
        beatmapset: Some(BeatmapsetExtended {
            id: 3,
            osu_id: Some(777),
            artist: "Artist".to_string(),
            title: "Song Title".to_string(),
            creator: "Mapper".to_string(),
            cover_url: Some("https://img.example/cover.jpg".to_string()),
        }),
        beatmap: vec![BeatmapCompleteExtended {
            beatmap: Some(BeatmapExtended {
                id: 8,
                osu_id: Some(888),
                difficulty: "Insane".to_string(),
                max_combo: 900,
                bpm_tenths: 1800,
                od_tenths: 80,
                hp_tenths: 75,
            }),
            msd: vec![MSDExtended {
                overall_centi: Some(2512),
                main_pattern: Some("[\"stream\",\"jack\"]".to_string()),
            }],
        }],
    };
    r.score_rating = Some(ScoreRating {
        id: 1,
        score_id: 1,
        rating_centi: 2500,
        rating_type: "overall".to_string(),
    });
    r.replay = Some(Replay {
        id: 2,
        hash: "rh".to_string(),
        replay_available: true,
        replay_path: "/r/2".to_string(),
    });
    r
}

#[test]
fn defaults_without_chart_context() {
    let e = create_score_embed(&bare_record());
    assert_eq!(e.title, "Unknown - Unknown | Unknown | Rate: 1.0");
    assert_eq!(e.url, "");
    assert_eq!(e.image_url, "");
    assert_eq!(e.fields.len(), 4);
    assert!(e.fields[2].starts_with("**BPM:** 0 |"));
}

#[test]
fn effective_tempo_applies_rate() {
    // base tempo 180 at rate 1.5 gives 270
    let r = full_record();
    assert_eq!(effective_tempo(&r), 270);
    let b = bare_record();
    assert_eq!(effective_tempo(&b), 0);
}

#[test]
fn effective_tempo_rounds_to_nearest() {
    let mut r = full_record();
    // 179.9 bpm at 1.1x = 197.89 -> 198
    r.beatmapset_complete.beatmap[0].beatmap.as_mut().unwrap().bpm_tenths = 1799;
    r.score.rate_tenths = 11;
    assert_eq!(effective_tempo(&r), 198);
}

#[test]
fn ratio_zero_perfect_is_defined() {
    assert_eq!(ratio_tenths(0, 0), 0);
    assert_eq!(ratio_tenths(1000, 0), 0);
    assert_eq!(ratio_tenths(u32::MAX, 0), 0);
}

#[test]
fn ratio_rounds_half_up_in_tenths() {
    assert_eq!(ratio_tenths(600, 120), 50); // 5.0
    assert_eq!(ratio_tenths(3, 2), 15); // 1.5
    assert_eq!(ratio_tenths(1, 3), 3); // 0.333 -> 0.3
}

#[test]
fn external_link_requires_both_ids() {
    let full = full_record();
    assert_eq!(external_link(&full), "https://osef.me/beatmapsets/777/888");

    let mut no_set_id = full_record();
    no_set_id.beatmapset_complete.beatmapset.as_mut().unwrap().osu_id = None;
    assert_eq!(external_link(&no_set_id), "");

    let mut no_map_id = full_record();
    no_map_id.beatmapset_complete.beatmap[0].beatmap.as_mut().unwrap().osu_id = None;
    assert_eq!(external_link(&no_map_id), "");

    assert_eq!(external_link(&bare_record()), "");
}

#[test]
fn unwraps_pattern_lists() {
    assert_eq!(unwrap_pattern_list("[\"stream\",\"jack\"]"), "stream, jack");
    assert_eq!(unwrap_pattern_list("[\"jumpstream\"]"), "jumpstream");
    assert_eq!(unwrap_pattern_list(""), "");
}

#[test]
fn pattern_display_defaults() {
    assert_eq!(pattern_display(&None), "None");
    assert_eq!(pattern_display(&Some("None".to_string())), "None");
    assert_eq!(pattern_display(&Some("[\"tech\",\"chordjack\"]".to_string())), "tech, chordjack");
}

#[test]
fn full_embed_sections() {
    let e = create_score_embed(&full_record());
    assert_eq!(e.title, "Song Title - Mapper | Insane | Rate: 1.5");
    assert_eq!(e.url, "https://osef.me/beatmapsets/777/888");
    assert_eq!(e.image_url, "https://img.example/cover.jpg");
    assert_eq!(e.color, EMBED_COLOR);
    assert_eq!(e.fields.len(), 5);
    assert_eq!(e.fields[0], "**PlayerOne**");
    assert_eq!(e.fields[1], "**Score:** 990000 | **Acc:** 98.12%");
    assert_eq!(e.fields[2], "**BPM:** 270 | **OD:** 8.0 | **HP:** 7.5 | **Max Combo:** 700");
    assert_eq!(
        e.fields[3],
        "**Ratio M:P:** 5.0:1 | **Pause:** 0\n**Marv:** 600 | **Perf:** 120\n**Great:** 30 | **Good:** 4\n**Bad:** 1 | **Miss:** 2"
    );
    assert_eq!(e.fields[4], "**Overall:** 25.12 | **Patterns:** stream, jack");
}

#[test]
fn empty_cover_is_not_attached() {
    let mut r = full_record();
    r.beatmapset_complete.beatmapset.as_mut().unwrap().cover_url = Some("".to_string());
    let e = create_score_embed(&r);
    assert_eq!(e.image_url, "");
}
