use score_relay::models::{
    BeatmapCompleteExtended, BeatmapExtended, BeatmapsetCompleteExtended, BeatmapsetExtended,
    Score, ScoreMetadata, ScoreReplay, User,
};
use score_relay::queue::{ingestion_response, publisher_step, RelayQueue};

fn record_with_score(points: u32) -> ScoreReplay {
    ScoreReplay {
        score: Score {
            id: points as i32,
            user_id: 11,
            beatmap_id: 21,
            rate_tenths: 10,
            mods: 0,
            hash: "h".to_string(),
            rank: "S".to_string(),
            status: "ranked".to_string(),
        },
        user: User { discord_id: 99, username: Some("p".to_string()), created_at: None, roles: None },
        beatmapset_complete: BeatmapsetCompleteExtended { beatmapset: None, beatmap: vec![] },
        score_metadata: ScoreMetadata {
            id: 5,
            pause_count: 0,
            started_at: "s".to_string(),
            ended_at: "e".to_string(),
            score: points,
            accuracy_centi: 10000,
            max_combo: 1,
            perfect: true,
            count_300: 0,
            count_100: 0,
            count_50: 0,
            count_miss: 0,
            count_katu: 0,
            count_geki: 1,
        },
        score_rating: None,
        replay: None,
    }
}

#[test]
fn fifo_order_is_preserved() {
    let mut q = RelayQueue::new();
    let n: u32 = 25;
    for i in 0..n {
        q.enqueue(record_with_score(i));
    }
    assert_eq!(q.len(), n as usize);
    for i in 0..n {
        let r = q.dequeue().expect("queue should not be empty yet");
        assert_eq!(r.score_metadata.score, i);
    }
    assert_eq!(q.len(), 0);
    assert!(q.dequeue().is_none());
}

#[test]
fn publisher_consumes_in_order() {
    let mut q = RelayQueue::new();
    let mut a = record_with_score(1);
    a.beatmapset_complete.beatmapset = Some(BeatmapsetExtended {
        id: 1,
        osu_id: None,
        artist: "A".to_string(),
        title: "First".to_string(),
        creator: "M1".to_string(),
        cover_url: None,
    });
    let mut b = record_with_score(2);
    b.beatmapset_complete.beatmapset = Some(BeatmapsetExtended {
        id: 2,
        osu_id: None,
        artist: "B".to_string(),
        title: "Second".to_string(),
        creator: "M2".to_string(),
        cover_url: None,
    });
    q.enqueue(a);
    q.enqueue(b);

    let e1 = publisher_step(&mut q).unwrap();
    assert_eq!(e1.title, "First - M1 | Unknown | Rate: 1.0");
    let e2 = publisher_step(&mut q).unwrap();
    assert_eq!(e2.title, "Second - M2 | Unknown | Rate: 1.0");
    assert!(publisher_step(&mut q).is_none());
}

#[test]
fn ingestion_reply_codes() {
    let (ok_status, ok_body) = ingestion_response(true);
    assert_eq!(ok_status, 200);
    assert_eq!(ok_body, "{\"status\":\"success\"}");
    let (err_status, err_body) = ingestion_response(false);
    assert_eq!(err_status, 500);
    assert_eq!(err_body, "");
}

#[test]
fn accepted_submission_publishes_payload_header() {
    // a complete valid payload accepted at the ingestion boundary, then
    // published with the header built from its own fields
    let mut r = record_with_score(3);
    r.score.rate_tenths = 12;
    r.beatmapset_complete = BeatmapsetCompleteExtended {
        beatmapset: Some(BeatmapsetExtended {
            id: 1,
            osu_id: None,
            artist: "A".to_string(),
            title: "Payload Song".to_string(),
            creator: "Payload Mapper".to_string(),
            cover_url: None,
        }),
        beatmap: vec![BeatmapCompleteExtended {
            beatmap: Some(BeatmapExtended {
                id: 1,
                osu_id: None,
                difficulty: "Hard".to_string(),
                max_combo: 100,
                bpm_tenths: 1200,
                od_tenths: 70,
                hp_tenths: 60,
            }),
            msd: vec![],
        }],
    };

    let mut q = RelayQueue::new();
    q.enqueue(r);
    let (status, _) = ingestion_response(true);
    assert_eq!(status, 200);

    let embed = publisher_step(&mut q).unwrap();
    assert_eq!(embed.title, "Payload Song - Payload Mapper | Hard | Rate: 1.2");
}
