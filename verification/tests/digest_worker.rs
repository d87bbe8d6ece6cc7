use petpulse::dates::Date;
use petpulse::digest::{DailyDigest, aggregate_digest, process_digest, upsert_digest};
use petpulse::video::{Activity, VideoJob, VideoStatus};

const NOON: i64 = 1769947200; // 2026-02-01T12:00:00Z
const DATE: Date = Date { year: 2026, month: 2, day: 1 };

fn clip(
    id: &str,
    pet_id: i32,
    created_at: i64,
    status: VideoStatus,
    mood: Option<&str>,
    description: Option<&str>,
    is_unusual: bool,
) -> VideoJob {
    let mut job = VideoJob::new(id.to_string(), pet_id, format!("gs://clips/{id}"), created_at);
    job.status = status;
    job.mood = mood.map(|s| s.to_string());
    job.description = description.map(|s| s.to_string());
    job.is_unusual = is_unusual;
    job
}

fn activity(name: &str) -> Activity {
    Activity {
        activity: name.to_string(),
        mood: "relaxed".to_string(),
        description: "segment".to_string(),
        starttime: "00:00:01".to_string(),
        endtime: "00:00:05".to_string(),
        duration: "4s".to_string(),
    }
}

#[test]
fn scenario_d_no_processed_clips_writes_nothing() {
    let clips = vec![
        clip("a", 3, NOON, VideoStatus::Pending, None, None, false),
        clip("b", 3, NOON - 86400, VideoStatus::Processed, None, None, false), // other date
        clip("c", 4, NOON, VideoStatus::Processed, None, None, false),         // other pet
    ];
    assert!(process_digest(3, DATE, &clips, None, NOON + 60).is_none());
    assert!(aggregate_digest(3, DATE, &clips).is_none());
}

#[test]
fn aggregation_collects_moods_activities_and_unusual_events() {
    let mut first = clip(
        "v1",
        7,
        NOON,
        VideoStatus::Processed,
        Some("happy"),
        Some("Played fetch"),
        false,
    );
    first.activities = vec![activity("Walking"), activity("Sleeping")];
    let second = clip(
        "v2",
        7,
        NOON + 600,
        VideoStatus::Processed,
        Some("anxious"),
        None,
        true,
    );
    let ignored = clip("v3", 7, NOON, VideoStatus::Pending, Some("x"), None, true);
    let clips = vec![first, second, ignored];

    let content = aggregate_digest(7, DATE, &clips).expect("two clips contribute");
    assert_eq!(content.total_videos, 2);
    assert_eq!(content.moods, vec!["happy".to_string(), "anxious".to_string()]);
    assert_eq!(content.activities.len(), 2);
    assert_eq!(content.activities[0].activity, "Walking");
    assert_eq!(content.unusual_events.len(), 1);
    assert_eq!(content.unusual_events[0].video_id, "v2");
    // A clip without a description carries the placeholder.
    assert_eq!(content.unusual_events[0].description, "Unusual activity detected");
    assert_eq!(content.unusual_events[0].timestamp, NOON + 600);

    assert_eq!(
        content.summary,
        "Daily Summary for Pet 7\n\nVideos Processed: 2\nMoods: happy, anxious\nUnusual Events: 1\n\nDescriptions:\nPlayed fetch"
    );
}

#[test]
fn summary_lists_distinct_moods_while_the_stored_list_keeps_all() {
    let clips = vec![
        clip("v1", 5, NOON, VideoStatus::Processed, Some("happy"), None, false),
        clip("v2", 5, NOON + 60, VideoStatus::Processed, Some("calm"), None, false),
        clip("v3", 5, NOON + 120, VideoStatus::Processed, Some("happy"), None, false),
    ];
    let content = aggregate_digest(5, DATE, &clips).expect("three clips contribute");
    assert_eq!(
        content.moods,
        vec!["happy".to_string(), "calm".to_string(), "happy".to_string()]
    );
    assert_eq!(
        content.summary,
        "Daily Summary for Pet 5\n\nVideos Processed: 3\nMoods: happy, calm\nUnusual Events: 0\n\nDescriptions:\nNo descriptions available."
    );
}

#[test]
fn summary_placeholders_for_empty_moods_and_descriptions() {
    let clips = vec![clip("v1", 9, NOON, VideoStatus::Processed, None, None, false)];
    let content = aggregate_digest(9, DATE, &clips).expect("one clip contributes");
    assert_eq!(
        content.summary,
        "Daily Summary for Pet 9\n\nVideos Processed: 1\nMoods: None\nUnusual Events: 0\n\nDescriptions:\nNo descriptions available."
    );
}

#[test]
fn upsert_creates_then_overwrites_in_place() {
    let clips = vec![clip(
        "v1",
        7,
        NOON,
        VideoStatus::Processed,
        Some("happy"),
        Some("d"),
        false,
    )];
    let first: DailyDigest =
        process_digest(7, DATE, &clips, None, NOON + 60).expect("row written");
    assert_eq!(first.id.len(), 36);
    assert_eq!(first.pet_id, 7);
    assert_eq!(first.date, DATE);
    assert_eq!(first.created_at, NOON + 60);
    assert_eq!(first.updated_at, NOON + 60);

    let second =
        process_digest(7, DATE, &clips, Some(first.clone()), NOON + 120).expect("row rewritten");
    assert_eq!(second.id, first.id);
    assert_eq!(second.created_at, first.created_at);
    assert_eq!(second.updated_at, NOON + 120);
}

#[test]
fn reaggregation_is_idempotent_byte_for_byte() {
    let mut first = clip(
        "v1",
        7,
        NOON,
        VideoStatus::Processed,
        Some("happy"),
        Some("Played fetch"),
        true,
    );
    first.activities = vec![activity("Walking")];
    let clips = vec![
        first,
        clip("v2", 7, NOON + 1, VideoStatus::Processed, Some("calm"), Some("Napped"), false),
    ];

    let run1 = process_digest(7, DATE, &clips, None, NOON + 60).expect("row");
    let run2 = process_digest(7, DATE, &clips, Some(run1.clone()), NOON + 9999).expect("row");
    assert_eq!(run1.summary, run2.summary);
    assert_eq!(run1.moods, run2.moods);
    assert_eq!(
        run1.activities.iter().map(|a| a.activity.clone()).collect::<Vec<_>>(),
        run2.activities.iter().map(|a| a.activity.clone()).collect::<Vec<_>>()
    );
    assert_eq!(run1.unusual_events.len(), run2.unusual_events.len());
    assert_eq!(run1.unusual_events[0].video_id, run2.unusual_events[0].video_id);
    assert_eq!(run1.total_videos, run2.total_videos);
}

#[test]
fn upsert_keeps_identity_of_existing_row() {
    let clips = vec![clip("v1", 7, NOON, VideoStatus::Processed, None, None, false)];
    let content = aggregate_digest(7, DATE, &clips).expect("content");
    let existing = DailyDigest {
        id: "11111111-2222-3333-4444-555555555555".to_string(),
        pet_id: 7,
        date: DATE,
        summary: "old".to_string(),
        moods: Vec::new(),
        activities: Vec::new(),
        unusual_events: Vec::new(),
        total_videos: 99,
        created_at: NOON - 1000,
        updated_at: NOON - 1000,
    };
    let row = upsert_digest(Some(existing), 7, DATE, content, NOON);
    assert_eq!(row.id, "11111111-2222-3333-4444-555555555555");
    assert_eq!(row.created_at, NOON - 1000);
    assert_eq!(row.updated_at, NOON);
    assert_eq!(row.total_videos, 1);
    assert_ne!(row.summary, "old");
}
