//! Per-pet daily digests: select the processed clips of a (pet, date) key,
//! aggregate their moods, activities and unusual events, build the summary
//! text, and upsert the single digest row for that key. Recomputation is a
//! pure function of the clip set, which makes repeated digest jobs for the
//! same key idempotent.

use vstd::prelude::*;
use crate::dates::{Date, MAX_TIMESTAMP, spec_utc_date_of, utc_date_of_timestamp};
use crate::ids::fresh_uuid;
use crate::text::{
    i32_to_string, join_strings, spec_decimal, spec_decimal_i64, spec_join, u64_to_string,
};
use crate::video::{Activity, VideoJob, VideoStatus, clone_activity, spec_or_default, string_or_default};

verus! {

/// One unusual-event descriptor of a digest: the clip, its description and
/// its creation time.
#[derive(Clone, Debug)]
pub struct UnusualEvent {
    pub video_id: String,
    pub description: String,
    pub timestamp: i64,
}

/// The recomputed content of a digest: everything derived from the clip set.
#[derive(Clone, Debug)]
pub struct DigestContent {
    pub summary: String,
    pub moods: Vec<String>,
    pub activities: Vec<Activity>,
    pub unusual_events: Vec<UnusualEvent>,
    pub total_videos: u64,
}

/// The stored daily digest row, keyed uniquely by (pet, date).
#[derive(Clone, Debug)]
pub struct DailyDigest {
    pub id: String,
    pub pet_id: i32,
    pub date: Date,
    pub summary: String,
    pub moods: Vec<String>,
    pub activities: Vec<Activity>,
    pub unusual_events: Vec<UnusualEvent>,
    pub total_videos: u64,
    pub created_at: i64,
    pub updated_at: i64,
}

/// Whether a clip contributes to the digest of this pet and date: it is
/// PROCESSED, owned by the pet, and was created on that UTC calendar date.
pub open spec fn spec_eligible(v: VideoJob, pet_id: int, date: Date) -> bool {
    &&& v.pet_id == pet_id
    &&& v.status == VideoStatus::Processed
    &&& spec_utc_date_of(v.created_at as int) == (date.year as int, date.month as int, date.day as int)
}

/// The clips of a stored list that contribute to this pet's digest for this
/// date, in stored order.
pub open spec fn spec_selected(clips: Seq<VideoJob>, pet_id: int, date: Date) -> Seq<VideoJob>
    decreases clips.len(),
{
    if clips.len() == 0 {
        Seq::<VideoJob>::empty()
    } else {
        spec_selected(clips.drop_last(), pet_id, date) + if spec_eligible(
            clips.last(),
            pet_id,
            date,
        ) {
            seq![clips.last()]
        } else {
            Seq::<VideoJob>::empty()
        }
    }
}

/// The moods of the selected clips, in order, where present.
pub open spec fn spec_moods(sel: Seq<VideoJob>) -> Seq<String>
    decreases sel.len(),
{
    if sel.len() == 0 {
        Seq::<String>::empty()
    } else {
        spec_moods(sel.drop_last()) + if sel.last().mood is Some {
            seq![sel.last().mood->0]
        } else {
            Seq::<String>::empty()
        }
    }
}

/// The descriptions of the selected clips, in order, where present.
pub open spec fn spec_descriptions(sel: Seq<VideoJob>) -> Seq<String>
    decreases sel.len(),
{
    if sel.len() == 0 {
        Seq::<String>::empty()
    } else {
        spec_descriptions(sel.drop_last()) + if sel.last().description is Some {
            seq![sel.last().description->0]
        } else {
            Seq::<String>::empty()
        }
    }
}

/// All activity entries of the selected clips, concatenated verbatim.
pub open spec fn spec_all_activities(sel: Seq<VideoJob>) -> Seq<Activity>
    decreases sel.len(),
{
    if sel.len() == 0 {
        Seq::<Activity>::empty()
    } else {
        spec_all_activities(sel.drop_last()) + sel.last().activities@
    }
}

/// The unusual-event descriptors of the selected clips, as (video id,
/// description, timestamp) triples; a clip without a description carries a
/// fixed placeholder.
pub open spec fn spec_unusual_events(sel: Seq<VideoJob>) -> Seq<(Seq<char>, Seq<char>, int)>
    decreases sel.len(),
{
    if sel.len() == 0 {
        Seq::<(Seq<char>, Seq<char>, int)>::empty()
    } else {
        spec_unusual_events(sel.drop_last()) + if sel.last().is_unusual {
            seq![
                (
                    sel.last().id@,
                    spec_or_default(sel.last().description, "Unusual activity detected"@),
                    sel.last().created_at as int,
                ),
            ]
        } else {
            Seq::<(Seq<char>, Seq<char>, int)>::empty()
        }
    }
}

/// The (video id, description, timestamp) triples of stored unusual events.
pub open spec fn spec_event_views(es: Seq<UnusualEvent>) -> Seq<(Seq<char>, Seq<char>, int)> {
    es.map(|i: int, e: UnusualEvent| (e.video_id@, e.description@, e.timestamp as int))
}

/// Whether some element of a string list reads as this text.
pub open spec fn spec_contains_text(ss: Seq<String>, t: Seq<char>) -> bool {
    exists|i: int| 0 <= i < ss.len() && ss[i]@ == t
}

/// A string list with later repetitions dropped: each text keeps its first
/// occurrence only. The summary lists distinct moods this way, while the
/// stored mood list keeps the full multiset.
pub open spec fn spec_distinct_texts(ss: Seq<String>) -> Seq<String>
    decreases ss.len(),
{
    if ss.len() == 0 {
        Seq::<String>::empty()
    } else {
        let pre = spec_distinct_texts(ss.drop_last());
        if spec_contains_text(ss.drop_last(), ss.last()@) {
            pre
        } else {
            pre.push(ss.last())
        }
    }
}

fn contains_text_prefix(v: &Vec<String>, upto: usize, t: &String) -> (r: bool)
    requires
        upto <= v@.len(),
    ensures
        r == spec_contains_text(v@.subrange(0, upto as int), t@),
{
    let mut i: usize = 0;
    while i < upto
        invariant
            i <= upto <= v@.len(),
            forall|j: int| 0 <= j < i ==> v@[j]@ != t@,
        decreases upto - i,
    {
        if crate::text::str_eq(v[i].as_str(), t.as_str()) {
            proof {
                assert(v@.subrange(0, upto as int)[i as int]@ == t@);
            }
            return true;
        }
        i += 1;
    }
    proof {
        assert(forall|j: int|
            0 <= j < upto ==> #[trigger] v@.subrange(0, upto as int)[j]@ == v@[j]@);
    }
    false
}

fn distinct_texts(v: &Vec<String>) -> (r: Vec<String>)
    ensures
        r@ == spec_distinct_texts(v@),
{
    let mut r: Vec<String> = Vec::new();
    let mut i: usize = 0;
    while i < v.len()
        invariant
            i <= v@.len(),
            r@ == spec_distinct_texts(v@.subrange(0, i as int)),
        decreases v@.len() - i,
    {
        proof {
            let post = v@.subrange(0, i + 1);
            assert(post.drop_last() =~= v@.subrange(0, i as int));
            assert(post.last() == v@[i as int]);
        }
        if !contains_text_prefix(v, i, &v[i]) {
            r.push(v[i].clone());
        }
        i += 1;
    }
    proof {
        assert(v@.subrange(0, v@.len() as int) =~= v@);
    }
    r
}

/// The digest summary text: video count, the distinct moods observed (or
/// "None"), the unusual-event count, and every clip description (or a
/// placeholder).
pub open spec fn spec_summary(
    pet_id: int,
    total: nat,
    moods: Seq<String>,
    unusual: nat,
    descriptions: Seq<String>,
) -> Seq<char> {
    "Daily Summary for Pet "@ + spec_decimal_i64(pet_id) + "\n\nVideos Processed: "@ + spec_decimal(
        total,
    ) + "\nMoods: "@ + (if moods.len() == 0 {
        "None"@
    } else {
        spec_join(moods, ", "@)
    }) + "\nUnusual Events: "@ + spec_decimal(unusual) + "\n\nDescriptions:\n"@ + (
    if descriptions.len() == 0 {
        "No descriptions available."@
    } else {
        spec_join(descriptions, "\n\n"@)
    })
}

fn build_summary(
    pet_id: i32,
    total: u64,
    moods: &Vec<String>,
    unusual: u64,
    descriptions: &Vec<String>,
) -> (r: String)
    ensures
        r@ == spec_summary(
            pet_id as int,
            total as nat,
            moods@,
            unusual as nat,
            descriptions@,
        ),
{
    let mut s = "Daily Summary for Pet ".to_owned();
    let pet_text = i32_to_string(pet_id);
    s.append(pet_text.as_str());
    s.append("\n\nVideos Processed: ");
    let total_text = u64_to_string(total);
    s.append(total_text.as_str());
    s.append("\nMoods: ");
    if moods.len() == 0 {
        s.append("None");
    } else {
        let joined = join_strings(moods, ", ");
        s.append(joined.as_str());
    }
    s.append("\nUnusual Events: ");
    let unusual_text = u64_to_string(unusual);
    s.append(unusual_text.as_str());
    s.append("\n\nDescriptions:\n");
    if descriptions.len() == 0 {
        s.append("No descriptions available.");
    } else {
        let joined = join_strings(descriptions, "\n\n");
        s.append(joined.as_str());
    }
    proof {
        assert(s@ =~= spec_summary(
            pet_id as int,
            total as nat,
            moods@,
            unusual as nat,
            descriptions@,
        ));
    }
    s
}

/// What an aggregated digest content must hold for this clip set.
pub open spec fn spec_content_ok(
    c: DigestContent,
    clips: Seq<VideoJob>,
    pet_id: int,
    date: Date,
) -> bool {
    let sel = spec_selected(clips, pet_id, date);
    &&& c.total_videos == sel.len()
    &&& c.moods@ == spec_moods(sel)
    &&& c.activities@ == spec_all_activities(sel)
    &&& spec_event_views(c.unusual_events@) == spec_unusual_events(sel)
    &&& c.summary@ == spec_summary(
        pet_id,
        sel.len(),
        spec_distinct_texts(spec_moods(sel)),
        spec_unusual_events(sel).len(),
        spec_descriptions(sel),
    )
}

/// Aggregates the digest content for a (pet, date) key from the stored
/// clips: their moods, activity entries, unusual events and the summary
/// text. Returns `None` exactly when no processed clip of that pet falls on
/// that date — the legitimate empty case in which nothing is written.
pub fn aggregate_digest(pet_id: i32, date: Date, clips: &Vec<VideoJob>) -> (r: Option<
    DigestContent,
>)
    requires
        forall|i: int|
            0 <= i < clips@.len() ==> 0 <= #[trigger] clips@[i].created_at < MAX_TIMESTAMP,
    ensures
        r is Some <==> spec_selected(clips@, pet_id as int, date).len() > 0,
        r is Some ==> spec_content_ok(r->0, clips@, pet_id as int, date),
{
    let mut total: u64 = 0;
    let mut moods: Vec<String> = Vec::new();
    let mut descriptions: Vec<String> = Vec::new();
    let mut activities: Vec<Activity> = Vec::new();
    let mut events: Vec<UnusualEvent> = Vec::new();
    let mut i: usize = 0;
    while i < clips.len()
        invariant
            i <= clips@.len(),
            forall|k: int|
                0 <= k < clips@.len() ==> 0 <= #[trigger] clips@[k].created_at < MAX_TIMESTAMP,
            total == spec_selected(clips@.subrange(0, i as int), pet_id as int, date).len(),
            total <= i,
            moods@ == spec_moods(spec_selected(clips@.subrange(0, i as int), pet_id as int, date)),
            descriptions@ == spec_descriptions(
                spec_selected(clips@.subrange(0, i as int), pet_id as int, date),
            ),
            activities@ == spec_all_activities(
                spec_selected(clips@.subrange(0, i as int), pet_id as int, date),
            ),
            spec_event_views(events@) == spec_unusual_events(
                spec_selected(clips@.subrange(0, i as int), pet_id as int, date),
            ),
        decreases clips@.len() - i,
    {
        let v = &clips[i];
        let ghost pre_sel = spec_selected(clips@.subrange(0, i as int), pet_id as int, date);
        proof {
            let post = clips@.subrange(0, i + 1);
            assert(post.drop_last() =~= clips@.subrange(0, i as int));
            assert(post.last() == clips@[i as int]);
        }
        let clip_date = utc_date_of_timestamp(v.created_at);
        if v.pet_id == pet_id && matches!(v.status, VideoStatus::Processed) && clip_date == date {
            proof {
                assert(spec_eligible(clips@[i as int], pet_id as int, date));
                let sel = spec_selected(clips@.subrange(0, i + 1), pet_id as int, date);
                assert(sel =~= pre_sel.push(clips@[i as int]));
                assert(sel.drop_last() =~= pre_sel);
                assert(sel.last() == clips@[i as int]);
            }
            total = total + 1;
            match &v.mood {
                Some(m) => { moods.push(m.clone()) },
                None => {},
            }
            match &v.description {
                Some(d) => { descriptions.push(d.clone()) },
                None => {},
            }
            let mut j: usize = 0;
            let ghost acts_before = activities@;
            while j < v.activities.len()
                invariant
                    j <= v.activities@.len(),
                    activities@ == acts_before + v.activities@.subrange(0, j as int),
                decreases v.activities@.len() - j,
            {
                activities.push(clone_activity(&v.activities[j]));
                proof {
                    assert(v.activities@.subrange(0, j + 1).drop_last() =~= v.activities@.subrange(
                        0,
                        j as int,
                    ));
                    assert(acts_before + v.activities@.subrange(0, j + 1) =~= (acts_before
                        + v.activities@.subrange(0, j as int)).push(v.activities@[j as int]));
                }
                j += 1;
            }
            proof {
                assert(v.activities@.subrange(0, v.activities@.len() as int) =~= v.activities@);
            }
            if v.is_unusual {
                let description = string_or_default(&v.description, "Unusual activity detected");
                let event = UnusualEvent {
                    video_id: v.id.clone(),
                    description,
                    timestamp: v.created_at,
                };
                let ghost events_before = events@;
                events.push(event);
                proof {
                    assert(spec_event_views(events@) =~= spec_event_views(events_before).push(
                        (event.video_id@, event.description@, event.timestamp as int),
                    ));
                }
            }
            proof {
                let sel = spec_selected(clips@.subrange(0, i + 1), pet_id as int, date);
                assert(moods@ =~= spec_moods(sel));
                assert(descriptions@ =~= spec_descriptions(sel));
                assert(activities@ =~= spec_all_activities(sel));
                assert(spec_event_views(events@) =~= spec_unusual_events(sel));
            }
        } else {
            proof {
                assert(!spec_eligible(clips@[i as int], pet_id as int, date));
                let sel = spec_selected(clips@.subrange(0, i + 1), pet_id as int, date);
                assert(sel =~= pre_sel);
            }
        }
        i += 1;
    }
    proof {
        assert(clips@.subrange(0, clips@.len() as int) =~= clips@);
    }
    if total == 0 {
        return None;
    }
    let unusual: u64 = events.len() as u64;
    proof {
        let sel = spec_selected(clips@, pet_id as int, date);
        assert(spec_event_views(events@).len() == events@.len());
        assert(unusual == spec_unusual_events(sel).len());
    }
    let distinct_moods = distinct_texts(&moods);
    let summary = build_summary(pet_id, total, &distinct_moods, unusual, &descriptions);
    Some(
        DigestContent {
            summary,
            moods,
            activities,
            unusual_events: events,
            total_videos: total,
        },
    )
}

/// Upserts the digest row for a (pet, date) key: an existing row keeps its
/// identity and creation time and has its derived fields overwritten; a
/// fresh row is created otherwise. Never appends.
pub fn upsert_digest(
    existing: Option<DailyDigest>,
    pet_id: i32,
    date: Date,
    content: DigestContent,
    now: i64,
) -> (r: DailyDigest)
    ensures
        r.summary == content.summary,
        r.moods == content.moods,
        r.activities == content.activities,
        r.unusual_events == content.unusual_events,
        r.total_videos == content.total_videos,
        r.updated_at == now,
        existing is Some ==> r.id == existing->0.id && r.pet_id == existing->0.pet_id && r.date
            == existing->0.date && r.created_at == existing->0.created_at,
        existing is None ==> r.id@.len() == 36 && r.pet_id == pet_id && r.date == date
            && r.created_at == now,
{
    match existing {
        Some(d) => DailyDigest {
            summary: content.summary,
            moods: content.moods,
            activities: content.activities,
            unusual_events: content.unusual_events,
            total_videos: content.total_videos,
            updated_at: now,
            ..d
        },
        None => DailyDigest {
            id: fresh_uuid(),
            pet_id,
            date,
            summary: content.summary,
            moods: content.moods,
            activities: content.activities,
            unusual_events: content.unusual_events,
            total_videos: content.total_videos,
            created_at: now,
            updated_at: now,
        },
    }
}

/// One digest-worker step for a (pet, date) key: recompute from the stored
/// clips and upsert. Returns the row to store, or `None` where no processed
/// clip matched — then nothing is written and no error is raised.
pub fn process_digest(
    pet_id: i32,
    date: Date,
    clips: &Vec<VideoJob>,
    existing: Option<DailyDigest>,
    now: i64,
) -> (r: Option<DailyDigest>)
    requires
        forall|i: int|
            0 <= i < clips@.len() ==> 0 <= #[trigger] clips@[i].created_at < MAX_TIMESTAMP,
    ensures
        r is Some <==> spec_selected(clips@, pet_id as int, date).len() > 0,
        r is Some ==> spec_content_ok(
            DigestContent {
                summary: r->0.summary,
                moods: r->0.moods,
                activities: r->0.activities,
                unusual_events: r->0.unusual_events,
                total_videos: r->0.total_videos,
            },
            clips@,
            pet_id as int,
            date,
        ),
        r is Some ==> r->0.updated_at == now,
        (r is Some && existing is Some) ==> r->0.id == existing->0.id && r->0.created_at
            == existing->0.created_at && r->0.pet_id == existing->0.pet_id && r->0.date
            == existing->0.date,
        (r is Some && existing is None) ==> r->0.id@.len() == 36 && r->0.pet_id == pet_id
            && r->0.date == date && r->0.created_at == now,
{
    match aggregate_digest(pet_id, date, clips) {
        Some(content) => Some(upsert_digest(existing, pet_id, date, content, now)),
        None => None,
    }
}

/// Digest recomputation is idempotent: two worker runs over the same clip
/// set for the same (pet, date) key agree byte for byte on the derived
/// summary, moods, activities, unusual events and video count, whatever row
/// existed before each run and whenever each ran.
pub proof fn lemma_digest_idempotent(
    pet_id: i32,
    date: Date,
    clips: Vec<VideoJob>,
    e1: Option<DailyDigest>,
    e2: Option<DailyDigest>,
    now1: i64,
    now2: i64,
    r1: Option<DailyDigest>,
    r2: Option<DailyDigest>,
)
    requires
        call_ensures(process_digest, (pet_id, date, &clips, e1, now1), r1),
        call_ensures(process_digest, (pet_id, date, &clips, e2, now2), r2),
    ensures
        r1 is Some <==> r2 is Some,
        r1 is Some ==> r1->0.summary@ == r2->0.summary@,
        r1 is Some ==> r1->0.moods@ == r2->0.moods@,
        r1 is Some ==> r1->0.activities@ == r2->0.activities@,
        r1 is Some ==> spec_event_views(r1->0.unusual_events@) == spec_event_views(
            r2->0.unusual_events@,
        ),
        r1 is Some ==> r1->0.total_videos == r2->0.total_videos,
{
}

} // verus!
