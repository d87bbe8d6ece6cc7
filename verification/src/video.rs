//! The video-analysis job lifecycle: status transitions, the bounded retry
//! discipline, storage-path resolution, the digest hand-off, and the
//! alert-routing policy applied to each analyzed clip.

use vstd::prelude::*;
use crate::alert::{AlertContext, AlertPayload, AlertType, map_severity, spec_mapped_severity};
use crate::dates::{
    Date, MAX_TIMESTAMP, format_utc_timestamp, spec_utc_date_of, spec_utc_timestamp_text,
    utc_date_of_timestamp,
};
use crate::ids::fresh_uuid;
use crate::text::{clone_opt_string, i32_to_string, spec_decimal_i64};

verus! {

/// The lifecycle status of a video job.
#[derive(Clone, Copy, Debug, PartialEq, Eq, Structural)]
pub enum VideoStatus {
    Pending,
    Processing,
    Processed,
    Retrying,
    Failed,
}

impl VideoStatus {
    /// The stored label of this status.
    pub open spec fn spec_label(self) -> Seq<char> {
        match self {
            VideoStatus::Pending => "PENDING"@,
            VideoStatus::Processing => "PROCESSING"@,
            VideoStatus::Processed => "PROCESSED"@,
            VideoStatus::Retrying => "RETRYING"@,
            VideoStatus::Failed => "FAILED"@,
        }
    }

    /// Renders the stored label of this status.
    pub fn to_string(&self) -> (r: String)
        ensures
            r@ == self.spec_label(),
    {
        let label: &str = match self {
            VideoStatus::Pending => "PENDING",
            VideoStatus::Processing => "PROCESSING",
            VideoStatus::Processed => "PROCESSED",
            VideoStatus::Retrying => "RETRYING",
            VideoStatus::Failed => "FAILED",
        };
        label.to_owned()
    }
}

/// One analyzed activity segment of a clip.
#[derive(Clone, Debug)]
pub struct Activity {
    pub activity: String,
    pub mood: String,
    pub description: String,
    pub starttime: String,
    pub endtime: String,
    pub duration: String,
}

pub(crate) fn clone_activity(a: &Activity) -> (r: Activity)
    ensures
        r == *a,
{
    Activity {
        activity: a.activity.clone(),
        mood: a.mood.clone(),
        description: a.description.clone(),
        starttime: a.starttime.clone(),
        endtime: a.endtime.clone(),
        duration: a.duration.clone(),
    }
}

fn clone_activities(v: &Vec<Activity>) -> (r: Vec<Activity>)
    ensures
        r@ =~= v@,
{
    let mut r: Vec<Activity> = Vec::new();
    let mut i: usize = 0;
    while i < v.len()
        invariant
            i <= v@.len(),
            r@ =~= v@.subrange(0, i as int),
        decreases v@.len() - i,
    {
        r.push(clone_activity(&v[i]));
        i += 1;
    }
    proof {
        assert(v@.subrange(0, v@.len() as int) =~= v@);
    }
    r
}

/// The structured result of analyzing one clip.
#[derive(Clone, Debug)]
pub struct AnalysisData {
    pub activities: Vec<Activity>,
    pub summary_mood: Option<String>,
    pub summary_description: Option<String>,
    pub is_unusual: bool,
    pub severity_level: Option<String>,
    pub critical_indicators: Vec<String>,
    pub recommended_actions: Vec<String>,
}

impl AnalysisData {
    /// The severity level of an analysis, defaulting to "low" where absent.
    pub open spec fn spec_severity_level(self) -> Seq<char> {
        if self.severity_level is Some {
            self.severity_level->0@
        } else {
            "low"@
        }
    }

    /// Resolves the severity level, defaulting to "low".
    pub fn severity_level_or_default(&self) -> (r: String)
        ensures
            r@ == self.spec_severity_level(),
    {
        match &self.severity_level {
            Some(s) => s.clone(),
            None => "low".to_owned(),
        }
    }
}

/// A stored video job, the pipeline's unit of work.
#[derive(Clone, Debug)]
pub struct VideoJob {
    pub id: String,
    pub pet_id: i32,
    pub file_path: String,
    pub status: VideoStatus,
    pub retry_count: u8,
    pub created_at: i64,
    pub updated_at: i64,
    pub activities: Vec<Activity>,
    pub mood: Option<String>,
    pub description: Option<String>,
    pub is_unusual: bool,
}

impl VideoJob {
    /// A job never records more than two retries.
    pub open spec fn wf(self) -> bool {
        self.retry_count <= 2
    }

    /// A fresh job as created on upload: pending, with no retries and no
    /// analysis fields.
    pub fn new(id: String, pet_id: i32, file_path: String, now: i64) -> (job: VideoJob)
        ensures
            job.id == id,
            job.pet_id == pet_id,
            job.file_path == file_path,
            job.status == VideoStatus::Pending,
            job.retry_count == 0,
            job.created_at == now,
            job.updated_at == now,
            job.activities@ =~= Seq::<Activity>::empty(),
            job.mood is None,
            job.description is None,
            !job.is_unusual,
            job.wf(),
    {
        VideoJob {
            id,
            pet_id,
            file_path,
            status: VideoStatus::Pending,
            retry_count: 0,
            created_at: now,
            updated_at: now,
            activities: Vec::new(),
            mood: None,
            description: None,
            is_unusual: false,
        }
    }

    /// Takes the job into PROCESSING, persisted before any further work so
    /// external readers see progress.
    pub fn begin_processing(&mut self, now: i64)
        ensures
            *final(self) == (VideoJob { status: VideoStatus::Processing, updated_at: now, ..*old(self) }),
    {
        self.status = VideoStatus::Processing;
        self.updated_at = now;
    }

    /// Fails the job terminally on a malformed storage path: not transient,
    /// so no retry is attempted.
    pub fn fail_invalid_path(&mut self, now: i64)
        ensures
            *final(self) == (VideoJob { status: VideoStatus::Failed, updated_at: now, ..*old(self) }),
    {
        self.status = VideoStatus::Failed;
        self.updated_at = now;
    }

    /// Records a successful analysis: the job becomes PROCESSED and carries
    /// the analysis fields.
    pub fn apply_analysis_success(&mut self, data: &AnalysisData, now: i64)
        ensures
            *final(self) == (VideoJob {
                status: VideoStatus::Processed,
                activities: final(self).activities,
                mood: data.summary_mood,
                description: data.summary_description,
                is_unusual: data.is_unusual,
                updated_at: now,
                ..*old(self)
            }),
            final(self).activities@ == data.activities@,
    {
        self.status = VideoStatus::Processed;
        self.activities = clone_activities(&data.activities);
        self.mood = clone_opt_string(&data.summary_mood);
        self.description = clone_opt_string(&data.summary_description);
        self.is_unusual = data.is_unusual;
        self.updated_at = now;
    }

    /// Records a failed analysis. With fewer than two retries recorded the
    /// job goes to RETRYING with one more retry and asks to be requeued;
    /// otherwise it fails terminally and is never requeued.
    pub fn apply_analysis_failure(&mut self, now: i64) -> (requeue: bool)
        requires
            old(self).wf(),
        ensures
            *final(self) == spec_failure_step(*old(self), now as int),
            requeue == (old(self).retry_count < 2),
            requeue ==> final(self).status == VideoStatus::Retrying && final(self).retry_count
                == old(self).retry_count + 1,
            !requeue ==> final(self).status == VideoStatus::Failed && final(self).retry_count
                == old(self).retry_count,
            final(self).wf(),
    {
        if self.retry_count < 2 {
            self.retry_count = self.retry_count + 1;
            self.status = VideoStatus::Retrying;
            self.updated_at = now;
            true
        } else {
            self.status = VideoStatus::Failed;
            self.updated_at = now;
            false
        }
    }
}

/// What one analysis failure does to a job: one more retry and RETRYING
/// while fewer than two retries are recorded, else terminal FAILED.
pub open spec fn spec_failure_step(j: VideoJob, now: int) -> VideoJob {
    if j.retry_count < 2 {
        VideoJob {
            retry_count: (j.retry_count + 1) as u8,
            status: VideoStatus::Retrying,
            updated_at: now as i64,
            ..j
        }
    } else {
        VideoJob { status: VideoStatus::Failed, updated_at: now as i64, ..j }
    }
}

/// The job after `n` analysis failures.
pub open spec fn spec_failures(j: VideoJob, n: nat, now: int) -> VideoJob
    decreases n,
{
    if n == 0 {
        j
    } else {
        spec_failure_step(spec_failures(j, (n - 1) as nat, now), now)
    }
}

/// The retry discipline: starting from a fresh job, each of the first two
/// analysis failures increments the retry count and leaves the job
/// RETRYING; the third failure is terminal, with FAILED status, a retry
/// count of exactly 2, and no further change afterwards.
pub proof fn lemma_retry_discipline(j: VideoJob, n: nat, now: int)
    requires
        j.retry_count == 0,
    ensures
        spec_failures(j, n, now).retry_count <= 2,
        1 <= n <= 2 ==> spec_failures(j, n, now).retry_count == n && spec_failures(
            j,
            n,
            now,
        ).status == VideoStatus::Retrying,
        n >= 3 ==> spec_failures(j, n, now).retry_count == 2 && spec_failures(j, n, now).status
            == VideoStatus::Failed,
    decreases n,
{
    if n > 0 {
        lemma_retry_discipline(j, (n - 1) as nat, now);
    }
}

/// A concrete object location resolved from a `gs://bucket/key` path.
#[derive(Clone, Debug)]
pub struct ObjectLocation {
    pub bucket: String,
    pub object: String,
}

/// A storage path with every leading `gs://` scheme prefix removed.
pub open spec fn spec_strip_scheme(s: Seq<char>) -> Seq<char>
    decreases s.len(),
{
    if s.len() >= 5 && s.subrange(0, 5) == "gs://"@ {
        spec_strip_scheme(s.subrange(5, s.len() as int))
    } else {
        s
    }
}

/// The first position of a character in a sequence.
pub open spec fn spec_find_char(s: Seq<char>, c: char) -> Option<int> {
    if exists|i: int| 0 <= i < s.len() && s[i] == c {
        Some(choose|i: int|
            0 <= i < s.len() && s[i] == c && forall|j: int| 0 <= j < i ==> s[j] != c)
    } else {
        None
    }
}

fn strip_scheme<'a>(s: &'a str) -> (r: &'a str)
    ensures
        r@ == spec_strip_scheme(s@),
    decreases s@.len(),
{
    let n = s.unicode_len();
    proof {
        reveal_strlit("gs://");
    }
    if n >= 5 && s.get_char(0) == 'g' && s.get_char(1) == 's' && s.get_char(2) == ':'
        && s.get_char(3) == '/' && s.get_char(4) == '/' {
        proof {
            assert(s@.subrange(0, 5) =~= "gs://"@);
        }
        let rest = s.substring_char(5, n);
        strip_scheme(rest)
    } else {
        proof {
            if s@.len() >= 5 {
                assert(s@.subrange(0, 5) != "gs://"@) by {
                    if s@.subrange(0, 5) == "gs://"@ {
                        assert(s@[0] == s@.subrange(0, 5)[0]);
                        assert(s@[1] == s@.subrange(0, 5)[1]);
                        assert(s@[2] == s@.subrange(0, 5)[2]);
                        assert(s@[3] == s@.subrange(0, 5)[3]);
                        assert(s@[4] == s@.subrange(0, 5)[4]);
                    }
                }
            }
        }
        s
    }
}

fn find_char(s: &str, c: char) -> (r: Option<usize>)
    ensures
        match r {
            Some(i) => spec_find_char(s@, c) == Some(i as int) && i < s@.len() && s@[i as int]
                == c,
            None => spec_find_char(s@, c) is None,
        },
{
    let n = s.unicode_len();
    let mut i: usize = 0;
    while i < n
        invariant
            n == s@.len(),
            i <= n,
            forall|j: int| 0 <= j < i ==> s@[j] != c,
        decreases n - i,
    {
        if s.get_char(i) == c {
            proof {
                let w = choose|k: int|
                    0 <= k < s@.len() && s@[k] == c && forall|j: int| 0 <= j < k ==> s@[j] != c;
                assert(s@[i as int] == c);
                assert(spec_find_char(s@, c) is Some);
                assert(0 <= w < s@.len() && s@[w] == c && forall|j: int| 0 <= j < w ==> s@[j] != c);
                assert(!(w < i) && !(i < w));
            }
            return Some(i);
        }
        i += 1;
    }
    proof {
        assert(forall|k: int| 0 <= k < s@.len() ==> s@[k] != c);
    }
    None
}

/// Resolves a storage path of the form `gs://bucket/key` to its bucket and
/// object key: every leading scheme prefix is dropped and the remainder is
/// split at its first slash. Returns `None` exactly when no slash remains,
/// the malformed case that fails a job immediately.
pub fn parse_object_uri(path: &str) -> (r: Option<ObjectLocation>)
    ensures
        r is Some <==> spec_find_char(spec_strip_scheme(path@), '/') is Some,
        r is Some ==> {
            let stripped = spec_strip_scheme(path@);
            let slash = spec_find_char(stripped, '/')->0;
            &&& r->0.bucket@ == stripped.subrange(0, slash)
            &&& r->0.object@ == stripped.subrange(slash + 1, stripped.len() as int)
        },
{
    let rest = strip_scheme(path);
    match find_char(rest, '/') {
        Some(i) => {
            let n = rest.unicode_len();
            assert(i < n);
            let bucket = rest.substring_char(0, i);
            let object = rest.substring_char(i + 1, n);
            Some(ObjectLocation { bucket: bucket.to_owned(), object: object.to_owned() })
        },
        None => None,
    }
}

/// An optional text, or a default where it is absent.
pub open spec fn spec_or_default(o: Option<String>, d: Seq<char>) -> Seq<char> {
    if o is Some {
        o->0@
    } else {
        d
    }
}

/// Resolves an optional text against a default.
pub fn string_or_default(o: &Option<String>, d: &str) -> (r: String)
    ensures
        r@ == spec_or_default(*o, d@),
{
    match o {
        Some(s) => s.clone(),
        None => d.to_owned(),
    }
}

/// Where an analyzed clip's alert is sent: the critical entry point of the
/// escalation engine, or its standard one.
#[derive(Clone, Debug)]
pub enum AlertRoute {
    Critical(AlertPayload),
    Standard(AlertPayload),
}

impl AlertRoute {
    /// The payload carried on either route.
    pub open spec fn payload(self) -> AlertPayload {
        match self {
            AlertRoute::Critical(p) => p,
            AlertRoute::Standard(p) => p,
        }
    }
}

/// The fields of a standard (unusual-behavior) alert payload built for a
/// clip: everything is fixed by the inputs except the freshly drawn alert
/// id, of which only the length is known.
pub open spec fn spec_standard_payload(
    p: AlertPayload,
    video_id: Seq<char>,
    pet_id: int,
    description: Seq<char>,
    mood: Option<String>,
    level: Seq<char>,
    now: int,
) -> bool {
    &&& p.alert_id@.len() == 36
    &&& p.pet_id@ == spec_decimal_i64(pet_id)
    &&& p.alert_type == AlertType::UnusualBehavior
    &&& p.severity@ == spec_mapped_severity(level)
    &&& p.message is Some && p.message->0@ == description
    &&& p.video_id is Some && p.video_id->0@ == video_id
    &&& p.timestamp is Some && p.timestamp->0@ == spec_utc_timestamp_text(now)
    &&& p.context is Some
    &&& p.context->0.mood == mood
    &&& p.context->0.description is Some && p.context->0.description->0@ == description
    &&& p.context->0.severity_level is Some && p.context->0.severity_level->0@ == level
    &&& p.context->0.critical_indicators is None
    &&& p.context->0.recommended_actions is None
    &&& p.title is Some && p.title->0@ == "Unusual Behavior Detected"@
    &&& p.state is Some && p.state->0@ == "alerting"@
    &&& p.severity_level is Some && p.severity_level->0@ == level
    &&& p.critical_indicators is None
    &&& p.recommended_actions is None
}

/// The fields of a critical alert payload built for a clip: severity and
/// level are pinned to "critical" and the indicator and action lists are
/// carried both at top level and in the context.
pub open spec fn spec_critical_payload(
    p: AlertPayload,
    video_id: Seq<char>,
    pet_id: int,
    description: Seq<char>,
    mood: Option<String>,
    indicators: Seq<String>,
    actions: Seq<String>,
    now: int,
) -> bool {
    &&& p.alert_id@.len() == 36
    &&& p.pet_id@ == spec_decimal_i64(pet_id)
    &&& p.alert_type == AlertType::UnusualBehavior
    &&& p.severity@ == "critical"@
    &&& p.message is Some && p.message->0@ == description
    &&& p.video_id is Some && p.video_id->0@ == video_id
    &&& p.timestamp is Some && p.timestamp->0@ == spec_utc_timestamp_text(now)
    &&& p.context is Some
    &&& p.context->0.mood == mood
    &&& p.context->0.description is Some && p.context->0.description->0@ == description
    &&& p.context->0.severity_level is Some && p.context->0.severity_level->0@ == "critical"@
    &&& p.context->0.critical_indicators is Some && p.context->0.critical_indicators->0@
        == indicators
    &&& p.context->0.recommended_actions is Some && p.context->0.recommended_actions->0@ == actions
    &&& p.title is Some && p.title->0@ == "\u{1F6A8} CRITICAL ALERT: Immediate Attention Required"@
    &&& p.state is Some && p.state->0@ == "critical"@
    &&& p.severity_level is Some && p.severity_level->0@ == "critical"@
    &&& p.critical_indicators is Some && p.critical_indicators->0@ == indicators
    &&& p.recommended_actions is Some && p.recommended_actions->0@ == actions
}

/// Builds the standard alert payload for an unusual clip, up-shifting the
/// analysis severity level into the legacy severity string.
pub fn build_alert_payload(
    video_id: &String,
    pet_id: i32,
    description: &String,
    mood: &Option<String>,
    severity_level: &String,
    now: i64,
) -> (p: AlertPayload)
    requires
        0 <= now < MAX_TIMESTAMP,
    ensures
        spec_standard_payload(
            p,
            video_id@,
            pet_id as int,
            description@,
            *mood,
            severity_level@,
            now as int,
        ),
{
    AlertPayload {
        alert_id: fresh_uuid(),
        pet_id: i32_to_string(pet_id),
        alert_type: AlertType::UnusualBehavior,
        severity: map_severity(severity_level.as_str()),
        message: Some(description.clone()),
        video_id: Some(video_id.clone()),
        timestamp: Some(format_utc_timestamp(now)),
        context: Some(
            AlertContext {
                mood: clone_opt_string(mood),
                description: Some(description.clone()),
                severity_level: Some(severity_level.clone()),
                critical_indicators: None,
                recommended_actions: None,
            },
        ),
        title: Some("Unusual Behavior Detected".to_owned()),
        state: Some("alerting".to_owned()),
        severity_level: Some(severity_level.clone()),
        critical_indicators: None,
        recommended_actions: None,
    }
}

/// Builds the critical alert payload for a clip whose analysis reported
/// critical severity.
pub fn build_critical_alert_payload(
    video_id: &String,
    pet_id: i32,
    description: &String,
    mood: &Option<String>,
    critical_indicators: &Vec<String>,
    recommended_actions: &Vec<String>,
    now: i64,
) -> (p: AlertPayload)
    requires
        0 <= now < MAX_TIMESTAMP,
    ensures
        spec_critical_payload(
            p,
            video_id@,
            pet_id as int,
            description@,
            *mood,
            critical_indicators@,
            recommended_actions@,
            now as int,
        ),
{
    let indicators = crate::alert::clone_strings(critical_indicators);
    let actions = crate::alert::clone_strings(recommended_actions);
    let context_indicators = crate::alert::clone_strings(critical_indicators);
    let context_actions = crate::alert::clone_strings(recommended_actions);
    AlertPayload {
        alert_id: fresh_uuid(),
        pet_id: i32_to_string(pet_id),
        alert_type: AlertType::UnusualBehavior,
        severity: "critical".to_owned(),
        message: Some(description.clone()),
        video_id: Some(video_id.clone()),
        timestamp: Some(format_utc_timestamp(now)),
        context: Some(
            AlertContext {
                mood: clone_opt_string(mood),
                description: Some(description.clone()),
                severity_level: Some("critical".to_owned()),
                critical_indicators: Some(context_indicators),
                recommended_actions: Some(context_actions),
            },
        ),
        title: Some("\u{1F6A8} CRITICAL ALERT: Immediate Attention Required".to_owned()),
        state: Some("critical".to_owned()),
        severity_level: Some("critical".to_owned()),
        critical_indicators: Some(indicators),
        recommended_actions: Some(actions),
    }
}

/// The alert-routing policy for a successfully analyzed clip: a critical
/// severity level routes to the critical entry point; otherwise a clip
/// flagged unusual routes to the standard entry point; otherwise no alert
/// is raised.
pub fn route_alert(job: &VideoJob, data: &AnalysisData, now: i64) -> (r: Option<AlertRoute>)
    requires
        0 <= now < MAX_TIMESTAMP,
    ensures
        r is Some <==> (data.spec_severity_level() == "critical"@ || data.is_unusual),
        data.spec_severity_level() == "critical"@ ==> r is Some && r->0 is Critical
            && spec_critical_payload(
            r->0.payload(),
            job.id@,
            job.pet_id as int,
            spec_or_default(data.summary_description, "Critical health condition detected"@),
            data.summary_mood,
            data.critical_indicators@,
            data.recommended_actions@,
            now as int,
        ),
        (data.spec_severity_level() != "critical"@ && data.is_unusual) ==> r is Some
            && r->0 is Standard && spec_standard_payload(
            r->0.payload(),
            job.id@,
            job.pet_id as int,
            spec_or_default(data.summary_description, "Unusual activity detected"@),
            data.summary_mood,
            data.spec_severity_level(),
            now as int,
        ),
{
    let level = data.severity_level_or_default();
    if crate::text::str_eq(level.as_str(), "critical") {
        let description = string_or_default(
            &data.summary_description,
            "Critical health condition detected",
        );
        let p = build_critical_alert_payload(
            &job.id,
            job.pet_id,
            &description,
            &data.summary_mood,
            &data.critical_indicators,
            &data.recommended_actions,
            now,
        );
        Some(AlertRoute::Critical(p))
    } else if data.is_unusual {
        let description = string_or_default(&data.summary_description, "Unusual activity detected");
        let p = build_alert_payload(
            &job.id,
            job.pet_id,
            &description,
            &data.summary_mood,
            &level,
            now,
        );
        Some(AlertRoute::Standard(p))
    } else {
        None
    }
}

/// The `gs://bucket/key` text of an object location.
pub open spec fn spec_gs_uri(bucket: Seq<char>, object: Seq<char>) -> Seq<char> {
    "gs://"@ + bucket + seq!['/'] + object
}

/// Builds the storage path under which an uploaded clip is recorded.
pub fn gs_uri(bucket: &str, object: &str) -> (r: String)
    ensures
        r@ == spec_gs_uri(bucket@, object@),
{
    let mut s = "gs://".to_owned();
    s.append(bucket);
    s.append("/");
    s.append(object);
    proof {
        reveal_strlit("/");
        assert(s@ =~= spec_gs_uri(bucket@, object@));
    }
    s
}

/// The object key an upload is stored under: the pet's upload folder, the
/// fresh clip id, and the file extension.
pub open spec fn spec_upload_object_name(pet_id: int, clip_id: Seq<char>, ext: Seq<char>) -> Seq<
    char,
> {
    "uploads/"@ + spec_decimal_i64(pet_id) + seq!['/'] + clip_id + seq!['.'] + ext
}

/// Builds the object key an uploaded clip is stored under.
pub fn upload_object_name(pet_id: i32, clip_id: &str, ext: &str) -> (r: String)
    ensures
        r@ == spec_upload_object_name(pet_id as int, clip_id@, ext@),
{
    let mut s = "uploads/".to_owned();
    let pet_text = i32_to_string(pet_id);
    s.append(pet_text.as_str());
    s.append("/");
    s.append(clip_id);
    s.append(".");
    s.append(ext);
    proof {
        reveal_strlit("/");
        reveal_strlit(".");
        assert(s@ =~= spec_upload_object_name(pet_id as int, clip_id@, ext@));
    }
    s
}

/// Storage paths round-trip: resolving the path built for a bucket and an
/// object key recovers both, for any bucket that holds no slash and is not
/// the bare scheme fragment "gs:".
pub proof fn lemma_object_uri_round_trip(bucket: Seq<char>, object: Seq<char>)
    requires
        !bucket.contains('/'),
        bucket != "gs:"@,
    ensures
        ({
            let stripped = spec_strip_scheme(spec_gs_uri(bucket, object));
            &&& spec_find_char(stripped, '/') == Some(bucket.len() as int)
            &&& stripped.subrange(0, bucket.len() as int) == bucket
            &&& stripped.subrange(bucket.len() as int + 1, stripped.len() as int) == object
        }),
{
    reveal_strlit("gs://");
    reveal_strlit("gs:");
    let uri = spec_gs_uri(bucket, object);
    let rest = bucket + seq!['/'] + object;
    assert(uri.subrange(0, 5) =~= "gs://"@);
    assert(uri.subrange(5, uri.len() as int) =~= rest);
    assert("gs://"@.len() == 5);
    assert("gs:"@.len() == 3);
    if rest.len() >= 5 {
        assert(rest.subrange(0, 5) != "gs://"@) by {
            if rest.subrange(0, 5) == "gs://"@ {
                assert(rest[3] == "gs://"@[3]);
                assert("gs://"@[3] == '/');
                if bucket.len() >= 4 {
                    assert(rest[3] == bucket[3]);
                    assert(bucket.contains('/'));
                } else if bucket.len() == 3 {
                    assert(bucket =~= "gs:"@) by {
                        assert(bucket[0] == rest[0] == "gs://"@[0] == "gs:"@[0]);
                        assert(bucket[1] == rest[1] == "gs://"@[1] == "gs:"@[1]);
                        assert(bucket[2] == rest[2] == "gs://"@[2] == "gs:"@[2]);
                    }
                } else {
                    assert(rest[bucket.len() as int] == '/');
                    assert("gs://"@[0] == 'g' && "gs://"@[1] == 's' && "gs://"@[2] == ':');
                }
            }
        }
    }
    assert(spec_strip_scheme(rest) == rest);
    assert(spec_strip_scheme(uri) == rest);
    let bl = bucket.len() as int;
    assert(rest[bl] == '/');
    assert(forall|j: int| 0 <= j < bl ==> rest[j] == bucket[j] && #[trigger] rest[j] != '/');
    assert(spec_find_char(rest, '/') is Some);
    let w = choose|i: int|
        0 <= i < rest.len() && rest[i] == '/' && forall|j: int| 0 <= j < i ==> rest[j] != '/';
    assert(!(w < bl) && !(bl < w));
    assert(rest.subrange(0, bl) =~= bucket);
    assert(rest.subrange(bl + 1, rest.len() as int) =~= object);
}

/// How many times the analysis client polls an uploaded file's state
/// before giving up: a hard ceiling, so a stuck upload fails the job
/// rather than blocking a worker forever.
pub const MAX_ANALYSIS_POLLS: u64 = 60;

/// What one poll of an uploaded file's processing state decides.
#[derive(Clone, Copy, Debug, PartialEq, Eq, Structural)]
pub enum PollDecision {
    /// The file is ready: request the analysis.
    Ready,
    /// The service reports the file failed: fail the analysis.
    FailedUpstream,
    /// Still processing: wait the fixed interval and poll again.
    Wait,
    /// The retry ceiling is reached: fail the analysis rather than block.
    TimedOut,
}

/// The poll decision for a reported state text at the zero-based
/// `poll_index`-th check: "ACTIVE" is ready, "FAILED" is failed, and any
/// other state waits until the ceiling is reached.
pub open spec fn spec_poll_decision(state: Seq<char>, poll_index: nat) -> PollDecision {
    if state == "ACTIVE"@ {
        PollDecision::Ready
    } else if state == "FAILED"@ {
        PollDecision::FailedUpstream
    } else if poll_index + 1 < MAX_ANALYSIS_POLLS {
        PollDecision::Wait
    } else {
        PollDecision::TimedOut
    }
}

/// Decides what the analysis client's poll loop does after its
/// `poll_index`-th check reported this state.
pub fn poll_decision(state: &str, poll_index: u64) -> (r: PollDecision)
    ensures
        r == spec_poll_decision(state@, poll_index as nat),
{
    if crate::text::str_eq(state, "ACTIVE") {
        PollDecision::Ready
    } else if crate::text::str_eq(state, "FAILED") {
        PollDecision::FailedUpstream
    } else if poll_index < MAX_ANALYSIS_POLLS - 1 {
        PollDecision::Wait
    } else {
        PollDecision::TimedOut
    }
}

/// What the analysis service produced for a clip: a structured result, or
/// an error message.
#[derive(Clone, Debug)]
pub enum AnalysisOutcome {
    Success(AnalysisData),
    Failure(String),
}

/// What one worker step did with a job after the analysis came back.
#[derive(Clone, Debug)]
pub enum WorkerStep {
    /// The job is PROCESSED: enqueue this digest job, and deliver the alert
    /// route if one was warranted.
    Completed(DigestJob, Option<AlertRoute>),
    /// The job is RETRYING: push its descriptor back onto the video queue.
    Requeued,
    /// The job is FAILED terminally: nothing further happens to it.
    FailedTerminally,
}

/// Applies an analysis outcome to a job, as one worker does after the
/// analysis call returns. Success persists the analysis, hands off a digest
/// job for the clip's creation date, and routes an alert if warranted.
/// Failure retries up to twice, then fails the job terminally.
pub fn apply_analysis_outcome(job: &mut VideoJob, outcome: AnalysisOutcome, now: i64) -> (r:
    WorkerStep)
    requires
        old(job).wf(),
        0 <= old(job).created_at < MAX_TIMESTAMP,
        0 <= now < MAX_TIMESTAMP,
    ensures
        final(job).wf(),
        outcome matches AnalysisOutcome::Success(data) ==> {
            &&& *final(job) == (VideoJob {
                status: VideoStatus::Processed,
                activities: final(job).activities,
                mood: data.summary_mood,
                description: data.summary_description,
                is_unusual: data.is_unusual,
                updated_at: now,
                ..*old(job)
            })
            &&& final(job).activities@ == data.activities@
            &&& r matches WorkerStep::Completed(digest, route) && {
                &&& digest.pet_id == old(job).pet_id
                &&& (digest.date.year as int, digest.date.month as int, digest.date.day as int)
                    == spec_utc_date_of(old(job).created_at as int)
                &&& (route is Some <==> (data.spec_severity_level() == "critical"@
                    || data.is_unusual))
                &&& data.spec_severity_level() == "critical"@ ==> route is Some
                    && route->0 is Critical && spec_critical_payload(
                    route->0.payload(),
                    old(job).id@,
                    old(job).pet_id as int,
                    spec_or_default(
                        data.summary_description,
                        "Critical health condition detected"@,
                    ),
                    data.summary_mood,
                    data.critical_indicators@,
                    data.recommended_actions@,
                    now as int,
                )
                &&& (data.spec_severity_level() != "critical"@ && data.is_unusual) ==> route is Some
                    && route->0 is Standard && spec_standard_payload(
                    route->0.payload(),
                    old(job).id@,
                    old(job).pet_id as int,
                    spec_or_default(data.summary_description, "Unusual activity detected"@),
                    data.summary_mood,
                    data.spec_severity_level(),
                    now as int,
                )
            }
        },
        outcome is Failure ==> *final(job) == spec_failure_step(*old(job), now as int),
        (outcome is Failure && old(job).retry_count < 2) ==> r is Requeued && final(job).status
            == VideoStatus::Retrying && final(job).retry_count == old(job).retry_count + 1,
        (outcome is Failure && old(job).retry_count >= 2) ==> r is FailedTerminally
            && final(job).status == VideoStatus::Failed && final(job).retry_count == old(
            job,
        ).retry_count,
{
    match outcome {
        AnalysisOutcome::Success(data) => {
            job.apply_analysis_success(&data, now);
            let digest = digest_job_for(job);
            let route = route_alert(job, &data, now);
            WorkerStep::Completed(digest, route)
        },
        AnalysisOutcome::Failure(_) => {
            if job.apply_analysis_failure(now) {
                WorkerStep::Requeued
            } else {
                WorkerStep::FailedTerminally
            }
        },
    }
}

/// A digest-queue message: recompute the digest of this pet for this date.
#[derive(Clone, Copy, Debug, PartialEq, Eq, Structural)]
pub struct DigestJob {
    pub pet_id: i32,
    pub date: Date,
}

/// The digest job a freshly processed clip enqueues: the owning pet and the
/// UTC calendar date of the clip's creation.
pub fn digest_job_for(job: &VideoJob) -> (r: DigestJob)
    requires
        0 <= job.created_at < MAX_TIMESTAMP,
    ensures
        r.pet_id == job.pet_id,
        (r.date.year as int, r.date.month as int, r.date.day as int) == spec_utc_date_of(
            job.created_at as int,
        ),
        r.date.wf(),
{
    DigestJob { pet_id: job.pet_id, date: utc_date_of_timestamp(job.created_at) }
}

} // verus!
