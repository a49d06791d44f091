//! Live transcription of several sources: what each one captures and how it reports.

use vstd::prelude::*;

use crate::listener::capture::discover::Devices;
use crate::listener::error::ListenerError;
use crate::listener::transcribe::stream::{mode_error, FeedResult, StreamMode, RESERVED_MODE};

verus! {

/// A source of a live session.
#[derive(Debug, Clone, Copy, PartialEq, Eq, Structural)]
pub enum StreamSource {
    /// The microphone.
    Mic,
    /// What the system plays.
    System,
}

/// One update of a live session.
#[derive(Debug)]
pub struct TranscriptUpdate {
    /// The source that it comes from.
    pub source: StreamSource,
    /// Newly committed text.
    pub committed: String,
    /// Text that is not confirmed yet.
    pub tentative: String,
}

/// What one source of a session captures, and under which names.
#[derive(Debug)]
pub struct SourcePlan {
    pub source: StreamSource,
    pub device: String,
    pub label: &'static str,
    pub capture_thread: String,
    pub worker_thread: String,
}

/// A session as it is to be run: one plan per source.
#[derive(Debug)]
pub struct StreamSession {
    pub plans: Vec<SourcePlan>,
    /// Inference threads for each source.
    pub n_threads: i32,
}

impl StreamSource {
    /// The stream label of the source.
    pub open spec fn label(self) -> Seq<char> {
        match self {
            StreamSource::Mic => "kitetsu-stream-mic"@,
            StreamSource::System => "kitetsu-stream-system"@,
        }
    }

    /// The device of the source.
    pub open spec fn device(self, devices: Devices) -> Seq<char> {
        match self {
            StreamSource::Mic => devices.mic_source@,
            StreamSource::System => devices.system_monitor@,
        }
    }
}

/// Whether `plan` is what `source` captures from `devices`.
pub open spec fn planned(plan: SourcePlan, source: StreamSource, devices: Devices) -> bool {
    &&& plan.source == source
    &&& plan.device@ == source.device(devices)
    &&& plan.label@ == source.label()
    &&& plan.capture_thread@ == "kitetsu-capture-"@ + source.label()
    &&& plan.worker_thread@ == "kitetsu-worker-"@ + source.label()
}

/// Inference threads for each of `sources` sources on `cores` cores: several sources
/// share the cores, at most 4 each; one alone takes up to 8.
pub open spec fn thread_share(sources: int, cores: int) -> int {
    if sources > 1 {
        let half = cores / 2;
        if half < 1 {
            1
        } else if half > 4 {
            4
        } else {
            half
        }
    } else if cores < 8 {
        cores
    } else {
        8
    }
}

fn plan_source(source: StreamSource, devices: &Devices) -> (plan: SourcePlan)
    ensures
        planned(plan, source, *devices),
{
    let (device, label): (String, &'static str) = match source {
        StreamSource::Mic => (devices.mic_source.clone(), "kitetsu-stream-mic"),
        StreamSource::System => (devices.system_monitor.clone(), "kitetsu-stream-system"),
    };
    let mut capture_thread = "kitetsu-capture-".to_owned();
    capture_thread.append(label);
    let mut worker_thread = "kitetsu-worker-".to_owned();
    worker_thread.append(label);
    SourcePlan { source, device, label, capture_thread, worker_thread }
}

impl StreamSession {
    /// Plan a live session.
    ///
    /// A mode that is not wired is refused before anything else; then what discovery
    /// came to decides.
    pub fn start(
        sources: &[StreamSource],
        mode: StreamMode,
        cores: i32,
        discovered: Result<Devices, ListenerError>,
    ) -> (session: Result<StreamSession, ListenerError>)
        requires
            cores >= 0,
        ensures
            mode is LocalAgreement ==> (session matches Err(ListenerError::NotImplemented(m)) && m@
                == RESERVED_MODE@),
            mode is VadGated ==> match discovered {
                Err(e) => session == Err::<StreamSession, ListenerError>(e),
                Ok(devices) => {
                    &&& session matches Ok(s)
                    &&& s.n_threads == thread_share(sources@.len() as int, cores as int)
                    &&& s.plans@.len() == sources@.len()
                    &&& forall|i: int|
                        0 <= i < sources@.len() ==> planned(
                            #[trigger] s.plans@[i],
                            sources@[i],
                            devices,
                        )
                },
            },
    {
        match mode_error(mode) {
            Some(e) => return Err(e),
            None => {},
        }
        let devices = match discovered {
            Ok(devices) => devices,
            Err(e) => return Err(e),
        };
        let n_threads: i32 = if sources.len() > 1 {
            let half: i32 = cores / 2;
            if half < 1 {
                1
            } else if half > 4 {
                4
            } else {
                half
            }
        } else if cores < 8 {
            cores
        } else {
            8
        };
        let mut plans: Vec<SourcePlan> = Vec::new();
        let mut i: usize = 0;
        while i < sources.len()
            invariant
                i <= sources@.len(),
                plans@.len() == i,
                forall|j: int|
                    0 <= j < i ==> planned(#[trigger] plans@[j], sources@[j], devices),
            decreases sources@.len() - i,
        {
            plans.push(plan_source(sources[i], &devices));
            i = i + 1;
        }
        Ok(StreamSession { plans, n_threads })
    }
}

/// What a worker reports of one block: an update exactly where text was committed.
pub fn update_of(source: StreamSource, result: FeedResult) -> (update: Option<TranscriptUpdate>)
    ensures
        match result.committed {
            Some(text) => {
                &&& update matches Some(u)
                &&& u.source == source
                &&& u.committed@ == text@
                &&& u.tentative@ == result.tentative@
            },
            None => update is None,
        },
{
    match result.committed {
        Some(committed) => Some(
            TranscriptUpdate { source, committed, tentative: result.tentative },
        ),
        None => None,
    }
}

/// However many sources run, each has at least one thread and none more than eight.
pub proof fn law_thread_share_is_bounded(sources: int, cores: int)
    requires
        cores >= 1,
    ensures
        1 <= thread_share(sources, cores) <= 8,
        sources > 1 ==> thread_share(sources, cores) <= 4,
{
}

/// How many threads a source gets. One of several gets as many as it can: never more than 4,
/// and no more than leave half of the cores free, but always one. One alone gets all
/// cores, up to 8.
pub proof fn law_thread_share_is_the_most(sources: int, cores: int)
    requires
        cores >= 0,
    ensures
        ({
            let share = thread_share(sources, cores);
            &&& sources > 1 ==> 1 <= share <= 4
            &&& sources > 1 && share > 1 ==> 2 * share <= cores
            &&& sources > 1 && share < 4 ==> 2 * (share + 1) > cores
            &&& sources <= 1 ==> share <= cores && share <= 8 && (share == cores || share == 8)
        }),
{
}

/// More cores never mean fewer threads, and sharing never means more.
pub proof fn law_thread_share_is_monotone(sources: int, fewer: int, more: int)
    requires
        0 <= fewer <= more,
    ensures
        thread_share(sources, fewer) <= thread_share(sources, more),
        fewer >= 1 ==> thread_share(sources, fewer) <= thread_share(1, fewer),
{
}

/// Each source captures its own device under its own names, which hold its label.
pub proof fn law_sources_have_their_own_plans(
    plan: SourcePlan,
    source: StreamSource,
    devices: Devices,
)
    requires
        planned(plan, source, devices),
    ensures
        plan.source == source,
        source is Mic ==> plan.device@ == devices.mic_source@ && plan.label@
            == "kitetsu-stream-mic"@,
        source is System ==> plan.device@ == devices.system_monitor@ && plan.label@
            == "kitetsu-stream-system"@,
        plan.capture_thread@ == "kitetsu-capture-"@ + plan.label@,
        plan.worker_thread@ == "kitetsu-worker-"@ + plan.label@,
{
}

} // verus!
