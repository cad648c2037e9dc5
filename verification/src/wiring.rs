//! Dynamic-output discovery and wiring.
//!
//! The demultiplexer creates an output connection the first time it sees
//! each contained stream type, at an arbitrary time after data starts to
//! flow, and announces it by name. The controller classifies the name —
//! one containing `video` is the elementary video stream, one containing
//! `private` is the out-of-band metadata stream — and decides how to wire
//! it: the video output goes straight to the decode chain, the metadata
//! output gets a buffering stage before its consumer, and anything else is
//! left unconnected with a warning. A late announcement must check, through
//! a non-owning back-reference, that the pipeline still exists, and do
//! nothing if it is gone.

use crate::error::PipelineError;
use vstd::prelude::*;
use vstd::string::StringExecFns;

verus! {

/// Whether `h` contains `n` as a contiguous run.
pub open spec fn contains_seq(h: Seq<char>, n: Seq<char>) -> bool {
    exists|i: int| 0 <= i && i + n.len() <= h.len() && #[trigger] h.subrange(i, i + n.len()) == n
}

/// Whether `needle` occurs at position `i` of `hay`.
fn match_at(hay: &str, needle: &str, i: usize, hay_len: usize, needle_len: usize) -> (r: bool)
    requires
        hay_len == hay@.len(),
        needle_len == needle@.len(),
        i + needle_len <= hay_len,
    ensures
        r == (hay@.subrange(i as int, i + needle@.len()) == needle@),
{
    let mut j: usize = 0;
    while j < needle_len
        invariant
            hay_len == hay@.len(),
            needle_len == needle@.len(),
            i + needle_len <= hay_len,
            j <= needle_len,
            forall|k: int| 0 <= k < j ==> hay@[i + k] == needle@[k],
        decreases needle_len - j,
    {
        if hay.get_char(i + j) != needle.get_char(j) {
            proof {
                assert(hay@.subrange(i as int, i + needle@.len())[j as int] != needle@[j as int]);
            }
            return false;
        }
        j = j + 1;
    }
    proof {
        assert(hay@.subrange(i as int, i + needle@.len()) =~= needle@);
    }
    true
}

/// Whether `needle` occurs anywhere in `hay`.
pub fn str_contains(hay: &str, needle: &str) -> (r: bool)
    ensures
        r == contains_seq(hay@, needle@),
{
    let hay_len = hay.unicode_len();
    let needle_len = needle.unicode_len();
    if needle_len > hay_len {
        proof {
            assert(!contains_seq(hay@, needle@));
        }
        return false;
    }
    if needle_len == 0 {
        proof {
            assert(hay@.subrange(0, 0 + needle@.len() as int) =~= needle@);
        }
        return true;
    }
    let mut i: usize = 0;
    while i <= hay_len - needle_len
        invariant
            hay_len == hay@.len(),
            needle_len == needle@.len(),
            0 < needle_len <= hay_len,
            i <= hay_len - needle_len + 1,
            forall|p: int|
                0 <= p < i ==> #[trigger] hay@.subrange(p, p + needle@.len()) != needle@,
        decreases hay_len - i,
    {
        if match_at(hay, needle, i, hay_len, needle_len) {
            return true;
        }
        i = i + 1;
    }
    false
}

/// How a newly announced demultiplexer output is classified.
#[derive(Clone, Copy, PartialEq, Eq, Structural, Debug)]
pub enum OutputClass {
    Video,
    Metadata,
    Unsupported,
}

/// The classification rule: a name containing `video` denotes the video
/// stream; one containing `private` denotes the metadata stream; any other
/// name is unsupported.
pub open spec fn classify_spec(name: Seq<char>) -> OutputClass {
    if contains_seq(name, "video"@) {
        OutputClass::Video
    } else if contains_seq(name, "private"@) {
        OutputClass::Metadata
    } else {
        OutputClass::Unsupported
    }
}

/// Classifies a demultiplexer output by its announced name.
pub fn classify_output(name: &str) -> (c: OutputClass)
    ensures
        c == classify_spec(name@),
{
    if str_contains(name, "video") {
        OutputClass::Video
    } else if str_contains(name, "private") {
        OutputClass::Metadata
    } else {
        OutputClass::Unsupported
    }
}

/// What the controller does with one announced output.
#[derive(Clone, Copy, PartialEq, Eq, Structural, Debug)]
pub enum WiringAction {
    /// Link the video output directly to the decode/display chain.
    ConnectVideo,
    /// Insert a buffering stage, then link the metadata output to the
    /// consumer that feeds the latest-value store.
    ConnectMetadataBuffered,
    /// Unrecognized classification: warn and leave the output unconnected.
    IgnoreUnsupported,
    /// This classification was already wired in this session; leave the
    /// existing connection untouched.
    DuplicateOutput,
    /// The owning pipeline was torn down before the announcement arrived:
    /// do nothing, silently.
    PipelineGone,
}

/// Which classifications have been wired in this container session.
#[derive(Clone, Copy, PartialEq, Eq, Structural, Debug)]
pub struct WiringState {
    pub video_wired: bool,
    pub metadata_wired: bool,
}

/// The wiring decision for one announced output: what the next state is
/// and which action the runtime must perform. Only the metadata branch
/// consults the pipeline back-reference, since only it has to add new
/// elements to the already-running pipeline.
pub open spec fn wiring_step(s: WiringState, c: OutputClass, pipeline_alive: bool) -> (
    WiringState,
    WiringAction,
) {
    match c {
        OutputClass::Video => {
            if s.video_wired {
                (s, WiringAction::DuplicateOutput)
            } else {
                (
                    WiringState { video_wired: true, metadata_wired: s.metadata_wired },
                    WiringAction::ConnectVideo,
                )
            }
        },
        OutputClass::Metadata => {
            if !pipeline_alive {
                (s, WiringAction::PipelineGone)
            } else if s.metadata_wired {
                (s, WiringAction::DuplicateOutput)
            } else {
                (
                    WiringState { video_wired: s.video_wired, metadata_wired: true },
                    WiringAction::ConnectMetadataBuffered,
                )
            }
        },
        OutputClass::Unsupported => (s, WiringAction::IgnoreUnsupported),
    }
}

impl WiringState {
    /// A fresh session: no output announced or wired yet.
    pub fn new() -> (r: WiringState)
        ensures
            !r.video_wired,
            !r.metadata_wired,
    {
        WiringState { video_wired: false, metadata_wired: false }
    }

    /// Reacts to the announcement of a newly created demultiplexer output:
    /// classifies its name, updates the session state, and returns the
    /// action the runtime must perform, exactly as `wiring_step` decides.
    pub fn on_output_added(&mut self, name: &str, pipeline_alive: bool) -> (a: WiringAction)
        ensures
            (*final(self), a) == wiring_step(*old(self), classify_spec(name@), pipeline_alive),
    {
        match classify_output(name) {
            OutputClass::Video => {
                if self.video_wired {
                    WiringAction::DuplicateOutput
                } else {
                    self.video_wired = true;
                    WiringAction::ConnectVideo
                }
            },
            OutputClass::Metadata => {
                if !pipeline_alive {
                    WiringAction::PipelineGone
                } else if self.metadata_wired {
                    WiringAction::DuplicateOutput
                } else {
                    self.metadata_wired = true;
                    WiringAction::ConnectMetadataBuffered
                }
            },
            OutputClass::Unsupported => WiringAction::IgnoreUnsupported,
        }
    }
}

/// The diagnostic for one wiring decision: an unrecognized output yields
/// the non-fatal unsupported-stream-type warning, naming the output; every
/// other action warrants none.
pub fn wiring_warning(name: &str, action: WiringAction) -> (r: Option<PipelineError>)
    ensures
        r is Some <==> action == WiringAction::IgnoreUnsupported,
        (match r {
            Some(e) => e matches PipelineError::UnsupportedStreamType { output_name } && output_name@
                == name@,
            None => true,
        }),
{
    match action {
        WiringAction::IgnoreUnsupported => Some(
            PipelineError::UnsupportedStreamType { output_name: String::from_str(name) },
        ),
        _ => None,
    }
}

/// Wiring never disconnects: once a classification is wired it stays wired,
/// whatever outputs are announced later — an already-flowing connection is
/// never disrupted by later wiring.
pub proof fn lemma_wiring_monotone(s: WiringState, c: OutputClass, pipeline_alive: bool)
    ensures
        s.video_wired ==> wiring_step(s, c, pipeline_alive).0.video_wired,
        s.metadata_wired ==> wiring_step(s, c, pipeline_alive).0.metadata_wired,
{
}

/// A session whose outputs are announced video-first then metadata wires
/// the video output to the decode chain first, then the metadata output
/// with its buffering stage; both end up active, and wiring the second
/// leaves the first untouched.
pub proof fn lemma_video_then_private_wiring(s0: WiringState)
    requires
        !s0.video_wired,
        !s0.metadata_wired,
    ensures
        ({
            let (s1, a1) = wiring_step(s0, OutputClass::Video, true);
            let (s2, a2) = wiring_step(s1, OutputClass::Metadata, true);
            a1 == WiringAction::ConnectVideo && s1.video_wired && a2
                == WiringAction::ConnectMetadataBuffered && s2.video_wired && s2.metadata_wired
        }),
{
}

} // verus!
