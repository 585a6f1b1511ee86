use vstd::prelude::*;

verus! {

/// Lifecycle phase of one plugin instance's processor.  The processor is
/// built lazily, on the first frame request after the configuration
/// parameters are known, and exactly once: a failed build is never retried.
#[derive(Debug, Clone, Copy, PartialEq, Eq, Structural)]
pub enum PluginPhase {
    /// No build was attempted yet.
    Unbuilt,
    /// The build was attempted and failed; the instance stays broken.
    Failed,
    /// A processor exists and takes frames.
    Built,
}

/// What one frame request must do next, given the plugin's phase and
/// whether its path parameters decoded to usable text.
#[derive(Debug, Clone, Copy, PartialEq, Eq, Structural)]
pub enum PluginStep {
    /// First usable call: build the processor now, then record the outcome.
    Build,
    /// A path parameter is undecodable: record the failure; no processor
    /// will ever exist for this instance.
    Reject,
    /// A processor exists: hand it the frame.
    Render,
    /// An earlier failure: do nothing, fail fast.
    Skip,
}

/// The decision at the head of every frame request.
pub open spec fn step_spec(phase: PluginPhase, html_path_ok: bool, json_path_ok: bool) -> PluginStep {
    match phase {
        PluginPhase::Unbuilt => if html_path_ok && json_path_ok {
            PluginStep::Build
        } else {
            PluginStep::Reject
        },
        PluginPhase::Failed => PluginStep::Skip,
        PluginPhase::Built => PluginStep::Render,
    }
}

/// Decision core of one plugin instance: the once-only lazy construction
/// and the fail-fast behaviour of a broken instance, checked here; the
/// unverified shell performs the build and the rendering it is told to.
pub struct PluginCore {
    pub phase: PluginPhase,
}

impl PluginCore {
    pub fn new() -> (p: PluginCore)
        ensures
            p.phase == PluginPhase::Unbuilt,
    {
        PluginCore { phase: PluginPhase::Unbuilt }
    }

    /// Decide what this frame request does, from the phase and from whether
    /// the configured paths decoded to usable text.
    pub fn step(&self, html_path_ok: bool, json_path_ok: bool) -> (s: PluginStep)
        ensures
            s == step_spec(self.phase, html_path_ok, json_path_ok),
    {
        match self.phase {
            PluginPhase::Unbuilt => if html_path_ok && json_path_ok {
                PluginStep::Build
            } else {
                PluginStep::Reject
            },
            PluginPhase::Failed => PluginStep::Skip,
            PluginPhase::Built => PluginStep::Render,
        }
    }

    /// Record the one build attempt's outcome (or a rejection, which counts
    /// as a failed build).
    pub fn record_build(&mut self, ok: bool)
        requires
            old(self).phase == PluginPhase::Unbuilt,
        ensures
            final(self).phase == if ok {
                PluginPhase::Built
            } else {
                PluginPhase::Failed
            },
    {
        self.phase = if ok {
            PluginPhase::Built
        } else {
            PluginPhase::Failed
        };
    }
}

/// A failed instance stays failed: once the phase is `Failed`, every later
/// frame request decides `Skip`, whatever the parameters now look like —
/// the build is never retried.
pub proof fn lemma_failed_instance_skips(html_path_ok: bool, json_path_ok: bool)
    ensures
        step_spec(PluginPhase::Failed, html_path_ok, json_path_ok) == PluginStep::Skip,
{
}

} // verus!
