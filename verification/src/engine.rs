//! The transcription engine's lifecycle: loaded once, then read-only for the
//! process lifetime.
//!
//! The model loader and the inference call belong to the host (they read
//! disk and compute on the acoustic model); this module owns every decision
//! around them. Initialization is idempotent: asking to initialize an
//! already-loaded engine is a success no-op, and the loader is not invoked
//! again. Using the engine before initialization is a reported error, never
//! a crash.

use vstd::prelude::*;
use crate::errors::PipelineError;

verus! {

/// What one `initialize(model_path)` request must do next.
#[derive(Clone, Copy, Debug, PartialEq, Eq, Structural)]
pub enum InitStep {
    /// The engine already holds a model: succeed without reloading.
    AlreadyLoaded,
    /// The model path does not exist: report the error; nothing changes.
    MissingModel,
    /// Load the model from the path, then record the outcome.
    LoadModel,
}

/// The decision an initialization request comes to, from whether a model is
/// already loaded and whether the model path exists.
pub open spec fn spec_init_step(loaded: bool, model_path_exists: bool) -> InitStep {
    if loaded {
        InitStep::AlreadyLoaded
    } else if model_path_exists {
        InitStep::LoadModel
    } else {
        InitStep::MissingModel
    }
}

/// The explicitly owned handle guarding the engine's loaded-or-not state.
/// Its view is that single bit.
pub struct EngineHandle {
    loaded: bool,
}

impl View for EngineHandle {
    type V = bool;

    closed spec fn view(&self) -> bool {
        self.loaded
    }
}

impl EngineHandle {
    /// A handle with no model loaded yet.
    pub fn new() -> (e: EngineHandle)
        ensures
            !e@,
    {
        EngineHandle { loaded: false }
    }

    /// Whether a model is loaded.
    pub fn is_loaded(&self) -> (b: bool)
        ensures
            b == self@,
    {
        self.loaded
    }

    /// Decides how an `initialize(model_path)` request proceeds, given
    /// whether the model path exists on the host. On an already-loaded
    /// engine the decision is `AlreadyLoaded`: success, loader not invoked.
    pub fn begin_initialize(&self, model_path_exists: bool) -> (step: InitStep)
        ensures
            step == spec_init_step(self@, model_path_exists),
    {
        if self.loaded {
            InitStep::AlreadyLoaded
        } else if model_path_exists {
            InitStep::LoadModel
        } else {
            InitStep::MissingModel
        }
    }

    /// Records the outcome of a host load: success marks the engine loaded,
    /// for good; failure leaves it as it was.
    pub fn complete_load(&mut self, load_succeeded: bool)
        ensures
            final(self)@ == (old(self)@ || load_succeeded),
    {
        if load_succeeded {
            self.loaded = true;
        }
    }

    /// The check every transcription starts with: an engine without a model
    /// reports `EngineNotInitialized`, and only then.
    pub fn check_ready(&self) -> (r: Result<(), PipelineError>)
        ensures
            self@ ==> r is Ok,
            !self@ ==> (r matches Err(e) && e == PipelineError::EngineNotInitialized),
    {
        if self.loaded {
            Ok(())
        } else {
            Err(PipelineError::EngineNotInitialized)
        }
    }
}

/// Re-initializing an already-loaded engine is a success no-op, whatever the
/// path: the decision is `AlreadyLoaded`, so the loader runs at most once
/// across any number of initialize requests.
pub proof fn lemma_reinitialize_is_noop(loaded: bool, model_path_exists: bool)
    requires
        loaded,
    ensures
        spec_init_step(loaded, model_path_exists) == InitStep::AlreadyLoaded,
{
}

} // verus!
