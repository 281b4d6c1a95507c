//! The Perfetto layer as the async runtime uses it.
use vstd::prelude::*;

verus! {

/// The state of the runtime's tracing layer.
#[derive(Debug, Clone, Copy, PartialEq, Eq)]
pub enum TraceEnable {
    /// The layer has not been installed yet.
    Initialize,
    /// The layer is installed and recording.
    Running,
    /// The layer is installed and not recording.
    Suspended,
}

/// Builds the runtime's tracing layer, which writes to `file_name`.
pub struct TokioPerfettoLayerBuilder {
    file_name: Option<String>,
}

impl TokioPerfettoLayerBuilder {
    /// The file the layer writes to, if one was given.
    pub closed spec fn spec_file_name(&self) -> Option<Seq<char>> {
        match self.file_name {
            Some(f) => Some(f@),
            None => None,
        }
    }

    pub fn new() -> (res: Self)
        ensures
            res.spec_file_name() is None,
    {
        Self { file_name: None }
    }

    pub fn file_name(self, file_name: &str) -> (res: Self)
        ensures
            res.spec_file_name() == Some(file_name@),
    {
        let mut this = self;
        this.file_name = Some(file_name.to_owned());
        this
    }

    /// The file the layer writes to: the one given, or `./trace.pftrace`.
    pub fn output_file(&self) -> (res: String)
        ensures
            res@ == match self.spec_file_name() {
                Some(f) => f,
                None => "./trace.pftrace"@,
            },
    {
        match &self.file_name {
            Some(f) => f.clone(),
            None => "./trace.pftrace".to_owned(),
        }
    }
}

/// The file that the layer installed by the first start writes to.
pub open spec fn started_layer_file() -> Seq<char> {
    "./test.pftrace"@
}

/// The state after a start from `state`, and whether that start must build
/// and install the layer.
pub open spec fn start_outcome(state: TraceEnable) -> (TraceEnable, bool) {
    (TraceEnable::Running, state == TraceEnable::Initialize)
}

/// Starts and stops the runtime's tracing layer.
#[derive(Debug)]
pub struct TokioPerfettoLayerHandle {}

impl TokioPerfettoLayerHandle {
    /// Start recording. The first time (the layer is not installed yet),
    /// returns the builder of the layer to build and install as the global
    /// subscriber's: it writes to `./test.pftrace`. Later starts return
    /// nothing and only resume recording.
    pub fn start(&self, state: &mut TraceEnable) -> (install: Option<TokioPerfettoLayerBuilder>)
        ensures
            *final(state) == start_outcome(*old(state)).0,
            install is Some == start_outcome(*old(state)).1,
            install matches Some(b) ==> b.spec_file_name() == Some(started_layer_file()),
    {
        match *state {
            TraceEnable::Initialize => {
                let builder = TokioPerfettoLayerBuilder::new().file_name("./test.pftrace");
                *state = TraceEnable::Running;
                Some(builder)
            },
            TraceEnable::Running => {
                // already enabled
                None
            },
            TraceEnable::Suspended => {
                *state = TraceEnable::Running;
                None
            },
        }
    }

    /// Stop recording.
    pub fn stop(&self, state: &mut TraceEnable)
        ensures
            *final(state) == TraceEnable::Suspended,
    {
        *state = TraceEnable::Suspended;
    }
}

/// Whatever the state, after a start the layer is running: a running layer
/// stays running and a suspended one resumes; only a start from the initial
/// state installs the layer.
pub proof fn law_start_leaves_running(state: TraceEnable)
    ensures
        start_outcome(state).0 == TraceEnable::Running,
        start_outcome(state).1 <==> state == TraceEnable::Initialize,
{
}

/// The layer is installed at most once: a start that follows a start (see
/// [`TokioPerfettoLayerHandle::start`]) does not install it again, whatever
/// the state was before the first.
pub proof fn law_layer_installed_once(state: TraceEnable)
    ensures
        !start_outcome(start_outcome(state).0).1,
{
}

} // verus!
