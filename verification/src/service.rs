use vstd::prelude::*;

use crate::config::PageConfig;
use crate::error::{ErrorKind, GenError};

verus! {

/// The model of one generation run: the displayed destination path on
/// success, or the failing stage's kind with its message.
pub type ModelResult = Result<Seq<char>, (ErrorKind, Seq<char>)>;

/// The message with which an invalid configuration is rejected.
pub open spec fn invalid_dimensions_message() -> Seq<char> {
    "page dimensions must be positive"@
}

/// What one generation run returns, as a function of the destination path,
/// the page configuration, and the outcomes of the run's two outside
/// effects: serializing the document (`serialized`) and writing the bytes
/// to disk (`written`).
///
/// The run is a single linear pipeline: an invalid configuration is
/// rejected before either effect; a serialization failure is surfaced
/// before the write; only a run in which both effects succeeded returns
/// the destination path.
pub open spec fn run_model(
    path: Seq<char>,
    config: PageConfig,
    serialized: Result<Seq<u8>, Seq<char>>,
    written: Result<(), Seq<char>>,
) -> ModelResult {
    if !config.is_valid() {
        Err((ErrorKind::Configuration, invalid_dimensions_message()))
    } else {
        match serialized {
            Err(m) => Err((ErrorKind::Generation, m)),
            Ok(_) => match written {
                Err(m) => Err((ErrorKind::Io, m)),
                Ok(_) => Ok(path),
            },
        }
    }
}

/// Leave to serialize one blank page: handed out only for an accepted
/// configuration.
pub struct SerializeJob {
    pub path: String,
    pub config: PageConfig,
}

/// Leave to write the serialized bytes: handed out only after
/// serialization succeeded.
pub struct WriteJob {
    pub path: String,
    pub bytes: Vec<u8>,
}

/// Start a generation run for `path`: accept or reject the configuration.
///
/// Succeeds exactly when both page dimensions are positive; the job then
/// carries the destination and the accepted dimensions unchanged.
/// Otherwise the run ends at once with a configuration error, before any
/// document is built or any file is touched.
pub fn begin(path: String, config: PageConfig) -> (r: Result<SerializeJob, GenError>)
    ensures
        r is Ok <==> config.is_valid(),
        r matches Ok(job) ==> job.path@ == path@ && job.config == config,
        r matches Err(e) ==> e.kind == ErrorKind::Configuration && e.message@
            == invalid_dimensions_message(),
{
    if config.width > 0 && config.height > 0 {
        Ok(SerializeJob { path, config })
    } else {
        Err(GenError::configuration("page dimensions must be positive".to_owned()))
    }
}

/// Fold the serialization outcome into the run: on success the run may
/// proceed to the write, carrying the destination and the produced bytes
/// unchanged; a failure is classified as a generation error carrying the
/// authoring library's message.
pub fn after_serialize(job: SerializeJob, outcome: Result<Vec<u8>, String>) -> (r: Result<
    WriteJob,
    GenError,
>)
    ensures
        r is Ok <==> outcome is Ok,
        r matches Ok(w) ==> outcome matches Ok(bytes) && w.path@ == job.path@ && w.bytes@
            == bytes@,
        r matches Err(e) ==> outcome matches Err(m) && e.kind == ErrorKind::Generation
            && e.message@ == m@,
{
    match outcome {
        Ok(bytes) => Ok(WriteJob { path: job.path, bytes }),
        Err(m) => Err(GenError::generation(m)),
    }
}

/// Fold the write outcome into the run: on success the run returns the
/// destination path it was started with; a failure is classified as an
/// I/O error carrying the underlying OS error text.
pub fn after_write(job: WriteJob, outcome: Result<(), String>) -> (r: Result<String, GenError>)
    ensures
        r is Ok <==> outcome is Ok,
        r matches Ok(p) ==> p@ == job.path@,
        r matches Err(e) ==> outcome matches Err(m) && e.kind == ErrorKind::Io && e.message@
            == m@,
{
    match outcome {
        Ok(_) => Ok(job.path),
        Err(m) => Err(GenError::io(m)),
    }
}

/// Law: with a valid configuration, a run whose serialization and write
/// both succeed returns exactly the destination path it was given.
pub proof fn lemma_successful_run_returns_path(
    path: Seq<char>,
    config: PageConfig,
    bytes: Seq<u8>,
)
    requires
        config.is_valid(),
    ensures
        run_model(path, config, Ok(bytes), Ok(())) == ModelResult::Ok(path),
{
}

/// Law: a run whose write fails is reported as an I/O error carrying the
/// underlying OS error text, whatever bytes had been produced.
pub proof fn lemma_write_failure_is_io(
    path: Seq<char>,
    config: PageConfig,
    bytes: Seq<u8>,
    os_text: Seq<char>,
)
    requires
        config.is_valid(),
    ensures
        run_model(path, config, Ok(bytes), Err(os_text)) == ModelResult::Err(
            (ErrorKind::Io, os_text),
        ),
{
}

/// Law: a run whose serialization fails is reported as a generation error
/// carrying the authoring library's message, and the write outcome is
/// never consulted.
pub proof fn lemma_serialize_failure_is_generation(
    path: Seq<char>,
    config: PageConfig,
    message: Seq<char>,
    written1: Result<(), Seq<char>>,
    written2: Result<(), Seq<char>>,
)
    requires
        config.is_valid(),
    ensures
        run_model(path, config, Err(message), written1) == ModelResult::Err(
            (ErrorKind::Generation, message),
        ),
        run_model(path, config, Err(message), written1) == run_model(
            path,
            config,
            Err(message),
            written2,
        ),
{
}

/// Law: a configuration with non-positive dimensions fails with a
/// configuration error whatever the outside outcomes would have been —
/// in particular, before any file write is attempted.
pub proof fn lemma_invalid_config_fails_first(
    path: Seq<char>,
    config: PageConfig,
    serialized: Result<Seq<u8>, Seq<char>>,
    written: Result<(), Seq<char>>,
)
    requires
        !config.is_valid(),
    ensures
        run_model(path, config, serialized, written) == ModelResult::Err(
            (ErrorKind::Configuration, invalid_dimensions_message()),
        ),
{
}

/// Law: a run is a pure function of its inputs: two runs given the same
/// destination, configuration and outside outcomes return the same
/// result, so a repeated run is independent of any earlier one.
pub proof fn lemma_run_independent(
    path: Seq<char>,
    config: PageConfig,
    serialized1: Result<Seq<u8>, Seq<char>>,
    written1: Result<(), Seq<char>>,
    serialized2: Result<Seq<u8>, Seq<char>>,
    written2: Result<(), Seq<char>>,
)
    requires
        serialized1 == serialized2,
        written1 == written2,
    ensures
        run_model(path, config, serialized1, written1) == run_model(
            path,
            config,
            serialized2,
            written2,
        ),
{
}

} // verus!
