//! The capture session asked of the desktop capture service, and the stream
//! taken from its answer.
use vstd::prelude::*;

verus! {

/// How the pointer appears in the captured stream.
#[derive(Debug, Clone, Copy, PartialEq, Eq, Structural)]
pub enum CursorMode {
    Hidden,
    Embedded,
    Metadata,
}

/// Whether the service keeps the granted selection for later sessions.
#[derive(Debug, Clone, Copy, PartialEq, Eq, Structural)]
pub enum PersistMode {
    DoNot,
    Application,
    ExplicitlyRevoked,
}

/// The sources that a session asks for.
#[derive(Debug, Clone, Copy, PartialEq, Eq, Structural)]
pub struct SourcePolicy {
    pub cursor: CursorMode,
    pub monitor: bool,
    pub window: bool,
    pub multiple: bool,
    pub persist: PersistMode,
}

/// Why no stream could be had from the capture service.
#[derive(Debug, Clone, Copy, PartialEq, Eq, Structural)]
pub enum NegotiationError {
    /// The service could not be reached, or refused the session.
    Service,
    /// The started session holds no stream.
    NoStream,
}

/// The selection of sources for a headless session: a monitor or a window,
/// only one, the pointer hidden, nothing kept. No restore token is given.
pub fn source_policy() -> (r: SourcePolicy)
    ensures
        r == (SourcePolicy {
            cursor: CursorMode::Hidden,
            monitor: true,
            window: true,
            multiple: false,
            persist: PersistMode::DoNot,
        }),
{
    SourcePolicy {
        cursor: CursorMode::Hidden,
        monitor: true,
        window: true,
        multiple: false,
        persist: PersistMode::DoNot,
    }
}

/// The node id of the first stream of a started session.
pub fn first_stream_node(streams: &Vec<u32>) -> (r: Result<u32, NegotiationError>)
    ensures
        streams@.len() > 0 ==> r == Ok::<u32, NegotiationError>(streams@[0]),
        streams@.len() == 0 ==> r == Err::<u32, NegotiationError>(NegotiationError::NoStream),
{
    if streams.len() == 0 {
        Err(NegotiationError::NoStream)
    } else {
        Ok(streams[0])
    }
}

} // verus!
