//! Engine-wide media configuration and the engine interfaces.
//!
//! The media engine itself — audio and video pipelines, codecs, channels —
//! belongs to the native side and is reached through the interfaces below,
//! implemented outside this crate. What is verified here is the facade's own
//! logic: how each native reply is turned into the library's error taxonomy,
//! with the engine's message preserved verbatim behind a fixed context
//! prefix.

use vstd::prelude::*;
use std::sync::Arc;
use crate::error::{RtcError, RtcErrorType};

verus! {

/// Which media kinds a channel carries.
#[derive(Clone, Copy, PartialEq, Eq, Structural, Debug)]
pub struct MediaConfig {
    pub audio: bool,
    pub video: bool,
    pub data: bool,
}

/// Audio-processing switches for a voice channel.
#[derive(Clone, Copy, PartialEq, Eq, Structural, Debug)]
pub struct AudioOptions {
    pub echo_cancellation: bool,
    pub auto_gain_control: bool,
    pub noise_suppression: bool,
    pub highpass_filter: bool,
    pub stereo_swapping: bool,
    pub typing_detection: bool,
}

/// Geometry and rate of a video channel.
#[derive(Clone, Copy, PartialEq, Eq, Structural, Debug)]
pub struct VideoOptions {
    pub width: u32,
    pub height: u32,
    pub frame_rate: u32,
}

/// Media-path protection switches.
#[derive(Clone, Copy, PartialEq, Eq, Structural, Debug)]
pub struct CryptoOptions {
    pub srtp: bool,
    pub sframe: bool,
}

/// Liveness of a media track as the engine reports it.
#[derive(Clone, Copy, PartialEq, Eq, Structural, Debug)]
pub enum TrackState {
    Live,
    Ended,
}

/// A voice engine backend: initialization and channel creation, implemented
/// by the native side.
pub trait VoiceEngineInterface {
    fn init(&self) -> Result<(), RtcError>;

    fn create_send_channel(&self) -> Result<(), RtcError>;

    fn create_receive_channel(&self) -> Result<(), RtcError>;
}

/// A video engine backend, shaped as the voice one.
pub trait VideoEngineInterface {
    fn init(&self) -> Result<(), RtcError>;

    fn create_send_channel(&self) -> Result<(), RtcError>;

    fn create_receive_channel(&self) -> Result<(), RtcError>;
}

/// A whole media engine backend: initialization plus access to its voice and
/// video engines.
pub trait MediaEngineInterface {
    type Voice: VoiceEngineInterface;

    type Video: VideoEngineInterface;

    fn init(&self) -> Result<(), RtcError>;

    fn voice(&self) -> Arc<Self::Voice>;

    fn video(&self) -> Arc<Self::Video>;
}

/// The facade over a constructed media engine backend. Construction of the
/// backend itself is the native side's; this type only composes it.
#[derive(Debug)]
pub struct MediaEngine<E: MediaEngineInterface> {
    pub inner: Arc<E>,
}

impl<E: MediaEngineInterface> MediaEngine<E> {
    /// Wraps a backend the native side constructed.
    pub fn new(inner: E) -> (r: MediaEngine<E>)
        ensures
            r.inner == inner,
    {
        MediaEngine { inner: Arc::new(inner) }
    }

    /// Initializes the media engine through its backend.
    pub fn init(&self) -> Result<(), RtcError> {
        self.inner.init()
    }

    /// The backend's voice engine.
    pub fn voice(&self) -> Arc<E::Voice> {
        self.inner.voice()
    }

    /// The backend's video engine.
    pub fn video(&self) -> Arc<E::Video> {
        self.inner.video()
    }
}

/// An internal engine failure whose message is the given context prefix
/// followed verbatim by the engine's own words.
pub fn engine_failure(prefix: &str, detail: String) -> (r: RtcError)
    ensures
        r.error_type == RtcErrorType::Internal,
        r.message@ == prefix@ + detail@,
{
    let message = prefix.to_owned().concat(detail.as_str());
    RtcError { error_type: RtcErrorType::Internal, message }
}

/// Outcome of creating the media engine: the created handle passes through;
/// a native failure becomes an internal error carrying the native message.
pub fn media_engine_created<T>(reply: Result<T, String>) -> (r: Result<T, RtcError>)
    ensures
        reply matches Ok(v) ==> r == Ok::<T, RtcError>(v),
        reply matches Err(m) ==> (r matches Err(e) && e.error_type == RtcErrorType::Internal
            && e.message@ == "Failed to create media engine: "@ + m@),
{
    match reply {
        Ok(v) => Ok(v),
        Err(m) => Err(engine_failure("Failed to create media engine: ", m)),
    }
}

/// Outcome of the media engine's own initialization. The native call answers
/// with a flag or fails outright; initialization counts only when the flag is
/// true, and a false flag is its own distinct failure.
pub fn media_engine_initialized(reply: Result<bool, String>) -> (r: Result<(), RtcError>)
    ensures
        reply matches Ok(true) ==> r is Ok,
        reply == Ok::<bool, String>(false) ==> (r matches Err(e) && e.error_type
            == RtcErrorType::Internal && e.message@
            == "Media engine initialization returned false"@),
        reply matches Err(m) ==> (r matches Err(e) && e.error_type == RtcErrorType::Internal
            && e.message@ == "Failed to initialize media engine: "@ + m@),
{
    match reply {
        Ok(true) => Ok(()),
        Ok(false) => Err(
            RtcError {
                error_type: RtcErrorType::Internal,
                message: "Media engine initialization returned false".to_owned(),
            },
        ),
        Err(m) => Err(engine_failure("Failed to initialize media engine: ", m)),
    }
}

/// Outcome of fetching the voice engine from the media engine.
pub fn voice_engine_acquired<T>(reply: Result<T, String>) -> (r: Result<T, RtcError>)
    ensures
        reply matches Ok(v) ==> r == Ok::<T, RtcError>(v),
        reply matches Err(m) ==> (r matches Err(e) && e.error_type == RtcErrorType::Internal
            && e.message@ == "Failed to get voice engine: "@ + m@),
{
    match reply {
        Ok(v) => Ok(v),
        Err(m) => Err(engine_failure("Failed to get voice engine: ", m)),
    }
}

/// Outcome of fetching the video engine from the media engine.
pub fn video_engine_acquired<T>(reply: Result<T, String>) -> (r: Result<T, RtcError>)
    ensures
        reply matches Ok(v) ==> r == Ok::<T, RtcError>(v),
        reply matches Err(m) ==> (r matches Err(e) && e.error_type == RtcErrorType::Internal
            && e.message@ == "Failed to get video engine: "@ + m@),
{
    match reply {
        Ok(v) => Ok(v),
        Err(m) => Err(engine_failure("Failed to get video engine: ", m)),
    }
}

/// Outcome of initializing the voice engine: the flag the native call answers
/// with is discarded here, only an outright failure counts.
pub fn voice_engine_initialized(reply: Result<bool, String>) -> (r: Result<(), RtcError>)
    ensures
        reply is Ok ==> r is Ok,
        reply matches Err(m) ==> (r matches Err(e) && e.error_type == RtcErrorType::Internal
            && e.message@ == "Failed to initialize voice engine: "@ + m@),
{
    match reply {
        Ok(_) => Ok(()),
        Err(m) => Err(engine_failure("Failed to initialize voice engine: ", m)),
    }
}

/// Outcome of initializing the video engine, shaped as the voice one.
pub fn video_engine_initialized(reply: Result<bool, String>) -> (r: Result<(), RtcError>)
    ensures
        reply is Ok ==> r is Ok,
        reply matches Err(m) ==> (r matches Err(e) && e.error_type == RtcErrorType::Internal
            && e.message@ == "Failed to initialize video engine: "@ + m@),
{
    match reply {
        Ok(_) => Ok(()),
        Err(m) => Err(engine_failure("Failed to initialize video engine: ", m)),
    }
}

} // verus!
