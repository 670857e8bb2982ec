//! Initialization of one stream at startup.
pub mod initialization_state;
pub mod initialized_stream;
pub mod laws;
pub mod run_laws;
pub mod stream_initialization_error;
pub mod stream_initializer;

pub use initialization_state::{InitializationState, PairValidation};
pub use initialized_stream::InitializedStream;
pub use stream_initialization_error::StreamInitializationError;
pub use stream_initializer::{Initialization, InitializationRequest, StreamInitializer};
