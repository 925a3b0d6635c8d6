//! Request negotiation, session bookkeeping and feedback events for a
//! live audio streaming server that feeds network renderers over HTTP.
pub mod feedback;
pub mod format;
pub mod registry;
pub mod request;
pub mod session;

pub use feedback::{StreamerFeedBack, StreamingState};
pub use format::{StreamerConfig, StreamingFormat};
pub use registry::SessionRegistry;
pub use request::{plan_request, HttpMethod, RequestPlan};
pub use session::StreamSession;
