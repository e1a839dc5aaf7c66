//! An on-demand image transformation cache. Given where a source image is,
//! a target size and a target format, the image is fetched, decoded, resized
//! and encoded once; the same request is served from the store afterwards.
//!
//! This library holds the decisions of such a cache, with machine-checked
//! contracts: the content-addressed naming scheme (`naming`), the dimension
//! calculator (`dimensions`), the request validator (`request`), the codec
//! table (`format`), the stages that work on pixels (`picture`, `transform`,
//! `plane`), the orchestration of one request (`pipeline`), its timings
//! (`metrics`) and its failures (`error`). It reads no file and opens no
//! connection: the orchestrator says what is to be done, and the service
//! around it does that and reports back.

pub mod dimensions;
pub mod error;
pub mod format;
pub mod metrics;
pub mod naming;
pub mod picture;
pub mod pipeline;
pub mod plane;
pub mod request;
pub mod transform;

pub use dimensions::{
    calculate_resized_dimensions, resize_dimensions, ImageDimensions, ResizedDimensions,
};
pub use error::CustomError;
pub use format::Format;
pub use naming::calculate_hash;
pub use pipeline::{Action, Event, Orchestrator, Outcome, Status};
pub use request::{validate_request, TransformRequest};
pub use transform::process_image;
