//! Windowed fetch of air-quality telemetry, typed decoding of the payload,
//! and its transformation into time-series write records, with a
//! bounded-concurrency dispatcher for the writes.
mod time;

pub mod measurement;
pub mod payload;
pub mod record;
pub mod request;
pub mod publish;
pub mod window;

pub use time::UtcInstant;
pub use window::{latest_complete_period, Window, DEFAULT_PERIOD_SECONDS};
pub use measurement::MeasurementType;
pub use payload::{DataPoint, DecodeError, Measurement, RawDataPoint, RawMeasurement, RawResponse, Response, decode_response};
pub use publish::{Dispatcher, PublishError, Step};
pub use record::{Field, Tag, WriteRecord, transform, transform_all};
pub use request::{Config, FetchRequest, PipelineError, QueryParam, build_fetch_request, check_status};
