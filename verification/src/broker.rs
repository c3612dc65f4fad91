//! Names and settings of the broker objects and of the service.

use vstd::prelude::*;

verus! {

/// The exchange that alerts are published to.
pub const ALERT_EXCHANGE: &'static str = "space_weather";

/// The queue that the service consumes alerts from.
pub const ALERT_QUEUE: &'static str = "space_weather_alerts";

/// The routing key that binds the queue to the exchange.
pub const ALERT_ROUTING_KEY: &'static str = "space_weather_alerts";

/// The tag under which the service consumes.
pub const CONSUMER_TAG: &'static str = "geostorm-alert-service";

/// How many unacknowledged deliveries the broker hands the service at a time.
pub const PREFETCH_COUNT: u16 = 16;

/// The directory that reports are written to.
pub const REPORTS_DIR: &'static str = "reports";

/// Seconds between two heartbeat lines in the log.
pub const HEARTBEAT_INTERVAL_SECONDS: u64 = 30;

/// Reply code sent when the service closes its broker connection.
pub const CLOSE_REPLY_CODE: u16 = 200;

/// Reply text sent when the service closes its broker connection.
pub const CLOSE_REPLY_TEXT: &'static str = "GeoStorm Alert Service shutting down";

} // verus!
