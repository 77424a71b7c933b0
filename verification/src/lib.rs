//! The boundary between a native cellular-data service and a managed
//! application runtime: the values that cross it, the conversions between
//! their two representations, and the typed failures that native error
//! sentinels become.

pub mod bridge;
pub mod business_error;
pub mod cellulardata;
pub mod wrapper;
