//! Timestamp information.
use vstd::prelude::*;
use crate::data::rational::Rational64;
use std::any::Any;
use std::sync::Arc;

verus! {

/// User private data attached to timestamps and streams: any value, shared
/// through an `Arc`, carried along and never inspected.
#[verifier::external_body]
#[derive(Debug)]
pub struct UserData(pub Box<dyn Any + Send + Sync>);

/// Timestamp information.
#[derive(Debug, Clone)]
pub struct TimeInfo {
    /// Presentation timestamp.
    pub pts: Option<i64>,
    /// Decode timestamp.
    pub dts: Option<i64>,
    /// Duration (in timebase units).
    pub duration: Option<u64>,
    /// Timebase numerator/denominator.
    pub timebase: Option<Rational64>,
    /// Timebase user private data.
    pub user_private: Option<Arc<UserData>>,
}

impl Default for TimeInfo {
    fn default() -> (r: Self)
        ensures
            r.pts is None,
            r.dts is None,
            r.duration is None,
            r.timebase is None,
            r.user_private is None,
    {
        TimeInfo { pts: None, dts: None, duration: None, timebase: None, user_private: None }
    }
}

} // verus!
