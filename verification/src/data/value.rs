//! Option values definitions.
use vstd::prelude::*;
use crate::data::audiosample::Soniton;
use crate::data::pixel::Formaton;
use std::sync::Arc;

verus! {

/// Accepted option values.
#[derive(Debug)]
pub enum Value<'a> {
    /// Signed integer value.
    I64(i64),
    /// Unsigned integer value.
    U64(u64),
    /// Unicode string slice value.
    Str(&'a str),
    /// Boolean value.
    Bool(bool),
    /// Pair of signed integer values.
    Pair(i64, i64),
    /// Image colorspace representation value.
    Formaton(Arc<Formaton>),
    /// Audio format definition value.
    Soniton(Arc<Soniton>),
}

impl<'a> From<i64> for Value<'a> {
    fn from(v: i64) -> (r: Self) {
        Value::I64(v)
    }
}

impl<'a> vstd::std_specs::convert::FromSpecImpl<i64> for Value<'a> {
    open spec fn obeys_from_spec() -> bool {
        true
    }

    open spec fn from_spec(v: i64) -> Self {
        Value::I64(v)
    }
}

impl<'a> From<u64> for Value<'a> {
    fn from(v: u64) -> (r: Self) {
        Value::U64(v)
    }
}

impl<'a> vstd::std_specs::convert::FromSpecImpl<u64> for Value<'a> {
    open spec fn obeys_from_spec() -> bool {
        true
    }

    open spec fn from_spec(v: u64) -> Self {
        Value::U64(v)
    }
}

impl<'a> From<&'a str> for Value<'a> {
    fn from(v: &'a str) -> (r: Self) {
        Value::Str(v)
    }
}

impl<'a> vstd::std_specs::convert::FromSpecImpl<&'a str> for Value<'a> {
    open spec fn obeys_from_spec() -> bool {
        true
    }

    open spec fn from_spec(v: &'a str) -> Self {
        Value::Str(v)
    }
}

impl<'a> From<bool> for Value<'a> {
    fn from(v: bool) -> (r: Self) {
        Value::Bool(v)
    }
}

impl<'a> vstd::std_specs::convert::FromSpecImpl<bool> for Value<'a> {
    open spec fn obeys_from_spec() -> bool {
        true
    }

    open spec fn from_spec(v: bool) -> Self {
        Value::Bool(v)
    }
}

impl<'a> From<(i64, i64)> for Value<'a> {
    fn from(v: (i64, i64)) -> (r: Self) {
        Value::Pair(v.0, v.1)
    }
}

impl<'a> vstd::std_specs::convert::FromSpecImpl<(i64, i64)> for Value<'a> {
    open spec fn obeys_from_spec() -> bool {
        true
    }

    open spec fn from_spec(v: (i64, i64)) -> Self {
        Value::Pair(v.0, v.1)
    }
}

impl<'a> From<Arc<Formaton>> for Value<'a> {
    fn from(v: Arc<Formaton>) -> (r: Self) {
        Value::Formaton(v)
    }
}

impl<'a> vstd::std_specs::convert::FromSpecImpl<Arc<Formaton>> for Value<'a> {
    open spec fn obeys_from_spec() -> bool {
        true
    }

    open spec fn from_spec(v: Arc<Formaton>) -> Self {
        Value::Formaton(v)
    }
}

impl<'a> From<Arc<Soniton>> for Value<'a> {
    fn from(v: Arc<Soniton>) -> (r: Self) {
        Value::Soniton(v)
    }
}

impl<'a> vstd::std_specs::convert::FromSpecImpl<Arc<Soniton>> for Value<'a> {
    open spec fn obeys_from_spec() -> bool {
        true
    }

    open spec fn from_spec(v: Arc<Soniton>) -> Self {
        Value::Soniton(v)
    }
}

} // verus!
