//! Runtime limits of plugin action execution.

use crate::error::{Configuration, CoreError};
use vstd::prelude::*;

verus! {

/// Runtime limits shared by the action service and the plugin host. The inline and read limits
/// never exceed the overall content limit, and every limit is positive.
#[derive(Debug, Clone, Copy, PartialEq, Eq, Structural)]
pub struct PluginExecutionPolicy {
    max_content_bytes: u64,
    max_inline_content_bytes: u64,
    max_content_read_bytes: u64,
    max_input_bytes: usize,
    max_output_bytes: usize,
    max_concurrent_calls: usize,
    memory_max_pages: u32,
    timeout_seconds: u64,
}

/// The limits of a plugin execution policy.
pub struct PluginLimits {
    pub max_content_bytes: u64,
    pub max_inline_content_bytes: u64,
    pub max_content_read_bytes: u64,
    pub max_input_bytes: usize,
    pub max_output_bytes: usize,
    pub max_concurrent_calls: usize,
    pub memory_max_pages: u32,
    pub timeout_seconds: u64,
}

impl View for PluginExecutionPolicy {
    type V = PluginLimits;

    closed spec fn view(&self) -> PluginLimits {
        PluginLimits {
            max_content_bytes: self.max_content_bytes,
            max_inline_content_bytes: self.max_inline_content_bytes,
            max_content_read_bytes: self.max_content_read_bytes,
            max_input_bytes: self.max_input_bytes,
            max_output_bytes: self.max_output_bytes,
            max_concurrent_calls: self.max_concurrent_calls,
            memory_max_pages: self.memory_max_pages,
            timeout_seconds: self.timeout_seconds,
        }
    }
}

/// The smaller of two sizes.
pub open spec fn min_u64(a: u64, b: u64) -> u64 {
    if a <= b {
        a
    } else {
        b
    }
}

impl PluginExecutionPolicy {
    /// Every limit is positive and the inline and read limits fit the content limit.
    pub open spec fn wf(&self) -> bool {
        &&& self@.max_content_bytes > 0
        &&& 0 < self@.max_inline_content_bytes <= self@.max_content_bytes
        &&& 0 < self@.max_content_read_bytes <= self@.max_content_bytes
        &&& self@.max_input_bytes > 0
        &&& self@.max_output_bytes > 0
        &&& self@.max_concurrent_calls > 0
        &&& self@.memory_max_pages > 0
        &&& self@.timeout_seconds > 0
    }

    /// Build a policy. The inline and read limits are lowered to the content limit; a zero
    /// limit is a configuration error.
    pub fn new(
        max_content_bytes: u64,
        max_inline_content_bytes: u64,
        max_content_read_bytes: u64,
        max_input_bytes: usize,
        max_output_bytes: usize,
        max_concurrent_calls: usize,
        memory_max_pages: u32,
        timeout_seconds: u64,
    ) -> (r: Result<PluginExecutionPolicy, CoreError>)
        ensures
            match r {
                Ok(p) => p.wf() && p@.max_content_bytes == max_content_bytes
                    && p@.max_inline_content_bytes == min_u64(
                    max_inline_content_bytes,
                    max_content_bytes,
                ) && p@.max_content_read_bytes == min_u64(max_content_read_bytes, max_content_bytes)
                    && p@.max_input_bytes == max_input_bytes && p@.max_output_bytes
                    == max_output_bytes && p@.max_concurrent_calls == max_concurrent_calls
                    && p@.memory_max_pages == memory_max_pages && p@.timeout_seconds
                    == timeout_seconds,
                Err(e) => e == CoreError::Configuration(Configuration::PluginLimitsMustBePositive)
                    && (max_content_bytes == 0 || max_inline_content_bytes == 0
                    || max_content_read_bytes == 0 || max_input_bytes == 0 || max_output_bytes
                    == 0 || max_concurrent_calls == 0 || memory_max_pages == 0 || timeout_seconds
                    == 0),
            },
    {
        let inline = if max_inline_content_bytes <= max_content_bytes {
            max_inline_content_bytes
        } else {
            max_content_bytes
        };
        let read = if max_content_read_bytes <= max_content_bytes {
            max_content_read_bytes
        } else {
            max_content_bytes
        };
        let policy = PluginExecutionPolicy {
            max_content_bytes,
            max_inline_content_bytes: inline,
            max_content_read_bytes: read,
            max_input_bytes,
            max_output_bytes,
            max_concurrent_calls,
            memory_max_pages,
            timeout_seconds,
        };
        policy.validate()?;
        Ok(policy)
    }

    fn validate(&self) -> (r: Result<(), CoreError>)
        ensures
            match r {
                Ok(_) => self@.max_content_bytes > 0 && self@.max_inline_content_bytes > 0
                    && self@.max_content_read_bytes > 0 && self@.max_input_bytes > 0
                    && self@.max_output_bytes > 0 && self@.max_concurrent_calls > 0
                    && self@.memory_max_pages > 0 && self@.timeout_seconds > 0,
                Err(e) => e == CoreError::Configuration(Configuration::PluginLimitsMustBePositive)
                    && (self@.max_content_bytes == 0 || self@.max_inline_content_bytes == 0
                    || self@.max_content_read_bytes == 0 || self@.max_input_bytes == 0
                    || self@.max_output_bytes == 0 || self@.max_concurrent_calls == 0
                    || self@.memory_max_pages == 0 || self@.timeout_seconds == 0),
            },
    {
        if self.max_content_bytes == 0 || self.max_inline_content_bytes == 0
            || self.max_content_read_bytes == 0 || self.max_input_bytes == 0
            || self.max_output_bytes == 0 || self.max_concurrent_calls == 0
            || self.memory_max_pages == 0 || self.timeout_seconds == 0 {
            return Err(CoreError::Configuration(Configuration::PluginLimitsMustBePositive));
        }
        Ok(())
    }

    pub fn max_content_bytes(&self) -> (r: u64)
        ensures
            r == self@.max_content_bytes,
    {
        self.max_content_bytes
    }

    pub fn max_inline_content_bytes(&self) -> (r: u64)
        ensures
            r == self@.max_inline_content_bytes,
    {
        self.max_inline_content_bytes
    }

    pub fn max_content_read_bytes(&self) -> (r: u64)
        ensures
            r == self@.max_content_read_bytes,
    {
        self.max_content_read_bytes
    }

    pub fn max_input_bytes(&self) -> (r: usize)
        ensures
            r == self@.max_input_bytes,
    {
        self.max_input_bytes
    }

    pub fn max_output_bytes(&self) -> (r: usize)
        ensures
            r == self@.max_output_bytes,
    {
        self.max_output_bytes
    }

    pub fn max_concurrent_calls(&self) -> (r: usize)
        ensures
            r == self@.max_concurrent_calls,
    {
        self.max_concurrent_calls
    }

    pub fn memory_max_pages(&self) -> (r: u32)
        ensures
            r == self@.memory_max_pages,
    {
        self.memory_max_pages
    }

    pub fn timeout_seconds(&self) -> (r: u64)
        ensures
            r == self@.timeout_seconds,
    {
        self.timeout_seconds
    }
}

/// Content limits of Resource actions: the largest content an action may read, and the largest
/// content handed to it inline. The inline limit never exceeds the content limit.
#[derive(Debug, Clone, Copy, PartialEq, Eq, Structural)]
pub struct ResourceActionPolicy {
    max_content_bytes: u64,
    max_inline_content_bytes: u64,
}

impl View for ResourceActionPolicy {
    type V = (u64, u64);

    /// The content limit and the inline limit.
    closed spec fn view(&self) -> (u64, u64) {
        (self.max_content_bytes, self.max_inline_content_bytes)
    }
}

impl ResourceActionPolicy {
    pub open spec fn wf(&self) -> bool {
        0 < self@.1 <= self@.0
    }

    /// Build the policy; both limits must be positive, and the inline limit is lowered to the
    /// content limit.
    pub fn new(max_content_bytes: u64, max_inline_content_bytes: u64) -> (r: Result<
        ResourceActionPolicy,
        CoreError,
    >)
        ensures
            match r {
                Ok(p) => p.wf() && p@ == (
                    max_content_bytes,
                    min_u64(max_inline_content_bytes, max_content_bytes),
                ),
                Err(e) => (max_content_bytes == 0 || max_inline_content_bytes == 0) && e
                    == CoreError::Configuration(Configuration::ActionLimitsMustBePositive),
            },
    {
        if max_content_bytes == 0 || max_inline_content_bytes == 0 {
            return Err(CoreError::Configuration(Configuration::ActionLimitsMustBePositive));
        }
        let inline = if max_inline_content_bytes <= max_content_bytes {
            max_inline_content_bytes
        } else {
            max_content_bytes
        };
        Ok(ResourceActionPolicy { max_content_bytes, max_inline_content_bytes: inline })
    }

    pub fn max_content_bytes(&self) -> (r: u64)
        ensures
            r == self@.0,
    {
        self.max_content_bytes
    }

    pub fn max_inline_content_bytes(&self) -> (r: u64)
        ensures
            r == self@.1,
    {
        self.max_inline_content_bytes
    }
}

/// The largest text content that may be edited in place.
#[derive(Debug, Clone, Copy, PartialEq, Eq, Structural)]
pub struct ResourceContentEditPolicy {
    max_text_bytes: u64,
}

impl View for ResourceContentEditPolicy {
    type V = u64;

    closed spec fn view(&self) -> u64 {
        self.max_text_bytes
    }
}

impl ResourceContentEditPolicy {
    pub fn new(max_text_bytes: u64) -> (r: Result<ResourceContentEditPolicy, CoreError>)
        ensures
            match r {
                Ok(p) => max_text_bytes > 0 && p@ == max_text_bytes,
                Err(e) => max_text_bytes == 0 && e == CoreError::Configuration(
                    Configuration::EditLimitMustBePositive,
                ),
            },
    {
        if max_text_bytes == 0 {
            return Err(CoreError::Configuration(Configuration::EditLimitMustBePositive));
        }
        Ok(ResourceContentEditPolicy { max_text_bytes })
    }

    pub fn max_text_bytes(&self) -> (r: u64)
        ensures
            r == self@,
    {
        self.max_text_bytes
    }
}

} // verus!
