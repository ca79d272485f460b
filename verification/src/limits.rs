//! Resource limits for codec operations.
//!
//! [`ResourceLimits`] caps resource usage; the `check_*` methods return
//! [`LimitExceeded`] naming the first limit that a value goes over.

use vstd::prelude::*;
use vstd::string::StringExecFns;
use crate::cost::OutputInfo;
use crate::info::{ImageInfo, sequence_count};
use crate::text::{decimal, push_decimal};

verus! {

/// Threading policy for codec operations.
#[derive(Clone, Copy, Debug, PartialEq, Eq, Structural)]
pub enum ThreadingPolicy {
    /// Force single-threaded operation.
    SingleThread,
    /// Use at most `max_threads` threads, else fall back to single-threaded.
    LimitOrSingle {
        /// Maximum thread count before falling back to single-threaded.
        max_threads: u16,
    },
    /// Prefer at most `preferred_max_threads` threads (advisory).
    LimitOrAny {
        /// Preferred maximum thread count.
        preferred_max_threads: u16,
    },
    /// Let the codec pick a reasonable thread count.
    Balanced,
    /// No thread limit.
    Unlimited,
}

impl Default for ThreadingPolicy {
    fn default() -> (r: Self)
        ensures
            r == ThreadingPolicy::Unlimited,
    {
        ThreadingPolicy::Unlimited
    }
}

/// Resource limits for encode/decode operations. `None` means no limit.
#[derive(Clone, Copy, Debug, PartialEq, Eq, Structural)]
pub struct ResourceLimits {
    /// Maximum total pixels (width × height).
    pub max_pixels: Option<u64>,
    /// Maximum memory allocation in bytes.
    pub max_memory_bytes: Option<u64>,
    /// Maximum encoded output size in bytes (encode only).
    pub max_output_bytes: Option<u64>,
    /// Maximum image width in pixels.
    pub max_width: Option<u32>,
    /// Maximum image height in pixels.
    pub max_height: Option<u32>,
    /// Maximum input data size in bytes (decode only).
    pub max_input_bytes: Option<u64>,
    /// Maximum number of animation frames.
    pub max_frames: Option<u32>,
    /// Maximum total animation duration in milliseconds.
    pub max_animation_ms: Option<u64>,
    /// Threading policy for the codec.
    pub threading: ThreadingPolicy,
}

/// A resource limit was exceeded: the actual value and the limit.
#[allow(inconsistent_fields)]
#[derive(Clone, Debug, PartialEq, Eq, Structural)]
pub enum LimitExceeded {
    /// Image width exceeded `max_width`.
    Width { actual: u32, max: u32 },
    /// Image height exceeded `max_height`.
    Height { actual: u32, max: u32 },
    /// Pixel count exceeded `max_pixels`.
    Pixels { actual: u64, max: u64 },
    /// Memory exceeded `max_memory_bytes`.
    Memory { actual: u64, max: u64 },
    /// Input data size exceeded `max_input_bytes`.
    InputSize { actual: u64, max: u64 },
    /// Encoded output exceeded `max_output_bytes`.
    OutputSize { actual: u64, max: u64 },
    /// Frame count exceeded `max_frames`.
    Frames { actual: u32, max: u32 },
    /// Animation duration exceeded `max_animation_ms`.
    Duration { actual: u64, max: u64 },
}

/// The limits with nothing set and unlimited threading.
pub open spec fn no_limits() -> ResourceLimits {
    ResourceLimits {
        max_pixels: None,
        max_memory_bytes: None,
        max_output_bytes: None,
        max_width: None,
        max_height: None,
        max_input_bytes: None,
        max_frames: None,
        max_animation_ms: None,
        threading: ThreadingPolicy::Unlimited,
    }
}

/// Whether any limit is set or threading is not unlimited.
pub open spec fn has_any_spec(l: ResourceLimits) -> bool {
    ||| l.max_pixels.is_some()
    ||| l.max_memory_bytes.is_some()
    ||| l.max_output_bytes.is_some()
    ||| l.max_width.is_some()
    ||| l.max_height.is_some()
    ||| l.max_input_bytes.is_some()
    ||| l.max_frames.is_some()
    ||| l.max_animation_ms.is_some()
    ||| l.threading != ThreadingPolicy::Unlimited
}

/// Result of checking `width` × `height` against the limits: width first,
/// then height, then the pixel count.
pub open spec fn check_dimensions_spec(l: ResourceLimits, width: u32, height: u32) -> Result<(), LimitExceeded> {
    if l.max_width.is_some() && width > l.max_width.unwrap() {
        Err(LimitExceeded::Width { actual: width, max: l.max_width.unwrap() })
    } else if l.max_height.is_some() && height > l.max_height.unwrap() {
        Err(LimitExceeded::Height { actual: height, max: l.max_height.unwrap() })
    } else if l.max_pixels.is_some() && width * height > l.max_pixels.unwrap() {
        Err(LimitExceeded::Pixels { actual: (width * height) as u64, max: l.max_pixels.unwrap() })
    } else {
        Ok(())
    }
}

/// One `u64` quantity against an optional cap.
pub open spec fn over_limit(limit: Option<u64>, value: u64) -> bool {
    limit.is_some() && value > limit.unwrap()
}

impl Default for ResourceLimits {
    fn default() -> (r: Self)
        ensures
            r == no_limits(),
    {
        Self::none()
    }
}

impl ResourceLimits {
    /// No limits (all fields `None`), unlimited threading.
    pub fn none() -> (r: Self)
        ensures
            r == no_limits(),
    {
        ResourceLimits {
            max_pixels: None,
            max_memory_bytes: None,
            max_output_bytes: None,
            max_width: None,
            max_height: None,
            max_input_bytes: None,
            max_frames: None,
            max_animation_ms: None,
            threading: ThreadingPolicy::Unlimited,
        }
    }

    /// Set maximum total pixels.
    pub fn with_max_pixels(self, max: u64) -> (r: Self)
        ensures
            r == (ResourceLimits { max_pixels: Some(max), ..self }),
    {
        let mut s = self;
        s.max_pixels = Some(max);
        s
    }

    /// Set maximum memory allocation in bytes.
    pub fn with_max_memory(self, bytes: u64) -> (r: Self)
        ensures
            r == (ResourceLimits { max_memory_bytes: Some(bytes), ..self }),
    {
        let mut s = self;
        s.max_memory_bytes = Some(bytes);
        s
    }

    /// Set maximum encoded output size in bytes.
    pub fn with_max_output(self, bytes: u64) -> (r: Self)
        ensures
            r == (ResourceLimits { max_output_bytes: Some(bytes), ..self }),
    {
        let mut s = self;
        s.max_output_bytes = Some(bytes);
        s
    }

    /// Set maximum image width in pixels.
    pub fn with_max_width(self, width: u32) -> (r: Self)
        ensures
            r == (ResourceLimits { max_width: Some(width), ..self }),
    {
        let mut s = self;
        s.max_width = Some(width);
        s
    }

    /// Set maximum image height in pixels.
    pub fn with_max_height(self, height: u32) -> (r: Self)
        ensures
            r == (ResourceLimits { max_height: Some(height), ..self }),
    {
        let mut s = self;
        s.max_height = Some(height);
        s
    }

    /// Set maximum input data size in bytes.
    pub fn with_max_input_bytes(self, bytes: u64) -> (r: Self)
        ensures
            r == (ResourceLimits { max_input_bytes: Some(bytes), ..self }),
    {
        let mut s = self;
        s.max_input_bytes = Some(bytes);
        s
    }

    /// Set maximum number of animation frames.
    pub fn with_max_frames(self, frames: u32) -> (r: Self)
        ensures
            r == (ResourceLimits { max_frames: Some(frames), ..self }),
    {
        let mut s = self;
        s.max_frames = Some(frames);
        s
    }

    /// Set maximum total animation duration in milliseconds.
    pub fn with_max_animation_ms(self, ms: u64) -> (r: Self)
        ensures
            r == (ResourceLimits { max_animation_ms: Some(ms), ..self }),
    {
        let mut s = self;
        s.max_animation_ms = Some(ms);
        s
    }

    /// Set the threading policy.
    pub fn with_threading(self, policy: ThreadingPolicy) -> (r: Self)
        ensures
            r == (ResourceLimits { threading: policy, ..self }),
    {
        let mut s = self;
        s.threading = policy;
        s
    }

    /// Current threading policy.
    pub fn threading(&self) -> (r: ThreadingPolicy)
        ensures
            r == self.threading,
    {
        self.threading
    }

    /// Whether any limits are set (including non-default threading).
    pub fn has_any(&self) -> (r: bool)
        ensures
            r == has_any_spec(*self),
    {
        self.max_pixels.is_some() || self.max_memory_bytes.is_some() || self.max_output_bytes.is_some()
            || self.max_width.is_some() || self.max_height.is_some() || self.max_input_bytes.is_some()
            || self.max_frames.is_some() || self.max_animation_ms.is_some()
            || self.threading != ThreadingPolicy::Unlimited
    }

    /// Check a probed image against `max_width`, `max_height`,
    /// `max_pixels` and, when the frame count is known, `max_frames`.
    pub fn check_image_info(&self, info: &ImageInfo) -> (r: Result<(), LimitExceeded>)
        ensures
            r == (match check_dimensions_spec(*self, info.width, info.height) {
                Err(e) => Err(e),
                Ok(()) => match (self.max_frames, sequence_count(info.sequence)) {
                    (Some(max), Some(count)) => if count > max {
                        Err(LimitExceeded::Frames { actual: count, max })
                    } else {
                        Ok(())
                    },
                    _ => Ok(()),
                },
            }),
    {
        match self.check_dimensions(info.width, info.height) {
            Err(e) => return Err(e),
            Ok(()) => {},
        }
        if let Some(max) = self.max_frames {
            if let Some(count) = info.frame_count() {
                if count > max {
                    return Err(LimitExceeded::Frames { actual: count, max });
                }
            }
        }
        Ok(())
    }

    /// Check the dimensions of a predicted decode output.
    pub fn check_output_info(&self, info: &OutputInfo) -> (r: Result<(), LimitExceeded>)
        ensures
            r == check_dimensions_spec(*self, info.width, info.height),
    {
        self.check_dimensions(info.width, info.height)
    }

    /// Check image dimensions against `max_width`, `max_height`, and `max_pixels`.
    pub fn check_dimensions(&self, width: u32, height: u32) -> (r: Result<(), LimitExceeded>)
        ensures
            r == check_dimensions_spec(*self, width, height),
    {
        if let Some(max) = self.max_width {
            if width > max {
                return Err(LimitExceeded::Width { actual: width, max });
            }
        }
        if let Some(max) = self.max_height {
            if height > max {
                return Err(LimitExceeded::Height { actual: height, max });
            }
        }
        if let Some(max) = self.max_pixels {
            assert((width as u64) * (height as u64) <= u64::MAX) by (nonlinear_arith)
                requires
                    width <= u32::MAX,
                    height <= u32::MAX,
            ;
            let pixels = width as u64 * height as u64;
            if pixels > max {
                return Err(LimitExceeded::Pixels { actual: pixels, max });
            }
        }
        Ok(())
    }

    /// Check a memory estimate against `max_memory_bytes`.
    pub fn check_memory(&self, bytes: u64) -> (r: Result<(), LimitExceeded>)
        ensures
            r == (if over_limit(self.max_memory_bytes, bytes) {
                Err(LimitExceeded::Memory { actual: bytes, max: self.max_memory_bytes.unwrap() })
            } else {
                Ok(())
            }),
    {
        if let Some(max) = self.max_memory_bytes {
            if bytes > max {
                return Err(LimitExceeded::Memory { actual: bytes, max });
            }
        }
        Ok(())
    }

    /// Check input data size against `max_input_bytes`.
    pub fn check_input_size(&self, bytes: u64) -> (r: Result<(), LimitExceeded>)
        ensures
            r == (if over_limit(self.max_input_bytes, bytes) {
                Err(LimitExceeded::InputSize { actual: bytes, max: self.max_input_bytes.unwrap() })
            } else {
                Ok(())
            }),
    {
        if let Some(max) = self.max_input_bytes {
            if bytes > max {
                return Err(LimitExceeded::InputSize { actual: bytes, max });
            }
        }
        Ok(())
    }

    /// Check encoded output size against `max_output_bytes`.
    pub fn check_output_size(&self, bytes: u64) -> (r: Result<(), LimitExceeded>)
        ensures
            r == (if over_limit(self.max_output_bytes, bytes) {
                Err(LimitExceeded::OutputSize { actual: bytes, max: self.max_output_bytes.unwrap() })
            } else {
                Ok(())
            }),
    {
        if let Some(max) = self.max_output_bytes {
            if bytes > max {
                return Err(LimitExceeded::OutputSize { actual: bytes, max });
            }
        }
        Ok(())
    }

    /// Check frame count against `max_frames`.
    pub fn check_frames(&self, count: u32) -> (r: Result<(), LimitExceeded>)
        ensures
            r == (if self.max_frames.is_some() && count > self.max_frames.unwrap() {
                Err(LimitExceeded::Frames { actual: count, max: self.max_frames.unwrap() })
            } else {
                Ok(())
            }),
    {
        if let Some(max) = self.max_frames {
            if count > max {
                return Err(LimitExceeded::Frames { actual: count, max });
            }
        }
        Ok(())
    }

    /// Check animation duration against `max_animation_ms`.
    pub fn check_animation_ms(&self, ms: u64) -> (r: Result<(), LimitExceeded>)
        ensures
            r == (if over_limit(self.max_animation_ms, ms) {
                Err(LimitExceeded::Duration { actual: ms, max: self.max_animation_ms.unwrap() })
            } else {
                Ok(())
            }),
    {
        if let Some(max) = self.max_animation_ms {
            if ms > max {
                return Err(LimitExceeded::Duration { actual: ms, max });
            }
        }
        Ok(())
    }
}

/// The message text of a limit error.
pub open spec fn limit_message_spec(e: LimitExceeded) -> Seq<char> {
    match e {
        LimitExceeded::Width { actual, max } =>
            "width "@ + decimal(actual as nat) + " exceeds limit "@ + decimal(max as nat),
        LimitExceeded::Height { actual, max } =>
            "height "@ + decimal(actual as nat) + " exceeds limit "@ + decimal(max as nat),
        LimitExceeded::Pixels { actual, max } =>
            "pixel count "@ + decimal(actual as nat) + " exceeds limit "@ + decimal(max as nat),
        LimitExceeded::Memory { actual, max } =>
            "memory "@ + decimal(actual as nat) + " bytes exceeds limit "@ + decimal(max as nat),
        LimitExceeded::InputSize { actual, max } =>
            "input size "@ + decimal(actual as nat) + " bytes exceeds limit "@ + decimal(max as nat),
        LimitExceeded::OutputSize { actual, max } =>
            "output size "@ + decimal(actual as nat) + " bytes exceeds limit "@ + decimal(max as nat),
        LimitExceeded::Frames { actual, max } =>
            "frame count "@ + decimal(actual as nat) + " exceeds limit "@ + decimal(max as nat),
        LimitExceeded::Duration { actual, max } =>
            "duration "@ + decimal(actual as nat) + "ms exceeds limit "@ + decimal(max as nat) + "ms"@,
    }
}

fn render(prefix: &str, actual: u64, middle: &str, max: u64, suffix: &str) -> (r: String)
    ensures
        r@ == prefix@ + decimal(actual as nat) + middle@ + decimal(max as nat) + suffix@,
{
    let mut s = String::from_str(prefix);
    push_decimal(&mut s, actual);
    s.append(middle);
    push_decimal(&mut s, max);
    s.append(suffix);
    s
}

impl LimitExceeded {
    /// Human-readable description, e.g. `width 5000 exceeds limit 4096`.
    pub fn message(&self) -> (r: String)
        ensures
            r@ == limit_message_spec(*self),
    {
        proof {
            reveal_strlit("");
        }
        match self {
            LimitExceeded::Width { actual, max } => render("width ", *actual as u64, " exceeds limit ", *max as u64, ""),
            LimitExceeded::Height { actual, max } => render("height ", *actual as u64, " exceeds limit ", *max as u64, ""),
            LimitExceeded::Pixels { actual, max } => render("pixel count ", *actual, " exceeds limit ", *max, ""),
            LimitExceeded::Memory { actual, max } => render("memory ", *actual, " bytes exceeds limit ", *max, ""),
            LimitExceeded::InputSize { actual, max } => render("input size ", *actual, " bytes exceeds limit ", *max, ""),
            LimitExceeded::OutputSize { actual, max } => render("output size ", *actual, " bytes exceeds limit ", *max, ""),
            LimitExceeded::Frames { actual, max } => render("frame count ", *actual as u64, " exceeds limit ", *max as u64, ""),
            LimitExceeded::Duration { actual, max } => render("duration ", *actual, "ms exceeds limit ", *max, "ms"),
        }
    }
}

/// A dimension check succeeds exactly when no set limit is exceeded, and
/// with no limits set every check succeeds.
pub proof fn lemma_check_dimensions_ok_iff_within(l: ResourceLimits, width: u32, height: u32)
    ensures
        check_dimensions_spec(l, width, height) is Ok <==> (
            (l.max_width.is_none() || width <= l.max_width.unwrap())
            && (l.max_height.is_none() || height <= l.max_height.unwrap())
            && (l.max_pixels.is_none() || width * height <= l.max_pixels.unwrap())),
        check_dimensions_spec(no_limits(), width, height) is Ok,
        !has_any_spec(no_limits()),
{
}

} // verus!
