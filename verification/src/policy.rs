//! Per-job policy flags for decode and encode operations.
//!
//! Every flag is three-state: `None` lets the codec use its own default,
//! `Some(true)` explicitly allows, `Some(false)` explicitly denies.

use vstd::prelude::*;

verus! {

/// An explicit flag value wins over the caller's default.
pub open spec fn resolve_flag(flag: Option<bool>, default: bool) -> bool {
    match flag {
        Some(v) => v,
        None => default,
    }
}

fn resolve_exec(flag: Option<bool>, default: bool) -> (r: bool)
    ensures
        r == resolve_flag(flag, default),
{
    match flag {
        Some(v) => v,
        None => default,
    }
}

/// Decode policy: what a decoder may do with untrusted input.
#[derive(Clone, Copy, Debug, PartialEq, Eq, Structural)]
pub struct DecodePolicy {
    /// Extract ICC color profiles.
    pub allow_icc: Option<bool>,
    /// Extract EXIF metadata.
    pub allow_exif: Option<bool>,
    /// Extract XMP metadata.
    pub allow_xmp: Option<bool>,
    /// Allow progressive / interlaced images.
    pub allow_progressive: Option<bool>,
    /// Allow multi-frame / animated images.
    pub allow_animation: Option<bool>,
    /// Accept truncated or partially corrupt input.
    pub allow_truncated: Option<bool>,
    /// Strict spec compliance.
    pub strict: Option<bool>,
}

impl DecodePolicy {
    /// No preferences: the codec uses its own defaults.
    pub fn none() -> (r: Self)
        ensures
            r.allow_icc == None::<bool>,
            r.allow_exif == None::<bool>,
            r.allow_xmp == None::<bool>,
            r.allow_progressive == None::<bool>,
            r.allow_animation == None::<bool>,
            r.allow_truncated == None::<bool>,
            r.strict == None::<bool>,
    {
        Self {
            allow_icc: None,
            allow_exif: None,
            allow_xmp: None,
            allow_progressive: None,
            allow_animation: None,
            allow_truncated: None,
            strict: None,
        }
    }

    /// Minimal attack surface: no metadata extraction, no progressive, no animation, no truncated input, strict parsing.
    pub fn strict() -> (r: Self)
        ensures
            r.allow_icc == Some(false),
            r.allow_exif == Some(false),
            r.allow_xmp == Some(false),
            r.allow_progressive == Some(false),
            r.allow_animation == Some(false),
            r.allow_truncated == Some(false),
            r.strict == Some(true),
    {
        Self {
            allow_icc: Some(false),
            allow_exif: Some(false),
            allow_xmp: Some(false),
            allow_progressive: Some(false),
            allow_animation: Some(false),
            allow_truncated: Some(false),
            strict: Some(true),
        }
    }

    /// Allow everything, lenient parsing.
    pub fn permissive() -> (r: Self)
        ensures
            r.allow_icc == Some(true),
            r.allow_exif == Some(true),
            r.allow_xmp == Some(true),
            r.allow_progressive == Some(true),
            r.allow_animation == Some(true),
            r.allow_truncated == Some(true),
            r.strict == Some(false),
    {
        Self {
            allow_icc: Some(true),
            allow_exif: Some(true),
            allow_xmp: Some(true),
            allow_progressive: Some(true),
            allow_animation: Some(true),
            allow_truncated: Some(true),
            strict: Some(false),
        }
    }

    /// Override ICC profile extraction; every other flag is kept.
    pub fn with_allow_icc(self, v: bool) -> (r: Self)
        ensures
            r == (Self { allow_icc: Some(v), ..self }),
    {
        let mut s = self;
        s.allow_icc = Some(v);
        s
    }

    /// Override EXIF extraction; every other flag is kept.
    pub fn with_allow_exif(self, v: bool) -> (r: Self)
        ensures
            r == (Self { allow_exif: Some(v), ..self }),
    {
        let mut s = self;
        s.allow_exif = Some(v);
        s
    }

    /// Override XMP extraction; every other flag is kept.
    pub fn with_allow_xmp(self, v: bool) -> (r: Self)
        ensures
            r == (Self { allow_xmp: Some(v), ..self }),
    {
        let mut s = self;
        s.allow_xmp = Some(v);
        s
    }

    /// Override progressive/interlaced support; every other flag is kept.
    pub fn with_allow_progressive(self, v: bool) -> (r: Self)
        ensures
            r == (Self { allow_progressive: Some(v), ..self }),
    {
        let mut s = self;
        s.allow_progressive = Some(v);
        s
    }

    /// Override animation support; every other flag is kept.
    pub fn with_allow_animation(self, v: bool) -> (r: Self)
        ensures
            r == (Self { allow_animation: Some(v), ..self }),
    {
        let mut s = self;
        s.allow_animation = Some(v);
        s
    }

    /// Override truncated input handling; every other flag is kept.
    pub fn with_allow_truncated(self, v: bool) -> (r: Self)
        ensures
            r == (Self { allow_truncated: Some(v), ..self }),
    {
        let mut s = self;
        s.allow_truncated = Some(v);
        s
    }

    /// Override strict parsing; every other flag is kept.
    pub fn with_strict(self, v: bool) -> (r: Self)
        ensures
            r == (Self { strict: Some(v), ..self }),
    {
        let mut s = self;
        s.strict = Some(v);
        s
    }

    /// Resolve the icc flag: the explicit value, or `default`.
    pub fn resolve_icc(&self, default: bool) -> (r: bool)
        ensures
            r == resolve_flag(self.allow_icc, default),
    {
        resolve_exec(self.allow_icc, default)
    }

    /// Resolve the exif flag: the explicit value, or `default`.
    pub fn resolve_exif(&self, default: bool) -> (r: bool)
        ensures
            r == resolve_flag(self.allow_exif, default),
    {
        resolve_exec(self.allow_exif, default)
    }

    /// Resolve the xmp flag: the explicit value, or `default`.
    pub fn resolve_xmp(&self, default: bool) -> (r: bool)
        ensures
            r == resolve_flag(self.allow_xmp, default),
    {
        resolve_exec(self.allow_xmp, default)
    }

    /// Resolve the progressive flag: the explicit value, or `default`.
    pub fn resolve_progressive(&self, default: bool) -> (r: bool)
        ensures
            r == resolve_flag(self.allow_progressive, default),
    {
        resolve_exec(self.allow_progressive, default)
    }

    /// Resolve the animation flag: the explicit value, or `default`.
    pub fn resolve_animation(&self, default: bool) -> (r: bool)
        ensures
            r == resolve_flag(self.allow_animation, default),
    {
        resolve_exec(self.allow_animation, default)
    }

    /// Resolve the truncated flag: the explicit value, or `default`.
    pub fn resolve_truncated(&self, default: bool) -> (r: bool)
        ensures
            r == resolve_flag(self.allow_truncated, default),
    {
        resolve_exec(self.allow_truncated, default)
    }

    /// Resolve the strict flag: the explicit value, or `default`.
    pub fn resolve_strict(&self, default: bool) -> (r: bool)
        ensures
            r == resolve_flag(self.strict, default),
    {
        resolve_exec(self.strict, default)
    }

}

impl Default for DecodePolicy {
    fn default() -> (r: Self)
        ensures
            r.allow_icc == None::<bool>,
            r.allow_exif == None::<bool>,
            r.allow_xmp == None::<bool>,
            r.allow_progressive == None::<bool>,
            r.allow_animation == None::<bool>,
            r.allow_truncated == None::<bool>,
            r.strict == None::<bool>,
    {
        Self::none()
    }
}

/// Encode policy: what an encoder may embed or produce.
#[derive(Clone, Copy, Debug, PartialEq, Eq, Structural)]
pub struct EncodePolicy {
    /// Embed ICC color profiles in the output.
    pub embed_icc: Option<bool>,
    /// Embed EXIF metadata in the output.
    pub embed_exif: Option<bool>,
    /// Embed XMP metadata in the output.
    pub embed_xmp: Option<bool>,
    /// Allow multi-frame / animated output.
    pub allow_animation: Option<bool>,
    /// Produce deterministic output (no timestamps, random seeds, etc.).
    pub deterministic: Option<bool>,
}

impl EncodePolicy {
    /// No preferences: the codec uses its own defaults.
    pub fn none() -> (r: Self)
        ensures
            r.embed_icc == None::<bool>,
            r.embed_exif == None::<bool>,
            r.embed_xmp == None::<bool>,
            r.allow_animation == None::<bool>,
            r.deterministic == None::<bool>,
    {
        Self {
            embed_icc: None,
            embed_exif: None,
            embed_xmp: None,
            allow_animation: None,
            deterministic: None,
        }
    }

    /// Strip everything, no animation, deterministic output.
    pub fn strict() -> (r: Self)
        ensures
            r.embed_icc == Some(false),
            r.embed_exif == Some(false),
            r.embed_xmp == Some(false),
            r.allow_animation == Some(false),
            r.deterministic == Some(true),
    {
        Self {
            embed_icc: Some(false),
            embed_exif: Some(false),
            embed_xmp: Some(false),
            allow_animation: Some(false),
            deterministic: Some(true),
        }
    }

    /// Allow everything, non-deterministic output allowed.
    pub fn permissive() -> (r: Self)
        ensures
            r.embed_icc == Some(true),
            r.embed_exif == Some(true),
            r.embed_xmp == Some(true),
            r.allow_animation == Some(true),
            r.deterministic == Some(false),
    {
        Self {
            embed_icc: Some(true),
            embed_exif: Some(true),
            embed_xmp: Some(true),
            allow_animation: Some(true),
            deterministic: Some(false),
        }
    }

    /// Override ICC embedding; every other flag is kept.
    pub fn with_embed_icc(self, v: bool) -> (r: Self)
        ensures
            r == (Self { embed_icc: Some(v), ..self }),
    {
        let mut s = self;
        s.embed_icc = Some(v);
        s
    }

    /// Override EXIF embedding; every other flag is kept.
    pub fn with_embed_exif(self, v: bool) -> (r: Self)
        ensures
            r == (Self { embed_exif: Some(v), ..self }),
    {
        let mut s = self;
        s.embed_exif = Some(v);
        s
    }

    /// Override XMP embedding; every other flag is kept.
    pub fn with_embed_xmp(self, v: bool) -> (r: Self)
        ensures
            r == (Self { embed_xmp: Some(v), ..self }),
    {
        let mut s = self;
        s.embed_xmp = Some(v);
        s
    }

    /// Override animation output; every other flag is kept.
    pub fn with_allow_animation(self, v: bool) -> (r: Self)
        ensures
            r == (Self { allow_animation: Some(v), ..self }),
    {
        let mut s = self;
        s.allow_animation = Some(v);
        s
    }

    /// Override deterministic output; every other flag is kept.
    pub fn with_deterministic(self, v: bool) -> (r: Self)
        ensures
            r == (Self { deterministic: Some(v), ..self }),
    {
        let mut s = self;
        s.deterministic = Some(v);
        s
    }

    /// Resolve the icc flag: the explicit value, or `default`.
    pub fn resolve_icc(&self, default: bool) -> (r: bool)
        ensures
            r == resolve_flag(self.embed_icc, default),
    {
        resolve_exec(self.embed_icc, default)
    }

    /// Resolve the exif flag: the explicit value, or `default`.
    pub fn resolve_exif(&self, default: bool) -> (r: bool)
        ensures
            r == resolve_flag(self.embed_exif, default),
    {
        resolve_exec(self.embed_exif, default)
    }

    /// Resolve the xmp flag: the explicit value, or `default`.
    pub fn resolve_xmp(&self, default: bool) -> (r: bool)
        ensures
            r == resolve_flag(self.embed_xmp, default),
    {
        resolve_exec(self.embed_xmp, default)
    }

    /// Resolve the animation flag: the explicit value, or `default`.
    pub fn resolve_animation(&self, default: bool) -> (r: bool)
        ensures
            r == resolve_flag(self.allow_animation, default),
    {
        resolve_exec(self.allow_animation, default)
    }

    /// Resolve the deterministic flag: the explicit value, or `default`.
    pub fn resolve_deterministic(&self, default: bool) -> (r: bool)
        ensures
            r == resolve_flag(self.deterministic, default),
    {
        resolve_exec(self.deterministic, default)
    }

}

impl Default for EncodePolicy {
    fn default() -> (r: Self)
        ensures
            r.embed_icc == None::<bool>,
            r.embed_exif == None::<bool>,
            r.embed_xmp == None::<bool>,
            r.allow_animation == None::<bool>,
            r.deterministic == None::<bool>,
    {
        Self::none()
    }
}

/// Resolving a flag that a builder set explicitly yields the set value
/// whatever the default; resolving a flag of `none()` yields the default.
pub proof fn lemma_explicit_flag_wins(v: bool, default: bool)
    ensures
        resolve_flag(Some(v), default) == v,
        resolve_flag(None, default) == default,
{
}

} // verus!
