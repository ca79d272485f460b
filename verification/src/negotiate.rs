//! Pixel format negotiation between what a caller prefers and what a
//! codec can produce or accept.

use vstd::prelude::*;
use crate::descriptor::{PixelDescriptor, PixelFormat, format_of};

verus! {

/// The first descriptor of `a` with physical format `f`, if any.
pub open spec fn first_with_format(a: Seq<PixelDescriptor>, f: PixelFormat) -> Option<PixelDescriptor>
    decreases a.len(),
{
    if a.len() == 0 {
        None
    } else if format_of(a[0]) == f {
        Some(a[0])
    } else {
        first_with_format(a.drop_first(), f)
    }
}

/// Negotiation: for each preference in order, an identical available
/// descriptor, else the first available one with the same physical
/// format; when no preference matches, the first available descriptor.
pub open spec fn negotiate_spec(preferred: Seq<PixelDescriptor>, available: Seq<PixelDescriptor>) -> PixelDescriptor
    decreases preferred.len(),
{
    if preferred.len() == 0 {
        available[0]
    } else if available.contains(preferred[0]) {
        preferred[0]
    } else {
        match first_with_format(available, format_of(preferred[0])) {
            Some(d) => d,
            None => negotiate_spec(preferred.drop_first(), available),
        }
    }
}

/// Encode format choice: the source descriptor itself if supported, else
/// the first supported one with the same physical format.
pub open spec fn best_encode_spec(source: PixelDescriptor, supported: Seq<PixelDescriptor>) -> Option<PixelDescriptor> {
    if supported.contains(source) {
        Some(source)
    } else {
        first_with_format(supported, format_of(source))
    }
}

proof fn lemma_first_with_format_skip(a: Seq<PixelDescriptor>, f: PixelFormat, i: int)
    requires
        0 <= i < a.len(),
        forall|k: int| 0 <= k < i ==> format_of(#[trigger] a[k]) != f,
    ensures
        first_with_format(a, f) == first_with_format(a.subrange(i, a.len() as int), f),
    decreases i,
{
    if i == 0 {
        assert(a.subrange(0, a.len() as int) =~= a);
    } else {
        assert(format_of(a[0]) != f);
        assert(a.drop_first().subrange(i - 1, a.drop_first().len() as int) =~= a.subrange(i, a.len() as int));
        assert forall|k: int| 0 <= k < i - 1 implies format_of(#[trigger] a.drop_first()[k]) != f by {
            assert(a.drop_first()[k] == a[k + 1]);
        }
        lemma_first_with_format_skip(a.drop_first(), f, i - 1);
    }
}

/// Linear search for the first descriptor with the given format.
fn find_with_format(a: &[PixelDescriptor], f: PixelFormat) -> (r: Option<PixelDescriptor>)
    ensures
        r == first_with_format(a@, f),
{
    let mut i: usize = 0;
    while i < a.len()
        invariant
            i <= a@.len(),
            forall|k: int| 0 <= k < i ==> format_of(#[trigger] a@[k]) != f,
        decreases a@.len() - i,
    {
        if a[i].pixel_format() == f {
            proof {
                lemma_first_with_format_skip(a@, f, i as int);
            }
            return Some(a[i]);
        }
        i = i + 1;
    }
    proof {
        lemma_first_with_format_none(a@, f);
    }
    None
}

proof fn lemma_first_with_format_none(a: Seq<PixelDescriptor>, f: PixelFormat)
    requires
        forall|k: int| 0 <= k < a.len() ==> format_of(#[trigger] a[k]) != f,
    ensures
        first_with_format(a, f) is None,
    decreases a.len(),
{
    if a.len() > 0 {
        assert forall|k: int| 0 <= k < a.drop_first().len() implies format_of(#[trigger] a.drop_first()[k]) != f by {
            assert(a.drop_first()[k] == a[k + 1]);
        }
        lemma_first_with_format_none(a.drop_first(), f);
    }
}

/// Whether `a` holds a descriptor equal to `d`.
fn contains_descriptor(a: &[PixelDescriptor], d: PixelDescriptor) -> (r: bool)
    ensures
        r == a@.contains(d),
{
    let mut i: usize = 0;
    while i < a.len()
        invariant
            i <= a@.len(),
            forall|k: int| 0 <= k < i ==> a@[k] != d,
        decreases a@.len() - i,
    {
        if a[i] == d {
            assert(a@[i as int] == d);
            return true;
        }
        i = i + 1;
    }
    false
}

/// Select the output pixel format from the caller's ranked preferences
/// and the formats available: per preference, an exact match, else a
/// match of channel type and layout; otherwise the first available
/// format. The result is always an entry of `available`.
pub fn negotiate_pixel_format(preferred: &[PixelDescriptor], available: &[PixelDescriptor]) -> (r: PixelDescriptor)
    requires
        available@.len() > 0,
    ensures
        r == negotiate_spec(preferred@, available@),
{
    let mut i: usize = 0;
    assert(preferred@.subrange(0, preferred@.len() as int) =~= preferred@);
    while i < preferred.len()
        invariant
            i <= preferred@.len(),
            available@.len() > 0,
            negotiate_spec(preferred@.subrange(i as int, preferred@.len() as int), available@)
                == negotiate_spec(preferred@, available@),
        decreases preferred@.len() - i,
    {
        let ghost rest = preferred@.subrange(i as int, preferred@.len() as int);
        assert(rest[0] == preferred@[i as int]);
        assert(rest.drop_first() =~= preferred@.subrange(i as int + 1, preferred@.len() as int));
        let pref = preferred[i];
        if contains_descriptor(available, pref) {
            return pref;
        }
        match find_with_format(available, pref.pixel_format()) {
            Some(d) => {
                return d;
            },
            None => {},
        }
        i = i + 1;
    }
    assert(preferred@.subrange(i as int, preferred@.len() as int).len() == 0);
    available[0]
}

/// The format an encoder should accept pixel data in: the source
/// descriptor if supported, else the first supported one with the same
/// channel type and layout, else `None`.
pub fn best_encode_format(source: PixelDescriptor, supported: &[PixelDescriptor]) -> (r: Option<PixelDescriptor>)
    ensures
        r == best_encode_spec(source, supported@),
{
    if contains_descriptor(supported, source) {
        return Some(source);
    }
    find_with_format(supported, source.pixel_format())
}

/// Whether some available descriptor has the target physical format.
pub fn is_format_available(target: PixelFormat, available: &[PixelDescriptor]) -> (r: bool)
    ensures
        r == exists|k: int| 0 <= k < available@.len() && format_of(#[trigger] available@[k]) == target,
{
    let mut i: usize = 0;
    while i < available.len()
        invariant
            i <= available@.len(),
            forall|k: int| 0 <= k < i ==> format_of(#[trigger] available@[k]) != target,
        decreases available@.len() - i,
    {
        if available[i].pixel_format() == target {
            assert(format_of(available@[i as int]) == target);
            return true;
        }
        i = i + 1;
    }
    false
}

/// The negotiated format is always one of the available formats.
pub proof fn lemma_negotiated_is_available(preferred: Seq<PixelDescriptor>, available: Seq<PixelDescriptor>)
    requires
        available.len() > 0,
    ensures
        available.contains(negotiate_spec(preferred, available)),
    decreases preferred.len(),
{
    if preferred.len() > 0 && !available.contains(preferred[0]) {
        match first_with_format(available, format_of(preferred[0])) {
            Some(d) => {
                lemma_first_with_format_member(available, format_of(preferred[0]));
            },
            None => {
                lemma_negotiated_is_available(preferred.drop_first(), available);
            },
        }
    } else if preferred.len() == 0 {
        assert(available.contains(available[0]));
    }
}

/// What negotiation gives for the first preference: that preference
/// itself when it is available; otherwise, when some available entry has
/// its channel type and layout, the first such entry.
pub proof fn lemma_negotiate_first_preference(preferred: Seq<PixelDescriptor>, available: Seq<PixelDescriptor>, j: int)
    requires
        preferred.len() > 0,
        0 <= j < available.len(),
        format_of(available[j]) == format_of(preferred[0]),
        forall|k: int| 0 <= k < j ==> format_of(#[trigger] available[k]) != format_of(preferred[0]),
    ensures
        available.contains(preferred[0]) ==> negotiate_spec(preferred, available) == preferred[0],
        !available.contains(preferred[0]) ==> negotiate_spec(preferred, available) == available[j],
{
    lemma_first_with_format_skip(available, format_of(preferred[0]), j);
    let rest = available.subrange(j, available.len() as int);
    assert(rest[0] == available[j]);
}

/// Encoding prefers the source descriptor; otherwise the first supported
/// entry with the source's channel type and layout.
pub proof fn lemma_best_encode_first_format_match(source: PixelDescriptor, supported: Seq<PixelDescriptor>, j: int)
    requires
        0 <= j < supported.len(),
        format_of(supported[j]) == format_of(source),
        forall|k: int| 0 <= k < j ==> format_of(#[trigger] supported[k]) != format_of(source),
    ensures
        supported.contains(source) ==> best_encode_spec(source, supported) == Some(source),
        !supported.contains(source) ==> best_encode_spec(source, supported) == Some(supported[j]),
{
    lemma_first_with_format_skip(supported, format_of(source), j);
    let rest = supported.subrange(j, supported.len() as int);
    assert(rest[0] == supported[j]);
}

/// What the format search finds is an element with that format.
pub proof fn lemma_first_with_format_member(a: Seq<PixelDescriptor>, f: PixelFormat)
    ensures
        first_with_format(a, f) matches Some(d) ==> a.contains(d) && format_of(d) == f,
    decreases a.len(),
{
    if a.len() > 0 && format_of(a[0]) != f {
        lemma_first_with_format_member(a.drop_first(), f);
        if let Some(d) = first_with_format(a.drop_first(), f) {
            let k = choose|k: int| 0 <= k < a.drop_first().len() && a.drop_first()[k] == d;
            assert(a[k + 1] == d);
        }
    } else if a.len() > 0 {
        assert(a.contains(a[0]));
    }
}

} // verus!
