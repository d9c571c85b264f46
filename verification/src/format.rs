//! Texture formats and the choice of a surface format.
//!
//! A format is a value of `wgpu::TextureFormat`, carried through unread. What
//! this crate needs to know of one it asks of `wgpu`, through the two trusted
//! functions below.

use vstd::prelude::*;

verus! {

#[verifier::external_type_specification]
#[verifier::external_body]
pub struct ExTextureFormat(wgpu::TextureFormat);

/// What `wgpu::TextureFormat::is_srgb` answers for `format`.
pub uninterp spec fn srgb_encoded(format: wgpu::TextureFormat) -> bool;

/// What `wgpu::TextureFormat::add_srgb_suffix` returns for `format`.
pub uninterp spec fn srgb_variant(format: wgpu::TextureFormat) -> wgpu::TextureFormat;

/// Trusted: calls `wgpu::TextureFormat::is_srgb`, which compares the format
/// with its own sRGB-stripped form. The contract claims only that the answer is
/// a function of the format.
#[verifier::external_body]
pub(crate) fn is_srgb(format: &wgpu::TextureFormat) -> (r: bool)
    ensures
        r == srgb_encoded(*format),
{
    format.is_srgb()
}

/// Trusted: calls `wgpu::TextureFormat::add_srgb_suffix`, a total match on the
/// format's variant. The contract claims only that the result is a function of
/// the format.
#[verifier::external_body]
pub(crate) fn add_srgb_suffix(format: &wgpu::TextureFormat) -> (r: wgpu::TextureFormat)
    ensures
        r == srgb_variant(*format),
{
    format.add_srgb_suffix()
}

/// The position of the first `true` in `flags`; `flags.len()` where there is
/// none.
pub open spec fn first_set(flags: Seq<bool>) -> int
    decreases flags.len(),
{
    if flags.len() == 0 {
        0
    } else if flags[0] {
        0
    } else {
        1 + first_set(flags.drop_first())
    }
}

/// The position that is preferred among `flags`: that of the first `true`,
/// and the front where no flag is set.
pub open spec fn preferred_index(flags: Seq<bool>) -> int {
    if first_set(flags) < flags.len() {
        first_set(flags)
    } else {
        0
    }
}

/// For each format, whether it is sRGB-encoded.
pub open spec fn srgb_flags(formats: Seq<wgpu::TextureFormat>) -> Seq<bool> {
    Seq::new(formats.len(), |i: int| srgb_encoded(formats[i]))
}

/// The format that is chosen among `formats`, which must not be empty: the
/// first sRGB-encoded one, and the first of all where none is.
pub open spec fn preferred_format(formats: Seq<wgpu::TextureFormat>) -> wgpu::TextureFormat
    recommends
        formats.len() > 0,
{
    formats[preferred_index(srgb_flags(formats))]
}

/// `first_set` lies within `0..=len`, every flag before it is clear, and the
/// flag at it, if there is one, is set.
pub proof fn lemma_first_set(flags: Seq<bool>)
    ensures
        0 <= first_set(flags) <= flags.len(),
        forall|j: int| 0 <= j < first_set(flags) ==> !flags[j],
        first_set(flags) < flags.len() ==> flags[first_set(flags)],
    decreases flags.len(),
{
    if flags.len() > 0 && !flags[0] {
        let rest = flags.drop_first();
        lemma_first_set(rest);
        assert forall|j: int| 0 <= j < first_set(flags) implies !flags[j] by {
            if j > 0 {
                assert(flags[j] == rest[j - 1]);
            }
        }
        if first_set(rest) < rest.len() {
            assert(rest[first_set(rest)] == flags[first_set(rest) + 1]);
        }
    }
}

/// A position before which every flag is clear, and which is the end or holds
/// a set flag, is `first_set`.
pub proof fn lemma_first_set_is(flags: Seq<bool>, i: int)
    requires
        0 <= i <= flags.len(),
        forall|j: int| 0 <= j < i ==> !flags[j],
        i < flags.len() ==> flags[i],
    ensures
        first_set(flags) == i,
{
    lemma_first_set(flags);
    let k = first_set(flags);
    if k < i {
        assert(!flags[k]);
    } else if k > i {
        assert(!flags[i]);
    }
}

/// The preferred position lies within a non-empty sequence.
pub proof fn lemma_preferred_index_in_range(flags: Seq<bool>)
    requires
        flags.len() > 0,
    ensures
        0 <= preferred_index(flags) < flags.len(),
{
    lemma_first_set(flags);
}

/// The preferred format is one of those offered.
pub proof fn lemma_preferred_format_offered(formats: Seq<wgpu::TextureFormat>)
    requires
        formats.len() > 0,
    ensures
        formats.contains(preferred_format(formats)),
{
    lemma_preferred_index_in_range(srgb_flags(formats));
}

/// Where in `flags` the preferred entry stands: at the first `true`, else at
/// the front. `None` exactly for an empty vector.
pub fn select_index(flags: &Vec<bool>) -> (r: Option<usize>)
    ensures
        flags.len() == 0 ==> r is None,
        flags.len() > 0 ==> r == Some(preferred_index(flags@) as usize),
        flags.len() > 0 ==> 0 <= preferred_index(flags@) < flags.len(),
{
    if flags.len() == 0 {
        return None;
    }
    let mut i: usize = 0;
    while i < flags.len() && !flags[i]
        invariant
            0 <= i <= flags.len(),
            forall|j: int| 0 <= j < i ==> !flags@[j],
        decreases flags.len() - i,
    {
        i += 1;
    }
    proof {
        lemma_first_set_is(flags@, i as int);
    }
    if i < flags.len() {
        Some(i)
    } else {
        Some(0)
    }
}

/// Asks `wgpu` of each format whether it is sRGB-encoded.
pub fn srgb_flags_of(formats: &Vec<wgpu::TextureFormat>) -> (r: Vec<bool>)
    ensures
        r@ == srgb_flags(formats@),
{
    let mut flags: Vec<bool> = Vec::new();
    let mut i: usize = 0;
    while i < formats.len()
        invariant
            0 <= i <= formats.len(),
            flags@.len() == i,
            forall|j: int| 0 <= j < i ==> flags@[j] == srgb_encoded(formats@[j]),
        decreases formats.len() - i,
    {
        let srgb = is_srgb(&formats[i]);
        flags.push(srgb);
        i += 1;
    }
    assert(flags@ =~= srgb_flags(formats@));
    flags
}

/// Chooses the surface format among those a surface reports: the first
/// sRGB-encoded one, falling back to the first reported. `None` exactly when
/// nothing is reported.
pub fn select_format(formats: &Vec<wgpu::TextureFormat>) -> (r: Option<wgpu::TextureFormat>)
    ensures
        formats.len() == 0 ==> r is None,
        formats.len() > 0 ==> r == Some(preferred_format(formats@)),
{
    let flags = srgb_flags_of(formats);
    match select_index(&flags) {
        None => None,
        Some(i) => Some(formats[i]),
    }
}

/// The format of the view that a frame is drawn through: the sRGB-suffixed
/// form of the surface format.
pub fn view_format(surface_format: &wgpu::TextureFormat) -> (r: wgpu::TextureFormat)
    ensures
        r == srgb_variant(*surface_format),
{
    add_srgb_suffix(surface_format)
}

} // verus!
