use vstd::prelude::*;

verus! {

/// Makes Verus aware of wgpu's texture format enum; values are carried opaquely.
#[verifier::external_type_specification]
#[verifier::external_body]
pub struct ExTextureFormat(wgpu::TextureFormat);

/// Whether wgpu classifies a texture format as sRGB (perceptually correct colour).
pub uninterp spec fn srgb_format(f: wgpu::TextureFormat) -> bool;

/// Relies on `wgpu::TextureFormat::is_srgb`, a pure function of the format.
pub assume_specification[ wgpu::TextureFormat::is_srgb ](f: &wgpu::TextureFormat) -> (r: bool)
    ensures
        r == srgb_format(*f),
;

/// `i` is the position of the format to use among formats whose sRGB flags are
/// `srgb`: the first flagged one, or the first of all when none is flagged.
pub open spec fn preferred_index(srgb: Seq<bool>, i: int) -> bool {
    &&& 0 <= i < srgb.len()
    &&& if exists|k: int| 0 <= k < srgb.len() && srgb[k] {
        srgb[i] && forall|j: int| 0 <= j < i ==> !srgb[j]
    } else {
        i == 0
    }
}

/// The sRGB flag of each format, as wgpu reports it.
pub open spec fn srgb_flags(formats: Seq<wgpu::TextureFormat>) -> Seq<bool> {
    formats.map_values(|f: wgpu::TextureFormat| srgb_format(f))
}

/// Picks the position of the surface format given each candidate's sRGB flag.
pub fn preferred_format_index(srgb: &Vec<bool>) -> (r: usize)
    requires
        srgb@.len() > 0,
    ensures
        preferred_index(srgb@, r as int),
{
    let mut i: usize = 0;
    while i < srgb.len()
        invariant
            0 <= i <= srgb@.len(),
            forall|j: int| 0 <= j < i ==> !srgb@[j],
        decreases srgb@.len() - i,
    {
        if srgb[i] {
            return i;
        }
        i = i + 1;
    }
    0
}

/// Chooses the surface format once from the adapter's supported formats.
pub fn choose_surface_format(formats: &Vec<wgpu::TextureFormat>) -> (r: wgpu::TextureFormat)
    requires
        formats@.len() > 0,
    ensures
        exists|i: int| preferred_index(srgb_flags(formats@), i) && r == formats@[i],
{
    let mut flags: Vec<bool> = Vec::new();
    let mut i: usize = 0;
    while i < formats.len()
        invariant
            0 <= i <= formats@.len(),
            flags@ == srgb_flags(formats@).take(i as int),
        decreases formats@.len() - i,
    {
        flags.push(formats[i].is_srgb());
        i = i + 1;
        assert(flags@ =~= srgb_flags(formats@).take(i as int));
    }
    assert(flags@ =~= srgb_flags(formats@));
    let k = preferred_format_index(&flags);
    formats[k]
}

} // verus!
