//! Choosing the configuration of a presentation surface from what an adapter
//! reports for it.

use vstd::prelude::*;
use crate::gpu::{format_is_srgb, srgb_encoded};

verus! {

/// What an adapter reports as usable with a surface, each list in the
/// adapter's order of preference.
pub struct SurfaceCapabilities {
    pub formats: Vec<wgpu::TextureFormat>,
    pub present_modes: Vec<wgpu::PresentMode>,
    pub alpha_modes: Vec<wgpu::CompositeAlphaMode>,
}

/// The record that is applied to a surface.
#[derive(Clone, Copy, Debug, PartialEq, Eq)]
pub struct SurfaceConfiguration {
    pub format: wgpu::TextureFormat,
    pub present_mode: wgpu::PresentMode,
    pub alpha_mode: wgpu::CompositeAlphaMode,
    pub width: u32,
    pub height: u32,
}

/// Why no configuration could be chosen.
#[derive(Clone, Copy, Debug, PartialEq, Eq)]
pub enum ConfigureError {
    /// The requested width or height is zero.
    EmptySize,
    /// The adapter reports no format for the surface.
    NoFormat,
    /// The adapter reports no present mode for the surface.
    NoPresentMode,
    /// The adapter reports no alpha mode for the surface.
    NoAlphaMode,
}

/// `index` is the preferred entry of a list whose entries carry `flags`: the
/// first flagged entry, or the first entry when none is flagged.
pub open spec fn is_preferred(flags: Seq<bool>, index: int) -> bool {
    &&& 0 <= index < flags.len()
    &&& forall|j: int| 0 <= j < index ==> !flags[j]
    &&& (flags[index] || (index == 0 && forall|j: int| 0 <= j < flags.len() ==> !flags[j]))
}

/// The sRGB flag of every format of a list, in list order.
pub open spec fn srgb_flags(formats: Seq<wgpu::TextureFormat>) -> Seq<bool> {
    Seq::new(formats.len(), |i: int| srgb_encoded(formats[i]))
}

/// Position of the preferred entry of a list that is not empty.
pub open spec fn preferred(flags: Seq<bool>) -> int {
    choose|index: int| is_preferred(flags, index)
}

/// The format selected from a reported list: its preferred entry by sRGB
/// flag, or nothing when the list is empty.
pub open spec fn selected_format(formats: Seq<wgpu::TextureFormat>) -> Option<wgpu::TextureFormat> {
    if formats.len() == 0 {
        None
    } else {
        Some(formats[preferred(srgb_flags(formats))])
    }
}

/// The configuration chosen for given capabilities and size, or the reason
/// why there is none.
pub open spec fn chosen_configuration(
    caps: SurfaceCapabilities,
    width: u32,
    height: u32,
) -> Result<SurfaceConfiguration, ConfigureError> {
    if width == 0 || height == 0 {
        Err(ConfigureError::EmptySize)
    } else if caps.formats@.len() == 0 {
        Err(ConfigureError::NoFormat)
    } else if caps.present_modes@.len() == 0 {
        Err(ConfigureError::NoPresentMode)
    } else if caps.alpha_modes@.len() == 0 {
        Err(ConfigureError::NoAlphaMode)
    } else {
        Ok(
            SurfaceConfiguration {
                format: selected_format(caps.formats@)->0,
                present_mode: caps.present_modes@[0],
                alpha_mode: caps.alpha_modes@[0],
                width,
                height,
            },
        )
    }
}

/// A list has at most one preferred entry, so the choice is determined by the
/// flags alone.
pub proof fn preferred_entry_is_unique(flags: Seq<bool>, first: int, second: int)
    requires
        is_preferred(flags, first),
        is_preferred(flags, second),
    ensures
        first == second,
{
    if first < second {
        assert(!flags[first]);
    } else if second < first {
        assert(!flags[second]);
    }
}

/// Every list that is not empty has a preferred entry.
pub proof fn preferred_entry_exists(flags: Seq<bool>)
    requires
        flags.len() > 0,
    ensures
        exists|index: int| is_preferred(flags, index),
    decreases flags.len(),
{
    if flags[0] {
        assert(is_preferred(flags, 0));
    } else if forall|j: int| 0 <= j < flags.len() ==> !flags[j] {
        assert(is_preferred(flags, 0));
    } else {
        let rest = flags.drop_first();
        let witness = choose|j: int| 0 <= j < flags.len() && flags[j];
        assert(rest[witness - 1] == flags[witness]);
        preferred_entry_exists(rest);
        let k = choose|index: int| is_preferred(rest, index);
        assert(rest[k] == flags[k + 1]);
        assert(rest[witness - 1]);
        assert forall|j: int| 0 <= j < k + 1 implies !flags[j] by {
            if j > 0 {
                assert(rest[j - 1] == flags[j]);
            }
        }
        assert(is_preferred(flags, k + 1));
    }
}

/// The preferred entry is the first flagged entry where there is one, and the
/// first entry of the list where there is none.
pub proof fn preferred_is_first_flagged_or_first(flags: Seq<bool>)
    requires
        flags.len() > 0,
    ensures
        0 <= preferred(flags) < flags.len(),
        forall|j: int| 0 <= j < preferred(flags) ==> !flags[j],
        (exists|j: int| 0 <= j < flags.len() && flags[j]) ==> flags[preferred(flags)],
        (forall|j: int| 0 <= j < flags.len() ==> !flags[j]) ==> preferred(flags) == 0,
{
    preferred_entry_exists(flags);
}

/// The selected format is the first sRGB encoded format of the list where
/// there is one, and the first format of the list where there is none.
pub proof fn selection_prefers_first_srgb_format(formats: Seq<wgpu::TextureFormat>)
    requires
        formats.len() > 0,
    ensures
        ({
            let index = preferred(srgb_flags(formats));
            &&& 0 <= index < formats.len()
            &&& selected_format(formats) == Some(formats[index])
            &&& forall|j: int| 0 <= j < index ==> !srgb_encoded(#[trigger] formats[j])
            &&& (exists|j: int| 0 <= j < formats.len() && srgb_encoded(#[trigger] formats[j]))
                ==> srgb_encoded(formats[index])
            &&& (forall|j: int| 0 <= j < formats.len() ==> !srgb_encoded(#[trigger] formats[j]))
                ==> index == 0
        }),
{
    let flags = srgb_flags(formats);
    preferred_is_first_flagged_or_first(flags);
    let index = preferred(flags);
    assert forall|j: int| 0 <= j < index implies !srgb_encoded(#[trigger] formats[j]) by {
        assert(!flags[j]);
    }
    if exists|j: int| 0 <= j < formats.len() && srgb_encoded(#[trigger] formats[j]) {
        let j = choose|j: int| 0 <= j < formats.len() && srgb_encoded(#[trigger] formats[j]);
        assert(flags[j]);
        assert(flags[index]);
    }
    if forall|j: int| 0 <= j < formats.len() ==> !srgb_encoded(#[trigger] formats[j]) {
        assert forall|j: int| 0 <= j < flags.len() implies !flags[j] by {
            assert(!srgb_encoded(formats[j]));
        }
    }
}

/// Position of the preferred entry of a list of flags: the first flagged
/// entry, else the first entry; `None` for an empty list.
pub fn preferred_index(flags: &Vec<bool>) -> (choice: Option<usize>)
    ensures
        choice is None <==> flags@.len() == 0,
        choice matches Some(index) ==> index as int == preferred(flags@) && is_preferred(
            flags@,
            index as int,
        ),
{
    if flags.len() == 0 {
        return None;
    }
    let mut i: usize = 0;
    while i < flags.len()
        invariant
            0 <= i <= flags@.len(),
            forall|j: int| 0 <= j < i ==> !flags@[j],
        decreases flags@.len() - i,
    {
        if flags[i] {
            proof {
                assert(is_preferred(flags@, i as int));
                preferred_entry_is_unique(flags@, i as int, preferred(flags@));
            }
            return Some(i);
        }
        i += 1;
    }
    proof {
        assert(is_preferred(flags@, 0));
        preferred_entry_is_unique(flags@, 0, preferred(flags@));
    }
    Some(0)
}

/// The sRGB flag of each reported format, in the reported order.
pub fn format_flags(formats: &Vec<wgpu::TextureFormat>) -> (flags: Vec<bool>)
    ensures
        flags@ == srgb_flags(formats@),
{
    let mut flags: Vec<bool> = Vec::new();
    let mut i: usize = 0;
    while i < formats.len()
        invariant
            0 <= i <= formats@.len(),
            flags@.len() == i,
            forall|j: int| 0 <= j < i ==> flags@[j] == srgb_encoded(formats@[j]),
        decreases formats@.len() - i,
    {
        let flag = format_is_srgb(&formats[i]);
        flags.push(flag);
        i += 1;
    }
    assert(flags@ =~= srgb_flags(formats@));
    flags
}

/// Selects the presentation format: the first reported format that is sRGB
/// encoded, or the first reported format when none is. `None` when the list
/// is empty.
pub fn select_format(formats: &Vec<wgpu::TextureFormat>) -> (choice: Option<wgpu::TextureFormat>)
    ensures
        choice == selected_format(formats@),
{
    let flags = format_flags(formats);
    match preferred_index(&flags) {
        None => None,
        Some(index) => {
            proof {
                preferred_is_first_flagged_or_first(flags@);
            }
            Some(formats[index])
        },
    }
}

/// Chooses the configuration for a surface of the given size: the preferred
/// format, the first reported present mode and the first reported alpha mode.
pub fn configure(caps: &SurfaceCapabilities, width: u32, height: u32) -> (outcome: Result<
    SurfaceConfiguration,
    ConfigureError,
>)
    ensures
        outcome == chosen_configuration(*caps, width, height),
{
    if width == 0 || height == 0 {
        return Err(ConfigureError::EmptySize);
    }
    match select_format(&caps.formats) {
        None => Err(ConfigureError::NoFormat),
        Some(format) => {
            if caps.present_modes.len() == 0 {
                Err(ConfigureError::NoPresentMode)
            } else if caps.alpha_modes.len() == 0 {
                Err(ConfigureError::NoAlphaMode)
            } else {
                Ok(
                    SurfaceConfiguration {
                        format,
                        present_mode: caps.present_modes[0],
                        alpha_mode: caps.alpha_modes[0],
                        width,
                        height,
                    },
                )
            }
        },
    }
}

} // verus!
