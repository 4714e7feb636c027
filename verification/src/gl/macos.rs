//! The pixel format that an OpenGL context on macOS is made with.
//!
//! The attribute numbers are AppKit's (`NSOpenGLPixelFormatAttribute` and
//! the `NSOpenGLProfileVersion` values), as `objc2-app-kit` declares them.

use vstd::prelude::*;

use crate::gl::config::{GlConfig, GlError, Profile};

verus! {

pub const NS_OPENGL_PFA_DOUBLE_BUFFER: u32 = 5;
pub const NS_OPENGL_PFA_COLOR_SIZE: u32 = 8;
pub const NS_OPENGL_PFA_ALPHA_SIZE: u32 = 11;
pub const NS_OPENGL_PFA_DEPTH_SIZE: u32 = 12;
pub const NS_OPENGL_PFA_STENCIL_SIZE: u32 = 13;
pub const NS_OPENGL_PFA_SAMPLE_BUFFERS: u32 = 55;
pub const NS_OPENGL_PFA_SAMPLES: u32 = 56;
pub const NS_OPENGL_PFA_MULTISAMPLE: u32 = 59;
pub const NS_OPENGL_PFA_ACCELERATED: u32 = 73;
pub const NS_OPENGL_PFA_OPENGL_PROFILE: u32 = 99;
pub const NS_OPENGL_PROFILE_VERSION_LEGACY: u32 = 0x1000;
pub const NS_OPENGL_PROFILE_VERSION_3_2_CORE: u32 = 0x3200;
pub const NS_OPENGL_PROFILE_VERSION_4_1_CORE: u32 = 0x4100;

/// Version `a` comes before version `b`: by major, then by minor number.
pub open spec fn version_before(a: (u8, u8), b: (u8, u8)) -> bool {
    a.0 < b.0 || (a.0 == b.0 && a.1 < b.1)
}

/// The AppKit profile version that serves a configuration: the legacy
/// profile for a compatibility context before 3.2, the 3.2 core profile
/// for a core 3.2 context, the 4.1 core profile for a core context after
/// 3.2; none otherwise.
pub open spec fn spec_profile_version(config: GlConfig) -> Option<u32> {
    if version_before(config.version, (3, 2)) && config.profile == Profile::Compatibility {
        Some(NS_OPENGL_PROFILE_VERSION_LEGACY)
    } else if config.version == (3u8, 2u8) && config.profile == Profile::Core {
        Some(NS_OPENGL_PROFILE_VERSION_3_2_CORE)
    } else if version_before((3, 2), config.version) && config.profile == Profile::Core {
        Some(NS_OPENGL_PROFILE_VERSION_4_1_CORE)
    } else {
        None
    }
}

/// The zero-terminated attribute list of the pixel format: the profile,
/// the color, alpha, depth and stencil sizes, hardware acceleration, then
/// multisampling if samples are asked for and double buffering if asked
/// for.
pub open spec fn spec_pixel_format_attributes(config: GlConfig, profile_version: u32) -> Seq<u32> {
    seq![
        NS_OPENGL_PFA_OPENGL_PROFILE,
        profile_version,
        NS_OPENGL_PFA_COLOR_SIZE,
        (config.red_bits + config.blue_bits + config.green_bits) as u32,
        NS_OPENGL_PFA_ALPHA_SIZE,
        config.alpha_bits as u32,
        NS_OPENGL_PFA_DEPTH_SIZE,
        config.depth_bits as u32,
        NS_OPENGL_PFA_STENCIL_SIZE,
        config.stencil_bits as u32,
        NS_OPENGL_PFA_ACCELERATED,
    ] + (match config.samples {
        Some(samples) => seq![
            NS_OPENGL_PFA_MULTISAMPLE,
            NS_OPENGL_PFA_SAMPLE_BUFFERS,
            1u32,
            NS_OPENGL_PFA_SAMPLES,
            samples as u32,
        ],
        None => seq![],
    }) + (if config.double_buffer {
        seq![NS_OPENGL_PFA_DOUBLE_BUFFER]
    } else {
        seq![]
    }) + seq![0u32]
}

fn version_is_before(a: (u8, u8), b: (u8, u8)) -> (r: bool)
    ensures
        r == version_before(a, b),
{
    a.0 < b.0 || (a.0 == b.0 && a.1 < b.1)
}

/// The AppKit profile version for the configuration, or
/// `VersionNotSupported` when AppKit has none for it.
pub fn profile_version(config: &GlConfig) -> (r: Result<u32, GlError>)
    ensures
        match spec_profile_version(*config) {
            Some(v) => r == Ok::<u32, GlError>(v),
            None => r == Err::<u32, GlError>(GlError::VersionNotSupported),
        },
{
    if version_is_before(config.version, (3, 2)) && config.profile == Profile::Compatibility {
        Ok(NS_OPENGL_PROFILE_VERSION_LEGACY)
    } else if config.version.0 == 3 && config.version.1 == 2 && config.profile == Profile::Core {
        Ok(NS_OPENGL_PROFILE_VERSION_3_2_CORE)
    } else if version_is_before((3, 2), config.version) && config.profile == Profile::Core {
        Ok(NS_OPENGL_PROFILE_VERSION_4_1_CORE)
    } else {
        Err(GlError::VersionNotSupported)
    }
}

/// The attribute list that the pixel format of a context for `config` is
/// made with, or `VersionNotSupported`.
pub fn pixel_format_attributes(config: &GlConfig) -> (r: Result<Vec<u32>, GlError>)
    requires
        spec_profile_version(*config) is Some ==> config.red_bits + config.blue_bits
            + config.green_bits <= u8::MAX,
    ensures
        match spec_profile_version(*config) {
            Some(v) => r is Ok && r->Ok_0@ == spec_pixel_format_attributes(*config, v),
            None => r == Err::<Vec<u32>, GlError>(GlError::VersionNotSupported),
        },
{
    let version = match profile_version(config) {
        Ok(v) => v,
        Err(e) => return Err(e),
    };
    let mut attrs: Vec<u32> = vec![
        NS_OPENGL_PFA_OPENGL_PROFILE, version,
        NS_OPENGL_PFA_COLOR_SIZE, (config.red_bits + config.blue_bits + config.green_bits) as u32,
        NS_OPENGL_PFA_ALPHA_SIZE, config.alpha_bits as u32,
        NS_OPENGL_PFA_DEPTH_SIZE, config.depth_bits as u32,
        NS_OPENGL_PFA_STENCIL_SIZE, config.stencil_bits as u32,
        NS_OPENGL_PFA_ACCELERATED,
    ];
    let ghost base = attrs@;
    if let Some(samples) = config.samples {
        attrs.push(NS_OPENGL_PFA_MULTISAMPLE);
        attrs.push(NS_OPENGL_PFA_SAMPLE_BUFFERS);
        attrs.push(1);
        attrs.push(NS_OPENGL_PFA_SAMPLES);
        attrs.push(samples as u32);
    }
    let ghost with_samples = attrs@;
    if config.double_buffer {
        attrs.push(NS_OPENGL_PFA_DOUBLE_BUFFER);
    }
    attrs.push(0);
    assert(attrs@ =~= spec_pixel_format_attributes(*config, version));
    Ok(attrs)
}

/// The checks that come before a context is made on macOS: the parent must
/// be an AppKit window, then the configuration must have a profile
/// version. Gives the attribute list of the pixel format.
pub fn context_attributes(parent_is_appkit: bool, config: &GlConfig) -> (r: Result<Vec<u32>, GlError>)
    requires
        parent_is_appkit && spec_profile_version(*config) is Some ==> config.red_bits
            + config.blue_bits + config.green_bits <= u8::MAX,
    ensures
        !parent_is_appkit ==> r == Err::<Vec<u32>, GlError>(GlError::InvalidWindowHandle),
        parent_is_appkit ==> match spec_profile_version(*config) {
            Some(v) => r is Ok && r->Ok_0@ == spec_pixel_format_attributes(*config, v),
            None => r == Err::<Vec<u32>, GlError>(GlError::VersionNotSupported),
        },
{
    if !parent_is_appkit {
        return Err(GlError::InvalidWindowHandle);
    }
    pixel_format_attributes(config)
}

/// Every configuration gets at most one profile version, and only core
/// configurations get a version from 3.2 on.
pub proof fn lemma_profile_versions(config: GlConfig)
    ensures
        spec_profile_version(config) == Some(NS_OPENGL_PROFILE_VERSION_LEGACY) ==> config.profile
            == Profile::Compatibility && version_before(config.version, (3, 2)),
        spec_profile_version(config) is Some && config.profile == Profile::Compatibility
            ==> spec_profile_version(config) == Some(NS_OPENGL_PROFILE_VERSION_LEGACY),
        config.profile == Profile::Core && version_before(config.version, (3, 2))
            ==> spec_profile_version(config) is None,
        config.profile == Profile::Compatibility && !version_before(config.version, (3, 2))
            ==> spec_profile_version(config) is None,
{
}

/// The attribute list is zero-terminated, and holds the eleven base
/// entries, five more for multisampling and one more for double buffering.
pub proof fn lemma_pixel_format_attributes_shape(config: GlConfig, v: u32)
    ensures
        spec_pixel_format_attributes(config, v).len() == 12 + (if config.samples is Some { 5int } else { 0 })
            + (if config.double_buffer { 1int } else { 0 }),
        spec_pixel_format_attributes(config, v).last() == 0,
{
}

/// Each attribute of the list is followed by its value: the profile by the
/// profile version, the color size by the sum of the red, green and blue
/// bits, the alpha, depth and stencil sizes by the alpha, depth and stencil
/// bits; acceleration is always asked for; with samples, multisampling with
/// one sample buffer of that many samples follows; double buffering comes
/// last before the terminating zero exactly when it is asked for.
pub proof fn lemma_pixel_format_attribute_values(config: GlConfig, v: u32)
    ensures
        ({
            let a = spec_pixel_format_attributes(config, v);
            let tail = if config.samples is Some { 16int } else { 11int };
            &&& a[0] == NS_OPENGL_PFA_OPENGL_PROFILE && a[1] == v
            &&& a[2] == NS_OPENGL_PFA_COLOR_SIZE
            &&& a[3] == (config.red_bits + config.green_bits + config.blue_bits) as u32
            &&& a[4] == NS_OPENGL_PFA_ALPHA_SIZE && a[5] == config.alpha_bits as u32
            &&& a[6] == NS_OPENGL_PFA_DEPTH_SIZE && a[7] == config.depth_bits as u32
            &&& a[8] == NS_OPENGL_PFA_STENCIL_SIZE && a[9] == config.stencil_bits as u32
            &&& a[10] == NS_OPENGL_PFA_ACCELERATED
            &&& config.samples matches Some(samples) ==> {
                &&& a[11] == NS_OPENGL_PFA_MULTISAMPLE
                &&& a[12] == NS_OPENGL_PFA_SAMPLE_BUFFERS && a[13] == 1
                &&& a[14] == NS_OPENGL_PFA_SAMPLES && a[15] == samples as u32
            }
            &&& config.double_buffer ==> a[tail] == NS_OPENGL_PFA_DOUBLE_BUFFER
            &&& a.len() == tail + (if config.double_buffer { 1int } else { 0 }) + 1
            &&& a[a.len() - 1] == 0
        }),
{
}

} // verus!
