use vstd::prelude::*;

verus! {

/// The packed form of a Vulkan API version: variant in bits 29..32, major in
/// bits 22..29, minor in bits 12..22 and patch in bits 0..12.
pub open spec fn packed_api_version(variant: u32, major: u32, minor: u32, patch: u32) -> u32 {
    ((variant << 29u32) | (major << 22u32) | (minor << 12u32) | patch) as u32
}

/// `ash::vk::make_api_version`: packs the four components with shifts and
/// bitwise or, on `u32`, exactly as `packed_api_version` states.
#[verifier::external_body]
fn ash_make_api_version(variant: u32, major: u32, minor: u32, patch: u32) -> (r: u32)
    ensures
        r == packed_api_version(variant, major, minor, patch),
{
    ash::vk::make_api_version(variant, major, minor, patch)
}

/// Packs a version given as `(variant, major, minor, patch)`.
pub fn make_api_version(version: (u32, u32, u32, u32)) -> (r: u32)
    ensures
        r == packed_api_version(version.0, version.1, version.2, version.3),
{
    ash_make_api_version(version.0, version.1, version.2, version.3)
}

} // verus!
verus! {

/// `<Box<str> as From<&str>>::from`: a boxed copy of the string, with the same
/// characters.
#[verifier::external_body]
fn boxed_str(s: &str) -> (r: Box<str>)
    ensures
        r@ == s@,
{
    Box::from(s)
}

/// What the Vulkan instance is told about the application and its engine.
pub struct ContextInfo {
    pub application_name: Box<str>,
    pub application_version: (u32, u32, u32, u32),
    pub engine_name: Box<str>,
    pub engine_version: (u32, u32, u32, u32),
}

impl Default for ContextInfo {
    fn default() -> (r: Self)
        ensures
            r.application_name@ == "Paracosm GPU App"@,
            r.application_version == (0u32, 0u32, 1u32, 0u32),
            r.engine_name@ == "Paracosm"@,
            r.engine_version == (0u32, 0u32, 1u32, 0u32),
    {
        ContextInfo {
            application_name: boxed_str("Paracosm GPU App"),
            application_version: (0, 0, 1, 0),
            engine_name: boxed_str("Paracosm"),
            engine_version: (0, 0, 1, 0),
        }
    }
}

} // verus!
verus! {

/// A version whose components fit in the bits that Vulkan gives them.
pub open spec fn valid_version(v: (u32, u32, u32, u32)) -> bool {
    v.0 < 8 && v.1 < 128 && v.2 < 1024 && v.3 < 4096
}

/// Lexicographic order on `(variant, major, minor, patch)`.
pub open spec fn version_le(a: (u32, u32, u32, u32), b: (u32, u32, u32, u32)) -> bool {
    ||| a.0 < b.0
    ||| a.0 == b.0 && a.1 < b.1
    ||| a.0 == b.0 && a.1 == b.1 && a.2 < b.2
    ||| a.0 == b.0 && a.1 == b.1 && a.2 == b.2 && a.3 <= b.3
}

proof fn lemma_packed_value(variant: u32, major: u32, minor: u32, patch: u32)
    requires
        variant < 8,
        major < 128,
        minor < 1024,
        patch < 4096,
    ensures
        packed_api_version(variant, major, minor, patch) == variant * 0x2000_0000 + major
            * 0x40_0000 + minor * 0x1000 + patch,
{
    assert(((variant << 29u32) | (major << 22u32) | (minor << 12u32) | patch) == variant
        * 0x2000_0000 + major * 0x40_0000 + minor * 0x1000 + patch) by (bit_vector)
        requires
            variant < 8,
            major < 128,
            minor < 1024,
            patch < 4096,
    ;
}

/// Packing keeps the order of versions: for versions whose components fit,
/// one packed version is at most another exactly when the versions compare
/// so component by component, variant first and patch last.
pub proof fn law_packed_version_order(a: (u32, u32, u32, u32), b: (u32, u32, u32, u32))
    requires
        valid_version(a),
        valid_version(b),
    ensures
        packed_api_version(a.0, a.1, a.2, a.3) <= packed_api_version(b.0, b.1, b.2, b.3)
            <==> version_le(a, b),
{
    lemma_packed_value(a.0, a.1, a.2, a.3);
    lemma_packed_value(b.0, b.1, b.2, b.3);
}

/// The version of the Vulkan API that the context asks for, 1.3.
pub open spec fn spec_api_version_1_3() -> u32 {
    packed_api_version(0, 1, 3, 0)
}

/// Packs Vulkan API version 1.3.
pub fn api_version_1_3() -> (r: u32)
    ensures
        r == spec_api_version_1_3(),
{
    ash_make_api_version(0, 1, 3, 0)
}

/// The three packed versions that go into the instance's application info:
/// the application's, the engine's, and the API version 1.3.
pub fn application_versions(info: &ContextInfo) -> (r: (u32, u32, u32))
    ensures
        r.0 == packed_api_version(
            info.application_version.0,
            info.application_version.1,
            info.application_version.2,
            info.application_version.3,
        ),
        r.1 == packed_api_version(
            info.engine_version.0,
            info.engine_version.1,
            info.engine_version.2,
            info.engine_version.3,
        ),
        r.2 == spec_api_version_1_3(),
{
    (make_api_version(info.application_version), make_api_version(info.engine_version), api_version_1_3())
}

/// Whether a name can become the C string that Vulkan reads: it holds no
/// NUL character.
pub fn nul_free(name: &str) -> (r: bool)
    ensures
        r == !name@.contains('\0'),
{
    let n = name.unicode_len();
    let mut i: usize = 0;
    while i < n
        invariant
            n == name@.len(),
            i <= n,
            forall|k: int| 0 <= k < i ==> name@[k] != '\0',
        decreases n - i,
    {
        if name.get_char(i) == '\0' {
            assert(name@[i as int] == '\0');
            return false;
        }
        i = i + 1;
    }
    true
}

/// Whether both names of a context can become C strings.
pub fn names_nul_free(info: &ContextInfo) -> (r: bool)
    ensures
        r == (!info.application_name@.contains('\0') && !info.engine_name@.contains('\0')),
{
    nul_free(&info.application_name) && nul_free(&info.engine_name)
}

} // verus!
