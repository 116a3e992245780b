//! Whether a physical device meets what the engine requires, and why not.
use vstd::prelude::*;
use vstd::string::StringExecFns;

use crate::propellant::vulkan::queue_family_indices::{QueueFamily, QueueFamilyIndices};
use crate::propellant::vulkan::utils::{format_api_version, spec_format_api_version};
use crate::propellant::vulkan::vk;

verus! {

/// The Vulkan version the engine is written against: 1.3.0.
pub open spec fn spec_vulkan_api_version() -> u32 {
    (0u32 << 29u32) | (1u32 << 22u32) | (3u32 << 12u32) | 0u32
}

/// The Vulkan version the engine is written against: 1.3.0.
pub fn vulkan_api_version() -> (version: u32)
    ensures
        version == spec_vulkan_api_version(),
{
    vk::make_api_version(0, 1, 3, 0)
}

/// The names of the device extensions the engine needs.
pub open spec fn spec_required_device_extensions() -> Seq<Seq<char>> {
    seq!["VK_KHR_swapchain"@, "VK_EXT_descriptor_indexing"@]
}

/// The names of the device extensions the engine needs.
pub fn required_device_extensions() -> (names: Vec<String>)
    ensures
        names@.len() == spec_required_device_extensions().len(),
        forall|i: int|
            0 <= i < names@.len() ==> #[trigger] names@[i]@ == spec_required_device_extensions()[i],
{
    let mut names = Vec::new();
    names.push(vk::khr_swapchain_name());
    names.push(vk::ext_descriptor_indexing_name());
    names
}

/// Number of feature flags of a Vulkan device: the fields of its standard
/// feature set, in declaration order.
pub const DEVICE_FEATURE_COUNT: usize = 55;

/// The features the engine requires, one flag per standard device feature:
/// none for now.
pub open spec fn spec_required_device_features() -> Seq<u32> {
    Seq::new(DEVICE_FEATURE_COUNT as nat, |i: int| 0u32)
}

/// The features the engine requires, one flag per standard device feature
/// in declaration order: none for now.
pub fn required_device_features() -> (flags: Vec<u32>)
    ensures
        flags@ == spec_required_device_features(),
{
    let mut flags: Vec<u32> = Vec::new();
    let mut i: usize = 0;
    while i < DEVICE_FEATURE_COUNT
        invariant
            i <= DEVICE_FEATURE_COUNT,
            flags@ == Seq::new(i as nat, |k: int| 0u32),
        decreases DEVICE_FEATURE_COUNT - i,
    {
        flags.push(0);
        i = i + 1;
    }
    flags
}

/// Whether `extensions` names `name`.
pub open spec fn names_contain(extensions: Seq<String>, name: Seq<char>) -> bool {
    exists|j: int| 0 <= j < extensions.len() && #[trigger] extensions[j]@ == name
}

/// Whether every required extension is among the supported ones.
pub open spec fn spec_extensions_check(extensions: Seq<String>) -> bool {
    forall|i: int|
        0 <= i < spec_required_device_extensions().len() ==> names_contain(
            extensions,
            #[trigger] spec_required_device_extensions()[i],
        )
}

/// Whether `extensions` names `name`.
pub(crate) fn contains_name(extensions: &[String], name: &String) -> (found: bool)
    ensures
        found == names_contain(extensions@, name@),
{
    let mut i: usize = 0;
    while i < extensions.len()
        invariant
            i <= extensions@.len(),
            forall|j: int| 0 <= j < i ==> extensions@[j]@ != name@,
        decreases extensions@.len() - i,
    {
        if extensions[i] == *name {
            return true;
        }
        i = i + 1;
    }
    false
}

/// Whether the device supports every extension the engine needs, given the
/// names of the extensions it supports.
pub fn physical_device_extensions_check(extensions: &[String]) -> (supported: bool)
    ensures
        supported == spec_extensions_check(extensions@),
{
    let required = required_device_extensions();
    let mut i: usize = 0;
    while i < required.len()
        invariant
            i <= required@.len(),
            required@.len() == spec_required_device_extensions().len(),
            forall|k: int|
                0 <= k < required@.len() ==> #[trigger] required@[k]@
                    == spec_required_device_extensions()[k],
            forall|k: int|
                0 <= k < i ==> names_contain(
                    extensions@,
                    #[trigger] spec_required_device_extensions()[k],
                ),
        decreases required@.len() - i,
    {
        if !contains_name(extensions, &required[i]) {
            assert(!names_contain(extensions@, spec_required_device_extensions()[i as int]));
            return false;
        }
        i = i + 1;
    }
    true
}

/// Bitwise AND, over the features, of `(1 - required) | available`.
pub open spec fn features_fold(required: Seq<u32>, available: Seq<u32>) -> u32
    decreases required.len(),
{
    if required.len() == 0 {
        u32::MAX
    } else {
        features_fold(required.drop_last(), available.drop_last()) & (((1 - required.last()) as u32)
            | available.last())
    }
}

/// Whether a device offers the required features: for each feature flag,
/// either it is not required or the device has it. Flags are Vulkan
/// booleans, 0 or 1; the check ANDs `(1 - required) | available` over all
/// of them and tests the result for non-zero.
pub fn physical_device_features_check(required: &[u32], available: &[u32]) -> (supported: bool)
    requires
        required@.len() == available@.len(),
        forall|i: int| 0 <= i < required@.len() ==> #[trigger] required@[i] <= 1,
    ensures
        supported == (features_fold(required@, available@) > 0),
{
    let mut acc: u32 = u32::MAX;
    let mut i: usize = 0;
    while i < required.len()
        invariant
            i <= required@.len(),
            required@.len() == available@.len(),
            forall|k: int| 0 <= k < required@.len() ==> #[trigger] required@[k] <= 1,
            acc == features_fold(required@.take(i as int), available@.take(i as int)),
        decreases required@.len() - i,
    {
        proof {
            assert(required@.take(i + 1).drop_last() =~= required@.take(i as int));
            assert(available@.take(i + 1).drop_last() =~= available@.take(i as int));
        }
        acc = acc & ((1 - required[i]) | available[i]);
        i = i + 1;
    }
    proof {
        assert(required@.take(i as int) =~= required@);
        assert(available@.take(i as int) =~= available@);
    }
    acc > 0
}

/// The verdict on a physical device.
#[derive(Debug, PartialEq, Eq)]
pub enum DeviceClassification {
    /// The device meets every requirement; the queue families to use.
    Usable(QueueFamilyIndices),
    /// The device cannot be used, for the given reason.
    Unusable(String),
}

/// Why a device whose Vulkan version is too old is refused.
pub open spec fn spec_api_version_reason(found: u32) -> Seq<char> {
    "Invalid API version: required "@ + spec_format_api_version(spec_vulkan_api_version())
        + ", found "@ + spec_format_api_version(found)
}

/// The verdict on a device, checking in order its Vulkan version, its
/// queue families, its features, its extensions and its surface support.
pub open spec fn spec_classification(
    api_version: u32,
    indices: Option<QueueFamilyIndices>,
    features_ok: bool,
    extensions_ok: bool,
    format_count: nat,
    present_mode_count: nat,
) -> Result<QueueFamilyIndices, Seq<char>> {
    if api_version < spec_vulkan_api_version() {
        Err(spec_api_version_reason(api_version))
    } else if indices is None {
        Err("No suitable graphics queue family"@)
    } else if !features_ok {
        Err("Device does not have the required features"@)
    } else if !extensions_ok {
        Err("Device does not have the required extensions"@)
    } else if format_count == 0 || present_mode_count == 0 {
        Err("Device has insufficient surface support"@)
    } else {
        Ok(indices.unwrap())
    }
}

impl DeviceClassification {
    /// The verdict as a result: the queue families, or the reason.
    pub open spec fn spec_result(&self) -> Result<QueueFamilyIndices, Seq<char>> {
        match self {
            DeviceClassification::Usable(indices) => Ok(*indices),
            DeviceClassification::Unusable(reason) => Err(reason@),
        }
    }
}

/// Decides whether a physical device can run the engine, from what the
/// device reports: its Vulkan version, its queue families and which of them
/// can present to the window surface, its feature flags (the engine
/// requires those in `required_features`), the names of its extensions and
/// how many surface formats and present modes it offers.
pub fn check_physical_device_capabilities(
    api_version: u32,
    queue_families: &[QueueFamily],
    present_support: &[bool],
    required_features: &[u32],
    features: &[u32],
    extensions: &[String],
    format_count: usize,
    present_mode_count: usize,
) -> (verdict: DeviceClassification)
    requires
        queue_families@.len() == present_support@.len(),
        queue_families@.len() <= u32::MAX,
        required_features@.len() == features@.len(),
        forall|i: int| 0 <= i < required_features@.len() ==> #[trigger] required_features@[i] <= 1,
    ensures
        exists|indices: Option<QueueFamilyIndices>|
            QueueFamilyIndices::is_choice(queue_families@, present_support@, indices)
                && verdict.spec_result() == spec_classification(
                api_version,
                indices,
                features_fold(required_features@, features@) > 0,
                spec_extensions_check(extensions@),
                format_count as nat,
                present_mode_count as nat,
            ),
{
    let required_version = vulkan_api_version();
    let indices = QueueFamilyIndices::get(queue_families, present_support);
    if api_version < required_version {
        proof {
            reveal_strlit("Invalid API version: required ");
            reveal_strlit(", found ");
        }
        let reason = String::from_str("Invalid API version: required ").concat(
            format_api_version(required_version).as_str(),
        ).concat(", found ").concat(format_api_version(api_version).as_str());
        return DeviceClassification::Unusable(reason);
    }
    let indices = match indices {
        Some(indices) => indices,
        None => {
            return DeviceClassification::Unusable(
                String::from_str("No suitable graphics queue family"),
            )
        },
    };
    if !physical_device_features_check(required_features, features) {
        return DeviceClassification::Unusable(
            String::from_str("Device does not have the required features"),
        );
    }
    if !physical_device_extensions_check(extensions) {
        return DeviceClassification::Unusable(
            String::from_str("Device does not have the required extensions"),
        );
    }
    if format_count == 0 || present_mode_count == 0 {
        return DeviceClassification::Unusable(
            String::from_str("Device has insufficient surface support"),
        );
    }
    DeviceClassification::Usable(indices)
}

/// Law: a device is refused for its Vulkan version exactly when that
/// version is older than 1.3.0. Any version from 1.3.0 on, such as 1.3.277
/// or 1.4.0, gets the verdict that 1.3.0 itself gets with the same queue
/// families, features, extensions and surface support; an older one is
/// refused with the version reason, whatever else the device offers.
pub proof fn lemma_api_version_threshold(
    api_version: u32,
    indices: Option<QueueFamilyIndices>,
    features_ok: bool,
    extensions_ok: bool,
    format_count: nat,
    present_mode_count: nat,
)
    ensures
        spec_vulkan_api_version() == (1u32 << 22u32) | (3u32 << 12u32),
        api_version >= spec_vulkan_api_version() ==> spec_classification(
            api_version,
            indices,
            features_ok,
            extensions_ok,
            format_count,
            present_mode_count,
        ) == spec_classification(
            spec_vulkan_api_version(),
            indices,
            features_ok,
            extensions_ok,
            format_count,
            present_mode_count,
        ),
        api_version < spec_vulkan_api_version() ==> spec_classification(
            api_version,
            indices,
            features_ok,
            extensions_ok,
            format_count,
            present_mode_count,
        ) == Err::<QueueFamilyIndices, Seq<char>>(spec_api_version_reason(api_version)),
        api_version >= spec_vulkan_api_version() && indices is Some && features_ok && extensions_ok
            && format_count > 0 && present_mode_count > 0 ==> spec_classification(
            api_version,
            indices,
            features_ok,
            extensions_ok,
            format_count,
            present_mode_count,
        ) == Ok::<QueueFamilyIndices, Seq<char>>(indices.unwrap()),
{
    assert((0u32 << 29u32) | (1u32 << 22u32) | (3u32 << 12u32) | 0u32 == (1u32 << 22u32) | (3u32
        << 12u32)) by (bit_vector);
}

/// Law: while no feature is required, every device passes the feature
/// check, whatever flags it reports.
pub proof fn lemma_no_required_feature_passes(required: Seq<u32>, available: Seq<u32>)
    requires
        required.len() == available.len(),
        forall|i: int| 0 <= i < required.len() ==> #[trigger] required[i] == 0,
    ensures
        features_fold(required, available) > 0,
{
    lemma_fold_odd(required, available);
}

proof fn lemma_fold_odd(required: Seq<u32>, available: Seq<u32>)
    requires
        required.len() == available.len(),
        forall|i: int| 0 <= i < required.len() ==> #[trigger] required[i] == 0,
    ensures
        features_fold(required, available) % 2 == 1,
    decreases required.len(),
{
    if required.len() > 0 {
        lemma_fold_odd(required.drop_last(), available.drop_last());
        let acc = features_fold(required.drop_last(), available.drop_last());
        let a = available.last();
        assert(required.last() == 0);
        assert(acc % 2 == 1 ==> (acc & ((1u32 - 0u32) as u32 | a)) % 2 == 1) by (bit_vector);
    } else {
        assert(u32::MAX % 2 == 1);
    }
}

/// Law: when every flag is a Vulkan boolean (0 or 1), a device passes the
/// feature check exactly when it has every required feature.
pub proof fn lemma_features_check_boolean(required: Seq<u32>, available: Seq<u32>)
    requires
        required.len() == available.len(),
        forall|i: int| 0 <= i < required.len() ==> #[trigger] required[i] <= 1,
        forall|i: int| 0 <= i < available.len() ==> #[trigger] available[i] <= 1,
    ensures
        (features_fold(required, available) > 0) <==> (forall|i: int|
            0 <= i < required.len() && #[trigger] required[i] == 1 ==> available[i] == 1),
    decreases required.len(),
{
    if required.len() > 0 {
        let n = required.len() - 1;
        let rs = required.drop_last();
        let avs = available.drop_last();
        assert forall|i: int| 0 <= i < rs.len() implies #[trigger] rs[i] <= 1 by {
            assert(rs[i] == required[i]);
        }
        assert forall|i: int| 0 <= i < avs.len() implies #[trigger] avs[i] <= 1 by {
            assert(avs[i] == available[i]);
        }
        lemma_features_check_boolean(rs, avs);
        lemma_fold_range(rs, avs);
        let acc = features_fold(rs, avs);
        let r = required[n];
        let a = available[n];
        assert(r <= 1);
        assert(a <= 1);
        let term = ((1 - r) as u32) | a;
        assert(features_fold(required, available) == acc & term);
        assert((acc & term > 0) <==> (acc > 0 && (r == 1 ==> a == 1))) by (bit_vector)
            requires
                r <= 1,
                a <= 1,
                acc == 0 || acc == 1 || acc == 0xffff_ffffu32,
                term == ((1 - r) as u32) | a,
        ;
        let all_before = forall|i: int| 0 <= i < rs.len() && #[trigger] rs[i] == 1 ==> avs[i] == 1;
        let all = forall|i: int|
            0 <= i < required.len() && #[trigger] required[i] == 1 ==> available[i] == 1;
        if all {
            assert forall|i: int| 0 <= i < rs.len() && #[trigger] rs[i] == 1 implies avs[i] == 1 by {
                assert(rs[i] == required[i]);
                assert(avs[i] == available[i]);
            }
            assert(r == 1 ==> a == 1);
        }
        if all_before && (r == 1 ==> a == 1) {
            assert forall|i: int| 0 <= i < required.len() && #[trigger] required[i] == 1 implies available[i] == 1 by {
                if i < n {
                    assert(rs[i] == required[i]);
                    assert(avs[i] == available[i]);
                }
            }
        }
    }
}

/// With Vulkan booleans, the folded value is 0, 1, or all ones when there
/// is no flag at all.
proof fn lemma_fold_range(required: Seq<u32>, available: Seq<u32>)
    requires
        required.len() == available.len(),
        forall|i: int| 0 <= i < required.len() ==> #[trigger] required[i] <= 1,
        forall|i: int| 0 <= i < available.len() ==> #[trigger] available[i] <= 1,
    ensures
        features_fold(required, available) == 0 || features_fold(required, available) == 1
            || features_fold(required, available) == u32::MAX,
    decreases required.len(),
{
    if required.len() > 0 {
        lemma_fold_range(required.drop_last(), available.drop_last());
        let acc = features_fold(required.drop_last(), available.drop_last());
        let r = required.last();
        let a = available.last();
        assert(r <= 1 && a <= 1 && (acc == 0 || acc == 1 || acc == u32::MAX) ==> ((acc & ((1u32
            - r) as u32 | a)) == 0 || (acc & ((1u32 - r) as u32 | a)) == 1)) by (bit_vector);
    }
}

} // verus!
