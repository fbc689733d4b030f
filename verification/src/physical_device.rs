use crate::memory::flags_contain;
use crate::queue_families::{QueueFamilyProperties, QUEUE_GRAPHICS};
use vstd::prelude::*;
use vstd::utf8::{decode_utf8, valid_utf8};

verus! {

/// `VK_TRUE`.
pub const VK_TRUE: u32 = 1;

/// `VK_FALSE`.
pub const VK_FALSE: u32 = 0;

/// `VK_PHYSICAL_DEVICE_TYPE_INTEGRATED_GPU`.
pub const DEVICE_TYPE_INTEGRATED_GPU: i32 = 1;

/// `VK_PHYSICAL_DEVICE_TYPE_DISCRETE_GPU`.
pub const DEVICE_TYPE_DISCRETE_GPU: i32 = 2;

/// Position of `shaderSampledImageArrayNonUniformIndexing` among the
/// descriptor indexing features.
pub const SHADER_SAMPLED_IMAGE_ARRAY_NON_UNIFORM_INDEXING: usize = 4;

/// Position of `runtimeDescriptorArray` among the descriptor indexing
/// features.
pub const RUNTIME_DESCRIPTOR_ARRAY: usize = 19;

/// The feature was asked for but the device does not offer it.
pub open spec fn requested_and_not_available(requested: u32, available: u32) -> bool {
    requested == VK_TRUE && available == VK_FALSE
}

/// Returns true when request is true but available is false.
pub fn is_requested_and_not_available(requested: u32, available: u32) -> (missing: bool)
    ensures
        missing == requested_and_not_available(requested, available),
{
    requested == VK_TRUE && available == VK_FALSE
}

/// No feature flag in `requested` is asked for and missing from `available`.
pub open spec fn all_requested_available(requested: Seq<u32>, available: Seq<u32>) -> bool {
    forall|i: int|
        0 <= i < requested.len() ==> !requested_and_not_available(
            #[trigger] requested[i],
            available[i],
        )
}

/// The position of the first feature flag that is asked for and missing, if
/// any.
pub fn first_unavailable_feature<const N: usize>(
    requested: &[u32; N],
    available: &[u32; N],
) -> (missing: Option<usize>)
    ensures
        match missing {
            Some(i) => {
                &&& i < N
                &&& requested_and_not_available(requested@[i as int], available@[i as int])
                &&& all_requested_available(
                    requested@.take(i as int),
                    available@.take(i as int),
                )
            },
            None => all_requested_available(requested@, available@),
        },
{
    let mut i: usize = 0;
    while i < N
        invariant
            i <= N,
            requested@.len() == N,
            available@.len() == N,
            all_requested_available(requested@.take(i as int), available@.take(i as int)),
        decreases N - i,
    {
        if is_requested_and_not_available(requested[i], available[i]) {
            return Some(i);
        }
        assert(all_requested_available(
            requested@.take(i + 1 as int),
            available@.take(i + 1 as int),
        )) by {
            assert forall|j: int| 0 <= j < i + 1 implies !requested_and_not_available(
                #[trigger] requested@.take(i + 1 as int)[j],
                available@.take(i + 1 as int)[j],
            ) by {
                if j < i {
                    assert(requested@.take(i as int)[j] == requested@[j]);
                }
            }
        }
        i = i + 1;
    }
    assert(requested@.take(N as int) == requested@);
    assert(available@.take(N as int) == available@);
    None
}

/// The core feature flags (`VkPhysicalDeviceFeatures`), in the order in
/// which the structure declares them, from `robustBufferAccess` to
/// `inheritedQueries`.
#[derive(Copy, Clone, Debug, PartialEq, Eq)]
pub struct PhysicalDeviceFeatures {
    pub flags: [u32; 55],
}

/// The Vulkan 1.3 feature flags (`VkPhysicalDeviceVulkan13Features`), in
/// declaration order, from `robustImageAccess` to `maintenance4`.
#[derive(Copy, Clone, Debug, PartialEq, Eq)]
pub struct PhysicalDeviceVulkan13Features {
    pub flags: [u32; 15],
}

/// The descriptor indexing feature flags
/// (`VkPhysicalDeviceDescriptorIndexingFeatures`), in declaration order,
/// from `shaderInputAttachmentArrayDynamicIndexing` to
/// `runtimeDescriptorArray`.
#[derive(Copy, Clone, Debug, PartialEq, Eq)]
pub struct PhysicalDeviceDescriptorIndexingFeatures {
    pub flags: [u32; 20],
}

/// Every requested core feature is available.
pub fn are_physical_device_features_supported(
    requested: &PhysicalDeviceFeatures,
    available: &PhysicalDeviceFeatures,
) -> (supported: bool)
    ensures
        supported == all_requested_available(requested.flags@, available.flags@),
{
    first_unavailable_feature(&requested.flags, &available.flags).is_none()
}

/// Every requested Vulkan 1.3 feature is available.
pub fn are_physical_device_vulkan_13_features_supported(
    requested: &PhysicalDeviceVulkan13Features,
    available: &PhysicalDeviceVulkan13Features,
) -> (supported: bool)
    ensures
        supported == all_requested_available(requested.flags@, available.flags@),
{
    first_unavailable_feature(&requested.flags, &available.flags).is_none()
}

/// Every requested descriptor indexing feature is available.
pub fn are_descriptor_indexing_features(
    requested: &PhysicalDeviceDescriptorIndexingFeatures,
    available: &PhysicalDeviceDescriptorIndexingFeatures,
) -> (supported: bool)
    ensures
        supported == all_requested_available(requested.flags@, available.flags@),
{
    first_unavailable_feature(&requested.flags, &available.flags).is_none()
}

/// The parts of a device's properties that device selection reads.
#[derive(Clone, Debug)]
pub struct PhysicalDeviceProperties {
    pub device_type: i32,
    /// The raw bytes of the device name, as stored by the driver.
    pub device_name: Vec<u8>,
}

/// The bytes of `bytes` that are not zero, in order.
pub open spec fn nonzero_bytes(bytes: Seq<u8>) -> Seq<u8> {
    bytes.filter(|b: u8| b != 0)
}

/// Drop every zero byte.
pub fn strip_zero_bytes(bytes: &Vec<u8>) -> (stripped: Vec<u8>)
    ensures
        stripped@ == nonzero_bytes(bytes@),
{
    let mut stripped: Vec<u8> = Vec::new();
    let mut i: usize = 0;
    while i < bytes.len()
        invariant
            i <= bytes.len(),
            stripped@ == nonzero_bytes(bytes@.take(i as int)),
        decreases bytes.len() - i,
    {
        proof {
            reveal(Seq::filter);
            assert(bytes@.take(i + 1 as int).drop_last() == bytes@.take(i as int));
        }
        if bytes[i] != 0 {
            stripped.push(bytes[i]);
        }
        i = i + 1;
    }
    assert(bytes@.take(bytes.len() as int) == bytes@);
    stripped
}

/// `String::from_utf8`: the text that `bytes` encode when they are valid
/// UTF-8, nothing otherwise.
#[verifier::external_body]
fn string_from_utf8(bytes: Vec<u8>) -> (text: Option<String>)
    ensures
        text is Some <==> valid_utf8(bytes@),
        text matches Some(t) ==> t@ == decode_utf8(bytes@),
{
    String::from_utf8(bytes).ok()
}

/// Whether the bytes, with zero bytes dropped, are valid UTF-8.
pub fn nonzero_bytes_are_utf8(bytes: &Vec<u8>) -> (valid: bool)
    ensures
        valid == valid_utf8(nonzero_bytes(bytes@)),
{
    string_from_utf8(strip_zero_bytes(bytes)).is_some()
}

/// The names encoded by each raw name, with zero bytes dropped; raw names
/// that are not valid UTF-8 are skipped.
pub open spec fn decoded_names(raw_names: Seq<Seq<u8>>) -> Seq<Seq<char>>
    decreases raw_names.len(),
{
    if raw_names.len() == 0 {
        Seq::empty()
    } else {
        let rest = decoded_names(raw_names.drop_last());
        let bytes = nonzero_bytes(raw_names.last());
        if valid_utf8(bytes) {
            rest.push(decode_utf8(bytes))
        } else {
            rest
        }
    }
}

/// Turn the raw extension names that a driver reports into strings.
pub fn extension_names(raw_names: &Vec<Vec<u8>>) -> (names: Vec<String>)
    ensures
        names@.map_values(|s: String| s@) == decoded_names(
            raw_names@.map_values(|v: Vec<u8>| v@),
        ),
{
    let ghost raw = raw_names@.map_values(|v: Vec<u8>| v@);
    let mut names: Vec<String> = Vec::new();
    let mut i: usize = 0;
    while i < raw_names.len()
        invariant
            i <= raw_names.len(),
            raw == raw_names@.map_values(|v: Vec<u8>| v@),
            names@.map_values(|s: String| s@) == decoded_names(raw.take(i as int)),
        decreases raw_names.len() - i,
    {
        assert(raw.take(i + 1 as int).drop_last() == raw.take(i as int));
        let bytes = strip_zero_bytes(&raw_names[i]);
        let ghost before = names@;
        match string_from_utf8(bytes) {
            Some(name) => {
                names.push(name);
                assert(names@.map_values(|s: String| s@) == before.map_values(|s: String| s@).push(
                    name@,
                ));
            },
            None => {},
        }
        i = i + 1;
    }
    assert(raw.take(raw_names.len() as int) == raw);
    names
}

/// Represents the PhysicalDevice features and properties for a particular
/// device.
#[derive(Clone, Debug)]
pub struct PhysicalDeviceMetadata {
    pub queue_family_properties: Vec<QueueFamilyProperties>,
    pub supported_extensions: Vec<String>,
    pub physical_device_features: PhysicalDeviceFeatures,
    pub physical_device_vulkan_13_features: PhysicalDeviceVulkan13Features,
    pub descriptor_indexing_features: PhysicalDeviceDescriptorIndexingFeatures,
    pub physical_device_properties: PhysicalDeviceProperties,
}

impl PhysicalDeviceMetadata {
    /// Returns a readable copy of the Device Name: its bytes without the zero
    /// bytes, which must be valid UTF-8.
    pub fn device_name(&self) -> (name: String)
        requires
            valid_utf8(nonzero_bytes(self.physical_device_properties.device_name@)),
        ensures
            name@ == decode_utf8(nonzero_bytes(self.physical_device_properties.device_name@)),
    {
        let bytes = strip_zero_bytes(&self.physical_device_properties.device_name);
        match string_from_utf8(bytes) {
            Some(name) => name,
            None => String::new(),
        }
    }

    /// Returns true when all of the requested features are supported.
    pub fn supports_features(&self, requested_features: PhysicalDeviceFeatures) -> (supported:
        bool)
        ensures
            supported == all_requested_available(
                requested_features.flags@,
                self.physical_device_features.flags@,
            ),
    {
        are_physical_device_features_supported(&requested_features, &self.physical_device_features)
    }

    /// Returns true when all of the requested features are supported.
    pub fn supports_vulkan_13_features(
        &self,
        requested_features: PhysicalDeviceVulkan13Features,
    ) -> (supported: bool)
        ensures
            supported == all_requested_available(
                requested_features.flags@,
                self.physical_device_vulkan_13_features.flags@,
            ),
    {
        are_physical_device_vulkan_13_features_supported(
            &requested_features,
            &self.physical_device_vulkan_13_features,
        )
    }

    /// Returns true when all of the requested features are supported.
    pub fn supports_descriptor_indexing_features(
        &self,
        requested_features: PhysicalDeviceDescriptorIndexingFeatures,
    ) -> (supported: bool)
        ensures
            supported == all_requested_available(
                requested_features.flags@,
                self.descriptor_indexing_features.flags@,
            ),
    {
        are_descriptor_indexing_features(&requested_features, &self.descriptor_indexing_features)
    }
}

/// The descriptor indexing features this application needs: non-uniform
/// indexing of sampled image arrays and runtime descriptor arrays.
pub fn required_descriptor_indexing_features() -> (features:
    PhysicalDeviceDescriptorIndexingFeatures)
    ensures
        forall|i: int|
            0 <= i < 20 ==> #[trigger] features.flags@[i] == if i
                == SHADER_SAMPLED_IMAGE_ARRAY_NON_UNIFORM_INDEXING || i == RUNTIME_DESCRIPTOR_ARRAY {
                VK_TRUE
            } else {
                VK_FALSE
            },
{
    let mut flags = [VK_FALSE; 20];
    flags[SHADER_SAMPLED_IMAGE_ARRAY_NON_UNIFORM_INDEXING] = VK_TRUE;
    flags[RUNTIME_DESCRIPTOR_ARRAY] = VK_TRUE;
    PhysicalDeviceDescriptorIndexingFeatures { flags }
}

/// The device offers every feature this application needs. No core or
/// Vulkan 1.3 feature is asked for; of the descriptor indexing features,
/// the two of `required_descriptor_indexing_features` are.
pub open spec fn has_required_features(metadata: PhysicalDeviceMetadata) -> bool {
    &&& all_requested_available(Seq::new(55, |i: int| VK_FALSE), metadata.physical_device_features.flags@)
    &&& all_requested_available(Seq::new(15, |i: int| VK_FALSE), metadata.physical_device_vulkan_13_features.flags@)
    &&& metadata.descriptor_indexing_features.flags@[SHADER_SAMPLED_IMAGE_ARRAY_NON_UNIFORM_INDEXING as int] != VK_FALSE
    &&& metadata.descriptor_indexing_features.flags@[RUNTIME_DESCRIPTOR_ARRAY as int] != VK_FALSE
}

/// Whether a device passes the feature filter that device enumeration
/// applies.
pub fn supports_required_features(metadata: &PhysicalDeviceMetadata) -> (supported: bool)
    ensures
        supported == has_required_features(*metadata),
{
    let no_features = PhysicalDeviceFeatures { flags: [VK_FALSE; 55] };
    let no_vulkan_13_features = PhysicalDeviceVulkan13Features { flags: [VK_FALSE; 15] };
    let a = metadata.supports_features(no_features);
    let b = metadata.supports_vulkan_13_features(no_vulkan_13_features);
    let required = required_descriptor_indexing_features();
    let c = metadata.supports_descriptor_indexing_features(required);
    proof {
        assert(no_features.flags@ =~= Seq::new(55, |i: int| VK_FALSE));
        assert(no_vulkan_13_features.flags@ =~= Seq::new(15, |i: int| VK_FALSE));
        let req = required;
        let avail = metadata.descriptor_indexing_features.flags@;
        if c {
            assert(!requested_and_not_available(
                req.flags@[SHADER_SAMPLED_IMAGE_ARRAY_NON_UNIFORM_INDEXING as int],
                avail[SHADER_SAMPLED_IMAGE_ARRAY_NON_UNIFORM_INDEXING as int],
            ));
            assert(!requested_and_not_available(
                req.flags@[RUNTIME_DESCRIPTOR_ARRAY as int],
                avail[RUNTIME_DESCRIPTOR_ARRAY as int],
            ));
        }
    }
    a && b && c
}


/// `VK_KHR_SWAPCHAIN_EXTENSION_NAME`.
pub const SWAPCHAIN_EXTENSION_NAME: &'static str = "VK_KHR_swapchain";

/// Some queue family of the device supports graphics.
pub open spec fn has_graphics_queue(metadata: PhysicalDeviceMetadata) -> bool {
    exists|i: int|
        0 <= i < metadata.queue_family_properties.len() && flags_contain(
            #[trigger] metadata.queue_family_properties@[i].queue_flags,
            QUEUE_GRAPHICS,
        )
}

/// A device has a graphics queue exactly when one of its queue families, at
/// any position, has the graphics bit among its flags: a graphics family
/// anywhere in the list is enough, and with none the device has no graphics
/// queue.
pub proof fn law_graphics_queue_is_any_family(metadata: PhysicalDeviceMetadata, k: int)
    ensures
        0 <= k < metadata.queue_family_properties@.len() && metadata.queue_family_properties@[
            k
        ].queue_flags & QUEUE_GRAPHICS == QUEUE_GRAPHICS ==> has_graphics_queue(metadata),
        has_graphics_queue(metadata) <==> exists|i: int|
            0 <= i < metadata.queue_family_properties@.len() && (
            #[trigger] metadata.queue_family_properties@[i]).queue_flags & QUEUE_GRAPHICS
                == QUEUE_GRAPHICS,
{
    if 0 <= k < metadata.queue_family_properties@.len() && metadata.queue_family_properties@[
        k
    ].queue_flags & QUEUE_GRAPHICS == QUEUE_GRAPHICS {
        assert(flags_contain(metadata.queue_family_properties@[k].queue_flags, QUEUE_GRAPHICS));
    }
}

/// The device supports the extension with the given name.
pub open spec fn has_extension(metadata: PhysicalDeviceMetadata, name: Seq<char>) -> bool {
    exists|i: int|
        0 <= i < metadata.supported_extensions.len() && #[trigger] metadata.supported_extensions@[i]@
            == name
}

/// A physical device together with what its surface queries reported.
#[derive(Clone, Debug)]
pub struct DeviceCandidate {
    pub metadata: PhysicalDeviceMetadata,
    /// The surface reported at least one format for the device.
    pub has_surface_formats: bool,
    /// The surface reported at least one present mode for the device.
    pub has_present_modes: bool,
}

/// The device has a graphics queue, the swapchain extension, and surface
/// formats and present modes.
pub open spec fn is_usable_device(candidate: DeviceCandidate) -> bool {
    &&& has_graphics_queue(candidate.metadata)
    &&& has_extension(candidate.metadata, SWAPCHAIN_EXTENSION_NAME@)
    &&& candidate.has_surface_formats
    &&& candidate.has_present_modes
}

/// `index` is the first usable device among `candidates`, counting only
/// devices of the given type when one is given.
pub open spec fn is_first_usable(
    candidates: Seq<DeviceCandidate>,
    index: int,
    device_type: Option<i32>,
) -> bool {
    let of_type = |c: DeviceCandidate|
        is_usable_device(c) && (device_type matches Some(t) ==> c.metadata.physical_device_properties.device_type == t);
    &&& 0 <= index < candidates.len()
    &&& of_type(candidates[index])
    &&& forall|j: int| 0 <= j < index ==> !of_type(#[trigger] candidates[j])
}

/// Some device among `candidates` is usable and, when a type is given, of
/// that type.
pub open spec fn has_usable(candidates: Seq<DeviceCandidate>, device_type: Option<i32>) -> bool {
    exists|i: int|
        0 <= i < candidates.len() && is_usable_device(#[trigger] candidates[i]) && (device_type matches Some(t)
            ==> candidates[i].metadata.physical_device_properties.device_type == t)
}

/// Does some queue family of the device support graphics?
pub fn supports_graphics(metadata: &PhysicalDeviceMetadata) -> (supported: bool)
    ensures
        supported == has_graphics_queue(*metadata),
        supported <==> exists|i: int|
            0 <= i < metadata.queue_family_properties@.len() && (
            #[trigger] metadata.queue_family_properties@[i]).queue_flags & QUEUE_GRAPHICS
                == QUEUE_GRAPHICS,
{
    let families = &metadata.queue_family_properties;
    let mut i: usize = 0;
    while i < families.len()
        invariant
            i <= families.len(),
            families@ == metadata.queue_family_properties@,
            forall|j: int|
                0 <= j < i ==> !flags_contain(#[trigger] families@[j].queue_flags, QUEUE_GRAPHICS),
        decreases families.len() - i,
    {
        if families[i].queue_flags & QUEUE_GRAPHICS == QUEUE_GRAPHICS {
            assert(flags_contain(metadata.queue_family_properties@[i as int].queue_flags, QUEUE_GRAPHICS));
            return true;
        }
        i = i + 1;
    }
    false
}

/// Does the device support the extension with the given name?
pub fn supports_extension(metadata: &PhysicalDeviceMetadata, name: &str) -> (supported: bool)
    ensures
        supported == has_extension(*metadata, name@),
{
    let wanted: String = name.to_owned();
    let names = &metadata.supported_extensions;
    let mut i: usize = 0;
    while i < names.len()
        invariant
            i <= names.len(),
            names@ == metadata.supported_extensions@,
            wanted@ == name@,
            forall|j: int| 0 <= j < i ==> #[trigger] names@[j]@ != name@,
        decreases names.len() - i,
    {
        if names[i] == wanted {
            assert(metadata.supported_extensions@[i as int]@ == name@);
            return true;
        }
        i = i + 1;
    }
    false
}

/// Is the device usable for presenting to the surface?
pub fn is_usable(candidate: &DeviceCandidate) -> (usable: bool)
    ensures
        usable == is_usable_device(*candidate),
{
    supports_graphics(&candidate.metadata) && supports_extension(
        &candidate.metadata,
        SWAPCHAIN_EXTENSION_NAME,
    ) && candidate.has_surface_formats && candidate.has_present_modes
}

/// The first usable device of the given type (of any type when none is
/// given).
fn find_first_usable(candidates: &Vec<DeviceCandidate>, device_type: Option<i32>) -> (found:
    Option<usize>)
    ensures
        match found {
            Some(i) => is_first_usable(candidates@, i as int, device_type),
            None => !has_usable(candidates@, device_type),
        },
{
    let mut i: usize = 0;
    while i < candidates.len()
        invariant
            i <= candidates.len(),
            forall|j: int|
                0 <= j < i ==> !(is_usable_device(#[trigger] candidates@[j]) && (device_type matches Some(t)
                    ==> candidates@[j].metadata.physical_device_properties.device_type == t)),
        decreases candidates.len() - i,
    {
        let usable = is_usable(&candidates[i]);
        let type_matches = match device_type {
            Some(t) => candidates[i].metadata.physical_device_properties.device_type == t,
            None => true,
        };
        if usable && type_matches {
            return Some(i);
        }
        i = i + 1;
    }
    None
}

/// Pick a suitable physical device: among the usable ones (see
/// `is_usable_device`), the first discrete GPU, else the first integrated
/// GPU, else the first usable device. `None` when no device is usable.
pub fn find_suitable_device(candidates: &Vec<DeviceCandidate>) -> (chosen: Option<usize>)
    ensures
        chosen is None <==> !has_usable(candidates@, None),
        has_usable(candidates@, Some(DEVICE_TYPE_DISCRETE_GPU)) ==> (chosen matches Some(i)
            && is_first_usable(candidates@, i as int, Some(DEVICE_TYPE_DISCRETE_GPU))),
        !has_usable(candidates@, Some(DEVICE_TYPE_DISCRETE_GPU)) && has_usable(
            candidates@,
            Some(DEVICE_TYPE_INTEGRATED_GPU),
        ) ==> (chosen matches Some(i) && is_first_usable(
            candidates@,
            i as int,
            Some(DEVICE_TYPE_INTEGRATED_GPU),
        )),
        !has_usable(candidates@, Some(DEVICE_TYPE_DISCRETE_GPU)) && !has_usable(
            candidates@,
            Some(DEVICE_TYPE_INTEGRATED_GPU),
        ) ==> (chosen matches Some(i) ==> is_first_usable(candidates@, i as int, None)),
{
    if let Some(i) = find_first_usable(candidates, Some(DEVICE_TYPE_DISCRETE_GPU)) {
        return Some(i);
    }
    if let Some(i) = find_first_usable(candidates, Some(DEVICE_TYPE_INTEGRATED_GPU)) {
        return Some(i);
    }
    find_first_usable(candidates, None)
}

} // verus!
