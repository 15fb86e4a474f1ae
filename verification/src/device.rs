//! Device selection: queue-family discovery, device-extension checks, and the
//! choice of a physical device that can render to the target surface.

use vstd::prelude::*;
use crate::RenderError;

verus! {

/// What a queue family offers: graphics operations, and presentation to the
/// target surface.
#[derive(Clone, Copy, Debug, PartialEq, Eq, Structural)]
pub struct QueueFamilyProperties {
    pub supports_graphics: bool,
    pub supports_present: bool,
}

/// The chosen queue families of a device: one for graphics work and one for
/// presentation; the two may coincide.
#[derive(Clone, Copy, Debug, PartialEq, Eq, Structural)]
pub struct QueueFamilyIndices {
    pub graphics: u32,
    pub present: u32,
}

/// What device selection reads of a physical device: its queue families, its
/// device extensions (as identifiers), and how many surface formats and
/// present modes it reports for the target surface.
#[derive(Debug)]
pub struct PhysicalDeviceInfo {
    pub queue_families: Vec<QueueFamilyProperties>,
    pub extensions: Vec<u64>,
    pub surface_format_count: usize,
    pub present_mode_count: usize,
}

/// Some queue family supports graphics operations.
pub open spec fn has_graphics_family(fams: Seq<QueueFamilyProperties>) -> bool {
    exists|i: int| 0 <= i < fams.len() && fams[i].supports_graphics
}

/// Some queue family can present to the surface.
pub open spec fn has_present_family(fams: Seq<QueueFamilyProperties>) -> bool {
    exists|i: int| 0 <= i < fams.len() && fams[i].supports_present
}

impl QueueFamilyIndices {
    /// Both chosen indices are the lowest families offering their capability.
    pub open spec fn chosen_from(self, fams: Seq<QueueFamilyProperties>) -> bool {
        &&& 0 <= self.graphics < fams.len()
        &&& fams[self.graphics as int].supports_graphics
        &&& forall|i: int| 0 <= i < self.graphics ==> !fams[i].supports_graphics
        &&& 0 <= self.present < fams.len()
        &&& fams[self.present as int].supports_present
        &&& forall|i: int| 0 <= i < self.present ==> !fams[i].supports_present
    }

    /// Finds the first graphics-capable and the first present-capable queue
    /// family; fails when either capability is missing altogether.
    pub fn get(families: &Vec<QueueFamilyProperties>) -> (r: Result<Self, RenderError>)
        requires
            families@.len() <= u32::MAX,
        ensures
            r is Ok <==> has_graphics_family(families@) && has_present_family(families@),
            r matches Ok(ix) ==> ix.chosen_from(families@),
            r matches Err(e) ==> e == RenderError::MissingQueueFamily,
    {
        let n = families.len();
        let mut graphics: Option<u32> = None;
        let mut k: usize = 0;
        while k < n
            invariant
                n == families@.len() <= u32::MAX,
                0 <= k <= n,
                graphics matches Some(g) ==> 0 <= g < k && families@[g as int].supports_graphics
                    && forall|i: int| 0 <= i < g ==> !families@[i].supports_graphics,
                graphics is None ==> forall|i: int| 0 <= i < k ==> !families@[i].supports_graphics,
            decreases n - k,
        {
            if graphics.is_none() && families[k].supports_graphics {
                graphics = Some(k as u32);
            }
            k = k + 1;
        }
        let mut present: Option<u32> = None;
        let mut k: usize = 0;
        while k < n
            invariant
                n == families@.len() <= u32::MAX,
                0 <= k <= n,
                present matches Some(p) ==> 0 <= p < k && families@[p as int].supports_present
                    && forall|i: int| 0 <= i < p ==> !families@[i].supports_present,
                present is None ==> forall|i: int| 0 <= i < k ==> !families@[i].supports_present,
            decreases n - k,
        {
            if present.is_none() && families[k].supports_present {
                present = Some(k as u32);
            }
            k = k + 1;
        }
        match (graphics, present) {
            (Some(graphics), Some(present)) => Ok(QueueFamilyIndices { graphics, present }),
            _ => Err(RenderError::MissingQueueFamily),
        }
    }
}

/// Whether `v` holds `x`.
fn contains_u64(v: &Vec<u64>, x: u64) -> (b: bool)
    ensures
        b == v@.contains(x),
{
    let n = v.len();
    let mut k: usize = 0;
    while k < n
        invariant
            n == v@.len(),
            0 <= k <= n,
            forall|i: int| 0 <= i < k ==> v@[i] != x,
        decreases n - k,
    {
        if v[k] == x {
            return true;
        }
        k = k + 1;
    }
    false
}

/// Every required extension is among the supported ones.
pub open spec fn extensions_supported(supported: Seq<u64>, required: Seq<u64>) -> bool {
    forall|i: int| 0 <= i < required.len() ==> supported.contains(required[i])
}

/// Checks that a device supports every required device extension.
pub fn check_physical_device_extensions(supported: &Vec<u64>, required: &Vec<u64>) -> (r: Result<
    (),
    RenderError,
>)
    ensures
        r is Ok <==> extensions_supported(supported@, required@),
        r matches Err(e) ==> e == RenderError::MissingDeviceExtensions,
{
    let n = required.len();
    let mut k: usize = 0;
    while k < n
        invariant
            n == required@.len(),
            0 <= k <= n,
            forall|i: int| 0 <= i < k ==> supported@.contains(required@[i]),
        decreases n - k,
    {
        if !contains_u64(supported, required[k]) {
            return Err(RenderError::MissingDeviceExtensions);
        }
        k = k + 1;
    }
    Ok(())
}

/// A device is suitable when it has graphics and present queue families,
/// supports every required extension, and reports at least one surface format
/// and one present mode.
pub open spec fn device_suitable(dev: PhysicalDeviceInfo, required: Seq<u64>) -> bool {
    &&& has_graphics_family(dev.queue_families@)
    &&& has_present_family(dev.queue_families@)
    &&& extensions_supported(dev.extensions@, required)
    &&& dev.surface_format_count > 0
    &&& dev.present_mode_count > 0
}

/// Checks one physical device against every suitability requirement,
/// reporting the first failed check.
pub fn check_physical_device(dev: &PhysicalDeviceInfo, required: &Vec<u64>) -> (r: Result<
    QueueFamilyIndices,
    RenderError,
>)
    requires
        dev.queue_families@.len() <= u32::MAX,
    ensures
        r is Ok <==> device_suitable(*dev, required@),
        r matches Ok(ix) ==> ix.chosen_from(dev.queue_families@),
{
    let indices = QueueFamilyIndices::get(&dev.queue_families)?;
    check_physical_device_extensions(&dev.extensions, required)?;
    if dev.surface_format_count == 0 || dev.present_mode_count == 0 {
        return Err(RenderError::NoSwapchainSupport);
    }
    Ok(indices)
}

/// Selects the first suitable physical device; failure to find any is the
/// fatal startup error.
pub fn pick_physical_device(devices: &Vec<PhysicalDeviceInfo>, required: &Vec<u64>) -> (r: Result<
    usize,
    RenderError,
>)
    requires
        forall|i: int| 0 <= i < devices@.len() ==> devices@[i].queue_families@.len() <= u32::MAX,
    ensures
        r is Ok <==> exists|i: int| 0 <= i < devices@.len() && device_suitable(
            devices@[i],
            required@,
        ),
        r matches Ok(d) ==> 0 <= d < devices@.len() && device_suitable(devices@[d as int], required@)
            && forall|i: int| 0 <= i < d ==> !device_suitable(devices@[i], required@),
        r matches Err(e) ==> e == RenderError::NoSuitableDevice,
{
    let n = devices.len();
    let mut k: usize = 0;
    while k < n
        invariant
            n == devices@.len(),
            0 <= k <= n,
            forall|i: int| 0 <= i < devices@.len() ==> devices@[i].queue_families@.len()
                <= u32::MAX,
            forall|i: int| 0 <= i < k ==> !device_suitable(devices@[i], required@),
        decreases n - k,
    {
        if check_physical_device(&devices[k], required).is_ok() {
            return Ok(k);
        }
        k = k + 1;
    }
    Err(RenderError::NoSuitableDevice)
}

/// Picks the instance layers: the validation layer alone when diagnostics
/// are enabled — absent from the available layers, a fatal startup error —
/// and no layers otherwise.
pub fn instance_layers(
    available: &Vec<u64>,
    validation_layer: u64,
    validation_enabled: bool,
) -> (r: Result<Vec<u64>, RenderError>)
    ensures
        r is Err <==> validation_enabled && !available@.contains(validation_layer),
        r matches Err(e) ==> e == RenderError::ValidationLayerUnavailable,
        r matches Ok(layers) ==> layers@ == if validation_enabled {
            seq![validation_layer]
        } else {
            Seq::<u64>::empty()
        },
{
    if validation_enabled && !contains_u64(available, validation_layer) {
        return Err(RenderError::ValidationLayerUnavailable);
    }
    let mut layers: Vec<u64> = Vec::new();
    if validation_enabled {
        layers.push(validation_layer);
        proof {
            assert(layers@ =~= seq![validation_layer]);
        }
    } else {
        proof {
            assert(layers@ =~= Seq::<u64>::empty());
        }
    }
    Ok(layers)
}

/// Assembles the instance extensions: what the window system requires, then
/// the two portability-enumeration extensions, then the debug-utils
/// extension when diagnostics are enabled.
pub fn instance_extensions(
    window_required: &Vec<u64>,
    portability_enumeration: u64,
    physical_device_properties2: u64,
    debug_utils: u64,
    validation_enabled: bool,
) -> (r: Vec<u64>)
    ensures
        r@ == window_required@ + seq![portability_enumeration, physical_device_properties2] + if
            validation_enabled {
            seq![debug_utils]
        } else {
            Seq::<u64>::empty()
        },
{
    let n = window_required.len();
    let mut r: Vec<u64> = Vec::new();
    let mut k: usize = 0;
    while k < n
        invariant
            n == window_required@.len(),
            0 <= k <= n,
            r@ == window_required@.subrange(0, k as int),
        decreases n - k,
    {
        r.push(window_required[k]);
        proof {
            assert(r@ =~= window_required@.subrange(0, k + 1 as int));
        }
        k = k + 1;
    }
    proof {
        assert(r@ =~= window_required@);
    }
    r.push(portability_enumeration);
    r.push(physical_device_properties2);
    if validation_enabled {
        r.push(debug_utils);
        proof {
            assert(r@ =~= window_required@ + seq![
                portability_enumeration,
                physical_device_properties2,
            ] + seq![debug_utils]);
        }
    } else {
        proof {
            assert(r@ =~= window_required@ + seq![
                portability_enumeration,
                physical_device_properties2,
            ] + Seq::<u64>::empty());
        }
    }
    r
}

/// The distinct queue families a logical device needs one queue for: the
/// graphics family, and the present family when it differs.
pub fn unique_queue_families(indices: &QueueFamilyIndices) -> (r: Vec<u32>)
    ensures
        indices.graphics == indices.present ==> r@ == seq![indices.graphics],
        indices.graphics != indices.present ==> r@ == seq![indices.graphics, indices.present],
{
    let mut r: Vec<u32> = Vec::new();
    r.push(indices.graphics);
    if indices.present != indices.graphics {
        r.push(indices.present);
        proof {
            assert(r@ =~= seq![indices.graphics, indices.present]);
        }
    } else {
        proof {
            assert(r@ =~= seq![indices.graphics]);
        }
    }
    r
}

} // verus!
