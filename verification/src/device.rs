//! Adapter suitability: which queue families to use, whether the adapter
//! offers the extensions the presentation engine needs, and whether its
//! surface support is sufficient. The host program queries the adapter and
//! hands the answers in as plain values; every decision about them is made
//! here.

use vstd::prelude::*;

verus! {

/// The reason an adapter was rejected during selection.
#[derive(Clone, Copy, Debug)]
pub struct SuitabilityError(pub &'static str);

/// What a single queue family of an adapter can do, as far as this engine
/// cares: run graphics commands, and present to the target surface.
#[derive(Clone, Copy, PartialEq, Eq, Structural, Debug)]
pub struct QueueFamilyCaps {
    pub supports_graphics: bool,
    pub supports_present: bool,
}

/// The queue families chosen for the two roles the engine needs. They may
/// coincide; when they do not, the swapchain is shared between them.
#[derive(Clone, Copy, PartialEq, Eq, Structural, Debug)]
pub struct QueueFamilyIndices {
    pub graphics: u32,
    pub present: u32,
}

/// Whether some family in the list supports graphics work.
pub open spec fn has_graphics_family(families: Seq<QueueFamilyCaps>) -> bool {
    exists|i: int| 0 <= i < families.len() && families[i].supports_graphics
}

/// Whether some family in the list can present to the surface.
pub open spec fn has_present_family(families: Seq<QueueFamilyCaps>) -> bool {
    exists|i: int| 0 <= i < families.len() && families[i].supports_present
}

/// Chooses the first family that supports graphics and the first that can
/// present, or reports the adapter unsuitable when either role is unfilled.
pub fn find_queue_families(families: &Vec<QueueFamilyCaps>) -> (r: Result<
    QueueFamilyIndices,
    SuitabilityError,
>)
    requires
        families@.len() < u32::MAX,
    ensures
        match r {
            Ok(idx) => {
                &&& idx.graphics < families@.len()
                &&& families@[idx.graphics as int].supports_graphics
                &&& forall|j: int| 0 <= j < idx.graphics ==> !families@[j].supports_graphics
                &&& idx.present < families@.len()
                &&& families@[idx.present as int].supports_present
                &&& forall|j: int| 0 <= j < idx.present ==> !families@[j].supports_present
            },
            Err(e) => {
                &&& !has_graphics_family(families@) || !has_present_family(families@)
                &&& e.0@ == "Missing required queue families."@
            },
        },
        r is Ok <==> has_graphics_family(families@) && has_present_family(families@),
{
    let mut graphics: Option<u32> = None;
    let mut present: Option<u32> = None;
    let mut i: usize = 0;
    while i < families.len()
        invariant
            i <= families@.len(),
            families@.len() < u32::MAX,
            match graphics {
                Some(g) => {
                    &&& g < i
                    &&& families@[g as int].supports_graphics
                    &&& forall|j: int| 0 <= j < g ==> !families@[j].supports_graphics
                },
                None => forall|j: int| 0 <= j < i ==> !families@[j].supports_graphics,
            },
            match present {
                Some(p) => {
                    &&& p < i
                    &&& families@[p as int].supports_present
                    &&& forall|j: int| 0 <= j < p ==> !families@[j].supports_present
                },
                None => forall|j: int| 0 <= j < i ==> !families@[j].supports_present,
            },
        decreases families@.len() - i,
    {
        if graphics.is_none() && families[i].supports_graphics {
            graphics = Some(i as u32);
        }
        if present.is_none() && families[i].supports_present {
            present = Some(i as u32);
        }
        i += 1;
    }
    match (graphics, present) {
        (Some(g), Some(p)) => Ok(QueueFamilyIndices { graphics: g, present: p }),
        _ => Err(SuitabilityError("Missing required queue families.")),
    }
}

/// Whether two byte strings hold the same bytes.
fn bytes_eq(a: &Vec<u8>, b: &Vec<u8>) -> (r: bool)
    ensures
        r == (a@ == b@),
{
    if a.len() != b.len() {
        return false;
    }
    let mut i: usize = 0;
    while i < a.len()
        invariant
            i <= a@.len(),
            a@.len() == b@.len(),
            forall|j: int| 0 <= j < i ==> a@[j] == b@[j],
        decreases a@.len() - i,
    {
        if a[i] != b[i] {
            return false;
        }
        i += 1;
    }
    assert(a@ =~= b@);
    true
}

/// Whether the name occurs in the list of names.
pub open spec fn name_listed(names: Seq<Vec<u8>>, name: Seq<u8>) -> bool {
    exists|i: int| 0 <= i < names.len() && names[i]@ == name
}

/// Whether the name occurs in the list of names; this answers both the
/// layer check at instance creation and each extension lookup.
pub fn name_in_list(names: &Vec<Vec<u8>>, name: &Vec<u8>) -> (r: bool)
    ensures
        r == name_listed(names@, name@),
{
    let mut i: usize = 0;
    while i < names.len()
        invariant
            i <= names@.len(),
            forall|j: int| 0 <= j < i ==> names@[j]@ != name@,
        decreases names@.len() - i,
    {
        if bytes_eq(&names[i], name) {
            return true;
        }
        i += 1;
    }
    false
}

/// Whether every required extension name occurs among the available ones.
pub open spec fn all_extensions_available(available: Seq<Vec<u8>>, required: Seq<Vec<u8>>) -> bool {
    forall|i: int| 0 <= i < required.len() ==> name_listed(available, required[i]@)
}

/// Checks that the adapter offers every extension the engine relies on (for
/// this engine, the swapchain extension).
pub fn check_extension_support(available: &Vec<Vec<u8>>, required: &Vec<Vec<u8>>) -> (r: Result<
    (),
    SuitabilityError,
>)
    ensures
        r is Ok <==> all_extensions_available(available@, required@),
        r matches Err(e) ==> e.0@ == "Missing required device extensions."@,
{
    let mut i: usize = 0;
    while i < required.len()
        invariant
            i <= required@.len(),
            forall|j: int| 0 <= j < i ==> name_listed(available@, required@[j]@),
        decreases required@.len() - i,
    {
        if !name_in_list(available, &required[i]) {
            return Err(SuitabilityError("Missing required device extensions."));
        }
        i += 1;
    }
    Ok(())
}

/// Decides whether an adapter can drive this engine: it must fill both queue
/// roles, offer the required extensions, and report at least one surface
/// format and one present mode. Checks run in that order, and the error
/// names the first one that fails.
pub fn check_device_suitability(
    families: &Vec<QueueFamilyCaps>,
    available_extensions: &Vec<Vec<u8>>,
    required_extensions: &Vec<Vec<u8>>,
    format_count: usize,
    present_mode_count: usize,
) -> (r: Result<QueueFamilyIndices, SuitabilityError>)
    requires
        families@.len() < u32::MAX,
    ensures
        r is Ok <==> {
            &&& has_graphics_family(families@)
            &&& has_present_family(families@)
            &&& all_extensions_available(available_extensions@, required_extensions@)
            &&& format_count > 0
            &&& present_mode_count > 0
        },
        r matches Ok(idx) ==> {
            &&& idx.graphics < families@.len()
            &&& families@[idx.graphics as int].supports_graphics
            &&& forall|j: int| 0 <= j < idx.graphics ==> !families@[j].supports_graphics
            &&& idx.present < families@.len()
            &&& families@[idx.present as int].supports_present
            &&& forall|j: int| 0 <= j < idx.present ==> !families@[j].supports_present
        },
        r matches Err(e) ==> {
            ||| !(has_graphics_family(families@) && has_present_family(families@)) && e.0@
                == "Missing required queue families."@
            ||| has_graphics_family(families@) && has_present_family(families@)
                && !all_extensions_available(available_extensions@, required_extensions@) && e.0@
                == "Missing required device extensions."@
            ||| has_graphics_family(families@) && has_present_family(families@)
                && all_extensions_available(available_extensions@, required_extensions@) && (
            format_count == 0 || present_mode_count == 0) && e.0@
                == "Insufficient swapchain support."@
        },
{
    let indices = match find_queue_families(families) {
        Ok(idx) => idx,
        Err(e) => {
            return Err(e);
        },
    };
    match check_extension_support(available_extensions, required_extensions) {
        Ok(()) => (),
        Err(e) => {
            return Err(e);
        },
    }
    if format_count == 0 || present_mode_count == 0 {
        return Err(SuitabilityError("Insufficient swapchain support."));
    }
    Ok(indices)
}

/// Which queue family each role draws its queue from, and the de-duplicated
/// family list handed to logical-device creation. The present role uses the
/// family actually reported as present-capable, as the device rules require,
/// also when it differs from the graphics family.
#[derive(Clone, PartialEq, Eq, Debug)]
pub struct QueuePlan {
    pub graphics_family: u32,
    pub present_family: u32,
    pub unique_families: Vec<u32>,
}

/// Plans queue retrieval from the chosen family indices.
pub fn plan_queues(indices: QueueFamilyIndices) -> (plan: QueuePlan)
    ensures
        plan.graphics_family == indices.graphics,
        plan.present_family == indices.present,
        indices.graphics == indices.present ==> plan.unique_families@ == seq![indices.graphics],
        indices.graphics != indices.present ==> plan.unique_families@ == seq![
            indices.graphics,
            indices.present,
        ],
{
    let mut unique_families: Vec<u32> = Vec::new();
    unique_families.push(indices.graphics);
    if indices.present != indices.graphics {
        unique_families.push(indices.present);
    }
    QueuePlan { graphics_family: indices.graphics, present_family: indices.present, unique_families }
}

} // verus!
