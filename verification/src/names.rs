//! Layer and extension names, and membership tests over lists of them.

use vstd::prelude::*;

verus! {

/// The names held by a list of strings.
pub open spec fn names_of(list: Seq<String>) -> Seq<Seq<char>> {
    list.map_values(|s: String| s@)
}

/// Whether `name` occurs in `list`.
pub fn contains_name(list: &Vec<String>, name: &String) -> (r: bool)
    ensures
        r == names_of(list@).contains(name@),
{
    let mut i: usize = 0;
    while i < list.len()
        invariant
            0 <= i <= list@.len(),
            forall|j: int| 0 <= j < i ==> list@[j]@ != name@,
        decreases list@.len() - i,
    {
        if list[i] == *name {
            proof {
                assert(names_of(list@)[i as int] == name@);
            }
            return true;
        }
        i = i + 1;
    }
    proof {
        if names_of(list@).contains(name@) {
            let j = choose|j: int| 0 <= j < names_of(list@).len() && names_of(list@)[j] == name@;
            assert(list@[j]@ == name@);
        }
    }
    false
}

/// Whether every name in `required` occurs in `available`.
pub open spec fn contains_all(available: Seq<Seq<char>>, required: Seq<Seq<char>>) -> bool {
    forall|k: int| 0 <= k < required.len() ==> available.contains(#[trigger] required[k])
}

/// Whether every name of `required` occurs in `available`.
pub fn contains_all_names(available: &Vec<String>, required: &Vec<String>) -> (r: bool)
    ensures
        r == contains_all(names_of(available@), names_of(required@)),
{
    let mut k: usize = 0;
    while k < required.len()
        invariant
            0 <= k <= required@.len(),
            forall|m: int| 0 <= m < k ==> names_of(available@).contains(#[trigger] names_of(required@)[m]),
        decreases required@.len() - k,
    {
        if !contains_name(available, &required[k]) {
            proof {
                assert(names_of(required@)[k as int] == required@[k as int]@);
            }
            return false;
        }
        proof {
            assert(names_of(required@)[k as int] == required@[k as int]@);
        }
        k = k + 1;
    }
    true
}

/// `VK_LAYER_KHRONOS_validation`.
pub fn validation_layer_name() -> (r: String)
    ensures
        r@ == "VK_LAYER_KHRONOS_validation"@,
{
    "VK_LAYER_KHRONOS_validation".to_owned()
}

/// `VK_EXT_debug_utils`.
pub fn debug_utils_extension_name() -> (r: String)
    ensures
        r@ == "VK_EXT_debug_utils"@,
{
    "VK_EXT_debug_utils".to_owned()
}

/// `VK_KHR_get_physical_device_properties2`.
pub fn physical_device_properties2_extension_name() -> (r: String)
    ensures
        r@ == "VK_KHR_get_physical_device_properties2"@,
{
    "VK_KHR_get_physical_device_properties2".to_owned()
}

/// `VK_KHR_portability_enumeration`.
pub fn portability_enumeration_extension_name() -> (r: String)
    ensures
        r@ == "VK_KHR_portability_enumeration"@,
{
    "VK_KHR_portability_enumeration".to_owned()
}

/// `VK_KHR_swapchain`.
pub fn swapchain_extension_name() -> (r: String)
    ensures
        r@ == "VK_KHR_swapchain"@,
{
    "VK_KHR_swapchain".to_owned()
}

/// The device extensions that the renderer requires.
pub open spec fn required_device_extensions() -> Seq<Seq<char>> {
    seq!["VK_KHR_swapchain"@]
}

/// The device extensions that the renderer requires, as a list.
pub fn device_extension_names() -> (r: Vec<String>)
    ensures
        names_of(r@) == required_device_extensions(),
{
    let mut names: Vec<String> = Vec::new();
    names.push(swapchain_extension_name());
    proof {
        assert(names_of(names@) =~= required_device_extensions());
    }
    names
}

} // verus!
