use vstd::prelude::*;

verus! {

/// Name of the validation layer.
pub const LAYER_KHRONOS_VALIDATION_NAME: &'static str = "VK_LAYER_KHRONOS_validation";
/// Name of the API dump layer.
pub const LAYER_LUNAR_API_DUMP_NAME: &'static str = "VK_LAYER_LUNARG_api_dump";

/// The instance layers to enable: validation, then API dump, each when asked for.
pub fn required_layer_names(enable_validation_layer: bool, enable_api_dump_layer: bool) -> (r: Vec<&'static str>)
    ensures
        r@.map_values(|s: &'static str| s@) == (if enable_validation_layer {
            seq![LAYER_KHRONOS_VALIDATION_NAME@]
        } else {
            Seq::<Seq<char>>::empty()
        }) + (if enable_api_dump_layer {
            seq![LAYER_LUNAR_API_DUMP_NAME@]
        } else {
            Seq::<Seq<char>>::empty()
        }),
{
    let mut v: Vec<&'static str> = Vec::new();
    if enable_validation_layer {
        v.push(LAYER_KHRONOS_VALIDATION_NAME);
    }
    if enable_api_dump_layer {
        v.push(LAYER_LUNAR_API_DUMP_NAME);
    }
    proof {
        let expected = (if enable_validation_layer {
            seq![LAYER_KHRONOS_VALIDATION_NAME@]
        } else {
            Seq::<Seq<char>>::empty()
        }) + (if enable_api_dump_layer {
            seq![LAYER_LUNAR_API_DUMP_NAME@]
        } else {
            Seq::<Seq<char>>::empty()
        });
        assert(v@.map_values(|s: &'static str| s@) =~= expected);
    }
    v
}

/// Name of the surface instance extension.
pub const SURFACE_EXTENSION: &'static str = "VK_KHR_surface";
/// Name of the extended physical device properties instance extension.
pub const PHYSICAL_DEVICE_PROPERTIES2_EXTENSION: &'static str = "VK_KHR_get_physical_device_properties2";
/// Name of the debug utilities instance extension.
pub const DEBUG_UTILS_EXTENSION: &'static str = "VK_EXT_debug_utils";

/// The instance extensions to enable: surface and extended properties, then
/// the platform's surface extensions, then debug utilities with validation.
pub fn required_instance_extension_names(platform: &Vec<String>, enable_validation_layer: bool) -> (r: Vec<String>)
    ensures
        r@.map_values(|s: String| s@) == seq![SURFACE_EXTENSION@, PHYSICAL_DEVICE_PROPERTIES2_EXTENSION@]
            + platform@.map_values(|s: String| s@) + (if enable_validation_layer {
            seq![DEBUG_UTILS_EXTENSION@]
        } else {
            Seq::<Seq<char>>::empty()
        }),
{
    let mut v: Vec<String> = Vec::new();
    v.push(SURFACE_EXTENSION.to_owned());
    v.push(PHYSICAL_DEVICE_PROPERTIES2_EXTENSION.to_owned());
    let ghost head = seq![SURFACE_EXTENSION@, PHYSICAL_DEVICE_PROPERTIES2_EXTENSION@];
    assert(v@.map_values(|s: String| s@) =~= head);
    let mut i: usize = 0;
    while i < platform.len()
        invariant
            i <= platform.len(),
            v@.map_values(|s: String| s@) == head + platform@.subrange(0, i as int).map_values(|s: String| s@),
        decreases platform.len() - i,
    {
        let name = platform[i].clone();
        let ghost before = v@;
        v.push(name);
        proof {
            assert(v@ == before.push(platform@[i as int]));
            assert(v@.map_values(|s: String| s@) =~= before.map_values(|s: String| s@).push(platform@[i as int]@));
            assert(platform@.subrange(0, i + 1) == platform@.subrange(0, i as int).push(platform@[i as int]));
            assert(platform@.subrange(0, i + 1).map_values(|s: String| s@) =~= platform@.subrange(0, i as int).map_values(
                |s: String| s@,
            ).push(platform@[i as int]@));
            assert(v@.map_values(|s: String| s@) =~= head + platform@.subrange(0, i + 1).map_values(|s: String| s@));
        }
        i = i + 1;
    }
    assert(platform@.subrange(0, platform.len() as int) == platform@);
    let ghost mid = v@.map_values(|s: String| s@);
    if enable_validation_layer {
        v.push(DEBUG_UTILS_EXTENSION.to_owned());
    }
    assert(v@.map_values(|s: String| s@) =~= mid + (if enable_validation_layer {
        seq![DEBUG_UTILS_EXTENSION@]
    } else {
        Seq::<Seq<char>>::empty()
    }));
    v
}

} // verus!
