use crate::error::XrError;
use crate::text::padded;
use crate::text::push_signed_decimal;
use crate::text::signed_decimal;
use crate::text::write_padded;
use vstd::prelude::*;
use vstd::utf8::encode_utf8;

verus! {

/// The name of a result code, for the codes that have one.
pub open spec fn result_name(code: i32) -> Option<Seq<char>> {
    match code {
        0 => Some("SUCCESS"@),
        1 => Some("TIMEOUT_EXPIRED"@),
        3 => Some("SESSION_LOSS_PENDING"@),
        4 => Some("EVENT_UNAVAILABLE"@),
        7 => Some("SPACE_BOUNDS_UNAVAILABLE"@),
        8 => Some("SESSION_NOT_FOCUSED"@),
        9 => Some("FRAME_DISCARDED"@),
        -1 => Some("ERROR_VALIDATION_FAILURE"@),
        -2 => Some("ERROR_RUNTIME_FAILURE"@),
        -3 => Some("ERROR_OUT_OF_MEMORY"@),
        -4 => Some("ERROR_API_VERSION_UNSUPPORTED"@),
        -6 => Some("ERROR_INITIALIZATION_FAILED"@),
        -7 => Some("ERROR_FUNCTION_UNSUPPORTED"@),
        -8 => Some("ERROR_FEATURE_UNSUPPORTED"@),
        -9 => Some("ERROR_EXTENSION_NOT_PRESENT"@),
        -10 => Some("ERROR_LIMIT_REACHED"@),
        -11 => Some("ERROR_SIZE_INSUFFICIENT"@),
        -12 => Some("ERROR_HANDLE_INVALID"@),
        -13 => Some("ERROR_INSTANCE_LOST"@),
        -14 => Some("ERROR_SESSION_RUNNING"@),
        -16 => Some("ERROR_SESSION_NOT_RUNNING"@),
        -17 => Some("ERROR_SESSION_LOST"@),
        -18 => Some("ERROR_SYSTEM_INVALID"@),
        -19 => Some("ERROR_PATH_INVALID"@),
        -20 => Some("ERROR_PATH_COUNT_EXCEEDED"@),
        -21 => Some("ERROR_PATH_FORMAT_INVALID"@),
        -22 => Some("ERROR_PATH_UNSUPPORTED"@),
        -23 => Some("ERROR_LAYER_INVALID"@),
        -24 => Some("ERROR_LAYER_LIMIT_EXCEEDED"@),
        -25 => Some("ERROR_SWAPCHAIN_RECT_INVALID"@),
        -26 => Some("ERROR_SWAPCHAIN_FORMAT_UNSUPPORTED"@),
        -27 => Some("ERROR_ACTION_TYPE_MISMATCH"@),
        -28 => Some("ERROR_SESSION_NOT_READY"@),
        -29 => Some("ERROR_SESSION_NOT_STOPPING"@),
        -30 => Some("ERROR_TIME_INVALID"@),
        -31 => Some("ERROR_REFERENCE_SPACE_UNSUPPORTED"@),
        -32 => Some("ERROR_FILE_ACCESS_ERROR"@),
        -33 => Some("ERROR_FILE_CONTENTS_INVALID"@),
        -34 => Some("ERROR_FORM_FACTOR_UNSUPPORTED"@),
        -35 => Some("ERROR_FORM_FACTOR_UNAVAILABLE"@),
        -36 => Some("ERROR_API_LAYER_NOT_PRESENT"@),
        -37 => Some("ERROR_CALL_ORDER_INVALID"@),
        -38 => Some("ERROR_GRAPHICS_DEVICE_INVALID"@),
        -39 => Some("ERROR_POSE_INVALID"@),
        -40 => Some("ERROR_INDEX_OUT_OF_RANGE"@),
        -41 => Some("ERROR_VIEW_CONFIGURATION_TYPE_UNSUPPORTED"@),
        -42 => Some("ERROR_ENVIRONMENT_BLEND_MODE_UNSUPPORTED"@),
        -44 => Some("ERROR_NAME_DUPLICATED"@),
        -45 => Some("ERROR_NAME_INVALID"@),
        -46 => Some("ERROR_ACTIONSET_NOT_ATTACHED"@),
        -47 => Some("ERROR_ACTIONSETS_ALREADY_ATTACHED"@),
        -48 => Some("ERROR_LOCALIZED_NAME_DUPLICATED"@),
        -49 => Some("ERROR_LOCALIZED_NAME_INVALID"@),
        -50 => Some("ERROR_GRAPHICS_REQUIREMENTS_CALL_MISSING"@),
        -51 => Some("ERROR_RUNTIME_UNAVAILABLE"@),
        -1000003000 => Some("ERROR_ANDROID_THREAD_SETTINGS_ID_INVALID_KHR"@),
        -1000003001 => Some("ERROR_ANDROID_THREAD_SETTINGS_FAILURE_KHR"@),
        -1000039001 => Some("ERROR_CREATE_SPATIAL_ANCHOR_FAILED_MSFT"@),
        -1000053000 => Some("ERROR_SECONDARY_VIEW_CONFIGURATION_TYPE_NOT_ENABLED_MSFT"@),
        -1000055000 => Some("ERROR_CONTROLLER_MODEL_KEY_INVALID_MSFT"@),
        -1000066000 => Some("ERROR_REPROJECTION_MODE_UNSUPPORTED_MSFT"@),
        -1000097000 => Some("ERROR_COMPUTE_NEW_SCENE_NOT_COMPLETED_MSFT"@),
        -1000097001 => Some("ERROR_SCENE_COMPONENT_ID_INVALID_MSFT"@),
        -1000097002 => Some("ERROR_SCENE_COMPONENT_TYPE_MISMATCH_MSFT"@),
        -1000097003 => Some("ERROR_SCENE_MESH_BUFFER_ID_INVALID_MSFT"@),
        -1000097004 => Some("ERROR_SCENE_COMPUTE_FEATURE_INCOMPATIBLE_MSFT"@),
        -1000097005 => Some("ERROR_SCENE_COMPUTE_CONSISTENCY_MISMATCH_MSFT"@),
        -1000101000 => Some("ERROR_DISPLAY_REFRESH_RATE_UNSUPPORTED_FB"@),
        -1000108000 => Some("ERROR_COLOR_SPACE_UNSUPPORTED_FB"@),
        -1000113000 => Some("ERROR_SPACE_COMPONENT_NOT_SUPPORTED_FB"@),
        -1000113001 => Some("ERROR_SPACE_COMPONENT_NOT_ENABLED_FB"@),
        -1000113002 => Some("ERROR_SPACE_COMPONENT_STATUS_PENDING_FB"@),
        -1000113003 => Some("ERROR_SPACE_COMPONENT_STATUS_ALREADY_SET_FB"@),
        -1000118000 => Some("ERROR_UNEXPECTED_STATE_PASSTHROUGH_FB"@),
        -1000118001 => Some("ERROR_FEATURE_ALREADY_CREATED_PASSTHROUGH_FB"@),
        -1000118002 => Some("ERROR_FEATURE_REQUIRED_PASSTHROUGH_FB"@),
        -1000118003 => Some("ERROR_NOT_PERMITTED_PASSTHROUGH_FB"@),
        -1000118004 => Some("ERROR_INSUFFICIENT_RESOURCES_PASSTHROUGH_FB"@),
        -1000118050 => Some("ERROR_UNKNOWN_PASSTHROUGH_FB"@),
        -1000119000 => Some("ERROR_RENDER_MODEL_KEY_INVALID_FB"@),
        1000119020 => Some("RENDER_MODEL_UNAVAILABLE_FB"@),
        -1000124000 => Some("ERROR_MARKER_NOT_TRACKED_VARJO"@),
        -1000124001 => Some("ERROR_MARKER_ID_INVALID_VARJO"@),
        -1000142001 => Some("ERROR_SPATIAL_ANCHOR_NAME_NOT_FOUND_MSFT"@),
        -1000142002 => Some("ERROR_SPATIAL_ANCHOR_NAME_INVALID_MSFT"@),
        _ => None,
    }
}

/// Looks a result code up among the named ones.
pub fn known_result_name(code: i32) -> (name: Option<&'static str>)
    ensures
        match name {
            Some(s) => result_name(code) == Some(s@),
            None => result_name(code) is None,
        },
{
    match code {
        0 => Some("SUCCESS"),
        1 => Some("TIMEOUT_EXPIRED"),
        3 => Some("SESSION_LOSS_PENDING"),
        4 => Some("EVENT_UNAVAILABLE"),
        7 => Some("SPACE_BOUNDS_UNAVAILABLE"),
        8 => Some("SESSION_NOT_FOCUSED"),
        9 => Some("FRAME_DISCARDED"),
        -1 => Some("ERROR_VALIDATION_FAILURE"),
        -2 => Some("ERROR_RUNTIME_FAILURE"),
        -3 => Some("ERROR_OUT_OF_MEMORY"),
        -4 => Some("ERROR_API_VERSION_UNSUPPORTED"),
        -6 => Some("ERROR_INITIALIZATION_FAILED"),
        -7 => Some("ERROR_FUNCTION_UNSUPPORTED"),
        -8 => Some("ERROR_FEATURE_UNSUPPORTED"),
        -9 => Some("ERROR_EXTENSION_NOT_PRESENT"),
        -10 => Some("ERROR_LIMIT_REACHED"),
        -11 => Some("ERROR_SIZE_INSUFFICIENT"),
        -12 => Some("ERROR_HANDLE_INVALID"),
        -13 => Some("ERROR_INSTANCE_LOST"),
        -14 => Some("ERROR_SESSION_RUNNING"),
        -16 => Some("ERROR_SESSION_NOT_RUNNING"),
        -17 => Some("ERROR_SESSION_LOST"),
        -18 => Some("ERROR_SYSTEM_INVALID"),
        -19 => Some("ERROR_PATH_INVALID"),
        -20 => Some("ERROR_PATH_COUNT_EXCEEDED"),
        -21 => Some("ERROR_PATH_FORMAT_INVALID"),
        -22 => Some("ERROR_PATH_UNSUPPORTED"),
        -23 => Some("ERROR_LAYER_INVALID"),
        -24 => Some("ERROR_LAYER_LIMIT_EXCEEDED"),
        -25 => Some("ERROR_SWAPCHAIN_RECT_INVALID"),
        -26 => Some("ERROR_SWAPCHAIN_FORMAT_UNSUPPORTED"),
        -27 => Some("ERROR_ACTION_TYPE_MISMATCH"),
        -28 => Some("ERROR_SESSION_NOT_READY"),
        -29 => Some("ERROR_SESSION_NOT_STOPPING"),
        -30 => Some("ERROR_TIME_INVALID"),
        -31 => Some("ERROR_REFERENCE_SPACE_UNSUPPORTED"),
        -32 => Some("ERROR_FILE_ACCESS_ERROR"),
        -33 => Some("ERROR_FILE_CONTENTS_INVALID"),
        -34 => Some("ERROR_FORM_FACTOR_UNSUPPORTED"),
        -35 => Some("ERROR_FORM_FACTOR_UNAVAILABLE"),
        -36 => Some("ERROR_API_LAYER_NOT_PRESENT"),
        -37 => Some("ERROR_CALL_ORDER_INVALID"),
        -38 => Some("ERROR_GRAPHICS_DEVICE_INVALID"),
        -39 => Some("ERROR_POSE_INVALID"),
        -40 => Some("ERROR_INDEX_OUT_OF_RANGE"),
        -41 => Some("ERROR_VIEW_CONFIGURATION_TYPE_UNSUPPORTED"),
        -42 => Some("ERROR_ENVIRONMENT_BLEND_MODE_UNSUPPORTED"),
        -44 => Some("ERROR_NAME_DUPLICATED"),
        -45 => Some("ERROR_NAME_INVALID"),
        -46 => Some("ERROR_ACTIONSET_NOT_ATTACHED"),
        -47 => Some("ERROR_ACTIONSETS_ALREADY_ATTACHED"),
        -48 => Some("ERROR_LOCALIZED_NAME_DUPLICATED"),
        -49 => Some("ERROR_LOCALIZED_NAME_INVALID"),
        -50 => Some("ERROR_GRAPHICS_REQUIREMENTS_CALL_MISSING"),
        -51 => Some("ERROR_RUNTIME_UNAVAILABLE"),
        -1000003000 => Some("ERROR_ANDROID_THREAD_SETTINGS_ID_INVALID_KHR"),
        -1000003001 => Some("ERROR_ANDROID_THREAD_SETTINGS_FAILURE_KHR"),
        -1000039001 => Some("ERROR_CREATE_SPATIAL_ANCHOR_FAILED_MSFT"),
        -1000053000 => Some("ERROR_SECONDARY_VIEW_CONFIGURATION_TYPE_NOT_ENABLED_MSFT"),
        -1000055000 => Some("ERROR_CONTROLLER_MODEL_KEY_INVALID_MSFT"),
        -1000066000 => Some("ERROR_REPROJECTION_MODE_UNSUPPORTED_MSFT"),
        -1000097000 => Some("ERROR_COMPUTE_NEW_SCENE_NOT_COMPLETED_MSFT"),
        -1000097001 => Some("ERROR_SCENE_COMPONENT_ID_INVALID_MSFT"),
        -1000097002 => Some("ERROR_SCENE_COMPONENT_TYPE_MISMATCH_MSFT"),
        -1000097003 => Some("ERROR_SCENE_MESH_BUFFER_ID_INVALID_MSFT"),
        -1000097004 => Some("ERROR_SCENE_COMPUTE_FEATURE_INCOMPATIBLE_MSFT"),
        -1000097005 => Some("ERROR_SCENE_COMPUTE_CONSISTENCY_MISMATCH_MSFT"),
        -1000101000 => Some("ERROR_DISPLAY_REFRESH_RATE_UNSUPPORTED_FB"),
        -1000108000 => Some("ERROR_COLOR_SPACE_UNSUPPORTED_FB"),
        -1000113000 => Some("ERROR_SPACE_COMPONENT_NOT_SUPPORTED_FB"),
        -1000113001 => Some("ERROR_SPACE_COMPONENT_NOT_ENABLED_FB"),
        -1000113002 => Some("ERROR_SPACE_COMPONENT_STATUS_PENDING_FB"),
        -1000113003 => Some("ERROR_SPACE_COMPONENT_STATUS_ALREADY_SET_FB"),
        -1000118000 => Some("ERROR_UNEXPECTED_STATE_PASSTHROUGH_FB"),
        -1000118001 => Some("ERROR_FEATURE_ALREADY_CREATED_PASSTHROUGH_FB"),
        -1000118002 => Some("ERROR_FEATURE_REQUIRED_PASSTHROUGH_FB"),
        -1000118003 => Some("ERROR_NOT_PERMITTED_PASSTHROUGH_FB"),
        -1000118004 => Some("ERROR_INSUFFICIENT_RESOURCES_PASSTHROUGH_FB"),
        -1000118050 => Some("ERROR_UNKNOWN_PASSTHROUGH_FB"),
        -1000119000 => Some("ERROR_RENDER_MODEL_KEY_INVALID_FB"),
        1000119020 => Some("RENDER_MODEL_UNAVAILABLE_FB"),
        -1000124000 => Some("ERROR_MARKER_NOT_TRACKED_VARJO"),
        -1000124001 => Some("ERROR_MARKER_ID_INVALID_VARJO"),
        -1000142001 => Some("ERROR_SPATIAL_ANCHOR_NAME_NOT_FOUND_MSFT"),
        -1000142002 => Some("ERROR_SPATIAL_ANCHOR_NAME_INVALID_MSFT"),
        _ => None,
    }
}

/// The name of a structure type, for the types that have one.
pub open spec fn structure_type_name(code: i32) -> Option<Seq<char>> {
    match code {
        0 => Some("UNKNOWN"@),
        1 => Some("API_LAYER_PROPERTIES"@),
        2 => Some("EXTENSION_PROPERTIES"@),
        3 => Some("INSTANCE_CREATE_INFO"@),
        4 => Some("SYSTEM_GET_INFO"@),
        5 => Some("SYSTEM_PROPERTIES"@),
        6 => Some("VIEW_LOCATE_INFO"@),
        7 => Some("VIEW"@),
        8 => Some("SESSION_CREATE_INFO"@),
        9 => Some("SWAPCHAIN_CREATE_INFO"@),
        10 => Some("SESSION_BEGIN_INFO"@),
        11 => Some("VIEW_STATE"@),
        12 => Some("FRAME_END_INFO"@),
        13 => Some("HAPTIC_VIBRATION"@),
        16 => Some("EVENT_DATA_BUFFER"@),
        17 => Some("EVENT_DATA_INSTANCE_LOSS_PENDING"@),
        18 => Some("EVENT_DATA_SESSION_STATE_CHANGED"@),
        23 => Some("ACTION_STATE_BOOLEAN"@),
        24 => Some("ACTION_STATE_FLOAT"@),
        25 => Some("ACTION_STATE_VECTOR2F"@),
        27 => Some("ACTION_STATE_POSE"@),
        28 => Some("ACTION_SET_CREATE_INFO"@),
        29 => Some("ACTION_CREATE_INFO"@),
        32 => Some("INSTANCE_PROPERTIES"@),
        33 => Some("FRAME_WAIT_INFO"@),
        35 => Some("COMPOSITION_LAYER_PROJECTION"@),
        36 => Some("COMPOSITION_LAYER_QUAD"@),
        37 => Some("REFERENCE_SPACE_CREATE_INFO"@),
        38 => Some("ACTION_SPACE_CREATE_INFO"@),
        40 => Some("EVENT_DATA_REFERENCE_SPACE_CHANGE_PENDING"@),
        41 => Some("VIEW_CONFIGURATION_VIEW"@),
        42 => Some("SPACE_LOCATION"@),
        43 => Some("SPACE_VELOCITY"@),
        44 => Some("FRAME_STATE"@),
        45 => Some("VIEW_CONFIGURATION_PROPERTIES"@),
        46 => Some("FRAME_BEGIN_INFO"@),
        48 => Some("COMPOSITION_LAYER_PROJECTION_VIEW"@),
        49 => Some("EVENT_DATA_EVENTS_LOST"@),
        51 => Some("INTERACTION_PROFILE_SUGGESTED_BINDING"@),
        52 => Some("EVENT_DATA_INTERACTION_PROFILE_CHANGED"@),
        53 => Some("INTERACTION_PROFILE_STATE"@),
        55 => Some("SWAPCHAIN_IMAGE_ACQUIRE_INFO"@),
        56 => Some("SWAPCHAIN_IMAGE_WAIT_INFO"@),
        57 => Some("SWAPCHAIN_IMAGE_RELEASE_INFO"@),
        58 => Some("ACTION_STATE_GET_INFO"@),
        59 => Some("HAPTIC_ACTION_INFO"@),
        60 => Some("SESSION_ACTION_SETS_ATTACH_INFO"@),
        61 => Some("ACTIONS_SYNC_INFO"@),
        62 => Some("BOUND_SOURCES_FOR_ACTION_ENUMERATE_INFO"@),
        63 => Some("INPUT_SOURCE_LOCALIZED_NAME_GET_INFO"@),
        1000006000 => Some("COMPOSITION_LAYER_CUBE_KHR"@),
        1000008000 => Some("INSTANCE_CREATE_INFO_ANDROID_KHR"@),
        1000010000 => Some("COMPOSITION_LAYER_DEPTH_INFO_KHR"@),
        1000014000 => Some("VULKAN_SWAPCHAIN_FORMAT_LIST_CREATE_INFO_KHR"@),
        1000015000 => Some("EVENT_DATA_PERF_SETTINGS_EXT"@),
        1000017000 => Some("COMPOSITION_LAYER_CYLINDER_KHR"@),
        1000018000 => Some("COMPOSITION_LAYER_EQUIRECT_KHR"@),
        1000019000 => Some("DEBUG_UTILS_OBJECT_NAME_INFO_EXT"@),
        1000019001 => Some("DEBUG_UTILS_MESSENGER_CALLBACK_DATA_EXT"@),
        1000019002 => Some("DEBUG_UTILS_MESSENGER_CREATE_INFO_EXT"@),
        1000019003 => Some("DEBUG_UTILS_LABEL_EXT"@),
        1000023000 => Some("GRAPHICS_BINDING_OPENGL_WIN32_KHR"@),
        1000023001 => Some("GRAPHICS_BINDING_OPENGL_XLIB_KHR"@),
        1000023002 => Some("GRAPHICS_BINDING_OPENGL_XCB_KHR"@),
        1000023003 => Some("GRAPHICS_BINDING_OPENGL_WAYLAND_KHR"@),
        1000023004 => Some("SWAPCHAIN_IMAGE_OPENGL_KHR"@),
        1000023005 => Some("GRAPHICS_REQUIREMENTS_OPENGL_KHR"@),
        1000024001 => Some("GRAPHICS_BINDING_OPENGL_ES_ANDROID_KHR"@),
        1000024002 => Some("SWAPCHAIN_IMAGE_OPENGL_ES_KHR"@),
        1000024003 => Some("GRAPHICS_REQUIREMENTS_OPENGL_ES_KHR"@),
        1000025000 => Some("GRAPHICS_BINDING_VULKAN_KHR"@),
        1000025001 => Some("SWAPCHAIN_IMAGE_VULKAN_KHR"@),
        1000025002 => Some("GRAPHICS_REQUIREMENTS_VULKAN_KHR"@),
        1000027000 => Some("GRAPHICS_BINDING_D3D11_KHR"@),
        1000027001 => Some("SWAPCHAIN_IMAGE_D3D11_KHR"@),
        1000027002 => Some("GRAPHICS_REQUIREMENTS_D3D11_KHR"@),
        1000028000 => Some("GRAPHICS_BINDING_D3D12_KHR"@),
        1000028001 => Some("SWAPCHAIN_IMAGE_D3D12_KHR"@),
        1000028002 => Some("GRAPHICS_REQUIREMENTS_D3D12_KHR"@),
        1000030000 => Some("SYSTEM_EYE_GAZE_INTERACTION_PROPERTIES_EXT"@),
        1000030001 => Some("EYE_GAZE_SAMPLE_TIME_EXT"@),
        1000031000 => Some("VISIBILITY_MASK_KHR"@),
        1000031001 => Some("EVENT_DATA_VISIBILITY_MASK_CHANGED_KHR"@),
        1000033000 => Some("SESSION_CREATE_INFO_OVERLAY_EXTX"@),
        1000033003 => Some("EVENT_DATA_MAIN_SESSION_VISIBILITY_CHANGED_EXTX"@),
        1000034000 => Some("COMPOSITION_LAYER_COLOR_SCALE_BIAS_KHR"@),
        1000039000 => Some("SPATIAL_ANCHOR_CREATE_INFO_MSFT"@),
        1000039001 => Some("SPATIAL_ANCHOR_SPACE_CREATE_INFO_MSFT"@),
        1000040000 => Some("COMPOSITION_LAYER_IMAGE_LAYOUT_FB"@),
        1000041001 => Some("COMPOSITION_LAYER_ALPHA_BLEND_FB"@),
        1000046000 => Some("VIEW_CONFIGURATION_DEPTH_RANGE_EXT"@),
        1000048004 => Some("GRAPHICS_BINDING_EGL_MNDX"@),
        1000049000 => Some("SPATIAL_GRAPH_NODE_SPACE_CREATE_INFO_MSFT"@),
        1000049001 => Some("SPATIAL_GRAPH_STATIC_NODE_BINDING_CREATE_INFO_MSFT"@),
        1000049002 => Some("SPATIAL_GRAPH_NODE_BINDING_PROPERTIES_GET_INFO_MSFT"@),
        1000049003 => Some("SPATIAL_GRAPH_NODE_BINDING_PROPERTIES_MSFT"@),
        1000051000 => Some("SYSTEM_HAND_TRACKING_PROPERTIES_EXT"@),
        1000051001 => Some("HAND_TRACKER_CREATE_INFO_EXT"@),
        1000051002 => Some("HAND_JOINTS_LOCATE_INFO_EXT"@),
        1000051003 => Some("HAND_JOINT_LOCATIONS_EXT"@),
        1000051004 => Some("HAND_JOINT_VELOCITIES_EXT"@),
        1000052000 => Some("SYSTEM_HAND_TRACKING_MESH_PROPERTIES_MSFT"@),
        1000052001 => Some("HAND_MESH_SPACE_CREATE_INFO_MSFT"@),
        1000052002 => Some("HAND_MESH_UPDATE_INFO_MSFT"@),
        1000052003 => Some("HAND_MESH_MSFT"@),
        1000052004 => Some("HAND_POSE_TYPE_INFO_MSFT"@),
        1000053000 => Some("SECONDARY_VIEW_CONFIGURATION_SESSION_BEGIN_INFO_MSFT"@),
        1000053001 => Some("SECONDARY_VIEW_CONFIGURATION_STATE_MSFT"@),
        1000053002 => Some("SECONDARY_VIEW_CONFIGURATION_FRAME_STATE_MSFT"@),
        1000053003 => Some("SECONDARY_VIEW_CONFIGURATION_FRAME_END_INFO_MSFT"@),
        1000053004 => Some("SECONDARY_VIEW_CONFIGURATION_LAYER_INFO_MSFT"@),
        1000053005 => Some("SECONDARY_VIEW_CONFIGURATION_SWAPCHAIN_CREATE_INFO_MSFT"@),
        1000055000 => Some("CONTROLLER_MODEL_KEY_STATE_MSFT"@),
        1000055001 => Some("CONTROLLER_MODEL_NODE_PROPERTIES_MSFT"@),
        1000055002 => Some("CONTROLLER_MODEL_PROPERTIES_MSFT"@),
        1000055003 => Some("CONTROLLER_MODEL_NODE_STATE_MSFT"@),
        1000055004 => Some("CONTROLLER_MODEL_STATE_MSFT"@),
        1000059000 => Some("VIEW_CONFIGURATION_VIEW_FOV_EPIC"@),
        1000063000 => Some("HOLOGRAPHIC_WINDOW_ATTACHMENT_MSFT"@),
        1000066000 => Some("COMPOSITION_LAYER_REPROJECTION_INFO_MSFT"@),
        1000066001 => Some("COMPOSITION_LAYER_REPROJECTION_PLANE_OVERRIDE_MSFT"@),
        1000070000 => Some("ANDROID_SURFACE_SWAPCHAIN_CREATE_INFO_FB"@),
        1000072000 => Some("COMPOSITION_LAYER_SECURE_CONTENT_FB"@),
        1000078000 => Some("INTERACTION_PROFILE_DPAD_BINDING_EXT"@),
        1000079000 => Some("INTERACTION_PROFILE_ANALOG_THRESHOLD_VALVE"@),
        1000080000 => Some("HAND_JOINTS_MOTION_RANGE_INFO_EXT"@),
        1000089000 => Some("LOADER_INIT_INFO_ANDROID_KHR"@),
        1000090000 => Some("VULKAN_INSTANCE_CREATE_INFO_KHR"@),
        1000090001 => Some("VULKAN_DEVICE_CREATE_INFO_KHR"@),
        1000090003 => Some("VULKAN_GRAPHICS_DEVICE_GET_INFO_KHR"@),
        1000091000 => Some("COMPOSITION_LAYER_EQUIRECT2_KHR"@),
        1000097000 => Some("SCENE_OBSERVER_CREATE_INFO_MSFT"@),
        1000097001 => Some("SCENE_CREATE_INFO_MSFT"@),
        1000097002 => Some("NEW_SCENE_COMPUTE_INFO_MSFT"@),
        1000097003 => Some("VISUAL_MESH_COMPUTE_LOD_INFO_MSFT"@),
        1000097004 => Some("SCENE_COMPONENTS_MSFT"@),
        1000097005 => Some("SCENE_COMPONENTS_GET_INFO_MSFT"@),
        1000097006 => Some("SCENE_COMPONENT_LOCATIONS_MSFT"@),
        1000097007 => Some("SCENE_COMPONENTS_LOCATE_INFO_MSFT"@),
        1000097008 => Some("SCENE_OBJECTS_MSFT"@),
        1000097009 => Some("SCENE_COMPONENT_PARENT_FILTER_INFO_MSFT"@),
        1000097010 => Some("SCENE_OBJECT_TYPES_FILTER_INFO_MSFT"@),
        1000097011 => Some("SCENE_PLANES_MSFT"@),
        1000097012 => Some("SCENE_PLANE_ALIGNMENT_FILTER_INFO_MSFT"@),
        1000097013 => Some("SCENE_MESHES_MSFT"@),
        1000097014 => Some("SCENE_MESH_BUFFERS_GET_INFO_MSFT"@),
        1000097015 => Some("SCENE_MESH_BUFFERS_MSFT"@),
        1000097016 => Some("SCENE_MESH_VERTEX_BUFFER_MSFT"@),
        1000097017 => Some("SCENE_MESH_INDICES_UINT32_MSFT"@),
        1000097018 => Some("SCENE_MESH_INDICES_UINT16_MSFT"@),
        1000098000 => Some("SERIALIZED_SCENE_FRAGMENT_DATA_GET_INFO_MSFT"@),
        1000098001 => Some("SCENE_DESERIALIZE_INFO_MSFT"@),
        1000101000 => Some("EVENT_DATA_DISPLAY_REFRESH_RATE_CHANGED_FB"@),
        1000103000 => Some("VIVE_TRACKER_PATHS_HTCX"@),
        1000103001 => Some("EVENT_DATA_VIVE_TRACKER_CONNECTED_HTCX"@),
        1000104000 => Some("SYSTEM_FACIAL_TRACKING_PROPERTIES_HTC"@),
        1000104001 => Some("FACIAL_TRACKER_CREATE_INFO_HTC"@),
        1000104002 => Some("FACIAL_EXPRESSIONS_HTC"@),
        1000108000 => Some("SYSTEM_COLOR_SPACE_PROPERTIES_FB"@),
        1000110001 => Some("HAND_TRACKING_MESH_FB"@),
        1000110003 => Some("HAND_TRACKING_SCALE_FB"@),
        1000111001 => Some("HAND_TRACKING_AIM_STATE_FB"@),
        1000112000 => Some("HAND_TRACKING_CAPSULES_STATE_FB"@),
        1000113004 => Some("SYSTEM_SPATIAL_ENTITY_PROPERTIES_FB"@),
        1000113003 => Some("SPATIAL_ANCHOR_CREATE_INFO_FB"@),
        1000113007 => Some("SPACE_COMPONENT_STATUS_SET_INFO_FB"@),
        1000113001 => Some("SPACE_COMPONENT_STATUS_FB"@),
        1000113005 => Some("EVENT_DATA_SPATIAL_ANCHOR_CREATE_COMPLETE_FB"@),
        1000113006 => Some("EVENT_DATA_SPACE_SET_STATUS_COMPLETE_FB"@),
        1000114000 => Some("FOVEATION_PROFILE_CREATE_INFO_FB"@),
        1000114001 => Some("SWAPCHAIN_CREATE_INFO_FOVEATION_FB"@),
        1000114002 => Some("SWAPCHAIN_STATE_FOVEATION_FB"@),
        1000115000 => Some("FOVEATION_LEVEL_PROFILE_CREATE_INFO_FB"@),
        1000116009 => Some("KEYBOARD_SPACE_CREATE_INFO_FB"@),
        1000116004 => Some("KEYBOARD_TRACKING_QUERY_FB"@),
        1000116002 => Some("SYSTEM_KEYBOARD_TRACKING_PROPERTIES_FB"@),
        1000117001 => Some("TRIANGLE_MESH_CREATE_INFO_FB"@),
        1000118000 => Some("SYSTEM_PASSTHROUGH_PROPERTIES_FB"@),
        1000118001 => Some("PASSTHROUGH_CREATE_INFO_FB"@),
        1000118002 => Some("PASSTHROUGH_LAYER_CREATE_INFO_FB"@),
        1000118003 => Some("COMPOSITION_LAYER_PASSTHROUGH_FB"@),
        1000118004 => Some("GEOMETRY_INSTANCE_CREATE_INFO_FB"@),
        1000118005 => Some("GEOMETRY_INSTANCE_TRANSFORM_FB"@),
        1000118006 => Some("SYSTEM_PASSTHROUGH_PROPERTIES2_FB"@),
        1000118020 => Some("PASSTHROUGH_STYLE_FB"@),
        1000118021 => Some("PASSTHROUGH_COLOR_MAP_MONO_TO_RGBA_FB"@),
        1000118022 => Some("PASSTHROUGH_COLOR_MAP_MONO_TO_MONO_FB"@),
        1000118023 => Some("PASSTHROUGH_BRIGHTNESS_CONTRAST_SATURATION_FB"@),
        1000118030 => Some("EVENT_DATA_PASSTHROUGH_STATE_CHANGED_FB"@),
        1000119000 => Some("RENDER_MODEL_PATH_INFO_FB"@),
        1000119001 => Some("RENDER_MODEL_PROPERTIES_FB"@),
        1000119002 => Some("RENDER_MODEL_BUFFER_FB"@),
        1000119003 => Some("RENDER_MODEL_LOAD_INFO_FB"@),
        1000119004 => Some("SYSTEM_RENDER_MODEL_PROPERTIES_FB"@),
        1000119005 => Some("RENDER_MODEL_CAPABILITIES_REQUEST_FB"@),
        1000120000 => Some("BINDING_MODIFICATIONS_KHR"@),
        1000121000 => Some("VIEW_LOCATE_FOVEATED_RENDERING_VARJO"@),
        1000121001 => Some("FOVEATED_VIEW_CONFIGURATION_VIEW_VARJO"@),
        1000121002 => Some("SYSTEM_FOVEATED_RENDERING_PROPERTIES_VARJO"@),
        1000122000 => Some("COMPOSITION_LAYER_DEPTH_TEST_VARJO"@),
        1000124000 => Some("SYSTEM_MARKER_TRACKING_PROPERTIES_VARJO"@),
        1000124001 => Some("EVENT_DATA_MARKER_TRACKING_UPDATE_VARJO"@),
        1000124002 => Some("MARKER_SPACE_CREATE_INFO_VARJO"@),
        1000142000 => Some("SPATIAL_ANCHOR_PERSISTENCE_INFO_MSFT"@),
        1000142001 => Some("SPATIAL_ANCHOR_FROM_PERSISTED_ANCHOR_CREATE_INFO_MSFT"@),
        1000156001 => Some("SPACE_QUERY_INFO_FB"@),
        1000156002 => Some("SPACE_QUERY_RESULTS_FB"@),
        1000156003 => Some("SPACE_STORAGE_LOCATION_FILTER_INFO_FB"@),
        1000156054 => Some("SPACE_UUID_FILTER_INFO_FB"@),
        1000156052 => Some("SPACE_COMPONENT_FILTER_INFO_FB"@),
        1000156103 => Some("EVENT_DATA_SPACE_QUERY_RESULTS_AVAILABLE_FB"@),
        1000156104 => Some("EVENT_DATA_SPACE_QUERY_COMPLETE_FB"@),
        1000158000 => Some("SPACE_SAVE_INFO_FB"@),
        1000158001 => Some("SPACE_ERASE_INFO_FB"@),
        1000158106 => Some("EVENT_DATA_SPACE_SAVE_COMPLETE_FB"@),
        1000158107 => Some("EVENT_DATA_SPACE_ERASE_COMPLETE_FB"@),
        1000160000 => Some("SWAPCHAIN_IMAGE_FOVEATION_VULKAN_FB"@),
        1000161000 => Some("SWAPCHAIN_STATE_ANDROID_SURFACE_DIMENSIONS_FB"@),
        1000162000 => Some("SWAPCHAIN_STATE_SAMPLER_OPENGL_ES_FB"@),
        1000163000 => Some("SWAPCHAIN_STATE_SAMPLER_VULKAN_FB"@),
        1000171000 => Some("COMPOSITION_LAYER_SPACE_WARP_INFO_FB"@),
        1000171001 => Some("SYSTEM_SPACE_WARP_PROPERTIES_FB"@),
        1000175000 => Some("SEMANTIC_LABELS_FB"@),
        1000175001 => Some("ROOM_LAYOUT_FB"@),
        1000175002 => Some("BOUNDARY_2D_FB"@),
        1000196000 => Some("DIGITAL_LENS_CONTROL_ALMALENCE"@),
        1000199000 => Some("SPACE_CONTAINER_FB"@),
        1000203002 => Some("PASSTHROUGH_KEYBOARD_HANDS_INTENSITY_FB"@),
        1000204000 => Some("COMPOSITION_LAYER_SETTINGS_FB"@),
        1000227000 => Some("VULKAN_SWAPCHAIN_CREATE_INFO_META"@),
        1000232001 => Some("PERFORMANCE_METRICS_STATE_META"@),
        1000232002 => Some("PERFORMANCE_METRICS_COUNTER_META"@),
        _ => None,
    }
}

/// Looks a structure type up among the named ones.
pub fn known_structure_type_name(code: i32) -> (name: Option<&'static str>)
    ensures
        match name {
            Some(s) => structure_type_name(code) == Some(s@),
            None => structure_type_name(code) is None,
        },
{
    match code {
        0 => Some("UNKNOWN"),
        1 => Some("API_LAYER_PROPERTIES"),
        2 => Some("EXTENSION_PROPERTIES"),
        3 => Some("INSTANCE_CREATE_INFO"),
        4 => Some("SYSTEM_GET_INFO"),
        5 => Some("SYSTEM_PROPERTIES"),
        6 => Some("VIEW_LOCATE_INFO"),
        7 => Some("VIEW"),
        8 => Some("SESSION_CREATE_INFO"),
        9 => Some("SWAPCHAIN_CREATE_INFO"),
        10 => Some("SESSION_BEGIN_INFO"),
        11 => Some("VIEW_STATE"),
        12 => Some("FRAME_END_INFO"),
        13 => Some("HAPTIC_VIBRATION"),
        16 => Some("EVENT_DATA_BUFFER"),
        17 => Some("EVENT_DATA_INSTANCE_LOSS_PENDING"),
        18 => Some("EVENT_DATA_SESSION_STATE_CHANGED"),
        23 => Some("ACTION_STATE_BOOLEAN"),
        24 => Some("ACTION_STATE_FLOAT"),
        25 => Some("ACTION_STATE_VECTOR2F"),
        27 => Some("ACTION_STATE_POSE"),
        28 => Some("ACTION_SET_CREATE_INFO"),
        29 => Some("ACTION_CREATE_INFO"),
        32 => Some("INSTANCE_PROPERTIES"),
        33 => Some("FRAME_WAIT_INFO"),
        35 => Some("COMPOSITION_LAYER_PROJECTION"),
        36 => Some("COMPOSITION_LAYER_QUAD"),
        37 => Some("REFERENCE_SPACE_CREATE_INFO"),
        38 => Some("ACTION_SPACE_CREATE_INFO"),
        40 => Some("EVENT_DATA_REFERENCE_SPACE_CHANGE_PENDING"),
        41 => Some("VIEW_CONFIGURATION_VIEW"),
        42 => Some("SPACE_LOCATION"),
        43 => Some("SPACE_VELOCITY"),
        44 => Some("FRAME_STATE"),
        45 => Some("VIEW_CONFIGURATION_PROPERTIES"),
        46 => Some("FRAME_BEGIN_INFO"),
        48 => Some("COMPOSITION_LAYER_PROJECTION_VIEW"),
        49 => Some("EVENT_DATA_EVENTS_LOST"),
        51 => Some("INTERACTION_PROFILE_SUGGESTED_BINDING"),
        52 => Some("EVENT_DATA_INTERACTION_PROFILE_CHANGED"),
        53 => Some("INTERACTION_PROFILE_STATE"),
        55 => Some("SWAPCHAIN_IMAGE_ACQUIRE_INFO"),
        56 => Some("SWAPCHAIN_IMAGE_WAIT_INFO"),
        57 => Some("SWAPCHAIN_IMAGE_RELEASE_INFO"),
        58 => Some("ACTION_STATE_GET_INFO"),
        59 => Some("HAPTIC_ACTION_INFO"),
        60 => Some("SESSION_ACTION_SETS_ATTACH_INFO"),
        61 => Some("ACTIONS_SYNC_INFO"),
        62 => Some("BOUND_SOURCES_FOR_ACTION_ENUMERATE_INFO"),
        63 => Some("INPUT_SOURCE_LOCALIZED_NAME_GET_INFO"),
        1000006000 => Some("COMPOSITION_LAYER_CUBE_KHR"),
        1000008000 => Some("INSTANCE_CREATE_INFO_ANDROID_KHR"),
        1000010000 => Some("COMPOSITION_LAYER_DEPTH_INFO_KHR"),
        1000014000 => Some("VULKAN_SWAPCHAIN_FORMAT_LIST_CREATE_INFO_KHR"),
        1000015000 => Some("EVENT_DATA_PERF_SETTINGS_EXT"),
        1000017000 => Some("COMPOSITION_LAYER_CYLINDER_KHR"),
        1000018000 => Some("COMPOSITION_LAYER_EQUIRECT_KHR"),
        1000019000 => Some("DEBUG_UTILS_OBJECT_NAME_INFO_EXT"),
        1000019001 => Some("DEBUG_UTILS_MESSENGER_CALLBACK_DATA_EXT"),
        1000019002 => Some("DEBUG_UTILS_MESSENGER_CREATE_INFO_EXT"),
        1000019003 => Some("DEBUG_UTILS_LABEL_EXT"),
        1000023000 => Some("GRAPHICS_BINDING_OPENGL_WIN32_KHR"),
        1000023001 => Some("GRAPHICS_BINDING_OPENGL_XLIB_KHR"),
        1000023002 => Some("GRAPHICS_BINDING_OPENGL_XCB_KHR"),
        1000023003 => Some("GRAPHICS_BINDING_OPENGL_WAYLAND_KHR"),
        1000023004 => Some("SWAPCHAIN_IMAGE_OPENGL_KHR"),
        1000023005 => Some("GRAPHICS_REQUIREMENTS_OPENGL_KHR"),
        1000024001 => Some("GRAPHICS_BINDING_OPENGL_ES_ANDROID_KHR"),
        1000024002 => Some("SWAPCHAIN_IMAGE_OPENGL_ES_KHR"),
        1000024003 => Some("GRAPHICS_REQUIREMENTS_OPENGL_ES_KHR"),
        1000025000 => Some("GRAPHICS_BINDING_VULKAN_KHR"),
        1000025001 => Some("SWAPCHAIN_IMAGE_VULKAN_KHR"),
        1000025002 => Some("GRAPHICS_REQUIREMENTS_VULKAN_KHR"),
        1000027000 => Some("GRAPHICS_BINDING_D3D11_KHR"),
        1000027001 => Some("SWAPCHAIN_IMAGE_D3D11_KHR"),
        1000027002 => Some("GRAPHICS_REQUIREMENTS_D3D11_KHR"),
        1000028000 => Some("GRAPHICS_BINDING_D3D12_KHR"),
        1000028001 => Some("SWAPCHAIN_IMAGE_D3D12_KHR"),
        1000028002 => Some("GRAPHICS_REQUIREMENTS_D3D12_KHR"),
        1000030000 => Some("SYSTEM_EYE_GAZE_INTERACTION_PROPERTIES_EXT"),
        1000030001 => Some("EYE_GAZE_SAMPLE_TIME_EXT"),
        1000031000 => Some("VISIBILITY_MASK_KHR"),
        1000031001 => Some("EVENT_DATA_VISIBILITY_MASK_CHANGED_KHR"),
        1000033000 => Some("SESSION_CREATE_INFO_OVERLAY_EXTX"),
        1000033003 => Some("EVENT_DATA_MAIN_SESSION_VISIBILITY_CHANGED_EXTX"),
        1000034000 => Some("COMPOSITION_LAYER_COLOR_SCALE_BIAS_KHR"),
        1000039000 => Some("SPATIAL_ANCHOR_CREATE_INFO_MSFT"),
        1000039001 => Some("SPATIAL_ANCHOR_SPACE_CREATE_INFO_MSFT"),
        1000040000 => Some("COMPOSITION_LAYER_IMAGE_LAYOUT_FB"),
        1000041001 => Some("COMPOSITION_LAYER_ALPHA_BLEND_FB"),
        1000046000 => Some("VIEW_CONFIGURATION_DEPTH_RANGE_EXT"),
        1000048004 => Some("GRAPHICS_BINDING_EGL_MNDX"),
        1000049000 => Some("SPATIAL_GRAPH_NODE_SPACE_CREATE_INFO_MSFT"),
        1000049001 => Some("SPATIAL_GRAPH_STATIC_NODE_BINDING_CREATE_INFO_MSFT"),
        1000049002 => Some("SPATIAL_GRAPH_NODE_BINDING_PROPERTIES_GET_INFO_MSFT"),
        1000049003 => Some("SPATIAL_GRAPH_NODE_BINDING_PROPERTIES_MSFT"),
        1000051000 => Some("SYSTEM_HAND_TRACKING_PROPERTIES_EXT"),
        1000051001 => Some("HAND_TRACKER_CREATE_INFO_EXT"),
        1000051002 => Some("HAND_JOINTS_LOCATE_INFO_EXT"),
        1000051003 => Some("HAND_JOINT_LOCATIONS_EXT"),
        1000051004 => Some("HAND_JOINT_VELOCITIES_EXT"),
        1000052000 => Some("SYSTEM_HAND_TRACKING_MESH_PROPERTIES_MSFT"),
        1000052001 => Some("HAND_MESH_SPACE_CREATE_INFO_MSFT"),
        1000052002 => Some("HAND_MESH_UPDATE_INFO_MSFT"),
        1000052003 => Some("HAND_MESH_MSFT"),
        1000052004 => Some("HAND_POSE_TYPE_INFO_MSFT"),
        1000053000 => Some("SECONDARY_VIEW_CONFIGURATION_SESSION_BEGIN_INFO_MSFT"),
        1000053001 => Some("SECONDARY_VIEW_CONFIGURATION_STATE_MSFT"),
        1000053002 => Some("SECONDARY_VIEW_CONFIGURATION_FRAME_STATE_MSFT"),
        1000053003 => Some("SECONDARY_VIEW_CONFIGURATION_FRAME_END_INFO_MSFT"),
        1000053004 => Some("SECONDARY_VIEW_CONFIGURATION_LAYER_INFO_MSFT"),
        1000053005 => Some("SECONDARY_VIEW_CONFIGURATION_SWAPCHAIN_CREATE_INFO_MSFT"),
        1000055000 => Some("CONTROLLER_MODEL_KEY_STATE_MSFT"),
        1000055001 => Some("CONTROLLER_MODEL_NODE_PROPERTIES_MSFT"),
        1000055002 => Some("CONTROLLER_MODEL_PROPERTIES_MSFT"),
        1000055003 => Some("CONTROLLER_MODEL_NODE_STATE_MSFT"),
        1000055004 => Some("CONTROLLER_MODEL_STATE_MSFT"),
        1000059000 => Some("VIEW_CONFIGURATION_VIEW_FOV_EPIC"),
        1000063000 => Some("HOLOGRAPHIC_WINDOW_ATTACHMENT_MSFT"),
        1000066000 => Some("COMPOSITION_LAYER_REPROJECTION_INFO_MSFT"),
        1000066001 => Some("COMPOSITION_LAYER_REPROJECTION_PLANE_OVERRIDE_MSFT"),
        1000070000 => Some("ANDROID_SURFACE_SWAPCHAIN_CREATE_INFO_FB"),
        1000072000 => Some("COMPOSITION_LAYER_SECURE_CONTENT_FB"),
        1000078000 => Some("INTERACTION_PROFILE_DPAD_BINDING_EXT"),
        1000079000 => Some("INTERACTION_PROFILE_ANALOG_THRESHOLD_VALVE"),
        1000080000 => Some("HAND_JOINTS_MOTION_RANGE_INFO_EXT"),
        1000089000 => Some("LOADER_INIT_INFO_ANDROID_KHR"),
        1000090000 => Some("VULKAN_INSTANCE_CREATE_INFO_KHR"),
        1000090001 => Some("VULKAN_DEVICE_CREATE_INFO_KHR"),
        1000090003 => Some("VULKAN_GRAPHICS_DEVICE_GET_INFO_KHR"),
        1000091000 => Some("COMPOSITION_LAYER_EQUIRECT2_KHR"),
        1000097000 => Some("SCENE_OBSERVER_CREATE_INFO_MSFT"),
        1000097001 => Some("SCENE_CREATE_INFO_MSFT"),
        1000097002 => Some("NEW_SCENE_COMPUTE_INFO_MSFT"),
        1000097003 => Some("VISUAL_MESH_COMPUTE_LOD_INFO_MSFT"),
        1000097004 => Some("SCENE_COMPONENTS_MSFT"),
        1000097005 => Some("SCENE_COMPONENTS_GET_INFO_MSFT"),
        1000097006 => Some("SCENE_COMPONENT_LOCATIONS_MSFT"),
        1000097007 => Some("SCENE_COMPONENTS_LOCATE_INFO_MSFT"),
        1000097008 => Some("SCENE_OBJECTS_MSFT"),
        1000097009 => Some("SCENE_COMPONENT_PARENT_FILTER_INFO_MSFT"),
        1000097010 => Some("SCENE_OBJECT_TYPES_FILTER_INFO_MSFT"),
        1000097011 => Some("SCENE_PLANES_MSFT"),
        1000097012 => Some("SCENE_PLANE_ALIGNMENT_FILTER_INFO_MSFT"),
        1000097013 => Some("SCENE_MESHES_MSFT"),
        1000097014 => Some("SCENE_MESH_BUFFERS_GET_INFO_MSFT"),
        1000097015 => Some("SCENE_MESH_BUFFERS_MSFT"),
        1000097016 => Some("SCENE_MESH_VERTEX_BUFFER_MSFT"),
        1000097017 => Some("SCENE_MESH_INDICES_UINT32_MSFT"),
        1000097018 => Some("SCENE_MESH_INDICES_UINT16_MSFT"),
        1000098000 => Some("SERIALIZED_SCENE_FRAGMENT_DATA_GET_INFO_MSFT"),
        1000098001 => Some("SCENE_DESERIALIZE_INFO_MSFT"),
        1000101000 => Some("EVENT_DATA_DISPLAY_REFRESH_RATE_CHANGED_FB"),
        1000103000 => Some("VIVE_TRACKER_PATHS_HTCX"),
        1000103001 => Some("EVENT_DATA_VIVE_TRACKER_CONNECTED_HTCX"),
        1000104000 => Some("SYSTEM_FACIAL_TRACKING_PROPERTIES_HTC"),
        1000104001 => Some("FACIAL_TRACKER_CREATE_INFO_HTC"),
        1000104002 => Some("FACIAL_EXPRESSIONS_HTC"),
        1000108000 => Some("SYSTEM_COLOR_SPACE_PROPERTIES_FB"),
        1000110001 => Some("HAND_TRACKING_MESH_FB"),
        1000110003 => Some("HAND_TRACKING_SCALE_FB"),
        1000111001 => Some("HAND_TRACKING_AIM_STATE_FB"),
        1000112000 => Some("HAND_TRACKING_CAPSULES_STATE_FB"),
        1000113004 => Some("SYSTEM_SPATIAL_ENTITY_PROPERTIES_FB"),
        1000113003 => Some("SPATIAL_ANCHOR_CREATE_INFO_FB"),
        1000113007 => Some("SPACE_COMPONENT_STATUS_SET_INFO_FB"),
        1000113001 => Some("SPACE_COMPONENT_STATUS_FB"),
        1000113005 => Some("EVENT_DATA_SPATIAL_ANCHOR_CREATE_COMPLETE_FB"),
        1000113006 => Some("EVENT_DATA_SPACE_SET_STATUS_COMPLETE_FB"),
        1000114000 => Some("FOVEATION_PROFILE_CREATE_INFO_FB"),
        1000114001 => Some("SWAPCHAIN_CREATE_INFO_FOVEATION_FB"),
        1000114002 => Some("SWAPCHAIN_STATE_FOVEATION_FB"),
        1000115000 => Some("FOVEATION_LEVEL_PROFILE_CREATE_INFO_FB"),
        1000116009 => Some("KEYBOARD_SPACE_CREATE_INFO_FB"),
        1000116004 => Some("KEYBOARD_TRACKING_QUERY_FB"),
        1000116002 => Some("SYSTEM_KEYBOARD_TRACKING_PROPERTIES_FB"),
        1000117001 => Some("TRIANGLE_MESH_CREATE_INFO_FB"),
        1000118000 => Some("SYSTEM_PASSTHROUGH_PROPERTIES_FB"),
        1000118001 => Some("PASSTHROUGH_CREATE_INFO_FB"),
        1000118002 => Some("PASSTHROUGH_LAYER_CREATE_INFO_FB"),
        1000118003 => Some("COMPOSITION_LAYER_PASSTHROUGH_FB"),
        1000118004 => Some("GEOMETRY_INSTANCE_CREATE_INFO_FB"),
        1000118005 => Some("GEOMETRY_INSTANCE_TRANSFORM_FB"),
        1000118006 => Some("SYSTEM_PASSTHROUGH_PROPERTIES2_FB"),
        1000118020 => Some("PASSTHROUGH_STYLE_FB"),
        1000118021 => Some("PASSTHROUGH_COLOR_MAP_MONO_TO_RGBA_FB"),
        1000118022 => Some("PASSTHROUGH_COLOR_MAP_MONO_TO_MONO_FB"),
        1000118023 => Some("PASSTHROUGH_BRIGHTNESS_CONTRAST_SATURATION_FB"),
        1000118030 => Some("EVENT_DATA_PASSTHROUGH_STATE_CHANGED_FB"),
        1000119000 => Some("RENDER_MODEL_PATH_INFO_FB"),
        1000119001 => Some("RENDER_MODEL_PROPERTIES_FB"),
        1000119002 => Some("RENDER_MODEL_BUFFER_FB"),
        1000119003 => Some("RENDER_MODEL_LOAD_INFO_FB"),
        1000119004 => Some("SYSTEM_RENDER_MODEL_PROPERTIES_FB"),
        1000119005 => Some("RENDER_MODEL_CAPABILITIES_REQUEST_FB"),
        1000120000 => Some("BINDING_MODIFICATIONS_KHR"),
        1000121000 => Some("VIEW_LOCATE_FOVEATED_RENDERING_VARJO"),
        1000121001 => Some("FOVEATED_VIEW_CONFIGURATION_VIEW_VARJO"),
        1000121002 => Some("SYSTEM_FOVEATED_RENDERING_PROPERTIES_VARJO"),
        1000122000 => Some("COMPOSITION_LAYER_DEPTH_TEST_VARJO"),
        1000124000 => Some("SYSTEM_MARKER_TRACKING_PROPERTIES_VARJO"),
        1000124001 => Some("EVENT_DATA_MARKER_TRACKING_UPDATE_VARJO"),
        1000124002 => Some("MARKER_SPACE_CREATE_INFO_VARJO"),
        1000142000 => Some("SPATIAL_ANCHOR_PERSISTENCE_INFO_MSFT"),
        1000142001 => Some("SPATIAL_ANCHOR_FROM_PERSISTED_ANCHOR_CREATE_INFO_MSFT"),
        1000156001 => Some("SPACE_QUERY_INFO_FB"),
        1000156002 => Some("SPACE_QUERY_RESULTS_FB"),
        1000156003 => Some("SPACE_STORAGE_LOCATION_FILTER_INFO_FB"),
        1000156054 => Some("SPACE_UUID_FILTER_INFO_FB"),
        1000156052 => Some("SPACE_COMPONENT_FILTER_INFO_FB"),
        1000156103 => Some("EVENT_DATA_SPACE_QUERY_RESULTS_AVAILABLE_FB"),
        1000156104 => Some("EVENT_DATA_SPACE_QUERY_COMPLETE_FB"),
        1000158000 => Some("SPACE_SAVE_INFO_FB"),
        1000158001 => Some("SPACE_ERASE_INFO_FB"),
        1000158106 => Some("EVENT_DATA_SPACE_SAVE_COMPLETE_FB"),
        1000158107 => Some("EVENT_DATA_SPACE_ERASE_COMPLETE_FB"),
        1000160000 => Some("SWAPCHAIN_IMAGE_FOVEATION_VULKAN_FB"),
        1000161000 => Some("SWAPCHAIN_STATE_ANDROID_SURFACE_DIMENSIONS_FB"),
        1000162000 => Some("SWAPCHAIN_STATE_SAMPLER_OPENGL_ES_FB"),
        1000163000 => Some("SWAPCHAIN_STATE_SAMPLER_VULKAN_FB"),
        1000171000 => Some("COMPOSITION_LAYER_SPACE_WARP_INFO_FB"),
        1000171001 => Some("SYSTEM_SPACE_WARP_PROPERTIES_FB"),
        1000175000 => Some("SEMANTIC_LABELS_FB"),
        1000175001 => Some("ROOM_LAYOUT_FB"),
        1000175002 => Some("BOUNDARY_2D_FB"),
        1000196000 => Some("DIGITAL_LENS_CONTROL_ALMALENCE"),
        1000199000 => Some("SPACE_CONTAINER_FB"),
        1000203002 => Some("PASSTHROUGH_KEYBOARD_HANDS_INTENSITY_FB"),
        1000204000 => Some("COMPOSITION_LAYER_SETTINGS_FB"),
        1000227000 => Some("VULKAN_SWAPCHAIN_CREATE_INFO_META"),
        1000232001 => Some("PERFORMANCE_METRICS_STATE_META"),
        1000232002 => Some("PERFORMANCE_METRICS_COUNTER_META"),
        _ => None,
    }
}

/// The display string of a result code: `XR_` and its name where it has one; otherwise it is
/// reported as an unknown success where the code is positive and as an unknown failure where
/// it is not, with the code in decimal behind.
pub open spec fn result_text(code: i32) -> Seq<char> {
    match result_name(code) {
        Some(name) => "XR_"@ + name,
        None => if code > 0 {
            "XR_UNKNOWN_SUCCESS_"@ + signed_decimal(code as int)
        } else {
            "XR_UNKNOWN_FAILURE_"@ + signed_decimal(code as int)
        },
    }
}

/// The display string of a structure type: `XR_` and its name where it has one, otherwise
/// `XR_UNKNOWN_STRUCTURE_TYPE_` and the type's number in decimal.
pub open spec fn structure_type_text(code: i32) -> Seq<char> {
    match structure_type_name(code) {
        Some(name) => "XR_"@ + name,
        None => "XR_UNKNOWN_STRUCTURE_TYPE_"@ + signed_decimal(code as int),
    }
}

/// Renders a result code as its display string.
pub fn result_string(code: i32) -> (text: String)
    ensures
        text@ == result_text(code),
{
    match known_result_name(code) {
        Some(name) => {
            let mut text = String::from_str("XR_");
            text.append(name);
            text
        },
        None => {
            let mut text = if code > 0 {
                String::from_str("XR_UNKNOWN_SUCCESS_")
            } else {
                String::from_str("XR_UNKNOWN_FAILURE_")
            };
            push_signed_decimal(&mut text, code);
            text
        },
    }
}

/// Renders a structure type as its display string.
pub fn structure_type_string(code: i32) -> (text: String)
    ensures
        text@ == structure_type_text(code),
{
    match known_structure_type_name(code) {
        Some(name) => {
            let mut text = String::from_str("XR_");
            text.append(name);
            text
        },
        None => {
            let mut text = String::from_str("XR_UNKNOWN_STRUCTURE_TYPE_");
            push_signed_decimal(&mut text, code);
            text
        },
    }
}

/// Writes the display string of the result code `value` into `buffer`: the string's bytes from
/// the buffer's start, cut off at the buffer's length, and zeros in every slot behind them.
/// No instance is looked up, and the call always succeeds.
pub fn xrResultToString(_instance: u64, value: i32, buffer: &mut [i8]) -> (outcome: Result<
    (),
    XrError,
>)
    ensures
        outcome is Ok,
        final(buffer)@ == padded(encode_utf8(result_text(value)), old(buffer)@.len()),
{
    let text = result_string(value);
    write_padded(buffer, text.as_str().as_bytes());
    Ok(())
}

/// Writes the display string of the structure type `value` into `buffer`: the string's bytes
/// from the buffer's start, cut off at the buffer's length, and zeros in every slot behind
/// them. No instance is looked up, and the call always succeeds.
pub fn xrStructureTypeToString(_instance: u64, value: i32, buffer: &mut [i8]) -> (outcome: Result<
    (),
    XrError,
>)
    ensures
        outcome is Ok,
        final(buffer)@ == padded(encode_utf8(structure_type_text(value)), old(buffer)@.len()),
{
    let text = structure_type_string(value);
    write_padded(buffer, text.as_str().as_bytes());
    Ok(())
}

} // verus!
