use crate::error::XrError;
use crate::text::same_text;
use vstd::prelude::*;

verus! {

/// The functions of the interface that a loader can ask for by name.
#[derive(Clone, Copy, Debug, PartialEq, Eq, Structural)]
pub enum EntryPoint {
    EnumerateInstanceExtensionProperties,
    EnumerateApiLayerProperties,
    CreateInstance,
    DestroyInstance,
    ResultToString,
    StructureTypeToString,
    GetInstanceProperties,
    GetSystem,
    GetSystemProperties,
    CreateSession,
    DestroySession,
    DestroySpace,
    EnumerateSwapchainFormats,
    CreateSwapchain,
    DestroySwapchain,
    EnumerateSwapchainImages,
    AcquireSwapchainImage,
    WaitSwapchainImage,
    ReleaseSwapchainImage,
    BeginSession,
    EndSession,
    RequestExitSession,
    EnumerateReferenceSpaces,
    CreateReferenceSpace,
    CreateActionSpace,
    LocateSpace,
    EnumerateViewConfigurations,
    EnumerateViewConfigurationViews,
    EnumerateEnvironmentBlendModes,
    GetViewConfigurationProperties,
    BeginFrame,
    LocateViews,
    EndFrame,
    WaitFrame,
    ApplyHapticFeedback,
    StopHapticFeedback,
    PollEvent,
    StringToPath,
    PathToString,
    GetReferenceSpaceBoundsRect,
    GetActionStateBoolean,
    GetActionStateFloat,
    GetActionStateVector2f,
    GetActionStatePose,
    CreateActionSet,
    DestroyActionSet,
    CreateAction,
    DestroyAction,
    SuggestInteractionProfileBindings,
    AttachSessionActionSets,
    GetCurrentInteractionProfile,
    SyncActions,
    EnumerateBoundSourcesForAction,
    GetInputSourceLocalizedName,
}

impl EntryPoint {
    /// The name under which the function is exported.
    pub open spec fn spec_name(self) -> Seq<char> {
        match self {
            EntryPoint::EnumerateInstanceExtensionProperties => "xrEnumerateInstanceExtensionProperties"@,
            EntryPoint::EnumerateApiLayerProperties => "xrEnumerateApiLayerProperties"@,
            EntryPoint::CreateInstance => "xrCreateInstance"@,
            EntryPoint::DestroyInstance => "xrDestroyInstance"@,
            EntryPoint::ResultToString => "xrResultToString"@,
            EntryPoint::StructureTypeToString => "xrStructureTypeToString"@,
            EntryPoint::GetInstanceProperties => "xrGetInstanceProperties"@,
            EntryPoint::GetSystem => "xrGetSystem"@,
            EntryPoint::GetSystemProperties => "xrGetSystemProperties"@,
            EntryPoint::CreateSession => "xrCreateSession"@,
            EntryPoint::DestroySession => "xrDestroySession"@,
            EntryPoint::DestroySpace => "xrDestroySpace"@,
            EntryPoint::EnumerateSwapchainFormats => "xrEnumerateSwapchainFormats"@,
            EntryPoint::CreateSwapchain => "xrCreateSwapchain"@,
            EntryPoint::DestroySwapchain => "xrDestroySwapchain"@,
            EntryPoint::EnumerateSwapchainImages => "xrEnumerateSwapchainImages"@,
            EntryPoint::AcquireSwapchainImage => "xrAcquireSwapchainImage"@,
            EntryPoint::WaitSwapchainImage => "xrWaitSwapchainImage"@,
            EntryPoint::ReleaseSwapchainImage => "xrReleaseSwapchainImage"@,
            EntryPoint::BeginSession => "xrBeginSession"@,
            EntryPoint::EndSession => "xrEndSession"@,
            EntryPoint::RequestExitSession => "xrRequestExitSession"@,
            EntryPoint::EnumerateReferenceSpaces => "xrEnumerateReferenceSpaces"@,
            EntryPoint::CreateReferenceSpace => "xrCreateReferenceSpace"@,
            EntryPoint::CreateActionSpace => "xrCreateActionSpace"@,
            EntryPoint::LocateSpace => "xrLocateSpace"@,
            EntryPoint::EnumerateViewConfigurations => "xrEnumerateViewConfigurations"@,
            EntryPoint::EnumerateViewConfigurationViews => "xrEnumerateViewConfigurationViews"@,
            EntryPoint::EnumerateEnvironmentBlendModes => "xrEnumerateEnvironmentBlendModes"@,
            EntryPoint::GetViewConfigurationProperties => "xrGetViewConfigurationProperties"@,
            EntryPoint::BeginFrame => "xrBeginFrame"@,
            EntryPoint::LocateViews => "xrLocateViews"@,
            EntryPoint::EndFrame => "xrEndFrame"@,
            EntryPoint::WaitFrame => "xrWaitFrame"@,
            EntryPoint::ApplyHapticFeedback => "xrApplyHapticFeedback"@,
            EntryPoint::StopHapticFeedback => "xrStopHapticFeedback"@,
            EntryPoint::PollEvent => "xrPollEvent"@,
            EntryPoint::StringToPath => "xrStringToPath"@,
            EntryPoint::PathToString => "xrPathToString"@,
            EntryPoint::GetReferenceSpaceBoundsRect => "xrGetReferenceSpaceBoundsRect"@,
            EntryPoint::GetActionStateBoolean => "xrGetActionStateBoolean"@,
            EntryPoint::GetActionStateFloat => "xrGetActionStateFloat"@,
            EntryPoint::GetActionStateVector2f => "xrGetActionStateVector2f"@,
            EntryPoint::GetActionStatePose => "xrGetActionStatePose"@,
            EntryPoint::CreateActionSet => "xrCreateActionSet"@,
            EntryPoint::DestroyActionSet => "xrDestroyActionSet"@,
            EntryPoint::CreateAction => "xrCreateAction"@,
            EntryPoint::DestroyAction => "xrDestroyAction"@,
            EntryPoint::SuggestInteractionProfileBindings => "xrSuggestInteractionProfileBindings"@,
            EntryPoint::AttachSessionActionSets => "xrAttachSessionActionSets"@,
            EntryPoint::GetCurrentInteractionProfile => "xrGetCurrentInteractionProfile"@,
            EntryPoint::SyncActions => "xrSyncActions"@,
            EntryPoint::EnumerateBoundSourcesForAction => "xrEnumerateBoundSourcesForAction"@,
            EntryPoint::GetInputSourceLocalizedName => "xrGetInputSourceLocalizedName"@,
        }
    }

    /// Whether the function may be asked for before any instance exists.
    pub open spec fn spec_unbound(self) -> bool {
        self == EntryPoint::EnumerateInstanceExtensionProperties
            || self == EntryPoint::EnumerateApiLayerProperties
            || self == EntryPoint::CreateInstance
    }

    /// The name under which the function is exported.
    pub fn name(self) -> (name: &'static str)
        ensures
            name@ == self.spec_name(),
    {
        match self {
            EntryPoint::EnumerateInstanceExtensionProperties => "xrEnumerateInstanceExtensionProperties",
            EntryPoint::EnumerateApiLayerProperties => "xrEnumerateApiLayerProperties",
            EntryPoint::CreateInstance => "xrCreateInstance",
            EntryPoint::DestroyInstance => "xrDestroyInstance",
            EntryPoint::ResultToString => "xrResultToString",
            EntryPoint::StructureTypeToString => "xrStructureTypeToString",
            EntryPoint::GetInstanceProperties => "xrGetInstanceProperties",
            EntryPoint::GetSystem => "xrGetSystem",
            EntryPoint::GetSystemProperties => "xrGetSystemProperties",
            EntryPoint::CreateSession => "xrCreateSession",
            EntryPoint::DestroySession => "xrDestroySession",
            EntryPoint::DestroySpace => "xrDestroySpace",
            EntryPoint::EnumerateSwapchainFormats => "xrEnumerateSwapchainFormats",
            EntryPoint::CreateSwapchain => "xrCreateSwapchain",
            EntryPoint::DestroySwapchain => "xrDestroySwapchain",
            EntryPoint::EnumerateSwapchainImages => "xrEnumerateSwapchainImages",
            EntryPoint::AcquireSwapchainImage => "xrAcquireSwapchainImage",
            EntryPoint::WaitSwapchainImage => "xrWaitSwapchainImage",
            EntryPoint::ReleaseSwapchainImage => "xrReleaseSwapchainImage",
            EntryPoint::BeginSession => "xrBeginSession",
            EntryPoint::EndSession => "xrEndSession",
            EntryPoint::RequestExitSession => "xrRequestExitSession",
            EntryPoint::EnumerateReferenceSpaces => "xrEnumerateReferenceSpaces",
            EntryPoint::CreateReferenceSpace => "xrCreateReferenceSpace",
            EntryPoint::CreateActionSpace => "xrCreateActionSpace",
            EntryPoint::LocateSpace => "xrLocateSpace",
            EntryPoint::EnumerateViewConfigurations => "xrEnumerateViewConfigurations",
            EntryPoint::EnumerateViewConfigurationViews => "xrEnumerateViewConfigurationViews",
            EntryPoint::EnumerateEnvironmentBlendModes => "xrEnumerateEnvironmentBlendModes",
            EntryPoint::GetViewConfigurationProperties => "xrGetViewConfigurationProperties",
            EntryPoint::BeginFrame => "xrBeginFrame",
            EntryPoint::LocateViews => "xrLocateViews",
            EntryPoint::EndFrame => "xrEndFrame",
            EntryPoint::WaitFrame => "xrWaitFrame",
            EntryPoint::ApplyHapticFeedback => "xrApplyHapticFeedback",
            EntryPoint::StopHapticFeedback => "xrStopHapticFeedback",
            EntryPoint::PollEvent => "xrPollEvent",
            EntryPoint::StringToPath => "xrStringToPath",
            EntryPoint::PathToString => "xrPathToString",
            EntryPoint::GetReferenceSpaceBoundsRect => "xrGetReferenceSpaceBoundsRect",
            EntryPoint::GetActionStateBoolean => "xrGetActionStateBoolean",
            EntryPoint::GetActionStateFloat => "xrGetActionStateFloat",
            EntryPoint::GetActionStateVector2f => "xrGetActionStateVector2f",
            EntryPoint::GetActionStatePose => "xrGetActionStatePose",
            EntryPoint::CreateActionSet => "xrCreateActionSet",
            EntryPoint::DestroyActionSet => "xrDestroyActionSet",
            EntryPoint::CreateAction => "xrCreateAction",
            EntryPoint::DestroyAction => "xrDestroyAction",
            EntryPoint::SuggestInteractionProfileBindings => "xrSuggestInteractionProfileBindings",
            EntryPoint::AttachSessionActionSets => "xrAttachSessionActionSets",
            EntryPoint::GetCurrentInteractionProfile => "xrGetCurrentInteractionProfile",
            EntryPoint::SyncActions => "xrSyncActions",
            EntryPoint::EnumerateBoundSourcesForAction => "xrEnumerateBoundSourcesForAction",
            EntryPoint::GetInputSourceLocalizedName => "xrGetInputSourceLocalizedName",
        }
    }

    /// Whether the function may be asked for before any instance exists.
    pub fn unbound(self) -> (yes: bool)
        ensures
            yes == self.spec_unbound(),
    {
        match self {
            EntryPoint::EnumerateInstanceExtensionProperties => true,
            EntryPoint::EnumerateApiLayerProperties => true,
            EntryPoint::CreateInstance => true,
            _ => false,
        }
    }
}

/// Whether some function of the interface is exported under `name` and may be asked for in
/// the given scope. With `bound` false only the functions that need no instance are in scope.
pub open spec fn resolvable(bound: bool, name: Seq<char>) -> bool {
    exists|e: EntryPoint| #[trigger] e.spec_name() == name && (bound || e.spec_unbound())
}

/// Finds the function that is exported under `name` among those that need no instance.
/// A name that no function has, or that only a function bound to an instance has, is refused
/// as an invalid handle.
pub fn resolve_unbound(name: &str) -> (found: Result<EntryPoint, XrError>)
    ensures
        match found {
            Ok(e) => e.spec_name() == name@ && e.spec_unbound(),
            Err(e) => e == XrError::HandleInvalid && !resolvable(false, name@),
        },
{
    if same_text(name, "xrEnumerateInstanceExtensionProperties") {
        Ok(EntryPoint::EnumerateInstanceExtensionProperties)
    } else if same_text(name, "xrEnumerateApiLayerProperties") {
        Ok(EntryPoint::EnumerateApiLayerProperties)
    } else if same_text(name, "xrCreateInstance") {
        Ok(EntryPoint::CreateInstance)
    } else {
        Err(XrError::HandleInvalid)
    }
}

/// Finds the function that is exported under `name` among all functions of the interface,
/// as a loader may once it holds an instance. A name that no function has is refused as an
/// invalid handle.
pub fn resolve_bound(name: &str) -> (found: Result<EntryPoint, XrError>)
    ensures
        match found {
            Ok(e) => e.spec_name() == name@,
            Err(e) => e == XrError::HandleInvalid && !resolvable(true, name@),
        },
{
    if same_text(name, "xrEnumerateInstanceExtensionProperties") {
        Ok(EntryPoint::EnumerateInstanceExtensionProperties)
    } else if same_text(name, "xrEnumerateApiLayerProperties") {
        Ok(EntryPoint::EnumerateApiLayerProperties)
    } else if same_text(name, "xrCreateInstance") {
        Ok(EntryPoint::CreateInstance)
    } else if same_text(name, "xrDestroyInstance") {
        Ok(EntryPoint::DestroyInstance)
    } else if same_text(name, "xrResultToString") {
        Ok(EntryPoint::ResultToString)
    } else if same_text(name, "xrStructureTypeToString") {
        Ok(EntryPoint::StructureTypeToString)
    } else if same_text(name, "xrGetInstanceProperties") {
        Ok(EntryPoint::GetInstanceProperties)
    } else if same_text(name, "xrGetSystem") {
        Ok(EntryPoint::GetSystem)
    } else if same_text(name, "xrGetSystemProperties") {
        Ok(EntryPoint::GetSystemProperties)
    } else if same_text(name, "xrCreateSession") {
        Ok(EntryPoint::CreateSession)
    } else if same_text(name, "xrDestroySession") {
        Ok(EntryPoint::DestroySession)
    } else if same_text(name, "xrDestroySpace") {
        Ok(EntryPoint::DestroySpace)
    } else if same_text(name, "xrEnumerateSwapchainFormats") {
        Ok(EntryPoint::EnumerateSwapchainFormats)
    } else if same_text(name, "xrCreateSwapchain") {
        Ok(EntryPoint::CreateSwapchain)
    } else if same_text(name, "xrDestroySwapchain") {
        Ok(EntryPoint::DestroySwapchain)
    } else if same_text(name, "xrEnumerateSwapchainImages") {
        Ok(EntryPoint::EnumerateSwapchainImages)
    } else if same_text(name, "xrAcquireSwapchainImage") {
        Ok(EntryPoint::AcquireSwapchainImage)
    } else if same_text(name, "xrWaitSwapchainImage") {
        Ok(EntryPoint::WaitSwapchainImage)
    } else if same_text(name, "xrReleaseSwapchainImage") {
        Ok(EntryPoint::ReleaseSwapchainImage)
    } else if same_text(name, "xrBeginSession") {
        Ok(EntryPoint::BeginSession)
    } else if same_text(name, "xrEndSession") {
        Ok(EntryPoint::EndSession)
    } else if same_text(name, "xrRequestExitSession") {
        Ok(EntryPoint::RequestExitSession)
    } else if same_text(name, "xrEnumerateReferenceSpaces") {
        Ok(EntryPoint::EnumerateReferenceSpaces)
    } else if same_text(name, "xrCreateReferenceSpace") {
        Ok(EntryPoint::CreateReferenceSpace)
    } else if same_text(name, "xrCreateActionSpace") {
        Ok(EntryPoint::CreateActionSpace)
    } else if same_text(name, "xrLocateSpace") {
        Ok(EntryPoint::LocateSpace)
    } else if same_text(name, "xrEnumerateViewConfigurations") {
        Ok(EntryPoint::EnumerateViewConfigurations)
    } else if same_text(name, "xrEnumerateViewConfigurationViews") {
        Ok(EntryPoint::EnumerateViewConfigurationViews)
    } else if same_text(name, "xrEnumerateEnvironmentBlendModes") {
        Ok(EntryPoint::EnumerateEnvironmentBlendModes)
    } else if same_text(name, "xrGetViewConfigurationProperties") {
        Ok(EntryPoint::GetViewConfigurationProperties)
    } else if same_text(name, "xrBeginFrame") {
        Ok(EntryPoint::BeginFrame)
    } else if same_text(name, "xrLocateViews") {
        Ok(EntryPoint::LocateViews)
    } else if same_text(name, "xrEndFrame") {
        Ok(EntryPoint::EndFrame)
    } else if same_text(name, "xrWaitFrame") {
        Ok(EntryPoint::WaitFrame)
    } else if same_text(name, "xrApplyHapticFeedback") {
        Ok(EntryPoint::ApplyHapticFeedback)
    } else if same_text(name, "xrStopHapticFeedback") {
        Ok(EntryPoint::StopHapticFeedback)
    } else if same_text(name, "xrPollEvent") {
        Ok(EntryPoint::PollEvent)
    } else if same_text(name, "xrStringToPath") {
        Ok(EntryPoint::StringToPath)
    } else if same_text(name, "xrPathToString") {
        Ok(EntryPoint::PathToString)
    } else if same_text(name, "xrGetReferenceSpaceBoundsRect") {
        Ok(EntryPoint::GetReferenceSpaceBoundsRect)
    } else if same_text(name, "xrGetActionStateBoolean") {
        Ok(EntryPoint::GetActionStateBoolean)
    } else if same_text(name, "xrGetActionStateFloat") {
        Ok(EntryPoint::GetActionStateFloat)
    } else if same_text(name, "xrGetActionStateVector2f") {
        Ok(EntryPoint::GetActionStateVector2f)
    } else if same_text(name, "xrGetActionStatePose") {
        Ok(EntryPoint::GetActionStatePose)
    } else if same_text(name, "xrCreateActionSet") {
        Ok(EntryPoint::CreateActionSet)
    } else if same_text(name, "xrDestroyActionSet") {
        Ok(EntryPoint::DestroyActionSet)
    } else if same_text(name, "xrCreateAction") {
        Ok(EntryPoint::CreateAction)
    } else if same_text(name, "xrDestroyAction") {
        Ok(EntryPoint::DestroyAction)
    } else if same_text(name, "xrSuggestInteractionProfileBindings") {
        Ok(EntryPoint::SuggestInteractionProfileBindings)
    } else if same_text(name, "xrAttachSessionActionSets") {
        Ok(EntryPoint::AttachSessionActionSets)
    } else if same_text(name, "xrGetCurrentInteractionProfile") {
        Ok(EntryPoint::GetCurrentInteractionProfile)
    } else if same_text(name, "xrSyncActions") {
        Ok(EntryPoint::SyncActions)
    } else if same_text(name, "xrEnumerateBoundSourcesForAction") {
        Ok(EntryPoint::EnumerateBoundSourcesForAction)
    } else if same_text(name, "xrGetInputSourceLocalizedName") {
        Ok(EntryPoint::GetInputSourceLocalizedName)
    } else {
        Err(XrError::HandleInvalid)
    }
}

/// What tells the names of the functions apart: a name's length, its third character and
/// its third from the end.
spec fn fingerprint(e: EntryPoint) -> (nat, char, char) {
    match e {
        EntryPoint::EnumerateInstanceExtensionProperties => (38, 'E', 'i'),
        EntryPoint::EnumerateApiLayerProperties => (29, 'E', 'i'),
        EntryPoint::CreateInstance => (16, 'C', 'n'),
        EntryPoint::DestroyInstance => (17, 'D', 'n'),
        EntryPoint::ResultToString => (16, 'R', 'i'),
        EntryPoint::StructureTypeToString => (23, 'S', 'i'),
        EntryPoint::GetInstanceProperties => (23, 'G', 'i'),
        EntryPoint::GetSystem => (11, 'G', 't'),
        EntryPoint::GetSystemProperties => (21, 'G', 'i'),
        EntryPoint::CreateSession => (15, 'C', 'i'),
        EntryPoint::DestroySession => (16, 'D', 'i'),
        EntryPoint::DestroySpace => (14, 'D', 'a'),
        EntryPoint::EnumerateSwapchainFormats => (27, 'E', 'a'),
        EntryPoint::CreateSwapchain => (17, 'C', 'a'),
        EntryPoint::DestroySwapchain => (18, 'D', 'a'),
        EntryPoint::EnumerateSwapchainImages => (26, 'E', 'g'),
        EntryPoint::AcquireSwapchainImage => (23, 'A', 'a'),
        EntryPoint::WaitSwapchainImage => (20, 'W', 'a'),
        EntryPoint::ReleaseSwapchainImage => (23, 'R', 'a'),
        EntryPoint::BeginSession => (14, 'B', 'i'),
        EntryPoint::EndSession => (12, 'E', 'i'),
        EntryPoint::RequestExitSession => (20, 'R', 'i'),
        EntryPoint::EnumerateReferenceSpaces => (26, 'E', 'c'),
        EntryPoint::CreateReferenceSpace => (22, 'C', 'a'),
        EntryPoint::CreateActionSpace => (19, 'C', 'a'),
        EntryPoint::LocateSpace => (13, 'L', 'a'),
        EntryPoint::EnumerateViewConfigurations => (29, 'E', 'o'),
        EntryPoint::EnumerateViewConfigurationViews => (33, 'E', 'e'),
        EntryPoint::EnumerateEnvironmentBlendModes => (32, 'E', 'd'),
        EntryPoint::GetViewConfigurationProperties => (32, 'G', 'i'),
        EntryPoint::BeginFrame => (12, 'B', 'a'),
        EntryPoint::LocateViews => (13, 'L', 'e'),
        EntryPoint::EndFrame => (10, 'E', 'a'),
        EntryPoint::WaitFrame => (11, 'W', 'a'),
        EntryPoint::ApplyHapticFeedback => (21, 'A', 'a'),
        EntryPoint::StopHapticFeedback => (20, 'S', 'a'),
        EntryPoint::PollEvent => (11, 'P', 'e'),
        EntryPoint::StringToPath => (14, 'S', 'a'),
        EntryPoint::PathToString => (14, 'P', 'i'),
        EntryPoint::GetReferenceSpaceBoundsRect => (29, 'G', 'e'),
        EntryPoint::GetActionStateBoolean => (23, 'G', 'e'),
        EntryPoint::GetActionStateFloat => (21, 'G', 'o'),
        EntryPoint::GetActionStateVector2f => (24, 'G', 'r'),
        EntryPoint::GetActionStatePose => (20, 'G', 'o'),
        EntryPoint::CreateActionSet => (17, 'C', 'S'),
        EntryPoint::DestroyActionSet => (18, 'D', 'S'),
        EntryPoint::CreateAction => (14, 'C', 'i'),
        EntryPoint::DestroyAction => (15, 'D', 'i'),
        EntryPoint::SuggestInteractionProfileBindings => (35, 'S', 'n'),
        EntryPoint::AttachSessionActionSets => (25, 'A', 'e'),
        EntryPoint::GetCurrentInteractionProfile => (30, 'G', 'i'),
        EntryPoint::SyncActions => (13, 'S', 'o'),
        EntryPoint::EnumerateBoundSourcesForAction => (32, 'E', 'i'),
        EntryPoint::GetInputSourceLocalizedName => (29, 'G', 'a'),
    }
}

/// Each function's name has the function's fingerprint.
proof fn lemma_fingerprint(e: EntryPoint)
    ensures
        e.spec_name().len() == fingerprint(e).0,
        e.spec_name()[2] == fingerprint(e).1,
        e.spec_name()[e.spec_name().len() - 3] == fingerprint(e).2,
{
    match e {
        EntryPoint::EnumerateInstanceExtensionProperties => {
            reveal_strlit("xrEnumerateInstanceExtensionProperties");
        },
        EntryPoint::EnumerateApiLayerProperties => {
            reveal_strlit("xrEnumerateApiLayerProperties");
        },
        EntryPoint::CreateInstance => {
            reveal_strlit("xrCreateInstance");
        },
        EntryPoint::DestroyInstance => {
            reveal_strlit("xrDestroyInstance");
        },
        EntryPoint::ResultToString => {
            reveal_strlit("xrResultToString");
        },
        EntryPoint::StructureTypeToString => {
            reveal_strlit("xrStructureTypeToString");
        },
        EntryPoint::GetInstanceProperties => {
            reveal_strlit("xrGetInstanceProperties");
        },
        EntryPoint::GetSystem => {
            reveal_strlit("xrGetSystem");
        },
        EntryPoint::GetSystemProperties => {
            reveal_strlit("xrGetSystemProperties");
        },
        EntryPoint::CreateSession => {
            reveal_strlit("xrCreateSession");
        },
        EntryPoint::DestroySession => {
            reveal_strlit("xrDestroySession");
        },
        EntryPoint::DestroySpace => {
            reveal_strlit("xrDestroySpace");
        },
        EntryPoint::EnumerateSwapchainFormats => {
            reveal_strlit("xrEnumerateSwapchainFormats");
        },
        EntryPoint::CreateSwapchain => {
            reveal_strlit("xrCreateSwapchain");
        },
        EntryPoint::DestroySwapchain => {
            reveal_strlit("xrDestroySwapchain");
        },
        EntryPoint::EnumerateSwapchainImages => {
            reveal_strlit("xrEnumerateSwapchainImages");
        },
        EntryPoint::AcquireSwapchainImage => {
            reveal_strlit("xrAcquireSwapchainImage");
        },
        EntryPoint::WaitSwapchainImage => {
            reveal_strlit("xrWaitSwapchainImage");
        },
        EntryPoint::ReleaseSwapchainImage => {
            reveal_strlit("xrReleaseSwapchainImage");
        },
        EntryPoint::BeginSession => {
            reveal_strlit("xrBeginSession");
        },
        EntryPoint::EndSession => {
            reveal_strlit("xrEndSession");
        },
        EntryPoint::RequestExitSession => {
            reveal_strlit("xrRequestExitSession");
        },
        EntryPoint::EnumerateReferenceSpaces => {
            reveal_strlit("xrEnumerateReferenceSpaces");
        },
        EntryPoint::CreateReferenceSpace => {
            reveal_strlit("xrCreateReferenceSpace");
        },
        EntryPoint::CreateActionSpace => {
            reveal_strlit("xrCreateActionSpace");
        },
        EntryPoint::LocateSpace => {
            reveal_strlit("xrLocateSpace");
        },
        EntryPoint::EnumerateViewConfigurations => {
            reveal_strlit("xrEnumerateViewConfigurations");
        },
        EntryPoint::EnumerateViewConfigurationViews => {
            reveal_strlit("xrEnumerateViewConfigurationViews");
        },
        EntryPoint::EnumerateEnvironmentBlendModes => {
            reveal_strlit("xrEnumerateEnvironmentBlendModes");
        },
        EntryPoint::GetViewConfigurationProperties => {
            reveal_strlit("xrGetViewConfigurationProperties");
        },
        EntryPoint::BeginFrame => {
            reveal_strlit("xrBeginFrame");
        },
        EntryPoint::LocateViews => {
            reveal_strlit("xrLocateViews");
        },
        EntryPoint::EndFrame => {
            reveal_strlit("xrEndFrame");
        },
        EntryPoint::WaitFrame => {
            reveal_strlit("xrWaitFrame");
        },
        EntryPoint::ApplyHapticFeedback => {
            reveal_strlit("xrApplyHapticFeedback");
        },
        EntryPoint::StopHapticFeedback => {
            reveal_strlit("xrStopHapticFeedback");
        },
        EntryPoint::PollEvent => {
            reveal_strlit("xrPollEvent");
        },
        EntryPoint::StringToPath => {
            reveal_strlit("xrStringToPath");
        },
        EntryPoint::PathToString => {
            reveal_strlit("xrPathToString");
        },
        EntryPoint::GetReferenceSpaceBoundsRect => {
            reveal_strlit("xrGetReferenceSpaceBoundsRect");
        },
        EntryPoint::GetActionStateBoolean => {
            reveal_strlit("xrGetActionStateBoolean");
        },
        EntryPoint::GetActionStateFloat => {
            reveal_strlit("xrGetActionStateFloat");
        },
        EntryPoint::GetActionStateVector2f => {
            reveal_strlit("xrGetActionStateVector2f");
        },
        EntryPoint::GetActionStatePose => {
            reveal_strlit("xrGetActionStatePose");
        },
        EntryPoint::CreateActionSet => {
            reveal_strlit("xrCreateActionSet");
        },
        EntryPoint::DestroyActionSet => {
            reveal_strlit("xrDestroyActionSet");
        },
        EntryPoint::CreateAction => {
            reveal_strlit("xrCreateAction");
        },
        EntryPoint::DestroyAction => {
            reveal_strlit("xrDestroyAction");
        },
        EntryPoint::SuggestInteractionProfileBindings => {
            reveal_strlit("xrSuggestInteractionProfileBindings");
        },
        EntryPoint::AttachSessionActionSets => {
            reveal_strlit("xrAttachSessionActionSets");
        },
        EntryPoint::GetCurrentInteractionProfile => {
            reveal_strlit("xrGetCurrentInteractionProfile");
        },
        EntryPoint::SyncActions => {
            reveal_strlit("xrSyncActions");
        },
        EntryPoint::EnumerateBoundSourcesForAction => {
            reveal_strlit("xrEnumerateBoundSourcesForAction");
        },
        EntryPoint::GetInputSourceLocalizedName => {
            reveal_strlit("xrGetInputSourceLocalizedName");
        },
    }
}

/// No two functions of the interface are exported under the same name: a name that
/// resolves names one function.
pub proof fn lemma_names_are_distinct(a: EntryPoint, b: EntryPoint)
    requires
        a.spec_name() == b.spec_name(),
    ensures
        a == b,
{
    lemma_fingerprint(a);
    lemma_fingerprint(b);
}

} // verus!
