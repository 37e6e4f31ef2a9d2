//! Identification of the supported OpenRGB controllers and the decisions that
//! the device listing and the static preset make from the controller list.

use vstd::prelude::*;

use crate::text::{ascii_eq_ignore_case, eq_ignore_ascii_case};

verus! {

/// Category that OpenRGB reports for a controller.
#[derive(Clone, Copy, Debug, PartialEq, Eq, Structural)]
pub enum DeviceType {
    Motherboard,
    DRam,
    Gpu,
    Cooler,
    LEDStrip,
    Keyboard,
    Mouse,
    MouseMat,
    Headset,
    HeadsetStand,
    Gamepad,
    Light,
    Speaker,
    Virtual,
    Unknown,
}

/// The metadata of one OpenRGB controller that identifies its hardware.
#[derive(Clone, Debug)]
pub struct ControllerInfo {
    pub device_type: DeviceType,
    pub vendor: String,
    pub name: String,
}

/// One member of the supported device group.
#[derive(Clone, Copy, Debug, PartialEq, Eq, Structural)]
pub enum TargetDevice {
    Keyboard,
    Mouse,
}

/// Metadata that identifies the supported keyboard (a G513 Carbon, which
/// OpenRGB reports as a Logitech G512 RGB).
pub open spec fn spec_is_target_keyboard(device_type: DeviceType, vendor: Seq<char>, name: Seq<char>) -> bool {
    &&& device_type == DeviceType::Keyboard
    &&& ascii_eq_ignore_case(vendor, "Logitech"@)
    &&& ascii_eq_ignore_case(name, "Logitech G512 RGB"@)
}

/// Metadata that identifies the supported mouse.
pub open spec fn spec_is_target_mouse(device_type: DeviceType, vendor: Seq<char>, name: Seq<char>) -> bool {
    &&& device_type == DeviceType::Mouse
    &&& ascii_eq_ignore_case(vendor, "Logitech"@)
    &&& ascii_eq_ignore_case(name, "G502 HERO Gaming Mouse"@)
}

/// Whether a controller is the given member of the device group.
pub open spec fn is_target(role: TargetDevice, c: ControllerInfo) -> bool {
    match role {
        TargetDevice::Keyboard => spec_is_target_keyboard(c.device_type, c.vendor@, c.name@),
        TargetDevice::Mouse => spec_is_target_mouse(c.device_type, c.vendor@, c.name@),
    }
}

/// Some controller of the list is the given member of the device group.
pub open spec fn has_target(cs: Seq<ControllerInfo>, role: TargetDevice) -> bool {
    exists|i: int| 0 <= i < cs.len() && #[trigger] is_target(role, cs[i])
}

/// `i` is the position of the first controller that is the given member.
pub open spec fn is_first_target(cs: Seq<ControllerInfo>, role: TargetDevice, i: int) -> bool {
    &&& 0 <= i < cs.len()
    &&& is_target(role, cs[i])
    &&& forall|j: int| 0 <= j < i ==> !#[trigger] is_target(role, cs[j])
}

/// The position of the first controller that is the given member, if any.
pub open spec fn first_target(cs: Seq<ControllerInfo>, role: TargetDevice) -> Option<usize> {
    if has_target(cs, role) {
        Some(choose|i: usize| is_first_target(cs, role, i as int))
    } else {
        None
    }
}

/// Returns `true` when controller metadata identifies the supported keyboard.
///
/// Vendor and model are compared ASCII case-insensitively; the serial is not
/// looked at, so another unit of the same model matches too.
pub fn is_target_keyboard(device_type: DeviceType, vendor: &str, name: &str) -> (r: bool)
    ensures
        r == spec_is_target_keyboard(device_type, vendor@, name@),
{
    device_type == DeviceType::Keyboard && eq_ignore_ascii_case(vendor, "Logitech")
        && eq_ignore_ascii_case(name, "Logitech G512 RGB")
}

/// Returns `true` when controller metadata identifies the supported mouse.
///
/// Device paths and locations are not looked at, since they may change
/// between boots.
pub fn is_target_mouse(device_type: DeviceType, vendor: &str, name: &str) -> (r: bool)
    ensures
        r == spec_is_target_mouse(device_type, vendor@, name@),
{
    device_type == DeviceType::Mouse && eq_ignore_ascii_case(vendor, "Logitech")
        && eq_ignore_ascii_case(name, "G502 HERO Gaming Mouse")
}

/// Whether `controller` is the given member of the device group.
pub fn matches_target(role: TargetDevice, controller: &ControllerInfo) -> (r: bool)
    ensures
        r == is_target(role, *controller),
{
    match role {
        TargetDevice::Keyboard => is_target_keyboard(
            controller.device_type,
            controller.vendor.as_str(),
            controller.name.as_str(),
        ),
        TargetDevice::Mouse => is_target_mouse(
            controller.device_type,
            controller.vendor.as_str(),
            controller.name.as_str(),
        ),
    }
}

/// The position of the first controller that is the given member of the
/// device group, as `Iterator::find` would pick it.
pub fn find_target(controllers: &[ControllerInfo], role: TargetDevice) -> (r: Option<usize>)
    ensures
        r == first_target(controllers@, role),
        r matches Some(i) ==> is_first_target(controllers@, role, i as int),
        r is None <==> !has_target(controllers@, role),
{
    let n = controllers.len();
    let mut i: usize = 0;
    while i < n
        invariant
            n == controllers@.len(),
            i <= n,
            forall|j: int| 0 <= j < i ==> !#[trigger] is_target(role, controllers@[j]),
        decreases n - i,
    {
        if matches_target(role, &controllers[i]) {
            proof {
                let cs = controllers@;
                assert(is_first_target(cs, role, i as int));
                assert(has_target(cs, role));
                let k = choose|k: usize| is_first_target(cs, role, k as int);
                if k < i {
                    assert(!is_target(role, cs[k as int]));
                } else if k > i {
                    assert(!is_target(role, cs[i as int]));
                }
            }
            return Some(i);
        }
        i = i + 1;
    }
    None
}

/// Which members of the supported device group are present.
#[derive(Clone, Copy, Debug, PartialEq, Eq, Structural)]
pub struct DeviceScan {
    pub keyboard_found: bool,
    pub mouse_found: bool,
}

/// The device scan of a controller list.
pub open spec fn spec_scan_devices(cs: Seq<ControllerInfo>) -> DeviceScan {
    DeviceScan {
        keyboard_found: has_target(cs, TargetDevice::Keyboard),
        mouse_found: has_target(cs, TargetDevice::Mouse),
    }
}

/// Reports which supported devices are present in the controller list.
///
/// Every controller is checked for both roles, so the order of the list does
/// not matter.
pub fn scan_devices(controllers: &[ControllerInfo]) -> (r: DeviceScan)
    ensures
        r == spec_scan_devices(controllers@),
{
    let n = controllers.len();
    let mut keyboard_found = false;
    let mut mouse_found = false;
    let mut i: usize = 0;
    while i < n
        invariant
            n == controllers@.len(),
            i <= n,
            keyboard_found <==> exists|j: int|
                0 <= j < i && #[trigger] is_target(TargetDevice::Keyboard, controllers@[j]),
            mouse_found <==> exists|j: int|
                0 <= j < i && #[trigger] is_target(TargetDevice::Mouse, controllers@[j]),
        decreases n - i,
    {
        if matches_target(TargetDevice::Keyboard, &controllers[i]) {
            keyboard_found = true;
        }
        if matches_target(TargetDevice::Mouse, &controllers[i]) {
            mouse_found = true;
        }
        i = i + 1;
    }
    DeviceScan { keyboard_found, mouse_found }
}

/// What the static preset does with a controller list.
#[derive(Clone, Copy, Debug, PartialEq, Eq, Structural)]
pub enum StaticPlan {
    /// Both devices are present: set these controllers (positions in the
    /// list) to the preset.
    Apply { keyboard: usize, mouse: usize },
    /// Some member is missing: change nothing and report what was found.
    Incomplete { keyboard_found: bool, mouse_found: bool },
}

impl StaticPlan {
    /// The `(keyboard_found, mouse_found)` pair that the preset reports.
    pub open spec fn spec_found(self) -> (bool, bool) {
        match self {
            StaticPlan::Apply { .. } => (true, true),
            StaticPlan::Incomplete { keyboard_found, mouse_found } => (keyboard_found, mouse_found),
        }
    }

    /// The `(keyboard_found, mouse_found)` pair that the preset reports.
    pub fn found(&self) -> (r: (bool, bool))
        ensures
            r == self.spec_found(),
    {
        match self {
            StaticPlan::Apply { .. } => (true, true),
            StaticPlan::Incomplete { keyboard_found, mouse_found } => (
                *keyboard_found,
                *mouse_found,
            ),
        }
    }
}

/// The static preset's plan for a controller list.
pub open spec fn spec_plan_static_preset(cs: Seq<ControllerInfo>) -> StaticPlan {
    match (first_target(cs, TargetDevice::Keyboard), first_target(cs, TargetDevice::Mouse)) {
        (Some(k), Some(m)) => StaticPlan::Apply { keyboard: k, mouse: m },
        _ => StaticPlan::Incomplete {
            keyboard_found: has_target(cs, TargetDevice::Keyboard),
            mouse_found: has_target(cs, TargetDevice::Mouse),
        },
    }
}

/// Locates both supported devices before either one is changed: the preset
/// is applied only when the complete device group is present, to the first
/// matching keyboard and the first matching mouse.
pub fn plan_static_preset(controllers: &[ControllerInfo]) -> (r: StaticPlan)
    ensures
        r == spec_plan_static_preset(controllers@),
        r is Apply <==> has_target(controllers@, TargetDevice::Keyboard) && has_target(
            controllers@,
            TargetDevice::Mouse,
        ),
{
    let keyboard = find_target(controllers, TargetDevice::Keyboard);
    let mouse = find_target(controllers, TargetDevice::Mouse);
    match (keyboard, mouse) {
        (Some(k), Some(m)) => StaticPlan::Apply { keyboard: k, mouse: m },
        _ => StaticPlan::Incomplete {
            keyboard_found: keyboard.is_some(),
            mouse_found: mouse.is_some(),
        },
    }
}

/// Vendor and model are matched without regard to ASCII case: two metadata
/// records whose vendors and names differ only in the case of ASCII letters
/// identify the same device, whatever their case.
pub proof fn lemma_target_match_ignores_ascii_case(
    device_type: DeviceType,
    vendor1: Seq<char>,
    vendor2: Seq<char>,
    name1: Seq<char>,
    name2: Seq<char>,
)
    requires
        ascii_eq_ignore_case(vendor1, vendor2),
        ascii_eq_ignore_case(name1, name2),
    ensures
        spec_is_target_keyboard(device_type, vendor1, name1) == spec_is_target_keyboard(
            device_type,
            vendor2,
            name2,
        ),
        spec_is_target_mouse(device_type, vendor1, name1) == spec_is_target_mouse(
            device_type,
            vendor2,
            name2,
        ),
{
    crate::text::lemma_ascii_eq_ignore_case_symmetric(vendor1, vendor2);
    crate::text::lemma_ascii_eq_ignore_case_symmetric(name1, name2);
    let kv = "Logitech"@;
    let kn = "Logitech G512 RGB"@;
    let mn = "G502 HERO Gaming Mouse"@;
    if ascii_eq_ignore_case(vendor1, kv) {
        crate::text::lemma_ascii_eq_ignore_case_transitive(vendor2, vendor1, kv);
    }
    if ascii_eq_ignore_case(vendor2, kv) {
        crate::text::lemma_ascii_eq_ignore_case_transitive(vendor1, vendor2, kv);
    }
    if ascii_eq_ignore_case(name1, kn) {
        crate::text::lemma_ascii_eq_ignore_case_transitive(name2, name1, kn);
    }
    if ascii_eq_ignore_case(name2, kn) {
        crate::text::lemma_ascii_eq_ignore_case_transitive(name1, name2, kn);
    }
    if ascii_eq_ignore_case(name1, mn) {
        crate::text::lemma_ascii_eq_ignore_case_transitive(name2, name1, mn);
    }
    if ascii_eq_ignore_case(name2, mn) {
        crate::text::lemma_ascii_eq_ignore_case_transitive(name1, name2, mn);
    }
}

/// A controller whose reported category contradicts the model name is never
/// taken for a supported device, and no controller is both the keyboard and
/// the mouse; so a plan that applies the preset names two distinct
/// controllers.
pub proof fn lemma_targets_are_exclusive(cs: Seq<ControllerInfo>, c: ControllerInfo)
    requires
        cs.len() <= usize::MAX,
    ensures
        c.device_type != DeviceType::Keyboard ==> !is_target(TargetDevice::Keyboard, c),
        c.device_type != DeviceType::Mouse ==> !is_target(TargetDevice::Mouse, c),
        !(is_target(TargetDevice::Keyboard, c) && is_target(TargetDevice::Mouse, c)),
        spec_plan_static_preset(cs) matches StaticPlan::Apply { keyboard, mouse } ==> keyboard
            != mouse,
{
    lemma_first_target_is_first(cs, TargetDevice::Keyboard);
    lemma_first_target_is_first(cs, TargetDevice::Mouse);
    match spec_plan_static_preset(cs) {
        StaticPlan::Apply { keyboard, mouse } => {
            assert(is_target(TargetDevice::Keyboard, cs[keyboard as int]));
            assert(is_target(TargetDevice::Mouse, cs[mouse as int]));
        },
        _ => {},
    }
}

/// The position that `first_target` picks, when there is one, is that of the
/// first matching controller.
pub proof fn lemma_first_target_is_first(cs: Seq<ControllerInfo>, role: TargetDevice)
    requires
        cs.len() <= usize::MAX,
    ensures
        first_target(cs, role) matches Some(i) ==> is_first_target(cs, role, i as int),
{
    if has_target(cs, role) {
        let w = choose|w: int| 0 <= w < cs.len() && #[trigger] is_target(role, cs[w]);
        lemma_first_match_exists(cs, role, w);
    }
}

proof fn lemma_first_match_exists(cs: Seq<ControllerInfo>, role: TargetDevice, w: int)
    requires
        cs.len() <= usize::MAX,
        0 <= w < cs.len(),
        is_target(role, cs[w]),
    ensures
        exists|i: usize| is_first_target(cs, role, i as int),
    decreases w,
{
    if forall|j: int| 0 <= j < w ==> !#[trigger] is_target(role, cs[j]) {
        assert(is_first_target(cs, role, (w as usize) as int));
    } else {
        let v = choose|j: int| 0 <= j < w && #[trigger] is_target(role, cs[j]);
        lemma_first_match_exists(cs, role, v);
    }
}

/// The static preset reports the same `(keyboard_found, mouse_found)` pair as
/// the device listing does for the same controller list.
pub proof fn lemma_static_preset_reports_scan(cs: Seq<ControllerInfo>)
    ensures
        spec_plan_static_preset(cs).spec_found() == (
            spec_scan_devices(cs).keyboard_found,
            spec_scan_devices(cs).mouse_found,
        ),
{
}

/// Devices are identified by their metadata, not by their position: the
/// device listing of any reordering of a controller list is the same.
pub proof fn lemma_scan_ignores_order(cs1: Seq<ControllerInfo>, cs2: Seq<ControllerInfo>)
    requires
        cs1.to_multiset() =~= cs2.to_multiset(),
    ensures
        spec_scan_devices(cs1) == spec_scan_devices(cs2),
{
    lemma_has_target_by_multiset(cs1, cs2, TargetDevice::Keyboard);
    lemma_has_target_by_multiset(cs2, cs1, TargetDevice::Keyboard);
    lemma_has_target_by_multiset(cs1, cs2, TargetDevice::Mouse);
    lemma_has_target_by_multiset(cs2, cs1, TargetDevice::Mouse);
}

proof fn lemma_has_target_by_multiset(cs1: Seq<ControllerInfo>, cs2: Seq<ControllerInfo>, role: TargetDevice)
    requires
        cs1.to_multiset() =~= cs2.to_multiset(),
    ensures
        has_target(cs1, role) ==> has_target(cs2, role),
{
    if has_target(cs1, role) {
        let i = choose|i: int| 0 <= i < cs1.len() && #[trigger] is_target(role, cs1[i]);
        let c = cs1[i];
        vstd::seq_lib::to_multiset_contains(cs1, c);
        vstd::seq_lib::to_multiset_contains(cs2, c);
        assert(cs1.contains(c));
        assert(cs2.contains(c));
        let j = choose|j: int| 0 <= j < cs2.len() && cs2[j] == c;
        assert(is_target(role, cs2[j]));
    }
}

/// A controller is the group's keyboard exactly when it is a keyboard whose
/// vendor is "Logitech" and whose name is "Logitech G512 RGB", and the
/// group's mouse exactly when it is a mouse whose vendor is "Logitech" and
/// whose name is "G502 HERO Gaming Mouse" (ignoring ASCII case); so the
/// listing finds a member exactly when such a controller is in the list, and
/// a preset that is applied is applied to such controllers.
pub proof fn lemma_group_members_are_identified_by_metadata(cs: Seq<ControllerInfo>, c: ControllerInfo)
    requires
        cs.len() <= usize::MAX,
    ensures
        is_target(TargetDevice::Keyboard, c) == (c.device_type == DeviceType::Keyboard
            && ascii_eq_ignore_case(c.vendor@, "Logitech"@) && ascii_eq_ignore_case(
            c.name@,
            "Logitech G512 RGB"@,
        )),
        is_target(TargetDevice::Mouse, c) == (c.device_type == DeviceType::Mouse
            && ascii_eq_ignore_case(c.vendor@, "Logitech"@) && ascii_eq_ignore_case(
            c.name@,
            "G502 HERO Gaming Mouse"@,
        )),
        spec_scan_devices(cs).keyboard_found <==> exists|i: int|
            0 <= i < cs.len() && #[trigger] cs[i].device_type == DeviceType::Keyboard
                && ascii_eq_ignore_case(cs[i].vendor@, "Logitech"@) && ascii_eq_ignore_case(
                cs[i].name@,
                "Logitech G512 RGB"@,
            ),
        spec_scan_devices(cs).mouse_found <==> exists|i: int|
            0 <= i < cs.len() && #[trigger] cs[i].device_type == DeviceType::Mouse
                && ascii_eq_ignore_case(cs[i].vendor@, "Logitech"@) && ascii_eq_ignore_case(
                cs[i].name@,
                "G502 HERO Gaming Mouse"@,
            ),
        spec_plan_static_preset(cs) matches StaticPlan::Apply { keyboard, mouse } ==> {
            &&& keyboard < cs.len()
            &&& cs[keyboard as int].device_type == DeviceType::Keyboard
            &&& ascii_eq_ignore_case(cs[keyboard as int].vendor@, "Logitech"@)
            &&& ascii_eq_ignore_case(cs[keyboard as int].name@, "Logitech G512 RGB"@)
            &&& mouse < cs.len()
            &&& cs[mouse as int].device_type == DeviceType::Mouse
            &&& ascii_eq_ignore_case(cs[mouse as int].vendor@, "Logitech"@)
            &&& ascii_eq_ignore_case(cs[mouse as int].name@, "G502 HERO Gaming Mouse"@)
        },
{
    lemma_first_target_is_first(cs, TargetDevice::Keyboard);
    lemma_first_target_is_first(cs, TargetDevice::Mouse);
    if spec_scan_devices(cs).keyboard_found {
        let i = choose|i: int| 0 <= i < cs.len() && #[trigger] is_target(TargetDevice::Keyboard, cs[i]);
        assert(cs[i].device_type == DeviceType::Keyboard);
    }
    if spec_scan_devices(cs).mouse_found {
        let i = choose|i: int| 0 <= i < cs.len() && #[trigger] is_target(TargetDevice::Mouse, cs[i]);
        assert(cs[i].device_type == DeviceType::Mouse);
    }
    if exists|i: int|
        0 <= i < cs.len() && #[trigger] cs[i].device_type == DeviceType::Keyboard
            && ascii_eq_ignore_case(cs[i].vendor@, "Logitech"@) && ascii_eq_ignore_case(
            cs[i].name@,
            "Logitech G512 RGB"@,
        ) {
        let i = choose|i: int|
            0 <= i < cs.len() && #[trigger] cs[i].device_type == DeviceType::Keyboard
                && ascii_eq_ignore_case(cs[i].vendor@, "Logitech"@) && ascii_eq_ignore_case(
                cs[i].name@,
                "Logitech G512 RGB"@,
            );
        assert(is_target(TargetDevice::Keyboard, cs[i]));
    }
    if exists|i: int|
        0 <= i < cs.len() && #[trigger] cs[i].device_type == DeviceType::Mouse
            && ascii_eq_ignore_case(cs[i].vendor@, "Logitech"@) && ascii_eq_ignore_case(
            cs[i].name@,
            "G502 HERO Gaming Mouse"@,
        ) {
        let i = choose|i: int|
            0 <= i < cs.len() && #[trigger] cs[i].device_type == DeviceType::Mouse
                && ascii_eq_ignore_case(cs[i].vendor@, "Logitech"@) && ascii_eq_ignore_case(
                cs[i].name@,
                "G502 HERO Gaming Mouse"@,
            );
        assert(is_target(TargetDevice::Mouse, cs[i]));
    }
}

} // verus!
