//! The emulation domain: overriding device metrics.

use vstd::prelude::*;
use crate::protocol::types::JsInt;
use crate::protocol::types::JsUInt;

verus! {

/// An emulated screen orientation.
pub struct ScreenOrientation {
    /// The orientation kind, as its wire name.
    pub orientation_type: String,
    pub angle: JsUInt,
}

/// Override the device metrics of the page: size, scale, mobile emulation,
/// and optionally screen geometry and orientation.
pub struct SetDeviceMetricsOverride {
    pub width: JsUInt,
    pub height: JsUInt,
    pub device_scale_factor: JsUInt,
    pub mobile: bool,
    pub scale: Option<JsUInt>,
    pub screen_width: Option<JsUInt>,
    pub screen_height: Option<JsUInt>,
    pub position_x: Option<JsInt>,
    pub position_y: Option<JsInt>,
    pub dont_set_visible_size: Option<bool>,
    pub screen_orientation: Option<ScreenOrientation>,
}

/// The (empty) reply to a metrics override.
pub struct SetDeviceMetricsOverrideReturnObject {}

/// The method name a [`SetDeviceMetricsOverride`] is sent under.
pub fn set_device_metrics_override_method() -> (r: &'static str)
    ensures
        r@ == "Emulation.setDeviceMetricsOverride"@,
{
    "Emulation.setDeviceMetricsOverride"
}

/// The override a fixed viewport asks for: the given size at scale one,
/// not emulating a mobile device.
pub fn viewport_override(width: JsUInt, height: JsUInt, scale: JsUInt) -> (r:
    SetDeviceMetricsOverride)
    ensures
        r.width == width,
        r.height == height,
        r.device_scale_factor == scale,
        r.mobile == false,
        r.scale is None,
        r.screen_width is None,
        r.screen_height is None,
        r.position_x is None,
        r.position_y is None,
        r.dont_set_visible_size is None,
        r.screen_orientation is None,
{
    SetDeviceMetricsOverride {
        width,
        height,
        device_scale_factor: scale,
        mobile: false,
        scale: None,
        screen_width: None,
        screen_height: None,
        position_x: None,
        position_y: None,
        dont_set_visible_size: None,
        screen_orientation: None,
    }
}

} // verus!
