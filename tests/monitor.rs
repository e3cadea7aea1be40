use winit_kms::monitor::{PhysicalPosition, PhysicalSize, FALLBACK_HEIGHT, FALLBACK_WIDTH};
use winit_kms::{DeviceId, FBInfo, MonitorHandle, WindowId};

#[test]
fn fallback_geometry_is_800_by_480() {
    let info = FBInfo::with_fallback_size("fb0".to_string());
    assert_eq!(info.physical_size(), PhysicalSize { width: 800, height: 480 });
    assert_eq!((FALLBACK_WIDTH, FALLBACK_HEIGHT), (800, 480));
}

#[test]
fn monitor_reports_framebuffer_output() {
    let info = FBInfo::new((1024, 600), "simplefb".to_string());
    let monitor = MonitorHandle::new(&info);
    assert_eq!(monitor.name(), Some("simplefb".to_string()));
    assert_eq!(monitor.native_identifier(), 0);
    assert_eq!(monitor.size(), PhysicalSize { width: 1024, height: 600 });
    assert_eq!(monitor.position(), PhysicalPosition { x: 0, y: 0 });
    let modes = monitor.video_modes();
    assert_eq!(modes.len(), 1);
    assert_eq!(modes[0].size(), PhysicalSize { width: 1024, height: 600 });
    assert_eq!(modes[0].bit_depth(), 32);
    assert_eq!(modes[0].refresh_rate(), 60);
    assert_eq!(modes[0].monitor(), monitor);
}

#[test]
fn ids_are_unit_values() {
    assert_eq!(DeviceId::dummy(), DeviceId);
    assert_eq!(WindowId::dummy(), WindowId);
}
