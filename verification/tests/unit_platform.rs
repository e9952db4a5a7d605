use desktop_mcp::hal::driver::DriverError;
use desktop_mcp::hal::macos::accessibility::{display_value, inspection_result, parse_ui_listing, ui_inspection_script};
use desktop_mcp::hal::macos::app_manager::{
    activate_script, next_launch_step, open_selector, quit_script, select_window, BoundsRecord, LaunchStep, WindowRecord,
};
use desktop_mcp::hal::macos::capture::{bgra_to_rgba, captures_frontmost};
use desktop_mcp::hal::macos::virtual_display::{display_name, virtual_display_name, DisplayRegistry};
use desktop_mcp::hal::macos::MacosDriver;
use desktop_mcp::hal::wayland::firewall::{Firewall, FirewallManager, OpenPortStep};
use desktop_mcp::hal::wayland::WaylandDriver;
use desktop_mcp::utils::image_ops::{crop_region, encode_image_base64, image_encoding_for, ImageEncoding};

fn window(number: i64, layer: i64, owner: &str, w: i64, h: i64) -> WindowRecord {
    WindowRecord {
        number: Some(number),
        layer: Some(layer),
        owner_pid: Some(1234),
        owner_name: Some(owner.to_string()),
        name: Some(format!("{} window", owner)),
        bounds: Some(BoundsRecord { x: Some(10), y: Some(20), width: Some(w), height: Some(h) }),
    }
}

#[test]
fn test_window_selection() {
    let windows = vec![
        window(1, 25, "Calculator", 300, 300),
        window(2, 0, "Calculator", 30, 300),
        window(3, 0, "Finder", 500, 500),
        window(4, 0, "Calculator", 400, 500),
    ];
    let m = select_window(&windows, Some("calculator"), None).unwrap();
    assert_eq!(m.window_id, 4);
    assert_eq!(m.pid, 1234);
    assert_eq!(m.owner_name, "Calculator");
    assert_eq!(m.title, "Calculator window");
    assert_eq!((m.x, m.y, m.width, m.height), (10, 20, 400, 500));
    // the owner's name inside the requested name also matches
    assert_eq!(select_window(&windows, Some("Finder.app"), None).unwrap().window_id, 3);
    assert_eq!(select_window(&windows, Some("Calculator"), Some(3)).unwrap().window_id, 3);
    assert_eq!(select_window(&windows, None, None).unwrap().window_id, 3);
    assert!(select_window(&windows, Some("Word"), None).is_none());
    let bare = vec![WindowRecord { number: None, layer: None, owner_pid: None, owner_name: None, name: None, bounds: None }];
    let m = select_window(&bare, None, None).unwrap();
    assert_eq!((m.window_id, m.width, m.height), (0, 800, 600));
    assert_eq!(m.owner_name, "");
}

#[test]
fn test_launch_selectors() {
    assert_eq!(open_selector("com.apple.calculator"), "-b");
    assert_eq!(open_selector("Calculator"), "-a");
    assert_eq!(open_selector("Calculator.app"), "-a");
    assert_eq!(activate_script("TextEdit"), "tell application \"TextEdit\" to activate");
}

#[test]
fn test_ui_listing_parse() {
    let listing = parse_ui_listing(" Untitled |||AXButton::7::,AXStaticText:: :: 42 ,::x::y, AXGroup\n");
    assert_eq!(listing.title, "Untitled");
    assert_eq!(listing.elements.len(), 3);
    assert_eq!(listing.elements[0].role, "AXButton");
    assert_eq!(listing.elements[0].title.as_deref(), Some("7"));
    assert_eq!(listing.elements[0].value, None);
    assert_eq!(listing.elements[1].title, None);
    assert_eq!(listing.elements[1].value.as_deref(), Some("42"));
    assert_eq!(listing.elements[2].role, "AXGroup");
    let empty = parse_ui_listing("Only a title");
    assert_eq!(empty.title, "Only a title");
    assert!(empty.elements.is_empty());
}

#[test]
fn test_scripts_and_values() {
    let script = ui_inspection_script(Some("Calculator"));
    assert!(script.contains("whose name is \"Calculator\" or name contains \"Calculator\""));
    assert!(script.contains("set elemList to {}"));
    assert!(ui_inspection_script(None).contains("whose name is \"System Events\""));
    assert_eq!(display_value("  3.14\n"), Some("3.14".to_string()));
    assert_eq!(display_value(" \n"), None);
}

#[test]
fn test_bgra_conversion() {
    // 2x1 image, 12 bytes per row, 4 bytes per pixel; the second pixel is incomplete
    let bytes = vec![1u8, 2, 3, 4, 5, 6, 7];
    let rgba = bgra_to_rgba(&bytes, 2, 1, 12, 32);
    assert_eq!(rgba, vec![3, 2, 1, 4, 0, 0, 0, 0]);
    let bytes = vec![10u8, 20, 30, 40, 50, 60, 70, 80, 0, 0, 0, 0, 1, 2, 3, 4, 5, 6, 7, 8];
    let rgba = bgra_to_rgba(&bytes, 2, 2, 12, 32);
    assert_eq!(rgba, vec![30, 20, 10, 40, 70, 60, 50, 80, 3, 2, 1, 4, 7, 6, 5, 8]);
}

#[test]
fn test_display_registry() {
    let mut reg = DisplayRegistry::new();
    assert!(!reg.is_virtual(5));
    reg.register(5, 0xdead);
    reg.register(6, 0xbeef);
    assert!(reg.is_virtual(5));
    assert_eq!(reg.take(5).unwrap(), 0xdead);
    assert!(!reg.is_virtual(5));
    assert!(reg.is_virtual(6));
    match reg.take(5) {
        Err(DriverError::OsError(m)) => assert_eq!(m, "Virtual display with ID 5 not found"),
        other => panic!("unexpected {:?}", other),
    }
}

#[test]
fn test_display_names() {
    assert_eq!(display_name(7, true, true), "Virtual Display (7)");
    assert_eq!(display_name(1, false, true), "Main Display");
    assert_eq!(display_name(42, false, false), "Display (42)");
    assert_eq!(virtual_display_name(None), "CUMD-Virtual-Display");
    assert_eq!(virtual_display_name(Some("Test-Headless-Monitor")), "Test-Headless-Monitor");
}

#[test]
fn test_firewall_commands() {
    assert_eq!(FirewallManager::port_rule(8443), "8443/tcp");
    let probe = FirewallManager::probe_command(Firewall::Firewalld);
    assert_eq!(probe.program, "firewall-cmd");
    assert_eq!(probe.args, vec!["--state".to_string()]);
    let allow = FirewallManager::allow_command(Firewall::Ufw, 9000);
    assert_eq!(allow.program, "ufw");
    assert_eq!(allow.args, vec!["allow".to_string(), "9000/tcp".to_string()]);
    let close = FirewallManager::close_commands(80);
    assert_eq!(close[0].args, vec!["delete".to_string(), "allow".to_string(), "80/tcp".to_string()]);
    assert_eq!(close[1].args, vec!["--remove-port".to_string(), "80/tcp".to_string()]);
    let first = FirewallManager::first_open_step();
    assert_eq!(first, OpenPortStep::Probe(Firewall::Ufw));
    let second = FirewallManager::next_open_step(first, false);
    assert_eq!(second, OpenPortStep::Probe(Firewall::Firewalld));
    let third = FirewallManager::next_open_step(second, true);
    assert_eq!(third, OpenPortStep::Allow(Firewall::Firewalld));
    assert_eq!(FirewallManager::next_open_step(third, true), OpenPortStep::Finished);
}

#[test]
fn test_crop_regions() {
    assert_eq!(crop_region(10, 20, 100, 100, 50, 200), Some((10, 20, 40, 100)));
    assert_eq!(crop_region(60, 0, 100, 100, 50, 200), None);
    assert_eq!(crop_region(0, 0, 0, 10, 50, 50), None);
    assert_eq!(crop_region(0, 0, 10, 10, 50, 50), Some((0, 0, 10, 10)));
}

#[test]
fn test_image_encoding() {
    assert_eq!(image_encoding_for("JPG"), ImageEncoding::Jpeg);
    assert_eq!(image_encoding_for("jpeg"), ImageEncoding::Jpeg);
    assert_eq!(image_encoding_for("png"), ImageEncoding::Png);
    assert_eq!(image_encoding_for("gif"), ImageEncoding::Png);
    // a 2x2 image, red, green, blue and white pixels
    let rgba: Vec<u8> = vec![255, 0, 0, 255, 0, 255, 0, 255, 0, 0, 255, 255, 255, 255, 255, 255];
    let png = encode_image_base64(2, 2, &rgba, "png").unwrap();
    // the base64 text of the PNG signature
    assert!(png.starts_with("iVBORw0KGgo"), "{}", png);
    let jpeg = encode_image_base64(2, 2, &rgba, "jpg").unwrap();
    // the base64 text of the JPEG start-of-image marker
    assert!(jpeg.starts_with("/9j/"), "{}", jpeg);
    // the text is the encoded image: decoding it gives the pixels back
    use_decoded_png(&png, &rgba);
    // the encoder refuses an empty image
    match encode_image_base64(0, 0, &Vec::new(), "png") {
        Err(m) => assert!(m.starts_with("Failed to encode image: "), "{}", m),
        Ok(s) => panic!("encoded an empty image: {}", s),
    }
}

fn use_decoded_png(text: &str, rgba: &[u8]) {
    let bytes = base64::engine::Engine::decode(&base64::engine::general_purpose::STANDARD, text).unwrap();
    let img = image::load_from_memory_with_format(&bytes, image::ImageFormat::Png).unwrap();
    assert_eq!(img.to_rgba8().into_raw(), rgba.to_vec());
}

#[test]
fn test_element_bounds_parsed() {
    let listing = parse_ui_listing("Calc|||AXButton::7::::10;-20;30;40\n,AXText::x::y::1;2;3,AXGroup::::::");
    assert_eq!(listing.elements.len(), 3);
    assert_eq!(listing.elements[0].bounds, Some((10, -20, 30, 40)));
    assert_eq!(listing.elements[1].bounds, None);
    assert_eq!(listing.elements[2].bounds, None);
    assert!(ui_inspection_script(Some("Calc")).contains("position of e"));
}

#[test]
fn test_inspection_results() {
    let r = inspection_result(Some("Calculator"), Some("Calc|||AXButton::7::,AXStaticText::::42"), 3);
    assert_eq!(r.role, "AXWindow");
    assert_eq!(r.title.as_deref(), Some("Calc"));
    assert_eq!(r.elements.len(), 2);
    let r = inspection_result(Some("Calculator"), Some("Calc|||AXButton::7::"), 0);
    assert!(r.elements.is_empty());
    let r = inspection_result(Some("Calculator"), None, 3);
    assert_eq!(r.role, "AXApplication");
    assert_eq!(r.title.as_deref(), Some("Calculator"));
    assert!(r.elements.is_empty());
}

#[test]
fn test_launch_steps_and_scripts() {
    assert_eq!(next_launch_step(LaunchStep::Open, true), LaunchStep::Launched);
    assert_eq!(next_launch_step(LaunchStep::Open, false), LaunchStep::Activate);
    assert_eq!(next_launch_step(LaunchStep::Activate, false), LaunchStep::NotFound);
    assert_eq!(next_launch_step(LaunchStep::Activate, true), LaunchStep::Launched);
    assert_eq!(quit_script("Calculator"), "tell application \"Calculator\" to quit");
    assert!(captures_frontmost(None, None));
    assert!(!captures_frontmost(Some("Calculator"), None));
    assert!(!captures_frontmost(None, Some(3)));
}

#[test]
fn test_driver_constructors() {
    let _m = MacosDriver::new();
    let _w = WaylandDriver::new();
}
