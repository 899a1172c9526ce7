use ultelier::console::graphics::{graphics_lines, option_ptr, GraphicsReadings};
use ultelier::console::names::{
    buffer_mode_name, decimal_string, option_docked_profile, guest_result, hex_string, index_mode_name, on_off,
    option_bool, option_flag, option_index_mode_field, option_nstuff_profile, option_overclock_preset,
    option_uv_state, overclock_profile_name, prefixed_hex,
};
use ultelier::{BufferMode, EnvironmentFlags, IndexMode, NsTuffStatus, OverclockProfile};

#[test]
fn words_for_values() {
    assert_eq!(on_off(true), "on");
    assert_eq!(on_off(false), "off");
    assert_eq!(option_bool(None), "unknown");
    assert_eq!(guest_result(Some(true)), "ok");
    assert_eq!(guest_result(Some(false)), "rejected");
    assert_eq!(guest_result(None), "symbol unavailable");
    assert_eq!(buffer_mode_name(BufferMode::Triple), "triple");
    assert_eq!(index_mode_name(IndexMode::Immediate), "immediate");
    assert_eq!(overclock_profile_name(OverclockProfile::PerformanceSingles), "singles");
    assert_eq!(option_overclock_preset(Some(false)), "default");
    assert_eq!(option_docked_profile(Some(ultelier::DockedProfile::Rest)), "rest");
    assert_eq!(option_docked_profile(None), "unknown");
    assert_eq!(option_flag(Some(EnvironmentFlags::new(32)), EnvironmentFlags::VSYNC_ENABLED), "on");
    assert_eq!(option_index_mode_field(Some(EnvironmentFlags::new(3 << 3))), "unknown");
    assert_eq!(option_index_mode_field(Some(EnvironmentFlags::new(1 << 3))), "onebehind");
}

#[test]
fn nstuff_words() {
    let mut status = NsTuffStatus::default();
    assert_eq!(option_uv_state(Some(status)), "disabled");
    status.undervolt_enabled = 1;
    assert_eq!(option_uv_state(Some(status)), "restored");
    status.undervolt_active = 1;
    assert_eq!(option_uv_state(Some(status)), "active");
    assert_eq!(option_uv_state(None), "unavailable");
    status.profile = 3;
    assert_eq!(option_nstuff_profile(Some(status)), "docked");
    status.profile = 2;
    assert_eq!(option_nstuff_profile(Some(status)), "charging-official");
    status.profile = 9;
    assert_eq!(option_nstuff_profile(Some(status)), "unknown");
}

#[test]
fn numbers_format_like_std() {
    for n in [0u64, 7, 10, 99, 610, 4_294_967_295, u64::MAX] {
        assert_eq!(decimal_string(n), n.to_string());
    }
    for n in [0u32, 0x414, 0xDEAD_BEEF, u32::MAX] {
        assert_eq!(hex_string(n), format!("0x{:08X}", n));
    }
    for n in [0u64, 0xA, 0x1F2E, u64::MAX] {
        assert_eq!(prefixed_hex(n, true), format!("0x{:X}", n));
        assert_eq!(prefixed_hex(n, false), format!("0x{:x}", n));
    }
}

#[test]
fn pointers_format_like_std() {
    assert_eq!(option_ptr(Some(0x7f00_1234)), "0x7f001234");
    assert_eq!(option_ptr(Some(0)), "0x0");
    assert_eq!(option_ptr(None), "unavailable");
}

#[test]
fn graphics_lines_preview_first_three() {
    let readings = GraphicsReadings {
        bootstrap_active: true,
        ngpu_initialized: false,
        device: Some(0x1000),
        window: None,
        queue: Some(0xabc),
        present_queue: None,
        active_texture_index: Some(2),
        active_texture: None,
        driver_api: Some((55, 12)),
        supports_draw_texture: None,
        queue_count: 5,
        queues: vec![0x10, 0, 0xFF, 0x20, 0x30],
        texture_count: 0,
        textures: vec![0; 8],
    };
    let lines = graphics_lines(&readings);
    assert_eq!(lines[0], "bootstrap active: on | ngpu initialized: off");
    assert_eq!(lines[1], "device: 0x1000 | window: unavailable");
    assert_eq!(lines[2], "queue: 0xabc | present queue: unavailable");
    assert_eq!(lines[3], "active texture index: 2 | active texture: unavailable");
    assert_eq!(lines[4], "driver api: 55.12 | draw_texture support: unknown");
    assert_eq!(lines[5], "tracked submit queues: 5 [0x10, 0xFF]");
    assert_eq!(lines[6], "cached window textures: 0");
}
