use tauri_runtime_cef::color::{color_opt_to_cef_argb, color_to_cef_argb, Color};

#[test]
fn color_is_packed_alpha_first() {
    assert_eq!(color_to_cef_argb(Color(0x12, 0x34, 0x56, 0x78)), 0x7812_3456);
}

#[test]
fn missing_color_is_opaque_white() {
    assert_eq!(color_opt_to_cef_argb(None), 0xFFFF_FFFF);
    assert_eq!(color_opt_to_cef_argb(Some(Color(1, 2, 3, 0))), 0x0001_0203);
}

#[test]
fn different_colors_pack_differently() {
    let colors =
        [Color(1, 0, 0, 0), Color(0, 1, 0, 0), Color(0, 0, 1, 0), Color(0, 0, 0, 1), Color(1, 1, 0, 0)];
    for (index, left) in colors.iter().enumerate() {
        for right in &colors[index + 1..] {
            assert_ne!(color_to_cef_argb(*left), color_to_cef_argb(*right));
        }
    }
}
