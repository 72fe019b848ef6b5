use obsidian_ui::colors::{self, Color};
use obsidian_ui::style::{
    style_dialog, style_dialog_body, style_dialog_footer, style_dialog_header,
    style_dialog_overlay, style_swatch, AlignItems, ColorParam, DisplayMode, FlexDirection,
    JustifyContent, LengthParam, PositionType, StyleBuilder, UiRect, UiRectParam, Val, ZIndex,
    ZIndexParam,
};

#[test]
fn length_param_forms() {
    assert_eq!(12i32.to_val(), Val::Px(12));
    assert_eq!(Val::Percent(50).to_val(), Val::Percent(50));
    assert_eq!(Val::Auto.to_val(), Val::Auto);
}

#[test]
fn color_param_forms() {
    let c = Color { red: 1, green: 2, blue: 3, alpha: 4 };
    assert_eq!(c.to_color(), Some(c));
    assert_eq!(Some(c).to_color(), Some(c));
    assert_eq!(None.to_color(), Option::<Color>::None);
}

#[test]
fn zindex_param_forms() {
    assert_eq!(100i32.to_zindex(), ZIndex::Local(100));
    assert_eq!(ZIndex::Global(7).to_zindex(), ZIndex::Global(7));
}

#[test]
fn uirect_param_forms() {
    let all3 = UiRect { left: Val::Px(3), right: Val::Px(3), top: Val::Px(3), bottom: Val::Px(3) };
    assert_eq!(3i32.to_uirect(), all3);
    assert_eq!(Val::Px(3).to_uirect(), all3);
    assert_eq!(all3.to_uirect(), all3);
    assert_eq!(
        (12, 6).to_uirect(),
        UiRect { left: Val::Px(12), right: Val::Px(12), top: Val::Px(6), bottom: Val::Px(6) }
    );
}

#[test]
fn border_edge_setters_keep_other_edges() {
    let mut ss = StyleBuilder::new();
    ss.border_bottom(1);
    assert_eq!(
        ss.border,
        Some(UiRect { left: Val::Px(0), right: Val::Px(0), top: Val::Px(0), bottom: Val::Px(1) })
    );
    ss.border_top(2);
    assert_eq!(
        ss.border,
        Some(UiRect { left: Val::Px(0), right: Val::Px(0), top: Val::Px(2), bottom: Val::Px(1) })
    );
}

#[test]
fn dialog_overlay_style_attributes() {
    let mut ss = StyleBuilder::new();
    style_dialog_overlay(&mut ss);
    assert_eq!(ss.position, Some(PositionType::Absolute));
    assert_eq!(ss.display, Some(DisplayMode::Flex));
    assert_eq!(ss.justify_content, Some(JustifyContent::Center));
    assert_eq!(ss.align_items, Some(AlignItems::Center));
    assert_eq!(ss.left, Some(Val::Px(0)));
    assert_eq!(ss.top, Some(Val::Px(0)));
    assert_eq!(ss.right, Some(Val::Px(0)));
    assert_eq!(ss.bottom, Some(Val::Px(0)));
    assert_eq!(ss.z_index, Some(ZIndex::Local(100)));
    // The overlay starts fully transparent; the enter animation fades it
    // in.
    assert_eq!(ss.background_color, Some(colors::background().with_alpha(0)));
    assert_eq!(ss.width, None);
}

#[test]
fn dialog_frame_style_attributes() {
    let mut ss = StyleBuilder::new();
    style_dialog(&mut ss);
    assert_eq!(ss.background_color, Some(colors::background()));
    assert_eq!(ss.position, Some(PositionType::Relative));
    assert_eq!(ss.flex_direction, Some(FlexDirection::Column));
    assert_eq!(ss.align_items, Some(AlignItems::Stretch));
    assert_eq!(ss.border_color, Some(colors::gray_050()));
    assert_eq!(ss.width, Some(Val::Px(400)));
    assert_eq!(
        ss.border,
        Some(UiRect { left: Val::Px(3), right: Val::Px(3), top: Val::Px(3), bottom: Val::Px(3) })
    );
}

#[test]
fn dialog_section_style_attributes() {
    let mut header = StyleBuilder::new();
    style_dialog_header(&mut header);
    assert_eq!(header.justify_content, Some(JustifyContent::SpaceBetween));
    assert_eq!(header.font_size, Some(18));
    assert_eq!(
        header.border,
        Some(UiRect { left: Val::Px(0), right: Val::Px(0), top: Val::Px(0), bottom: Val::Px(1) })
    );
    assert_eq!(
        header.padding,
        Some(UiRect { left: Val::Px(12), right: Val::Px(12), top: Val::Px(6), bottom: Val::Px(6) })
    );

    let mut body = StyleBuilder::new();
    style_dialog_body(&mut body);
    assert_eq!(body.justify_content, Some(JustifyContent::FlexStart));
    assert_eq!(body.min_height, Some(Val::Px(200)));

    let mut footer = StyleBuilder::new();
    style_dialog_footer(&mut footer);
    assert_eq!(footer.justify_content, Some(JustifyContent::FlexEnd));
    assert_eq!(footer.column_gap, Some(Val::Px(4)));
    assert_eq!(
        footer.border,
        Some(UiRect { left: Val::Px(0), right: Val::Px(0), top: Val::Px(1), bottom: Val::Px(0) })
    );
}

#[test]
fn swatch_style_nets_no_border() {
    let mut ss = StyleBuilder::new();
    style_swatch(&mut ss);
    assert_eq!(ss.display, Some(DisplayMode::Flex));
    assert_eq!(
        ss.border,
        Some(UiRect { left: Val::Px(0), right: Val::Px(0), top: Val::Px(0), bottom: Val::Px(0) })
    );
    assert_eq!(
        ss.padding,
        Some(UiRect { left: Val::Px(12), right: Val::Px(12), top: Val::Px(0), bottom: Val::Px(0) })
    );
    assert_eq!(ss.color, Some(colors::foreground()));
}
