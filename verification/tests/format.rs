use gputools_replay::hl::format::{
    format_kind, name, texture_type_name, usage_flag_names, Component, DepthKind, FormatKind,
    NumericKind,
};

#[test]
fn bgra8_is_byte_aligned_unorm() {
    let FormatKind::Color(c) = format_kind(80) else {
        panic!("BGRA8Unorm is color")
    };
    assert_eq!(c.bytes_per_pixel, 4);
    assert!(c.byte_aligned && !c.srgb);
    assert_eq!(c.numeric, NumericKind::Unorm);
    assert_eq!(
        c.channels.iter().map(|ch| ch.component).collect::<Vec<_>>(),
        vec![Component::B, Component::G, Component::R, Component::A]
    );
}

#[test]
fn rgba32float_is_float() {
    let FormatKind::Color(c) = format_kind(125) else {
        panic!()
    };
    assert_eq!(c.numeric, NumericKind::Float);
    assert_eq!(c.bytes_per_pixel, 16);
}

#[test]
fn depth32float_is_depth() {
    let FormatKind::DepthStencil(d) = format_kind(252) else {
        panic!()
    };
    assert_eq!(d.depth, Some(DepthKind::Float32));
    assert_eq!(d.stencil, None);
}

#[test]
fn astc_4x4_is_compressed() {
    let FormatKind::Compressed(k) = format_kind(204) else {
        panic!()
    };
    assert_eq!(k.block, (4, 4));
    assert_eq!(k.block_bytes, 16);
}

#[test]
fn unknown_is_unknown() {
    assert!(matches!(format_kind(0xffff_ff00), FormatKind::Unknown));
}

#[test]
fn rgb10a2_is_packed_not_byte_aligned() {
    let FormatKind::Color(c) = format_kind(90) else {
        panic!("RGB10A2Unorm is color")
    };
    assert_eq!(
        c.channels
            .iter()
            .map(|ch| (ch.component, ch.bits))
            .collect::<Vec<_>>(),
        vec![
            (Component::R, 10),
            (Component::G, 10),
            (Component::B, 10),
            (Component::A, 2)
        ]
    );
    assert!(!c.byte_aligned);
    assert_eq!(c.bytes_per_pixel, 4);
}

#[test]
fn rgba8_srgb_is_srgb() {
    let kind = format_kind(71);
    let FormatKind::Color(c) = &kind else {
        panic!("RGBA8Unorm_sRGB is color")
    };
    assert!(c.srgb);
    assert!(kind.is_srgb());
}

#[test]
fn depth_only_and_stencil_only() {
    assert!(format_kind(252).is_depth_only());
    assert!(!format_kind(252).is_stencil_only());
    for raw in [253, 261, 262] {
        assert!(format_kind(raw).is_stencil_only(), "raw {raw}");
        assert!(!format_kind(raw).is_depth_only(), "raw {raw}");
    }
    assert!(!format_kind(260).is_depth_only());
    assert!(!format_kind(260).is_stencil_only());
    assert!(!format_kind(80).is_depth_only());
    assert!(!format_kind(80).is_stencil_only());
}

#[test]
fn name_returns_canonical_metal_names() {
    assert_eq!(name(80), Some("BGRA8Unorm"));
    assert_eq!(name(252), Some("Depth32Float"));
    assert_eq!(name(260), Some("Depth32Float_Stencil8"));
    assert_eq!(name(204), Some("ASTC_4x4_LDR"));
    assert_eq!(name(125), Some("RGBA32Float"));
    assert_eq!(name(0xffff_ff00), None);
}

#[test]
fn texture_type_name_returns_canonical_names() {
    // Raw MTLTextureType codes: Type3D = 7, Type2D = 2, TypeCubeArray = 6.
    assert_eq!(texture_type_name(7), Some("Type3D"));
    assert_eq!(texture_type_name(2), Some("Type2D"));
    assert_eq!(texture_type_name(6), Some("TypeCubeArray"));
    assert_eq!(texture_type_name(99), None);
}

#[test]
fn usage_flag_names_lists_set_bits_in_order() {
    // Raw MTLTextureUsage bits: ShaderRead = 1, RenderTarget = 4, Unknown = 0.
    assert_eq!(usage_flag_names(1 | 4), vec!["ShaderRead", "RenderTarget"]);
    assert!(usage_flag_names(0).is_empty());
}

#[test]
fn byte_aligned_and_bytes_per_pixel_follow_the_category() {
    assert_eq!(format_kind(80).bytes_per_pixel(), Some(4));
    assert!(format_kind(80).byte_aligned());
    assert_eq!(format_kind(252).bytes_per_pixel(), Some(4));
    assert!(!format_kind(204).byte_aligned());
    assert_eq!(format_kind(204).bytes_per_pixel(), None);
    assert_eq!(format_kind(0xffff_ff00).bytes_per_pixel(), None);
    assert!(format_kind(260).is_combined_depth_stencil());
    assert!(!format_kind(252).is_combined_depth_stencil());
}

#[test]
fn every_named_format_has_a_kind_and_every_kind_a_name() {
    for raw in 0u32..700 {
        let named = name(raw).is_some();
        let known = !matches!(format_kind(raw), FormatKind::Unknown);
        assert_eq!(named, known, "raw {raw}");
    }
}

#[test]
fn every_color_stride_is_its_channel_bits_in_bytes() {
    for raw in 0u32..300 {
        if let FormatKind::Color(c) = format_kind(raw) {
            let bits: u32 = c.channels.iter().map(|ch| ch.bits as u32).sum();
            let uniform = c
                .channels
                .iter()
                .all(|ch| ch.bits == c.channels[0].bits && ch.bits % 8 == 0);
            if c.numeric == NumericKind::SharedExponent {
                assert_eq!(raw, 93);
                assert_eq!(bits, 27);
                assert_eq!(c.bytes_per_pixel, 4);
                assert!(!c.byte_aligned);
            } else {
                assert_eq!(c.bytes_per_pixel, (bits / 8) as usize, "format {}", raw);
                assert_eq!(c.byte_aligned, uniform, "format {}", raw);
            }
        }
    }
    let FormatKind::Color(c) = format_kind(40) else {
        panic!("B5G6R5Unorm is color")
    };
    assert_eq!(c.bytes_per_pixel, 2);
    assert!(!c.byte_aligned);
}
