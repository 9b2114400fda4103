use lib::animation::{EasingKind, EasingMode, FillBehavior, HandoffBehavior, KeyFrameKind};
use lib::brushes::{AlignmentX, AlignmentY, BrushMappingMode, GradientSpreadMethod, Stretch, TileMode};
use lib::drawing::{BlendingMode, PenLineCap, PenLineJoin, cap_from_i32, join_from_i32};
use lib::element_tree::{GridUnitType};
use lib::geometry::{FillRule, GeometryCombineMode, SweepDirection};
use lib::ffi::{ClassBase, LogLevel, PropType};
use lib::events::{MouseButton};

#[test]
fn easing_mode_raw_values() {
    let all = [EasingMode::EaseOut, EasingMode::EaseIn, EasingMode::EaseInOut];
    for (i, m) in all.iter().enumerate() {
        assert_eq!(m.to_raw() as i64, i as i64);
    }
}

#[test]
fn easing_kind_raw_values() {
    let all = [EasingKind::Quadratic, EasingKind::Cubic, EasingKind::Quartic, EasingKind::Quintic, EasingKind::Sine, EasingKind::Circle, EasingKind::Back, EasingKind::Bounce, EasingKind::Elastic, EasingKind::Exponential, EasingKind::Power];
    for (i, m) in all.iter().enumerate() {
        assert_eq!(m.to_raw() as i64, i as i64);
    }
}

#[test]
fn fill_behavior_raw_values() {
    let all = [FillBehavior::HoldEnd, FillBehavior::Stop];
    for (i, m) in all.iter().enumerate() {
        assert_eq!(m.to_raw() as i64, i as i64);
    }
}

#[test]
fn handoff_behavior_raw_values() {
    let all = [HandoffBehavior::SnapshotAndReplace, HandoffBehavior::Compose];
    for (i, m) in all.iter().enumerate() {
        assert_eq!(m.to_raw() as i64, i as i64);
        assert_eq!(HandoffBehavior::from_raw(m.to_raw()), Some(*m));
    }
    assert_eq!(HandoffBehavior::from_raw(2), None);
    assert_eq!(HandoffBehavior::from_raw(-1), None);
}

#[test]
fn key_frame_kind_raw_values() {
    let all = [KeyFrameKind::Discrete, KeyFrameKind::Linear, KeyFrameKind::Easing, KeyFrameKind::Spline];
    for (i, m) in all.iter().enumerate() {
        assert_eq!(m.to_raw() as i64, i as i64);
    }
}

#[test]
fn gradient_spread_method_raw_values() {
    let all = [GradientSpreadMethod::Pad, GradientSpreadMethod::Reflect, GradientSpreadMethod::Repeat];
    for (i, m) in all.iter().enumerate() {
        assert_eq!(m.to_ordinal() as i64, i as i64);
        assert_eq!(GradientSpreadMethod::from_ordinal(m.to_ordinal()), Some(*m));
    }
    assert_eq!(GradientSpreadMethod::from_ordinal(3), None);
    assert_eq!(GradientSpreadMethod::from_ordinal(-1), None);
}

#[test]
fn alignment_x_raw_values() {
    let all = [AlignmentX::Left, AlignmentX::Center, AlignmentX::Right];
    for (i, m) in all.iter().enumerate() {
        assert_eq!(m.to_ordinal() as i64, i as i64);
        assert_eq!(AlignmentX::from_ordinal(m.to_ordinal()), Some(*m));
    }
    assert_eq!(AlignmentX::from_ordinal(3), None);
    assert_eq!(AlignmentX::from_ordinal(-1), None);
}

#[test]
fn alignment_y_raw_values() {
    let all = [AlignmentY::Top, AlignmentY::Center, AlignmentY::Bottom];
    for (i, m) in all.iter().enumerate() {
        assert_eq!(m.to_ordinal() as i64, i as i64);
        assert_eq!(AlignmentY::from_ordinal(m.to_ordinal()), Some(*m));
    }
    assert_eq!(AlignmentY::from_ordinal(3), None);
    assert_eq!(AlignmentY::from_ordinal(-1), None);
}

#[test]
fn stretch_raw_values() {
    let all = [Stretch::NoStretch, Stretch::Fill, Stretch::Uniform, Stretch::UniformToFill];
    for (i, m) in all.iter().enumerate() {
        assert_eq!(m.to_ordinal() as i64, i as i64);
        assert_eq!(Stretch::from_ordinal(m.to_ordinal()), Some(*m));
    }
    assert_eq!(Stretch::from_ordinal(4), None);
    assert_eq!(Stretch::from_ordinal(-1), None);
}

#[test]
fn tile_mode_raw_values() {
    let all = [TileMode::NoTile, TileMode::Tile, TileMode::FlipX, TileMode::FlipY, TileMode::FlipXY];
    for (i, m) in all.iter().enumerate() {
        assert_eq!(m.to_ordinal() as i64, i as i64);
        assert_eq!(TileMode::from_ordinal(m.to_ordinal()), Some(*m));
    }
    assert_eq!(TileMode::from_ordinal(5), None);
    assert_eq!(TileMode::from_ordinal(-1), None);
}

#[test]
fn brush_mapping_mode_raw_values() {
    let all = [BrushMappingMode::Absolute, BrushMappingMode::RelativeToBoundingBox];
    for (i, m) in all.iter().enumerate() {
        assert_eq!(m.to_ordinal() as i64, i as i64);
        assert_eq!(BrushMappingMode::from_ordinal(m.to_ordinal()), Some(*m));
    }
    assert_eq!(BrushMappingMode::from_ordinal(2), None);
    assert_eq!(BrushMappingMode::from_ordinal(-1), None);
}

#[test]
fn pen_line_cap_raw_values() {
    let all = [PenLineCap::Flat, PenLineCap::Square, PenLineCap::Round, PenLineCap::Triangle];
    for (i, m) in all.iter().enumerate() {
        assert_eq!(m.to_raw() as i64, i as i64);
        assert_eq!(cap_from_i32(m.to_raw()), *m);
    }
    assert_eq!(cap_from_i32(4), all[0]);
    assert_eq!(cap_from_i32(-3), all[0]);
}

#[test]
fn pen_line_join_raw_values() {
    let all = [PenLineJoin::Miter, PenLineJoin::Bevel, PenLineJoin::Round];
    for (i, m) in all.iter().enumerate() {
        assert_eq!(m.to_raw() as i64, i as i64);
        assert_eq!(join_from_i32(m.to_raw()), *m);
    }
    assert_eq!(join_from_i32(3), all[0]);
    assert_eq!(join_from_i32(-3), all[0]);
}

#[test]
fn blending_mode_raw_values() {
    let all = [BlendingMode::Normal, BlendingMode::Multiply, BlendingMode::Screen, BlendingMode::Additive];
    for (i, m) in all.iter().enumerate() {
        assert_eq!(m.to_raw() as i64, i as i64);
    }
}

#[test]
fn grid_unit_type_raw_values() {
    let all = [GridUnitType::Auto, GridUnitType::Pixel, GridUnitType::Star];
    for (i, m) in all.iter().enumerate() {
        assert_eq!(m.to_raw() as i64, i as i64);
        assert_eq!(GridUnitType::from_raw(m.to_raw()), Some(*m));
    }
    assert_eq!(GridUnitType::from_raw(3), None);
    assert_eq!(GridUnitType::from_raw(-1), None);
}

#[test]
fn fill_rule_raw_values() {
    let all = [FillRule::EvenOdd, FillRule::Nonzero];
    for (i, m) in all.iter().enumerate() {
        assert_eq!(m.to_ordinal() as i64, i as i64);
        assert_eq!(FillRule::from_ordinal(m.to_ordinal()), *m);
    }
    assert_eq!(FillRule::from_ordinal(2), all[0]);
    assert_eq!(FillRule::from_ordinal(-3), all[0]);
}

#[test]
fn geometry_combine_mode_raw_values() {
    let all = [GeometryCombineMode::Union, GeometryCombineMode::Intersect, GeometryCombineMode::Xor, GeometryCombineMode::Exclude];
    for (i, m) in all.iter().enumerate() {
        assert_eq!(m.to_ordinal() as i64, i as i64);
        assert_eq!(GeometryCombineMode::from_ordinal(m.to_ordinal()), Some(*m));
    }
    assert_eq!(GeometryCombineMode::from_ordinal(4), None);
    assert_eq!(GeometryCombineMode::from_ordinal(-1), None);
}

#[test]
fn sweep_direction_raw_values() {
    let all = [SweepDirection::Counterclockwise, SweepDirection::Clockwise];
    for (i, m) in all.iter().enumerate() {
        assert_eq!(m.to_ordinal() as i64, i as i64);
        assert_eq!(SweepDirection::from_ordinal(m.to_ordinal()), *m);
    }
    assert_eq!(SweepDirection::from_ordinal(2), all[0]);
    assert_eq!(SweepDirection::from_ordinal(-3), all[0]);
}

#[test]
fn log_level_raw_values() {
    let all = [LogLevel::Trace, LogLevel::Debug, LogLevel::Info, LogLevel::Warning, LogLevel::Error];
    for (i, m) in all.iter().enumerate() {
        assert_eq!(m.to_raw() as i64, i as i64);
        assert_eq!(LogLevel::from_raw(m.to_raw()), Some(*m));
    }
    assert_eq!(LogLevel::from_raw(5), None);
    assert_eq!(LogLevel::from_raw(u32::MAX), None);
}

#[test]
fn class_base_raw_values() {
    let all = [ClassBase::ContentControl, ClassBase::Control, ClassBase::FrameworkElement, ClassBase::UserControl, ClassBase::Panel, ClassBase::Decorator, ClassBase::Freezable];
    for (i, m) in all.iter().enumerate() {
        assert_eq!(m.to_raw() as i64, i as i64);
    }
}

#[test]
fn prop_type_raw_values() {
    let all = [PropType::Int32, PropType::Float, PropType::Double, PropType::Bool, PropType::String, PropType::Thickness, PropType::Color, PropType::Rect, PropType::ImageSource, PropType::BaseComponent, PropType::UInt32, PropType::Point, PropType::Size, PropType::Vector, PropType::Enum];
    for (i, m) in all.iter().enumerate() {
        assert_eq!(m.to_raw() as i64, i as i64);
    }
}

#[test]
fn mouse_button_raw_values() {
    let all = [MouseButton::Left, MouseButton::Right, MouseButton::Middle, MouseButton::XButton1, MouseButton::XButton2];
    for (i, m) in all.iter().enumerate() {
        assert_eq!(m.to_raw() as i64, i as i64);
        assert_eq!(MouseButton::from_raw(m.to_raw()), Some(*m));
    }
    assert_eq!(MouseButton::from_raw(5), None);
    assert_eq!(MouseButton::from_raw(-1), None);
}
