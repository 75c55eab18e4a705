use lattice::view::{AlignUnit, AngleUnit, UnitError, ViewUnit};

#[test]
fn view_unit_names_are_read() {
    assert_eq!(ViewUnit::new("em"), ViewUnit::Em);
    assert_eq!(ViewUnit::new("%"), ViewUnit::Percent);
    assert_eq!(ViewUnit::new("h%"), ViewUnit::HorizontalPercent);
    assert_eq!(ViewUnit::new("v%"), ViewUnit::VerticalPercent);
    assert_eq!(ViewUnit::new("<%"), ViewUnit::MinPercent);
    assert_eq!(ViewUnit::new(">%"), ViewUnit::MaxPercent);
    assert_eq!(ViewUnit::new("="), ViewUnit::Center);
    assert_eq!(ViewUnit::new("px"), ViewUnit::Pixel);
}

#[test]
fn unknown_view_unit_is_a_configuration_error() {
    assert_eq!(ViewUnit::parse("pt"), Err(UnitError::View("pt".to_string())));
    assert_eq!(ViewUnit::parse(""), Err(UnitError::View(String::new())));
    assert_eq!(ViewUnit::parse("EM"), Err(UnitError::View("EM".to_string())));
}

#[test]
fn align_and_angle_names_are_read() {
    assert_eq!(AlignUnit::new("left"), AlignUnit::Left);
    assert_eq!(AlignUnit::new("center"), AlignUnit::Center);
    assert_eq!(AlignUnit::new("right"), AlignUnit::Right);
    assert_eq!(AlignUnit::new("justify"), AlignUnit::Justify);
    assert_eq!(AngleUnit::new("degree"), AngleUnit::Degree);
    assert_eq!(AngleUnit::new("radian"), AngleUnit::Radian);
    assert_eq!(AngleUnit::new("hour"), AngleUnit::Hour);
    assert_eq!(AlignUnit::parse("middle"), Err(UnitError::Align("middle".to_string())));
    assert_eq!(AngleUnit::parse("turn"), Err(UnitError::Angle("turn".to_string())));
}
