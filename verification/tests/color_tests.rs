use colorfold::color::{Color, ColorProperties};

#[test]
fn suffix_of_each_channel() {
    assert_eq!(ColorProperties::Hue.suffix(), "hsv.x");
    assert_eq!(ColorProperties::Value.suffix(), "hsv.y");
    assert_eq!(ColorProperties::Saturation.suffix(), "hsv.z");
    assert_eq!(ColorProperties::Red.suffix(), "rgb.x");
    assert_eq!(ColorProperties::Green.suffix(), "rgb.y");
    assert_eq!(ColorProperties::Blue.suffix(), "rgb.z");
}

#[test]
fn color_space_of_each_channel() {
    assert_eq!(ColorProperties::Hue.get_color_space(), "hsv");
    assert_eq!(ColorProperties::Value.get_color_space(), "hsv");
    assert_eq!(ColorProperties::Saturation.get_color_space(), "hsv");
    assert_eq!(ColorProperties::Red.get_color_space(), "rgb");
    assert_eq!(ColorProperties::Green.get_color_space(), "rgb");
    assert_eq!(ColorProperties::Blue.get_color_space(), "rgb");
}

#[test]
fn color_holds_its_channels() {
    let c = Color(255, 128, 0);
    assert_eq!(c.0, 255);
    assert_eq!(c.1, 128);
    assert_eq!(c.2, 0);
    let d = c.clone();
    assert!(c == d);
}
