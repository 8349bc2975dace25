use colorfold::color::ColorProperties;
use colorfold::data::{ColorData, FloatData};
use colorfold::dependency::DataDependencyGraph;
use colorfold::data::DataSourceKind;

fn rgb_consts(r: &str, g: &str, b: &str) -> ColorData {
    ColorData::RGBColor {
        red: FloatData::Constant(String::from(r)),
        green: FloatData::Constant(String::from(g)),
        blue: FloatData::Constant(String::from(b)),
    }
}

#[test]
fn constant_reference_is_its_text() {
    let f = FloatData::Constant(String::from("0.25"));
    assert_eq!(f.reference_string(), "0.25");
}

#[test]
fn float_ref_gets_the_float_prefix() {
    let f = FloatData::FloatRef(String::from("speed"));
    assert_eq!(f.reference_string(), "float_speed");
}

#[test]
fn matching_space_channel_reads_the_component() {
    let c = rgb_consts("1.0", "0.5", "0.0");
    assert_eq!(c.channel_reference_string(ColorProperties::Red), "1.0");
    assert_eq!(c.channel_reference_string(ColorProperties::Green), "0.5");
    assert_eq!(c.channel_reference_string(ColorProperties::Blue), "0.0");
}

#[test]
fn wrong_space_channel_converts_the_vector() {
    let c = rgb_consts("1.0", "0.5", "0.0");
    assert_eq!(
        c.channel_reference_string(ColorProperties::Hue),
        "rgb2hsv(vec3(1.0, 0.5, 0.0)).x"
    );
    assert_eq!(
        c.channel_reference_string(ColorProperties::Saturation),
        "rgb2hsv(vec3(1.0, 0.5, 0.0)).y"
    );
    let h = ColorData::HSVColor {
        hue: FloatData::Constant(String::from("0.1")),
        saturation: FloatData::Constant(String::from("0.2")),
        value: FloatData::Constant(String::from("0.3")),
    };
    assert_eq!(
        h.channel_reference_string(ColorProperties::Red),
        "hsv2rgb(vec3(0.1, 0.2, 0.3)).x"
    );
}

#[test]
fn rgb_vec_inserts_conversion_for_hsv_nodes() {
    let h = ColorData::HSVColor {
        hue: FloatData::Constant(String::from("0.1")),
        saturation: FloatData::Constant(String::from("0.2")),
        value: FloatData::Constant(String::from("0.3")),
    };
    assert_eq!(h.rgb_vec(), "hsv2rgb(vec3(0.1, 0.2, 0.3))");
    assert_eq!(h.hsv_vec(), "vec3(0.1, 0.2, 0.3)");
    let c = rgb_consts("1.0", "0.0", "0.0");
    assert_eq!(c.rgb_vec(), "vec3(1.0, 0.0, 0.0)");
    assert_eq!(c.hsv_vec(), "rgb2hsv(vec3(1.0, 0.0, 0.0))");
}

#[test]
fn named_leaves_reference_bound_variables() {
    let c = ColorData::ColorRef { color_source: String::from("sky") };
    assert_eq!(c.rgb_vec(), "col_sky_rgb");
    assert_eq!(c.hsv_vec(), "col_sky_hsv");
    assert_eq!(c.hsv_spherical_vec(), "col_sky");
    let i = ColorData::ImageRef { image_source: String::from("photo") };
    assert_eq!(i.rgb_vec(), "img_photo_rgb");
    assert_eq!(i.hsv_vec(), "img_photo_hsv");
    assert_eq!(i.hsv_spherical_vec(), "img_photo");
}

#[test]
fn spherical_vec_converts_through_hsv() {
    let c = rgb_consts("1.0", "0.0", "0.0");
    assert_eq!(
        c.hsv_spherical_vec(),
        "hsv2half_spherical(rgb2hsv(vec3(1.0, 0.0, 0.0)))"
    );
    let h = ColorData::HSVColor {
        hue: FloatData::Constant(String::from("0.0")),
        saturation: FloatData::Constant(String::from("1.0")),
        value: FloatData::Constant(String::from("1.0")),
    };
    assert_eq!(h.hsv_spherical_vec(), "hsv2half_spherical(vec3(0.0, 1.0, 1.0))");
}

#[test]
fn channel_walk_registers_only_the_needed_representation() {
    let c = ColorData::ColorRef { color_source: String::from("sky") };
    let mut g = DataDependencyGraph::new();
    c.get_required_channel_sources(&mut g, ColorProperties::Red);
    let values = g.values();
    assert_eq!(g.len(), 1);
    assert!(values[0].require_rgb);
    assert!(!values[0].require_hsv);
    assert!(!values[0].require_point);
}

#[test]
fn whole_color_registers_the_point_representation() {
    let c = ColorData::ColorRef { color_source: String::from("sky") };
    let mut g = DataDependencyGraph::new();
    c.get_required_sources(&mut g);
    let values = g.values();
    assert_eq!(g.len(), 1);
    assert!(values[0].require_point);
}

#[test]
fn nested_channel_expression_registers_leaf_sources() {
    // A scalar read out of an image's hue channel: the image needs its HSV
    // form, nothing else.
    let f = FloatData::ColorChannel {
        color_source: Box::new(ColorData::ImageRef { image_source: String::from("photo") }),
        channel: ColorProperties::Hue,
    };
    let mut g = DataDependencyGraph::new();
    f.get_required_sources(&mut g);
    let keys = g.keys();
    let values = g.values();
    assert_eq!(g.len(), 1);
    assert_eq!(keys[0].name, "photo");
    assert_eq!(keys[0].kind, DataSourceKind::Image);
    assert!(values[0].require_hsv);
    assert!(!values[0].require_rgb);
    assert!(!values[0].require_point);
}

#[test]
fn constants_register_nothing() {
    let c = rgb_consts("1.0", "0.0", "0.0");
    let mut g = DataDependencyGraph::new();
    c.get_required_sources(&mut g);
    assert_eq!(g.len(), 0);
}
