use colorfold::data::{ColorData, FloatData};
use colorfold::filters::{Compute, Scale, Summation};
use colorfold::geometry::Geom0D;

fn const_point(r: &str, g: &str, b: &str) -> Geom0D {
    Geom0D::Point(ColorData::RGBColor {
        red: FloatData::Constant(String::from(r)),
        green: FloatData::Constant(String::from(g)),
        blue: FloatData::Constant(String::from(b)),
    })
}

fn leaf(source: &str, rescale: Scale) -> Compute {
    Compute::Rotation {
        start_point: const_point("1.0", "0.0", "0.0"),
        end_point: const_point("0.0", "1.0", "0.0"),
        source: String::from(source),
        rescale,
    }
}

fn expected_fragment_between(start: &str, end: &str, src: &str, rescale: &str) -> String {
    format!(
        "\n_rot_start_ = {start};\n_rot_end_ = {end};\nif (_rot_start_.w > -0.5 && _rot_end_.w > -0.5)\n{{\n    vec4 {src}_rot = {rescale}(point_point(img_{src}, _rot_start_, _rot_end_), length(_rot_start_.xyz), length(_rot_end_.xyz));\n    if ({src}_rot.w > -0.5)\n    {{\n        if ({src}_rot.w < Epsilon)\n        {{\n            num_zeros += 1;\n            total_zeros += {src}_rot.xyz;\n        }}\n        else\n        {{\n            total_inv_weight += 1 / {src}_rot.w;\n            total_inv_weight_vecs += 1 / {src}_rot.w * {src}_rot.xyz;\n        }}\n    }}\n}}"
    )
}

fn expected_fragment(src: &str, rescale: &str) -> String {
    expected_fragment_between(
        "hsv2half_spherical(rgb2hsv(vec3(1.0, 0.0, 0.0)))",
        "hsv2half_spherical(rgb2hsv(vec3(0.0, 1.0, 0.0)))",
        src,
        rescale,
    )
}

fn accum_locals() -> &'static str {
    "\n  float total_inv_weight = 0;\n  vec3 total_inv_weight_vecs = vec3(0);\n  int num_zeros = 0;\n  vec3 total_zeros = vec3(0);\n  vec4 _rot_start_ = vec4(0);\n  vec4 _rot_end_ = vec4(0);"
}

fn epilogue() -> &'static str {
    "\n  if (num_zeros > 0)\n  {\n    return vec4(total_zeros / num_zeros, 0);\n  }\n  else if (total_inv_weight > Epsilon)\n  {\n      return vec4((1 / total_inv_weight) * total_inv_weight_vecs, 0);\n  }\n  else\n  {\n      return vec4(0, 0, 0, -1);\n  }\n}"
}

#[test]
fn leaf_generates_one_inline_fragment() {
    let shaders = leaf("img0", Scale::Clamp).get_shader();
    assert_eq!(shaders.len(), 1);
    assert_eq!(shaders[0], expected_fragment("img0", "Clamp"));
}

#[test]
fn node_generates_call_line_then_definition() {
    let node = Compute::Compute {
        name: String::from("stage"),
        operations: vec![leaf("img0", Scale::RatioClamp)],
        sum_type: Summation::InvWeighted,
    };
    let shaders = node.get_shader();
    assert_eq!(shaders.len(), 2);
    assert_eq!(shaders[0], "stage(img_img0_rgb)");
    let expected_def = format!(
        "vec4 stage(vec3 img_img0_rgb)\n{{\nvec3 img_img0_hsv = rgb2hsv(img_img0_rgb);\nvec4 img_img0 = hsv2half_spherical(img_img0_hsv);{}{}{}",
        accum_locals(),
        expected_fragment("img0", "RatioClamp"),
        epilogue()
    );
    assert_eq!(shaders[1], expected_def);
}

#[test]
fn two_degenerate_rotations_fall_to_the_undefined_sentinel() {
    // Both leaves can evaluate undefined at run time (w < 0); the generated
    // function then skips both accumulations and its epilogue returns the
    // undefined sentinel vec4(0, 0, 0, -1).
    let node = Compute::Compute {
        name: String::from("blend"),
        operations: vec![leaf("img0", Scale::RatioClamp), leaf("img1", Scale::RatioClamp)],
        sum_type: Summation::InvWeighted,
    };
    let shaders = node.get_shader();
    assert_eq!(shaders.len(), 2);
    assert_eq!(shaders[0], "blend(img_img0_rgb, img_img1_rgb)");
    let expected_def = format!(
        "vec4 blend(vec3 img_img0_rgb, vec3 img_img1_rgb)\n{{\nvec3 img_img0_hsv = rgb2hsv(img_img0_rgb);\nvec4 img_img0 = hsv2half_spherical(img_img0_hsv);\nvec3 img_img1_hsv = rgb2hsv(img_img1_rgb);\nvec4 img_img1 = hsv2half_spherical(img_img1_hsv);{}{}{}{}",
        accum_locals(),
        expected_fragment("img0", "RatioClamp"),
        expected_fragment("img1", "RatioClamp"),
        epilogue()
    );
    assert_eq!(shaders[1], expected_def);
    assert!(shaders[1].ends_with(
        "\n  else\n  {\n      return vec4(0, 0, 0, -1);\n  }\n}"
    ));
}

#[test]
fn nested_node_contributes_call_and_definition() {
    let inner = Compute::Compute {
        name: String::from("inner"),
        operations: vec![leaf("img0", Scale::Clamp)],
        sum_type: Summation::InvWeighted,
    };
    let outer = Compute::Compute {
        name: String::from("outer"),
        operations: vec![inner],
        sum_type: Summation::InvWeighted,
    };
    let shaders = outer.get_shader();
    // Call line for outer, its definition, then the nested definition.
    assert_eq!(shaders.len(), 3);
    assert_eq!(shaders[0], "outer(img_img0_rgb)");
    assert!(shaders[1].starts_with("vec4 outer(vec3 img_img0_rgb)\n{"));
    assert!(shaders[1].contains("\nvec4 inner_rot = inner(img_img0_rgb);\nif (inner_rot.w > -0.5)"));
    assert!(shaders[2].starts_with("vec4 inner(vec3 img_img0_rgb)\n{"));
}

#[test]
fn generation_is_deterministic() {
    let node = Compute::Compute {
        name: String::from("stage"),
        operations: vec![leaf("img0", Scale::BezierLoose), leaf("img1", Scale::Clamp)],
        sum_type: Summation::InvWeighted,
    };
    let first = node.get_shader();
    let second = node.get_shader();
    assert_eq!(first, second);
}

#[test]
fn is_compute_tells_nodes_from_leaves() {
    let node = Compute::Compute {
        name: String::from("stage"),
        operations: vec![],
        sum_type: Summation::InvWeighted,
    };
    assert!(node.is_compute());
    assert!(!leaf("img0", Scale::Clamp).is_compute());
}

#[test]
fn get_file_names_node_or_source() {
    let node = Compute::Compute {
        name: String::from("stage"),
        operations: vec![],
        sum_type: Summation::InvWeighted,
    };
    assert_eq!(node.get_file(), "stage");
    assert_eq!(leaf("img7", Scale::Clamp).get_file(), "img7");
}

#[test]
fn scale_names_match_the_shader_library() {
    assert_eq!(Scale::Clamp.name(), "Clamp");
    assert_eq!(Scale::RatioClamp.name(), "RatioClamp");
    assert_eq!(Scale::BezierLoose.name(), "BezierLoose");
}

#[test]
fn parameters_are_typed_by_kind_and_ordered_by_first_use() {
    // A rotation whose endpoints read a named color and a named float: the
    // generated signature types each parameter by its kind, in first-use
    // order, and the prologue derives the color's point but not the float's.
    let node = Compute::Compute {
        name: String::from("mix"),
        operations: vec![Compute::Rotation {
            start_point: Geom0D::Point(ColorData::ColorRef {
                color_source: String::from("accent"),
            }),
            end_point: Geom0D::Point(ColorData::HSVColor {
                hue: FloatData::FloatRef(String::from("t")),
                saturation: FloatData::Constant(String::from("1.0")),
                value: FloatData::Constant(String::from("1.0")),
            }),
            source: String::from("img0"),
            rescale: Scale::Clamp,
        }],
        sum_type: Summation::InvWeighted,
    };
    let shaders = node.get_shader();
    assert_eq!(shaders.len(), 2);
    assert_eq!(shaders[0], "mix(col_accent_rgb, float_t, img_img0_rgb)");
    let expected_def = format!(
        "vec4 mix(vec3 col_accent_rgb, float float_t, vec3 img_img0_rgb)\n{{\nvec3 col_accent_hsv = rgb2hsv(col_accent_rgb);\nvec4 col_accent = hsv2half_spherical(col_accent_hsv);\nvec3 img_img0_hsv = rgb2hsv(img_img0_rgb);\nvec4 img_img0 = hsv2half_spherical(img_img0_hsv);{}{}{}",
        accum_locals(),
        expected_fragment_between(
            "col_accent",
            "hsv2half_spherical(vec3(float_t, 1.0, 1.0))",
            "img0",
            "Clamp",
        ),
        epilogue()
    );
    assert_eq!(shaders[1], expected_def);
}
