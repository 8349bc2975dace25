use colorfold::data::{ColorData, FloatData};
use colorfold::decimal::u128_to_string;
use colorfold::filters::{Compute, Scale, Summation};
use colorfold::folding::{consistent_dimensions, FoldingMachine, StageError};
use colorfold::geometry::Geom0D;
use colorfold::imaging::Image;

fn red_point() -> Geom0D {
    Geom0D::Point(ColorData::RGBColor {
        red: FloatData::Constant(String::from("1.0")),
        green: FloatData::Constant(String::from("0.0")),
        blue: FloatData::Constant(String::from("0.0")),
    })
}

fn stage_over(source: &str) -> Compute {
    Compute::Compute {
        name: String::from("stage"),
        operations: vec![Compute::Rotation {
            start_point: red_point(),
            end_point: red_point(),
            source: String::from(source),
            rescale: Scale::RatioClamp,
        }],
        sum_type: Summation::InvWeighted,
    }
}

#[test]
fn machine_binds_images_by_name() {
    let machine = FoldingMachine::new(
        vec![(String::from("img0"), String::from("a.png"))],
        vec![stage_over("img0")],
    );
    assert_eq!(machine.images.len(), 1);
    assert_eq!(machine.images[0].id, "img0");
    assert_eq!(machine.images[0].location, "a.png");
    assert!(!machine.images[0].is_loaded);
    assert_eq!(machine.stages.len(), 1);
}

#[test]
fn later_duplicate_binding_wins() {
    // Binding one name twice behaves as a map keyed by name: the later
    // location replaces the earlier one, in the name's first-bound position.
    let machine = FoldingMachine::new(
        vec![
            (String::from("a"), String::from("x.png")),
            (String::from("b"), String::from("y.png")),
            (String::from("a"), String::from("z.png")),
        ],
        vec![],
    );
    assert_eq!(machine.images.len(), 2);
    assert_eq!(machine.images[0].id, "a");
    assert_eq!(machine.images[0].location, "z.png");
    assert_eq!(machine.images[1].id, "b");
    assert_eq!(machine.images[1].location, "y.png");
}

#[test]
fn from_map_replaces_a_duplicated_name() {
    let machine = FoldingMachine::from_map(
        vec![
            Image::new(String::from("a"), String::from("x.png")),
            Image::new(String::from("a"), String::from("z.png")),
        ],
        vec![],
    );
    assert_eq!(machine.images.len(), 1);
    assert_eq!(machine.images[0].id, "a");
    assert_eq!(machine.images[0].location, "z.png");
}

#[test]
fn from_map_keeps_the_given_bindings() {
    let machine = FoldingMachine::from_map(
        vec![Image::new(String::from("img0"), String::from("a.png"))],
        vec![stage_over("img0")],
    );
    assert_eq!(machine.images[0].id, "img0");
}

#[test]
fn stage_shader_wraps_the_stage_in_a_main() {
    let machine = FoldingMachine::new(
        vec![(String::from("img0"), String::from("a.png"))],
        vec![stage_over("img0")],
    );
    let text = machine.stage_shader(0, 16).unwrap();
    // The stage's function definition comes first, then main.
    assert!(text.starts_with("vec4 stage(vec3 img_img0_rgb)\n{"));
    let main_expected = "void main()\n{\n  uint index = gl_GlobalInvocationID.x;\n  uint img_img0_value = in_colors0[index + 0];\n  uint img_img0_alpha = img_img0_value & (255 << 24);\n  vec3 img_img0_rgb = vec3(uvec3(img_img0_value & 255, (img_img0_value >> 8) & 255, (img_img0_value >> 16) & 255)) / 255.0;\n  // Convert the out_color back into rgb. Maintain alpha.\n  vec3 color_out = vec3(hsv2rgb(half_spherical2hsv(stage(img_img0_rgb).xyz)));\n  uvec3 out_components = uvec3(255 * color_out);\n  in_colors0[index] = out_components.x         | (out_components.y << 8) |\n                      (out_components.z << 16) | img_img0_alpha;\n}\n";
    assert!(text.ends_with(main_expected));
    // Deterministic: a second pass is byte-identical.
    assert_eq!(machine.stage_shader(0, 16).unwrap(), text);
}

#[test]
fn second_image_is_offset_by_the_image_length() {
    let two_leaves = Compute::Compute {
        name: String::from("stage"),
        operations: vec![
            Compute::Rotation {
                start_point: red_point(),
                end_point: red_point(),
                source: String::from("img0"),
                rescale: Scale::Clamp,
            },
            Compute::Rotation {
                start_point: red_point(),
                end_point: red_point(),
                source: String::from("img1"),
                rescale: Scale::Clamp,
            },
        ],
        sum_type: Summation::InvWeighted,
    };
    let machine = FoldingMachine::new(
        vec![
            (String::from("img0"), String::from("a.png")),
            (String::from("img1"), String::from("b.png")),
        ],
        vec![two_leaves],
    );
    let text = machine.stage_shader(0, 64).unwrap();
    assert!(text.contains("img_img0_value = in_colors0[index + 0]"));
    assert!(text.contains("img_img1_value = in_colors0[index + 64]"));
}

#[test]
fn missing_stage_index_is_reported() {
    let machine = FoldingMachine::new(vec![], vec![]);
    assert!(matches!(machine.stage_shader(0, 1), Err(StageError::NoSuchStage)));
}

#[test]
fn bare_leaf_stage_is_reported() {
    let machine = FoldingMachine::new(
        vec![(String::from("img0"), String::from("a.png"))],
        vec![Compute::Rotation {
            start_point: red_point(),
            end_point: red_point(),
            source: String::from("img0"),
            rescale: Scale::Clamp,
        }],
    );
    assert!(matches!(machine.stage_shader(0, 1), Err(StageError::LeafStage)));
}

#[test]
fn stage_without_sources_is_reported() {
    let empty_stage = Compute::Compute {
        name: String::from("stage"),
        operations: vec![],
        sum_type: Summation::InvWeighted,
    };
    let machine = FoldingMachine::new(vec![], vec![empty_stage]);
    assert!(matches!(machine.stage_shader(0, 1), Err(StageError::NoImageSources)));
}

#[test]
fn unbound_image_source_is_reported_by_name() {
    let machine = FoldingMachine::new(vec![], vec![stage_over("ghostly")]);
    match machine.stage_shader(0, 1) {
        Err(StageError::UnboundSource(name)) => assert_eq!(name, "ghostly"),
        _ => panic!("expected an unbound source"),
    }
}

#[test]
fn non_image_source_is_reported() {
    // The rotation's start point reads a named color, which the compute path
    // cannot feed from the pixel buffer.
    let stage = Compute::Compute {
        name: String::from("stage"),
        operations: vec![Compute::Rotation {
            start_point: Geom0D::Point(ColorData::ColorRef {
                color_source: String::from("accent"),
            }),
            end_point: red_point(),
            source: String::from("img0"),
            rescale: Scale::Clamp,
        }],
        sum_type: Summation::InvWeighted,
    };
    let machine = FoldingMachine::new(
        vec![(String::from("img0"), String::from("a.png"))],
        vec![stage],
    );
    match machine.stage_shader(0, 1) {
        Err(StageError::UnboundSource(name)) => assert_eq!(name, "accent"),
        _ => panic!("expected an unbound source"),
    }
}

#[test]
fn equal_dimensions_are_consistent() {
    assert!(consistent_dimensions(&vec![(4, 4), (4, 4), (4, 4)]));
    assert!(consistent_dimensions(&vec![(7, 2)]));
    assert!(consistent_dimensions(&vec![]));
}

#[test]
fn unequal_dimensions_are_inconsistent() {
    assert!(!consistent_dimensions(&vec![(4, 4), (4, 5)]));
    assert!(!consistent_dimensions(&vec![(4, 4), (4, 4), (3, 4)]));
}

#[test]
fn decimal_text_of_machine_integers() {
    assert_eq!(u128_to_string(0), "0");
    assert_eq!(u128_to_string(7), "7");
    assert_eq!(u128_to_string(10), "10");
    assert_eq!(u128_to_string(1234567890), "1234567890");
    assert_eq!(u128_to_string(4294967295), "4294967295");
}

#[test]
fn image_clone_resets_the_loaded_state() {
    let mut img = Image::new(String::from("x"), String::from("loc"));
    img.is_loaded = true;
    let copy = img.clone();
    assert_eq!(copy.id, "x");
    assert_eq!(copy.location, "loc");
    assert!(!copy.is_loaded);
}
