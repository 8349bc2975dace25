use colorfold::color::ColorProperties;
use colorfold::data::DataSourceKind;
use colorfold::dependency::{DataDependency, DataDependencyGraph};

#[test]
fn constructors_set_one_flag() {
    let h = DataDependency::hsv();
    assert!(h.require_hsv && !h.require_rgb && !h.require_point);
    let r = DataDependency::rgb();
    assert!(r.require_rgb && !r.require_hsv && !r.require_point);
    let p = DataDependency::point();
    assert!(p.require_point && !p.require_rgb && !p.require_hsv);
    let d = DataDependency::default();
    assert!(!d.require_rgb && !d.require_hsv && !d.require_point);
}

#[test]
fn first_insertion_order_is_kept() {
    let mut g = DataDependencyGraph::new();
    g.require_color(String::from("b"));
    g.require_image(String::from("a"));
    g.require_float(String::from("c"));
    let keys = g.keys();
    assert_eq!(keys.len(), 3);
    assert_eq!(keys[0].name, "b");
    assert_eq!(keys[0].kind, DataSourceKind::Color);
    assert_eq!(keys[1].name, "a");
    assert_eq!(keys[1].kind, DataSourceKind::Image);
    assert_eq!(keys[2].name, "c");
    assert_eq!(keys[2].kind, DataSourceKind::Float);
}

#[test]
fn rgb_then_hsv_sets_both_flags() {
    let mut g = DataDependencyGraph::new();
    g.require_color_channel(String::from("x"), ColorProperties::Red);
    g.require_color_channel(String::from("x"), ColorProperties::Hue);
    let values = g.values();
    assert_eq!(values.len(), 1);
    assert!(values[0].require_rgb);
    assert!(values[0].require_hsv);
    assert!(!values[0].require_point);
}

#[test]
fn hsv_then_rgb_gives_the_same_graph() {
    let mut g1 = DataDependencyGraph::new();
    g1.require_color_channel(String::from("x"), ColorProperties::Red);
    g1.require_color_channel(String::from("x"), ColorProperties::Hue);
    let mut g2 = DataDependencyGraph::new();
    g2.require_color_channel(String::from("x"), ColorProperties::Hue);
    g2.require_color_channel(String::from("x"), ColorProperties::Red);
    assert_eq!(g1.len(), g2.len());
    assert_eq!(g1.values()[0], g2.values()[0]);
    assert_eq!(g1.keys()[0].name, g2.keys()[0].name);
}

#[test]
fn registering_twice_equals_registering_once() {
    let mut g1 = DataDependencyGraph::new();
    g1.require_image(String::from("pic"));
    g1.require_image(String::from("pic"));
    let mut g2 = DataDependencyGraph::new();
    g2.require_image(String::from("pic"));
    assert_eq!(g1.len(), 1);
    assert_eq!(g2.len(), 1);
    assert_eq!(g1.values()[0], g2.values()[0]);
    assert_eq!(g1.keys()[0].name, g2.keys()[0].name);
}

#[test]
fn floats_need_no_representation() {
    let mut g = DataDependencyGraph::new();
    g.require_float(String::from("t"));
    let v = g.values();
    assert!(!v[0].require_rgb && !v[0].require_hsv && !v[0].require_point);
}

#[test]
fn point_requirement_is_never_downgraded() {
    let mut g = DataDependencyGraph::new();
    g.require_color(String::from("x"));
    g.require_color_channel(String::from("x"), ColorProperties::Red);
    let v = g.values();
    assert_eq!(g.len(), 1);
    assert!(v[0].require_point);
    assert!(v[0].require_rgb);
}

#[test]
fn same_name_different_kind_are_distinct_sources() {
    let mut g = DataDependencyGraph::new();
    g.require_color(String::from("x"));
    g.require_image(String::from("x"));
    assert_eq!(g.len(), 2);
}

#[test]
fn iter_walks_entries_in_order() {
    let mut g = DataDependencyGraph::new();
    g.require_image(String::from("one"));
    g.require_float(String::from("two"));
    let entries = g.iter();
    assert_eq!(entries.len(), 2);
    assert_eq!(entries[0].0.name, "one");
    assert!(entries[0].1.require_point);
    assert_eq!(entries[1].0.name, "two");
    assert!(!entries[1].1.require_point);
}
