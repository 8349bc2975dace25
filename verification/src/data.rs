//! Typed expression trees over named external sources.
//!
//! A `FloatData` produces a scalar shader expression, a `ColorData` a color
//! expression in one of three representations (RGB vector, HSV vector, or a
//! normalized half-spherical point). Every node can render the shader text
//! that reconstructs its value and can register the external sources it needs
//! into a [`crate::dependency::DataDependencyGraph`].

use vstd::prelude::*;

use crate::color::ColorProperties;
use crate::dependency::{
    channel_dep, dep_none, dep_point, require_entry, DataDependency, DataDependencyGraph,
};

verus! {

/// The category of an externally supplied named value.
#[derive(Clone, Copy, PartialEq, Eq, Structural, Hash, Debug)]
pub enum DataSourceKind {
    Color,
    Float,
    Image,
}

/// One external binding point, identified by its name and kind.
#[derive(PartialEq, Eq, Hash)]
pub struct DataSource {
    pub name: String,
    pub kind: DataSourceKind,
}

impl Clone for DataSource {
    fn clone(&self) -> (r: Self)
        ensures
            r == *self,
    {
        DataSource { name: self.name.clone(), kind: self.kind }
    }
}

/// A scalar expression: a literal, a named external float, or one channel
/// extracted from a color expression.
pub enum FloatData {
    /// A floating-point literal, carried as the decimal text that the
    /// generated shader embeds; the host renders the number to this text.
    Constant(String),
    /// A named external float binding.
    FloatRef(String),
    /// One channel of a color expression.
    ColorChannel { color_source: Box<ColorData>, channel: ColorProperties },
}

/// A color expression: channel-wise HSV or RGB construction, or a named
/// external color or image binding.
pub enum ColorData {
    HSVColor { hue: FloatData, saturation: FloatData, value: FloatData },
    RGBColor { red: FloatData, green: FloatData, blue: FloatData },
    ColorRef { color_source: String },
    ImageRef { image_source: String },
}

impl Clone for FloatData {
    fn clone(&self) -> (r: Self)
        ensures
            r == *self,
        decreases *self, 0int,
    {
        match self {
            FloatData::Constant(x) => FloatData::Constant(x.clone()),
            FloatData::FloatRef(source) => FloatData::FloatRef(source.clone()),
            FloatData::ColorChannel { color_source, channel } => FloatData::ColorChannel {
                color_source: Box::new((**color_source).clone()),
                channel: *channel,
            },
        }
    }
}

impl Clone for ColorData {
    fn clone(&self) -> (r: Self)
        ensures
            r == *self,
        decreases *self, 0int,
    {
        match self {
            ColorData::HSVColor { hue, saturation, value } => ColorData::HSVColor {
                hue: hue.clone(),
                saturation: saturation.clone(),
                value: value.clone(),
            },
            ColorData::RGBColor { red, green, blue } => ColorData::RGBColor {
                red: red.clone(),
                green: green.clone(),
                blue: blue.clone(),
            },
            ColorData::ColorRef { color_source } => ColorData::ColorRef {
                color_source: color_source.clone(),
            },
            ColorData::ImageRef { image_source } => ColorData::ImageRef {
                image_source: image_source.clone(),
            },
        }
    }
}

/// The shader text that evaluates a scalar expression.
pub open spec fn float_reference_text(f: FloatData) -> Seq<char>
    decreases f, 0int,
{
    match f {
        FloatData::Constant(x) => x@,
        FloatData::FloatRef(source) => "float_"@ + source@,
        FloatData::ColorChannel { color_source, channel } => channel_reference_text(
            *color_source,
            channel,
        ),
    }
}

/// The shader text that evaluates a color expression as an RGB vector,
/// inserting an `hsv2rgb` conversion when the node is HSV-built.
pub open spec fn rgb_vec_text(c: ColorData) -> Seq<char>
    decreases c, 0int,
{
    match c {
        ColorData::HSVColor { hue, saturation, value } => "hsv2rgb(vec3("@
            + float_reference_text(hue) + ", "@ + float_reference_text(saturation) + ", "@
            + float_reference_text(value) + "))"@,
        ColorData::RGBColor { red, green, blue } => "vec3("@ + float_reference_text(red) + ", "@
            + float_reference_text(green) + ", "@ + float_reference_text(blue) + ")"@,
        ColorData::ColorRef { color_source } => "col_"@ + color_source@ + "_rgb"@,
        ColorData::ImageRef { image_source } => "img_"@ + image_source@ + "_rgb"@,
    }
}

/// The shader text that evaluates a color expression as an HSV vector,
/// inserting an `rgb2hsv` conversion when the node is RGB-built.
pub open spec fn hsv_vec_text(c: ColorData) -> Seq<char>
    decreases c, 0int,
{
    match c {
        ColorData::HSVColor { hue, saturation, value } => "vec3("@ + float_reference_text(hue)
            + ", "@ + float_reference_text(saturation) + ", "@ + float_reference_text(value)
            + ")"@,
        ColorData::RGBColor { red, green, blue } => "rgb2hsv(vec3("@ + float_reference_text(red)
            + ", "@ + float_reference_text(green) + ", "@ + float_reference_text(blue) + "))"@,
        ColorData::ColorRef { color_source } => "col_"@ + color_source@ + "_hsv"@,
        ColorData::ImageRef { image_source } => "img_"@ + image_source@ + "_hsv"@,
    }
}

/// The shader text that evaluates a color expression as a normalized
/// half-spherical point.
pub open spec fn hsv_spherical_vec_text(c: ColorData) -> Seq<char>
    decreases c, 0int,
{
    match c {
        ColorData::HSVColor { hue, saturation, value } => "hsv2half_spherical(vec3("@
            + float_reference_text(hue) + ", "@ + float_reference_text(saturation) + ", "@
            + float_reference_text(value) + "))"@,
        ColorData::RGBColor { red, green, blue } => "hsv2half_spherical(rgb2hsv(vec3("@
            + float_reference_text(red) + ", "@ + float_reference_text(green) + ", "@
            + float_reference_text(blue) + ")))"@,
        ColorData::ColorRef { color_source } => "col_"@ + color_source@,
        ColorData::ImageRef { image_source } => "img_"@ + image_source@,
    }
}

/// The shader text that extracts one channel from a color expression. A
/// channel-wise node in the matching color space hands back the component's
/// own text; otherwise the whole vector is converted and the channel's
/// suffix selects the component.
pub open spec fn channel_reference_text(c: ColorData, channel: ColorProperties) -> Seq<char>
    decreases c, 2int,
{
    match c {
        ColorData::HSVColor { hue, saturation, value } => match channel {
            ColorProperties::Hue => float_reference_text(hue),
            ColorProperties::Saturation => float_reference_text(saturation),
            ColorProperties::Value => float_reference_text(value),
            _ => wrong_space_channel_text(c, channel),
        },
        ColorData::RGBColor { red, green, blue } => match channel {
            ColorProperties::Red => float_reference_text(red),
            ColorProperties::Green => float_reference_text(green),
            ColorProperties::Blue => float_reference_text(blue),
            _ => wrong_space_channel_text(c, channel),
        },
        _ => wrong_space_channel_text(c, channel),
    }
}

/// The channel text used when the channel cannot be read off a component
/// directly: the vector in the channel's color space, followed by the
/// component selector.
pub open spec fn wrong_space_channel_text(c: ColorData, channel: ColorProperties) -> Seq<char>
    decreases c, 1int,
{
    match channel {
        ColorProperties::Hue => hsv_vec_text(c) + ".x"@,
        ColorProperties::Saturation => hsv_vec_text(c) + ".y"@,
        ColorProperties::Value => hsv_vec_text(c) + ".z"@,
        ColorProperties::Red => rgb_vec_text(c) + ".x"@,
        ColorProperties::Green => rgb_vec_text(c) + ".y"@,
        ColorProperties::Blue => rgb_vec_text(c) + ".z"@,
    }
}

/// The graph entries after a scalar expression registers the sources it
/// needs, starting from `s`.
pub open spec fn float_sources(f: FloatData, s: Seq<(DataSource, DataDependency)>) -> Seq<
    (DataSource, DataDependency),
>
    decreases f, 0int,
{
    match f {
        FloatData::Constant(_) => s,
        FloatData::FloatRef(name) => require_entry(
            s,
            (DataSource { name, kind: DataSourceKind::Float }),
            dep_none(),
        ),
        FloatData::ColorChannel { color_source, channel } => channel_sources(
            *color_source,
            channel,
            s,
        ),
    }
}

/// The graph entries after a color expression consumed through one channel
/// registers the sources it needs: only the representation the channel
/// actually reads is required.
pub open spec fn channel_sources(
    c: ColorData,
    channel: ColorProperties,
    s: Seq<(DataSource, DataDependency)>,
) -> Seq<(DataSource, DataDependency)>
    decreases c, 1int,
{
    match c {
        ColorData::HSVColor { hue, saturation, value } => match channel {
            ColorProperties::Hue => float_sources(hue, s),
            ColorProperties::Saturation => float_sources(saturation, s),
            ColorProperties::Value => float_sources(value, s),
            _ => float_sources(value, float_sources(saturation, float_sources(hue, s))),
        },
        ColorData::RGBColor { red, green, blue } => match channel {
            ColorProperties::Red => float_sources(red, s),
            ColorProperties::Green => float_sources(green, s),
            ColorProperties::Blue => float_sources(blue, s),
            _ => float_sources(blue, float_sources(green, float_sources(red, s))),
        },
        ColorData::ColorRef { color_source } => require_entry(
            s,
            (DataSource { name: color_source, kind: DataSourceKind::Color }),
            channel_dep(channel),
        ),
        ColorData::ImageRef { image_source } => require_entry(
            s,
            (DataSource { name: image_source, kind: DataSourceKind::Image }),
            channel_dep(channel),
        ),
    }
}

/// The graph entries after a color expression consumed whole registers the
/// sources it needs: a named leaf requires the full point representation.
pub open spec fn color_sources(c: ColorData, s: Seq<(DataSource, DataDependency)>) -> Seq<
    (DataSource, DataDependency),
>
    decreases c, 0int,
{
    match c {
        ColorData::HSVColor { hue, saturation, value } => float_sources(
            value,
            float_sources(saturation, float_sources(hue, s)),
        ),
        ColorData::RGBColor { red, green, blue } => float_sources(
            blue,
            float_sources(green, float_sources(red, s)),
        ),
        ColorData::ColorRef { color_source } => require_entry(
            s,
            (DataSource { name: color_source, kind: DataSourceKind::Color }),
            dep_point(),
        ),
        ColorData::ImageRef { image_source } => require_entry(
            s,
            (DataSource { name: image_source, kind: DataSourceKind::Image }),
            dep_point(),
        ),
    }
}

impl FloatData {
    /// Deterministic shader text that reconstructs this scalar from named
    /// external bindings.
    pub fn reference_string(&self) -> (r: String)
        ensures
            r@ == float_reference_text(*self),
        decreases *self, 0int,
    {
        match self {
            FloatData::Constant(x) => x.clone(),
            FloatData::FloatRef(source) => {
                let mut s = String::from_str("float_");
                s.append(source.as_str());
                s
            },
            FloatData::ColorChannel { color_source, channel } => color_source
                .channel_reference_string(*channel),
        }
    }

    /// Registers every external source this scalar reads into `graph`.
    pub fn get_required_sources(&self, graph: &mut DataDependencyGraph)
        ensures
            final(graph)@ == float_sources(*self, old(graph)@),
        decreases *self, 0int,
    {
        match self {
            FloatData::ColorChannel { color_source, channel } => color_source
                .get_required_channel_sources(graph, *channel),
            FloatData::Constant(_) => {},
            FloatData::FloatRef(name) => graph.require_float(name.clone()),
        }
    }
}

impl ColorData {
    /// Deterministic shader text for this color as an RGB vector.
    pub fn rgb_vec(&self) -> (r: String)
        ensures
            r@ == rgb_vec_text(*self),
        decreases *self, 0int,
    {
        match self {
            ColorData::HSVColor { hue, saturation, value } => {
                let mut s = String::from_str("hsv2rgb(vec3(");
                s.append(hue.reference_string().as_str());
                s.append(", ");
                s.append(saturation.reference_string().as_str());
                s.append(", ");
                s.append(value.reference_string().as_str());
                s.append("))");
                s
            },
            ColorData::RGBColor { red, green, blue } => {
                let mut s = String::from_str("vec3(");
                s.append(red.reference_string().as_str());
                s.append(", ");
                s.append(green.reference_string().as_str());
                s.append(", ");
                s.append(blue.reference_string().as_str());
                s.append(")");
                s
            },
            ColorData::ColorRef { color_source } => {
                let mut s = String::from_str("col_");
                s.append(color_source.as_str());
                s.append("_rgb");
                s
            },
            ColorData::ImageRef { image_source } => {
                let mut s = String::from_str("img_");
                s.append(image_source.as_str());
                s.append("_rgb");
                s
            },
        }
    }

    /// Deterministic shader text for this color as an HSV vector.
    pub fn hsv_vec(&self) -> (r: String)
        ensures
            r@ == hsv_vec_text(*self),
        decreases *self, 0int,
    {
        match self {
            ColorData::HSVColor { hue, saturation, value } => {
                let mut s = String::from_str("vec3(");
                s.append(hue.reference_string().as_str());
                s.append(", ");
                s.append(saturation.reference_string().as_str());
                s.append(", ");
                s.append(value.reference_string().as_str());
                s.append(")");
                s
            },
            ColorData::RGBColor { red, green, blue } => {
                let mut s = String::from_str("rgb2hsv(vec3(");
                s.append(red.reference_string().as_str());
                s.append(", ");
                s.append(green.reference_string().as_str());
                s.append(", ");
                s.append(blue.reference_string().as_str());
                s.append("))");
                s
            },
            ColorData::ColorRef { color_source } => {
                let mut s = String::from_str("col_");
                s.append(color_source.as_str());
                s.append("_hsv");
                s
            },
            ColorData::ImageRef { image_source } => {
                let mut s = String::from_str("img_");
                s.append(image_source.as_str());
                s.append("_hsv");
                s
            },
        }
    }

    /// Deterministic shader text for this color as a normalized
    /// half-spherical point.
    pub fn hsv_spherical_vec(&self) -> (r: String)
        ensures
            r@ == hsv_spherical_vec_text(*self),
        decreases *self, 0int,
    {
        match self {
            ColorData::HSVColor { hue, saturation, value } => {
                let mut s = String::from_str("hsv2half_spherical(vec3(");
                s.append(hue.reference_string().as_str());
                s.append(", ");
                s.append(saturation.reference_string().as_str());
                s.append(", ");
                s.append(value.reference_string().as_str());
                s.append("))");
                s
            },
            ColorData::RGBColor { red, green, blue } => {
                let mut s = String::from_str("hsv2half_spherical(rgb2hsv(vec3(");
                s.append(red.reference_string().as_str());
                s.append(", ");
                s.append(green.reference_string().as_str());
                s.append(", ");
                s.append(blue.reference_string().as_str());
                s.append(")))");
                s
            },
            ColorData::ColorRef { color_source } => {
                let mut s = String::from_str("col_");
                s.append(color_source.as_str());
                s
            },
            ColorData::ImageRef { image_source } => {
                let mut s = String::from_str("img_");
                s.append(image_source.as_str());
                s
            },
        }
    }

    /// Deterministic shader text that extracts one channel of this color,
    /// converting representation where the channel lives in the other color
    /// space.
    pub fn channel_reference_string(&self, channel: ColorProperties) -> (r: String)
        ensures
            r@ == channel_reference_text(*self, channel),
        decreases *self, 2int,
    {
        match self {
            ColorData::HSVColor { hue, saturation, value } => match channel {
                ColorProperties::Hue => hue.reference_string(),
                ColorProperties::Saturation => saturation.reference_string(),
                ColorProperties::Value => value.reference_string(),
                _ => self.wrong_space_channel_string(channel),
            },
            ColorData::RGBColor { red, green, blue } => match channel {
                ColorProperties::Red => red.reference_string(),
                ColorProperties::Green => green.reference_string(),
                ColorProperties::Blue => blue.reference_string(),
                _ => self.wrong_space_channel_string(channel),
            },
            _ => self.wrong_space_channel_string(channel),
        }
    }

    /// Channel extraction through a whole-vector conversion: the vector in
    /// the channel's color space followed by the component selector.
    fn wrong_space_channel_string(&self, channel: ColorProperties) -> (r: String)
        ensures
            r@ == wrong_space_channel_text(*self, channel),
        decreases *self, 1int,
    {
        let mut s = match channel {
            ColorProperties::Hue => self.hsv_vec(),
            ColorProperties::Saturation => self.hsv_vec(),
            ColorProperties::Value => self.hsv_vec(),
            _ => self.rgb_vec(),
        };
        match channel {
            ColorProperties::Hue => s.append(".x"),
            ColorProperties::Saturation => s.append(".y"),
            ColorProperties::Value => s.append(".z"),
            ColorProperties::Red => s.append(".x"),
            ColorProperties::Green => s.append(".y"),
            ColorProperties::Blue => s.append(".z"),
        }
        s
    }

    /// Registers the sources needed when this color is consumed through one
    /// channel: only the representation the channel reads is required.
    pub fn get_required_channel_sources(
        &self,
        graph: &mut DataDependencyGraph,
        channel: ColorProperties,
    )
        ensures
            final(graph)@ == channel_sources(*self, channel, old(graph)@),
        decreases *self, 1int,
    {
        match self {
            ColorData::HSVColor { hue, saturation, value } => match channel {
                ColorProperties::Hue => hue.get_required_sources(graph),
                ColorProperties::Saturation => saturation.get_required_sources(graph),
                ColorProperties::Value => value.get_required_sources(graph),
                _ => {
                    hue.get_required_sources(graph);
                    saturation.get_required_sources(graph);
                    value.get_required_sources(graph);
                },
            },
            ColorData::RGBColor { red, green, blue } => match channel {
                ColorProperties::Red => red.get_required_sources(graph),
                ColorProperties::Green => green.get_required_sources(graph),
                ColorProperties::Blue => blue.get_required_sources(graph),
                _ => {
                    red.get_required_sources(graph);
                    green.get_required_sources(graph);
                    blue.get_required_sources(graph);
                },
            },
            ColorData::ColorRef { color_source } => graph.require_color_channel(
                color_source.clone(),
                channel,
            ),
            ColorData::ImageRef { image_source } => graph.require_image_channel(
                image_source.clone(),
                channel,
            ),
        }
    }

    /// Registers every external source this color reads into `graph`; a
    /// named leaf consumed whole requires its full point representation.
    pub fn get_required_sources(&self, graph: &mut DataDependencyGraph)
        ensures
            final(graph)@ == color_sources(*self, old(graph)@),
        decreases *self, 0int,
    {
        match self {
            ColorData::HSVColor { hue, saturation, value } => {
                hue.get_required_sources(graph);
                saturation.get_required_sources(graph);
                value.get_required_sources(graph);
            },
            ColorData::RGBColor { red, green, blue } => {
                red.get_required_sources(graph);
                green.get_required_sources(graph);
                blue.get_required_sources(graph);
            },
            ColorData::ColorRef { color_source } => graph.require_color(color_source.clone()),
            ColorData::ImageRef { image_source } => graph.require_image(image_source.clone()),
        }
    }
}

} // verus!
