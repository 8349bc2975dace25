//! Geometric interpolation objects in the color space.
//!
//! A [`Geom0D`] is a single point: a color expression, or the evaluation of a
//! one-dimensional object at a parameter. A [`Geom1D`] is a line or arc,
//! defined by two endpoints and two parameter times; the `Segment` variants
//! are null-valued outside their time interval, signaled in generated code
//! through a sentinel alpha channel rather than a host error.

use vstd::prelude::*;

use crate::data::{
    color_sources, float_reference_text, float_sources, hsv_spherical_vec_text, ColorData,
    FloatData,
};
use crate::dependency::{DataDependency, DataDependencyGraph};
use crate::data::DataSource;

verus! {

/// A point in the color space: literal or derived, or obtained by evaluating
/// a one-dimensional object with some technique.
pub enum Geom0D {
    Point(ColorData),
    Evaluation1D(Box<Geom1D>, GeomEvalTechnique1D),
}

/// A one-dimensional object in the color space, evaluatable at a parameter
/// time. The two parameter times are carried as the decimal text the
/// generated shader embeds; the host renders the numbers to text.
///
/// `Line` and `Arc` extrapolate outside `[start_time, end_time]`; the
/// `Segment` variants return null values there instead.
pub enum Geom1D {
    Line { start: Geom0D, end: Geom0D, start_time: String, end_time: String },
    LineSegment { start: Geom0D, end: Geom0D, start_time: String, end_time: String },
    Arc { start: Geom0D, end: Geom0D, start_time: String, end_time: String },
    ArcSegment { start: Geom0D, end: Geom0D, start_time: String, end_time: String },
}

/// A way to obtain a point from a one-dimensional object; currently only
/// evaluation at a scalar parameter.
pub enum GeomEvalTechnique1D {
    Value(FloatData),
}

impl Clone for Geom0D {
    fn clone(&self) -> (r: Self)
        ensures
            r == *self,
        decreases *self, 1int,
    {
        match self {
            Geom0D::Point(c) => Geom0D::Point(c.clone()),
            Geom0D::Evaluation1D(geom, technique) => Geom0D::Evaluation1D(
                Box::new((**geom).clone()),
                technique.clone(),
            ),
        }
    }
}

impl Clone for Geom1D {
    fn clone(&self) -> (r: Self)
        ensures
            r == *self,
        decreases *self, 0int,
    {
        match self {
            Geom1D::Line { start, end, start_time, end_time } => Geom1D::Line {
                start: start.clone(),
                end: end.clone(),
                start_time: start_time.clone(),
                end_time: end_time.clone(),
            },
            Geom1D::LineSegment { start, end, start_time, end_time } => Geom1D::LineSegment {
                start: start.clone(),
                end: end.clone(),
                start_time: start_time.clone(),
                end_time: end_time.clone(),
            },
            Geom1D::Arc { start, end, start_time, end_time } => Geom1D::Arc {
                start: start.clone(),
                end: end.clone(),
                start_time: start_time.clone(),
                end_time: end_time.clone(),
            },
            Geom1D::ArcSegment { start, end, start_time, end_time } => Geom1D::ArcSegment {
                start: start.clone(),
                end: end.clone(),
                start_time: start_time.clone(),
                end_time: end_time.clone(),
            },
        }
    }
}

impl Clone for GeomEvalTechnique1D {
    fn clone(&self) -> (r: Self)
        ensures
            r == *self,
    {
        match self {
            GeomEvalTechnique1D::Value(data) => GeomEvalTechnique1D::Value(data.clone()),
        }
    }
}

/// The shader text that evaluates a point.
pub open spec fn geom0_text(g: Geom0D) -> Seq<char>
    decreases g, 1int,
{
    match g {
        Geom0D::Point(c) => hsv_spherical_vec_text(c),
        Geom0D::Evaluation1D(geom, technique) => match technique {
            GeomEvalTechnique1D::Value(data) => geom1_text(*geom, float_reference_text(data)),
        },
    }
}

/// The interpolation function each one-dimensional variant lowers to.
pub open spec fn geom1_function_name(g: Geom1D) -> Seq<char> {
    match g {
        Geom1D::Line { .. } => "lin_interp("@,
        Geom1D::LineSegment { .. } => "lin_interp_bounded("@,
        Geom1D::Arc { .. } => "rot_interp("@,
        Geom1D::ArcSegment { .. } => "rot_interp_bounded("@,
    }
}

/// The start point of a one-dimensional object.
pub open spec fn geom1_start(g: Geom1D) -> Geom0D {
    match g {
        Geom1D::Line { start, .. } => start,
        Geom1D::LineSegment { start, .. } => start,
        Geom1D::Arc { start, .. } => start,
        Geom1D::ArcSegment { start, .. } => start,
    }
}

/// The end point of a one-dimensional object.
pub open spec fn geom1_end(g: Geom1D) -> Geom0D {
    match g {
        Geom1D::Line { end, .. } => end,
        Geom1D::LineSegment { end, .. } => end,
        Geom1D::Arc { end, .. } => end,
        Geom1D::ArcSegment { end, .. } => end,
    }
}

/// The start-time text of a one-dimensional object.
pub open spec fn geom1_start_time(g: Geom1D) -> Seq<char> {
    match g {
        Geom1D::Line { start_time, .. } => start_time@,
        Geom1D::LineSegment { start_time, .. } => start_time@,
        Geom1D::Arc { start_time, .. } => start_time@,
        Geom1D::ArcSegment { start_time, .. } => start_time@,
    }
}

/// The end-time text of a one-dimensional object.
pub open spec fn geom1_end_time(g: Geom1D) -> Seq<char> {
    match g {
        Geom1D::Line { end_time, .. } => end_time@,
        Geom1D::LineSegment { end_time, .. } => end_time@,
        Geom1D::Arc { end_time, .. } => end_time@,
        Geom1D::ArcSegment { end_time, .. } => end_time@,
    }
}

/// The shader text that evaluates a one-dimensional object at a parameter:
/// the interpolation call with both endpoints and the parameter rescaled
/// into interpolation space.
pub open spec fn geom1_text(g: Geom1D, param: Seq<char>) -> Seq<char>
    decreases g, 0int,
{
    geom1_function_name(g) + geom0_text(geom1_start(g)) + ", "@ + geom0_text(geom1_end(g)) + ", ("@
        + param + " - "@ + geom1_start_time(g) + ")/("@ + geom1_end_time(g) + " - "@
        + geom1_start_time(g) + "))"@
}

/// The graph entries after a point registers the sources it needs.
pub open spec fn geom0_sources(g: Geom0D, s: Seq<(DataSource, DataDependency)>) -> Seq<
    (DataSource, DataDependency),
>
    decreases g, 1int,
{
    match g {
        Geom0D::Point(data) => color_sources(data, s),
        Geom0D::Evaluation1D(geom, technique) => match technique {
            GeomEvalTechnique1D::Value(data) => geom1_sources(*geom, float_sources(data, s)),
        },
    }
}

/// The graph entries after a one-dimensional object registers the sources it
/// needs: those of its start point, then of its end point.
pub open spec fn geom1_sources(g: Geom1D, s: Seq<(DataSource, DataDependency)>) -> Seq<
    (DataSource, DataDependency),
>
    decreases g, 0int,
{
    geom0_sources(geom1_end(g), geom0_sources(geom1_start(g), s))
}

impl Geom0D {
    /// Deterministic shader text that evaluates this point.
    pub fn get_shader(&self) -> (r: String)
        ensures
            r@ == geom0_text(*self),
        decreases *self, 1int,
    {
        match self {
            Geom0D::Point(c) => c.hsv_spherical_vec(),
            Geom0D::Evaluation1D(geom, technique) => match technique {
                GeomEvalTechnique1D::Value(data) => geom.get_shader(data.reference_string()),
            },
        }
    }

    /// Registers every external source this point reads into `graph`.
    pub fn get_required_sources(&self, graph: &mut DataDependencyGraph)
        ensures
            final(graph)@ == geom0_sources(*self, old(graph)@),
        decreases *self, 1int,
    {
        match self {
            Geom0D::Evaluation1D(geom, technique) => {
                match technique {
                    GeomEvalTechnique1D::Value(data) => data.get_required_sources(graph),
                }
                geom.get_required_sources(graph)
            },
            Geom0D::Point(data) => data.get_required_sources(graph),
        }
    }
}

impl GeomEvalTechnique1D {
    /// Deterministic shader text that evaluates `geom` with this technique.
    pub fn get_shader(&self, geom: &Box<Geom1D>) -> (r: String)
        ensures
            r@ == match *self {
                GeomEvalTechnique1D::Value(data) => geom1_text(**geom, float_reference_text(data)),
            },
    {
        match self {
            GeomEvalTechnique1D::Value(data) => geom.get_shader(data.reference_string()),
        }
    }
}

impl Geom1D {
    /// Deterministic shader text that evaluates this object at `param`.
    pub fn get_shader(&self, param: String) -> (r: String)
        ensures
            r@ == geom1_text(*self, param@),
        decreases *self, 0int,
    {
        let (start, end, start_time, end_time) = match self {
            Geom1D::Line { start, end, start_time, end_time } => (start, end, start_time, end_time),
            Geom1D::LineSegment { start, end, start_time, end_time } => (
                start,
                end,
                start_time,
                end_time,
            ),
            Geom1D::Arc { start, end, start_time, end_time } => (start, end, start_time, end_time),
            Geom1D::ArcSegment { start, end, start_time, end_time } => (
                start,
                end,
                start_time,
                end_time,
            ),
        };
        let mut s = match self {
            Geom1D::Line { .. } => String::from_str("lin_interp("),
            Geom1D::LineSegment { .. } => String::from_str("lin_interp_bounded("),
            Geom1D::Arc { .. } => String::from_str("rot_interp("),
            Geom1D::ArcSegment { .. } => String::from_str("rot_interp_bounded("),
        };
        s.append(start.get_shader().as_str());
        s.append(", ");
        s.append(end.get_shader().as_str());
        s.append(", (");
        s.append(param.as_str());
        s.append(" - ");
        s.append(start_time.as_str());
        s.append(")/(");
        s.append(end_time.as_str());
        s.append(" - ");
        s.append(start_time.as_str());
        s.append("))");
        s
    }

    /// Registers every external source this object reads into `graph`.
    pub fn get_required_sources(&self, graph: &mut DataDependencyGraph)
        ensures
            final(graph)@ == geom1_sources(*self, old(graph)@),
        decreases *self, 0int,
    {
        let (start, end) = match self {
            Geom1D::Line { start, end, .. } => (start, end),
            Geom1D::LineSegment { start, end, .. } => (start, end),
            Geom1D::Arc { start, end, .. } => (start, end),
            Geom1D::ArcSegment { start, end, .. } => (start, end),
        };
        start.get_required_sources(graph);
        end.get_required_sources(graph);
    }
}

} // verus!
