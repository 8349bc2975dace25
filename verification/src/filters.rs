//! The filter tree and its code generator.
//!
//! A [`Compute`] is either a named aggregation node over child operations or
//! a `Rotation` leaf: the atomic filter that rotates an image source between
//! two points in color space and rescales the magnitude by a [`Scale`]
//! policy. A `Compute` node lowers to one generated shader function; its
//! children contribute either an inline accumulation fragment (leaves) or a
//! call plus their own function definitions (nested nodes).

use vstd::prelude::*;

use crate::data::{DataSource, DataSourceKind};
use crate::dependency::{dep_point, require_entry, DataDependency, DataDependencyGraph};
use crate::geometry::{geom0_sources, geom0_text, Geom0D};

verus! {

broadcast use vstd::seq::group_seq_axioms, vstd::std_specs::vec::group_vec_axioms;

/// How a node combines its children; currently only inverse-weight
/// accumulation.
#[derive(Clone, Copy, PartialEq, Eq, Structural)]
pub enum Summation {
    InvWeighted,
}

/// Post-rotation magnitude rescale policies. Their numeric definitions live
/// in the external shader primitive library; the generator only names them.
#[derive(Clone, Copy, PartialEq, Eq, Structural)]
pub enum Scale {
    Clamp,
    RatioClamp,
    BezierLoose,
}

/// The external shader function a rescale policy calls.
pub open spec fn scale_text(sc: Scale) -> Seq<char> {
    match sc {
        Scale::Clamp => "Clamp"@,
        Scale::RatioClamp => "RatioClamp"@,
        Scale::BezierLoose => "BezierLoose"@,
    }
}

impl Scale {
    /// The name of the external shader function this policy calls.
    pub fn name(&self) -> (r: &'static str)
        ensures
            r@ == scale_text(*self),
    {
        match self {
            Scale::Clamp => "Clamp",
            Scale::RatioClamp => "RatioClamp",
            Scale::BezierLoose => "BezierLoose",
        }
    }
}

/// A tree of weighted color-rotation operations: named, reusable aggregation
/// nodes over child operations, with rotation filters at the leaves.
pub enum Compute {
    Compute { name: String, operations: Vec<Compute>, sum_type: Summation },
    Rotation { start_point: Geom0D, end_point: Geom0D, source: String, rescale: Scale },
}

/// The graph entries after a filter tree registers the sources it needs: a
/// node walks its children in order; a leaf registers its two endpoints and
/// then its image source, which it consumes as a full point.
pub open spec fn compute_sources(c: Compute, s: Seq<(DataSource, DataDependency)>) -> Seq<
    (DataSource, DataDependency),
>
    decreases c, 0nat,
{
    match c {
        Compute::Compute { operations, .. } => ops_sources(operations@, operations@.len(), s),
        Compute::Rotation { start_point, end_point, source, .. } => require_entry(
            geom0_sources(end_point, geom0_sources(start_point, s)),
            (DataSource { name: source, kind: DataSourceKind::Image }),
            dep_point(),
        ),
    }
}

/// The graph entries after the first `i` operations register their sources
/// in order.
pub open spec fn ops_sources(
    ops: Seq<Compute>,
    i: nat,
    s: Seq<(DataSource, DataDependency)>,
) -> Seq<(DataSource, DataDependency)>
    decreases ops, i,
{
    if i == 0 || i > ops.len() {
        s
    } else {
        compute_sources(ops[i - 1], ops_sources(ops, (i - 1) as nat, s))
    }
}

/// The external parameter set of a node: the dependency graph built by
/// walking its own operations, starting from an empty graph.
pub open spec fn compute_params(c: Compute) -> Seq<(DataSource, DataDependency)> {
    compute_sources(c, Seq::empty())
}

/// The parameter text a source contributes to a generated call line.
pub open spec fn param_use_item(e: (DataSource, DataDependency), first: bool) -> Seq<char> {
    (if first {
        Seq::<char>::empty()
    } else {
        ", "@
    }) + match e.0.kind {
        DataSourceKind::Color => "col_"@ + e.0.name@ + "_rgb"@,
        DataSourceKind::Image => "img_"@ + e.0.name@ + "_rgb"@,
        DataSourceKind::Float => "float_"@ + e.0.name@,
    }
}

/// The parameter text a source contributes to a generated function
/// signature, typed by its kind.
pub open spec fn param_decl_item(e: (DataSource, DataDependency), first: bool) -> Seq<char> {
    (if first {
        Seq::<char>::empty()
    } else {
        ", "@
    }) + match e.0.kind {
        DataSourceKind::Color => "vec3 col_"@ + e.0.name@ + "_rgb"@,
        DataSourceKind::Image => "vec3 img_"@ + e.0.name@ + "_rgb"@,
        DataSourceKind::Float => "float float_"@ + e.0.name@,
    }
}

/// The variable prefix of a source: `col` for colors, `img` otherwise.
pub open spec fn kind_prefix(k: DataSourceKind) -> Seq<char> {
    if k == DataSourceKind::Color {
        "col"@
    } else {
        "img"@
    }
}

/// The prologue lines one parameter contributes: the HSV vector where the
/// HSV or point representation is required, then the half-spherical point
/// where the point representation is required.
pub open spec fn init_hsv_line(e: (DataSource, DataDependency)) -> Seq<char> {
    if e.1.require_hsv || e.1.require_point {
        "\nvec3 "@ + kind_prefix(e.0.kind) + "_"@ + e.0.name@ + "_hsv = rgb2hsv("@ + kind_prefix(
            e.0.kind,
        ) + "_"@ + e.0.name@ + "_rgb);"@
    } else {
        Seq::<char>::empty()
    }
}

/// The prologue line computing the half-spherical point of a parameter, if
/// required.
pub open spec fn init_point_line(e: (DataSource, DataDependency)) -> Seq<char> {
    if e.1.require_point {
        "\nvec4 "@ + kind_prefix(e.0.kind) + "_"@ + e.0.name@ + " = hsv2half_spherical("@
            + kind_prefix(e.0.kind) + "_"@ + e.0.name@ + "_hsv);"@
    } else {
        Seq::<char>::empty()
    }
}

/// The call line of a node over its first `i` parameters, still open.
pub open spec fn call_sig(n: Seq<char>, es: Seq<(DataSource, DataDependency)>, i: nat) -> Seq<char>
    decreases i,
{
    if i == 0 {
        n + "("@
    } else {
        call_sig(n, es, (i - 1) as nat) + param_use_item(es[i - 1], i == 1)
    }
}

/// The signature of a node's generated function over its first `i`
/// parameters, still open.
pub open spec fn decl_sig(n: Seq<char>, es: Seq<(DataSource, DataDependency)>, i: nat) -> Seq<char>
    decreases i,
{
    if i == 0 {
        "vec4 "@ + n + "("@
    } else {
        decl_sig(n, es, (i - 1) as nat) + param_decl_item(es[i - 1], i == 1)
    }
}

/// The prologue of a node's generated function over its first `i`
/// parameters.
pub open spec fn init_lines(es: Seq<(DataSource, DataDependency)>, i: nat) -> Seq<char>
    decreases i,
{
    if i == 0 {
        Seq::<char>::empty()
    } else {
        init_lines(es, (i - 1) as nat) + init_hsv_line(es[i - 1]) + init_point_line(es[i - 1])
    }
}

/// The accumulator locals every generated function declares.
pub open spec fn accum_locals_text() -> Seq<char> {
    "\n  float total_inv_weight = 0;\n  vec3 total_inv_weight_vecs = vec3(0);\n  int num_zeros = 0;\n  vec3 total_zeros = vec3(0);\n  vec4 _rot_start_ = vec4(0);\n  vec4 _rot_end_ = vec4(0);"@
}

/// The epilogue of a generated function: a zero-weight exact match takes
/// priority, else the inverse-weight average, else the undefined sentinel
/// `vec4(0, 0, 0, -1)`.
pub open spec fn epilogue_text() -> Seq<char> {
    "\n  if (num_zeros > 0)\n  {\n    return vec4(total_zeros / num_zeros, 0);\n  }\n  else if (total_inv_weight > Epsilon)\n  {\n      return vec4((1 / total_inv_weight) * total_inv_weight_vecs, 0);\n  }\n  else\n  {\n      return vec4(0, 0, 0, -1);\n  }\n}"@
}

/// The fragment a nested node contributes to its parent's body: call it,
/// skip an undefined result, count a zero-weight result as an exact match,
/// else accumulate inverse-weighted.
pub open spec fn child_call_fragment(n: Seq<char>, call: Seq<char>) -> Seq<char> {
    "\nvec4 "@ + n + "_rot = "@ + call + ";\nif ("@ + n + "_rot.w > -0.5)\n{\n    if ("@ + n
        + "_rot.w < Epsilon)\n    {\n        num_zeros += 1;\n        total_zeros += "@ + n
        + "_rot.xyz;\n    }\n    else\n    {\n        total_inv_weight += 1 / "@ + n
        + "_rot.w;\n        total_inv_weight_vecs += 1 / "@ + n + "_rot.w * "@ + n
        + "_rot.xyz;\n    }\n}"@
}

/// The fragment a rotation leaf contributes: evaluate both endpoints, and
/// where both are defined, rotate the image source between them, rescale by
/// the policy against the endpoint magnitudes, and accumulate inline.
pub open spec fn rotation_fragment(
    start: Seq<char>,
    end: Seq<char>,
    source: Seq<char>,
    sc: Scale,
) -> Seq<char> {
    "\n_rot_start_ = "@ + start + ";\n_rot_end_ = "@ + end
        + ";\nif (_rot_start_.w > -0.5 && _rot_end_.w > -0.5)\n{\n    vec4 "@ + source + "_rot = "@
        + scale_text(sc) + "(point_point(img_"@ + source
        + ", _rot_start_, _rot_end_), length(_rot_start_.xyz), length(_rot_end_.xyz));\n    if ("@
        + source + "_rot.w > -0.5)\n    {\n        if ("@ + source
        + "_rot.w < Epsilon)\n        {\n            num_zeros += 1;\n            total_zeros += "@
        + source
        + "_rot.xyz;\n        }\n        else\n        {\n            total_inv_weight += 1 / "@
        + source + "_rot.w;\n            total_inv_weight_vecs += 1 / "@ + source + "_rot.w * "@
        + source + "_rot.xyz;\n        }\n    }\n}"@
}

/// The body fragment one child operation contributes to its parent.
pub open spec fn op_fragment(op: Compute) -> Seq<char> {
    match op {
        Compute::Compute { name, .. } => child_call_fragment(name@, compute_call_line(op)),
        Compute::Rotation { start_point, end_point, source, rescale } => rotation_fragment(
            geom0_text(start_point),
            geom0_text(end_point),
            source@,
            rescale,
        ),
    }
}

/// A generated function after the fragments of the first `i` child
/// operations are spliced onto `base`.
pub open spec fn def_with_body(base: Seq<char>, ops: Seq<Compute>, i: nat) -> Seq<char>
    decreases i,
{
    if i == 0 {
        base
    } else {
        def_with_body(base, ops, (i - 1) as nat) + op_fragment(ops[i - 1])
    }
}

/// The full call line of a node's generated function.
pub open spec fn compute_call_line(c: Compute) -> Seq<char> {
    match c {
        Compute::Compute { name, .. } => call_sig(name@, compute_params(c), compute_params(c).len())
            + ")"@,
        Compute::Rotation { .. } => Seq::<char>::empty(),
    }
}

/// The signature, prologue and accumulator locals of a node's generated
/// function, before any child fragment.
pub open spec fn compute_header(c: Compute) -> Seq<char> {
    match c {
        Compute::Compute { name, .. } => decl_sig(name@, compute_params(c), compute_params(c).len())
            + ")\n{"@ + init_lines(compute_params(c), compute_params(c).len())
            + accum_locals_text(),
        Compute::Rotation { .. } => Seq::<char>::empty(),
    }
}

/// The complete generated function definition of a node.
pub open spec fn compute_function_def(c: Compute) -> Seq<char> {
    match c {
        Compute::Compute { operations, .. } => def_with_body(
            compute_header(c),
            operations@,
            operations@.len(),
        ) + epilogue_text(),
        Compute::Rotation { .. } => Seq::<char>::empty(),
    }
}

/// The generated text of a filter tree, as the list the generator returns:
/// for a node, its call line, then its function definition, then every
/// nested definition required by descendants; for a leaf, its single inline
/// fragment.
pub open spec fn compute_shader_texts(c: Compute) -> Seq<Seq<char>>
    decreases c, 1nat,
{
    match c {
        Compute::Compute { operations, .. } => seq![
            compute_call_line(c),
            compute_function_def(c),
        ] + inner_defs(operations@, operations@.len()),
        Compute::Rotation { start_point, end_point, source, rescale } => seq![
            rotation_fragment(geom0_text(start_point), geom0_text(end_point), source@, rescale),
        ],
    }
}

/// The nested function definitions the first `i` child operations require:
/// everything after each child's own first line, in child order.
pub open spec fn inner_defs(ops: Seq<Compute>, i: nat) -> Seq<Seq<char>>
    decreases ops, i,
{
    if i == 0 || i > ops.len() {
        Seq::<Seq<char>>::empty()
    } else {
        inner_defs(ops, (i - 1) as nat) + compute_shader_texts(ops[i - 1]).subrange(
            1,
            compute_shader_texts(ops[i - 1]).len() as int,
        )
    }
}

/// Code generation is deterministic: the generated text is a function of the
/// tree alone, with external parameters in the dependency graph's fixed
/// first-insertion order, so two generation passes over one tree produce
/// identical text, entry for entry.
pub proof fn lemma_generation_deterministic(c: Compute, r1: Seq<Seq<char>>, r2: Seq<Seq<char>>)
    requires
        r1 == compute_shader_texts(c),
        r2 == compute_shader_texts(c),
    ensures
        r1 == r2,
{
}

/// The file name a tree is generated under: a node's own name, a leaf's
/// source name.
pub open spec fn compute_file_text(c: Compute) -> Seq<char> {
    match c {
        Compute::Compute { name, .. } => name@,
        Compute::Rotation { source, .. } => source@,
    }
}

/// Builds the inline accumulation fragment of one rotation: evaluate both
/// endpoints, and where both are defined, rotate the image source between
/// them, rescale by the policy, and accumulate.
pub(crate) fn rotation_fragment_string(
    start_point: &Geom0D,
    end_point: &Geom0D,
    source: &String,
    rescale: Scale,
) -> (r: String)
    ensures
        r@ == rotation_fragment(geom0_text(*start_point), geom0_text(*end_point), source@, rescale),
{
    let start_shader = start_point.get_shader();
    let end_shader = end_point.get_shader();
    let mut piece = String::from_str("\n_rot_start_ = ");
    piece.append(start_shader.as_str());
    piece.append(";\n_rot_end_ = ");
    piece.append(end_shader.as_str());
    piece.append(";\nif (_rot_start_.w > -0.5 && _rot_end_.w > -0.5)\n{\n    vec4 ");
    piece.append(source.as_str());
    piece.append("_rot = ");
    piece.append(rescale.name());
    piece.append("(point_point(img_");
    piece.append(source.as_str());
    piece.append(
        ", _rot_start_, _rot_end_), length(_rot_start_.xyz), length(_rot_end_.xyz));\n    if (",
    );
    piece.append(source.as_str());
    piece.append("_rot.w > -0.5)\n    {\n        if (");
    piece.append(source.as_str());
    piece.append(
        "_rot.w < Epsilon)\n        {\n            num_zeros += 1;\n            total_zeros += ",
    );
    piece.append(source.as_str());
    piece.append(
        "_rot.xyz;\n        }\n        else\n        {\n            total_inv_weight += 1 / ",
    );
    piece.append(source.as_str());
    piece.append("_rot.w;\n            total_inv_weight_vecs += 1 / ");
    piece.append(source.as_str());
    piece.append("_rot.w * ");
    piece.append(source.as_str());
    piece.append("_rot.xyz;\n        }\n    }\n}");
    proof {
        assert(piece@ =~= rotation_fragment(
            geom0_text(*start_point),
            geom0_text(*end_point),
            source@,
            rescale,
        ));
    }
    piece
}

impl Compute {
    /// Whether this is a named aggregation node rather than a rotation leaf.
    pub fn is_compute(&self) -> (r: bool)
        ensures
            r == (*self is Compute),
    {
        if let Compute::Compute { .. } = self {
            true
        } else {
            false
        }
    }

    /// The file name this tree is generated under.
    pub fn get_file(&self) -> (r: String)
        ensures
            r@ == compute_file_text(*self),
    {
        match self {
            Compute::Compute { name, .. } => name.clone(),
            Compute::Rotation { source, .. } => source.clone(),
        }
    }

    /// Registers every external source this tree reads into `graph`.
    #[verifier::loop_isolation(false)]
    pub fn get_required_sources(&self, graph: &mut DataDependencyGraph)
        ensures
            final(graph)@ == compute_sources(*self, old(graph)@),
        decreases *self, 0nat,
    {
        match self {
            Compute::Compute { operations, .. } => {
                let m = operations.len();
                let mut j: usize = 0;
                while j < m
                    invariant
                        j <= m,
                        m == operations.len(),
                        graph@ == ops_sources(operations@, j as nat, old(graph)@),
                    decreases m - j,
                {
                    proof {
                        assert(decreases_to!(*self => (*self)->operations));
                        assert((*self)->operations == *operations);
                        assert(decreases_to!(*operations => operations@));
                        assert(decreases_to!(operations@ => operations@[j as int]));
                    }
                    operations[j].get_required_sources(graph);
                    j = j + 1;
                }
            },
            Compute::Rotation { start_point, end_point, source, .. } => {
                start_point.get_required_sources(graph);
                end_point.get_required_sources(graph);
                graph.require_image(source.clone());
            },
        }
    }

    /// Generates the shader text of this tree. The first entry is the line
    /// that calls this node; the remaining entries are complete function
    /// definitions that must be printed in inverse order, so that every
    /// definition precedes its first use.
    #[verifier::loop_isolation(false)]
    #[verifier::rlimit(100)]
    pub fn get_shader(&self) -> (r: Vec<String>)
        ensures
            r.deep_view() == compute_shader_texts(*self),
        decreases *self, 1nat,
    {
        match self {
            Compute::Compute { name, operations, sum_type: _sum_type } => {
                let mut params = DataDependencyGraph::new();
                self.get_required_sources(&mut params);
                let ghost es = params@;
                let mut call_line = name.clone();
                call_line.append("(");
                let mut function_def = String::from_str("vec4 ");
                function_def.append(name.as_str());
                function_def.append("(");
                let mut initialization = String::new();
                let entries = params.iter();
                let n = entries.len();
                proof {
                    assert(call_line@ == call_sig(name@, es, 0));
                    assert(function_def@ == decl_sig(name@, es, 0));
                }
                let mut i: usize = 0;
                while i < n
                    invariant
                        i <= n,
                        n == entries.len(),
                        entries@ == es,
                        call_line@ == call_sig(name@, es, i as nat),
                        function_def@ == decl_sig(name@, es, i as nat),
                        initialization@ == init_lines(es, i as nat),
                    decreases n - i,
                {
                    let first = i == 0;
                    let mut piece = if first {
                        String::new()
                    } else {
                        String::from_str(", ")
                    };
                    match entries[i].0.kind {
                        DataSourceKind::Color => {
                            piece.append("vec3 col_");
                            piece.append(entries[i].0.name.as_str());
                            piece.append("_rgb");
                        },
                        DataSourceKind::Image => {
                            piece.append("vec3 img_");
                            piece.append(entries[i].0.name.as_str());
                            piece.append("_rgb");
                        },
                        DataSourceKind::Float => {
                            piece.append("float float_");
                            piece.append(entries[i].0.name.as_str());
                        },
                    }
                    proof {
                        assert(piece@ =~= param_decl_item(es[i as int], first));
                    }
                    function_def.append(piece.as_str());
                    let mut cpiece = if first {
                        String::new()
                    } else {
                        String::from_str(", ")
                    };
                    match entries[i].0.kind {
                        DataSourceKind::Color => {
                            cpiece.append("col_");
                            cpiece.append(entries[i].0.name.as_str());
                            cpiece.append("_rgb");
                        },
                        DataSourceKind::Image => {
                            cpiece.append("img_");
                            cpiece.append(entries[i].0.name.as_str());
                            cpiece.append("_rgb");
                        },
                        DataSourceKind::Float => {
                            cpiece.append("float_");
                            cpiece.append(entries[i].0.name.as_str());
                        },
                    }
                    proof {
                        assert(cpiece@ =~= param_use_item(es[i as int], first));
                    }
                    call_line.append(cpiece.as_str());
                    let is_color = match entries[i].0.kind {
                        DataSourceKind::Color => true,
                        _ => false,
                    };
                    let ks = if is_color {
                        "col"
                    } else {
                        "img"
                    };
                    proof {
                        assert(ks@ == kind_prefix(es[i as int].0.kind));
                    }
                    let usages = entries[i].1;
                    if usages.require_hsv || usages.require_point {
                        let mut ip = String::from_str("\nvec3 ");
                        ip.append(ks);
                        ip.append("_");
                        ip.append(entries[i].0.name.as_str());
                        ip.append("_hsv = rgb2hsv(");
                        ip.append(ks);
                        ip.append("_");
                        ip.append(entries[i].0.name.as_str());
                        ip.append("_rgb);");
                        proof {
                            assert(ip@ =~= init_hsv_line(es[i as int]));
                        }
                        initialization.append(ip.as_str());
                    }
                    if usages.require_point {
                        let mut ip = String::from_str("\nvec4 ");
                        ip.append(ks);
                        ip.append("_");
                        ip.append(entries[i].0.name.as_str());
                        ip.append(" = hsv2half_spherical(");
                        ip.append(ks);
                        ip.append("_");
                        ip.append(entries[i].0.name.as_str());
                        ip.append("_hsv);");
                        proof {
                            assert(ip@ =~= init_point_line(es[i as int]));
                        }
                        initialization.append(ip.as_str());
                    }
                    proof {
                        assert(initialization@ =~= init_lines(es, (i + 1) as nat));
                    }
                    i = i + 1;
                }
                call_line.append(")");
                function_def.append(")\n{");
                function_def.append(initialization.as_str());
                function_def.append(
                    "\n  float total_inv_weight = 0;\n  vec3 total_inv_weight_vecs = vec3(0);\n  int num_zeros = 0;\n  vec3 total_zeros = vec3(0);\n  vec4 _rot_start_ = vec4(0);\n  vec4 _rot_end_ = vec4(0);",
                );
                proof {
                    assert(call_line@ == compute_call_line(*self));
                    assert(function_def@ == compute_header(*self));
                }
                let ghost header = function_def@;
                let mut defs: Vec<String> = Vec::new();
                let m = operations.len();
                let mut j: usize = 0;
                while j < m
                    invariant
                        j <= m,
                        m == operations.len(),
                        function_def@ == def_with_body(header, operations@, j as nat),
                        defs.deep_view() == inner_defs(operations@, j as nat),
                    decreases m - j,
                {
                    let op = &operations[j];
                    proof {
                        assert(decreases_to!(*self => (*self)->operations));
                        assert((*self)->operations == *operations);
                        assert(decreases_to!(*operations => operations@));
                        assert(decreases_to!(operations@ => operations@[j as int]));
                    }
                    match op {
                        Compute::Compute { name: inner_name, .. } => {
                            let mut rs = op.get_shader();
                            proof {
                                assert(compute_shader_texts(operations@[j as int]).len() >= 2);
                                assert(rs.deep_view().len() == rs@.len());
                            }
                            let first_line = rs.remove(0);
                            proof {
                                assert(first_line@ == compute_shader_texts(operations@[j as int])[0]);
                                assert(compute_shader_texts(operations@[j as int])[0]
                                    == compute_call_line(operations@[j as int]));
                            }
                            let mut piece = String::from_str("\nvec4 ");
                            piece.append(inner_name.as_str());
                            piece.append("_rot = ");
                            piece.append(first_line.as_str());
                            piece.append(";\nif (");
                            piece.append(inner_name.as_str());
                            piece.append("_rot.w > -0.5)\n{\n    if (");
                            piece.append(inner_name.as_str());
                            piece.append(
                                "_rot.w < Epsilon)\n    {\n        num_zeros += 1;\n        total_zeros += ",
                            );
                            piece.append(inner_name.as_str());
                            piece.append(
                                "_rot.xyz;\n    }\n    else\n    {\n        total_inv_weight += 1 / ",
                            );
                            piece.append(inner_name.as_str());
                            piece.append("_rot.w;\n        total_inv_weight_vecs += 1 / ");
                            piece.append(inner_name.as_str());
                            piece.append("_rot.w * ");
                            piece.append(inner_name.as_str());
                            piece.append("_rot.xyz;\n    }\n}");
                            proof {
                                assert(piece@ =~= op_fragment(operations@[j as int]));
                            }
                            function_def.append(piece.as_str());
                            defs.append(&mut rs);
                            proof {
                                assert(defs.deep_view() =~= inner_defs(
                                    operations@,
                                    (j + 1) as nat,
                                ));
                            }
                        },
                        Compute::Rotation { .. } => {
                            let rs = op.get_shader();
                            proof {
                                assert(compute_shader_texts(operations@[j as int]).len() == 1);
                            }
                            let first_line = &rs[0];
                            proof {
                                assert(first_line@ == compute_shader_texts(
                                    operations@[j as int],
                                )[0]);
                                assert(first_line@ == op_fragment(operations@[j as int]));
                            }
                            function_def.append(first_line.as_str());
                            proof {
                                assert(defs.deep_view() =~= inner_defs(
                                    operations@,
                                    (j + 1) as nat,
                                ));
                            }
                        },
                    }
                    j = j + 1;
                }
                function_def.append(
                    "\n  if (num_zeros > 0)\n  {\n    return vec4(total_zeros / num_zeros, 0);\n  }\n  else if (total_inv_weight > Epsilon)\n  {\n      return vec4((1 / total_inv_weight) * total_inv_weight_vecs, 0);\n  }\n  else\n  {\n      return vec4(0, 0, 0, -1);\n  }\n}",
                );
                proof {
                    assert(function_def@ == compute_function_def(*self));
                }
                let mut out: Vec<String> = Vec::new();
                out.push(call_line);
                out.push(function_def);
                out.append(&mut defs);
                proof {
                    assert(out.deep_view() =~= compute_shader_texts(*self));
                }
                out
            },
            Compute::Rotation { start_point, end_point, source, rescale } => {
                let piece = rotation_fragment_string(start_point, end_point, source, *rescale);
                let mut out: Vec<String> = Vec::new();
                out.push(piece);
                proof {
                    assert(out.deep_view() =~= compute_shader_texts(*self));
                }
                out
            },
        }
    }
}

} // verus!
