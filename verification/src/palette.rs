//! The flat predecessor of the filter tree.
//!
//! A [`Palette`] is an ordered sequence of (rotation, rescale) pairs combined
//! by inverse-weight averaging at a single level: semantically a filter-tree
//! node whose operations are all rotation leaves, kept for the earlier,
//! simpler call path that generates one shader body instead of a nested
//! function.

use vstd::prelude::*;

use crate::filters::{
    accum_locals_text, op_fragment, rotation_fragment, rotation_fragment_string, Compute, Scale,
};
use crate::geometry::{geom0_text, Geom0D};

verus! {

/// One flat filter: a rotation of an image source between two points in
/// color space.
pub struct PaletteFilter {
    pub start_point: Geom0D,
    pub end_point: Geom0D,
    pub source: String,
}

impl Clone for PaletteFilter {
    fn clone(&self) -> (r: Self)
        ensures
            r == *self,
    {
        PaletteFilter {
            start_point: self.start_point.clone(),
            end_point: self.end_point.clone(),
            source: self.source.clone(),
        }
    }
}

/// An ordered sequence of (rotation, rescale) pairs combined by
/// inverse-weight averaging.
pub struct Palette {
    pub filters: Vec<(PaletteFilter, Scale)>,
}

/// The accumulation fragment one palette entry contributes: byte-identical
/// to the fragment of the corresponding rotation leaf in a filter tree.
pub open spec fn palette_filter_fragment(f: PaletteFilter, sc: Scale) -> Seq<char> {
    rotation_fragment(geom0_text(f.start_point), geom0_text(f.end_point), f.source@, sc)
}

/// The shader body over the first `i` palette entries: the accumulator
/// locals followed by each entry's fragment, in order.
pub open spec fn palette_body(fs: Seq<(PaletteFilter, Scale)>, i: nat) -> Seq<char>
    decreases i,
{
    if i == 0 {
        accum_locals_text()
    } else {
        palette_body(fs, (i - 1) as nat) + palette_filter_fragment(fs[i - 1].0, fs[i - 1].1)
    }
}

/// The epilogue of a palette body: it assigns the combined color to
/// `out_vec` instead of returning, with the same selection as a filter-tree
/// node (exact matches first, else the inverse-weight average, else the
/// undefined sentinel).
pub open spec fn palette_epilogue(out_vec: Seq<char>) -> Seq<char> {
    "\n  if (num_zeros > 0)\n  {\n    "@ + out_vec
        + " = vec4(total_zeros / num_zeros, 0);\n  }\n  else if (total_inv_weight > Epsilon)\n  {\n      "@
        + out_vec
        + " = vec4((1 / total_inv_weight) * total_inv_weight_vecs, 0);\n  }\n  else\n  {\n      "@
        + out_vec + " = vec4(0, 0, 0, -1);\n  }"@
}

/// The complete generated shader body of a palette.
pub open spec fn palette_shader_text(p: Palette, out_vec: Seq<char>) -> Seq<char> {
    palette_body(p.filters@, p.filters@.len()) + palette_epilogue(out_vec)
}

impl Palette {
    /// Generates this palette's single shader body: accumulator locals, one
    /// accumulation fragment per (rotation, rescale) pair in order, and an
    /// epilogue that assigns the combined color to the variable named
    /// `out_vec`.
    #[verifier::loop_isolation(false)]
    pub fn shader(&self, out_vec: String) -> (r: String)
        ensures
            r@ == palette_shader_text(*self, out_vec@),
    {
        let mut s = String::from_str(
            "\n  float total_inv_weight = 0;\n  vec3 total_inv_weight_vecs = vec3(0);\n  int num_zeros = 0;\n  vec3 total_zeros = vec3(0);\n  vec4 _rot_start_ = vec4(0);\n  vec4 _rot_end_ = vec4(0);",
        );
        let n = self.filters.len();
        let mut i: usize = 0;
        while i < n
            invariant
                i <= n,
                s@ == palette_body(self.filters@, i as nat),
            decreases n - i,
        {
            let entry = &self.filters[i];
            let piece = rotation_fragment_string(
                &entry.0.start_point,
                &entry.0.end_point,
                &entry.0.source,
                entry.1,
            );
            s.append(piece.as_str());
            i = i + 1;
        }
        let mut ep = String::from_str("\n  if (num_zeros > 0)\n  {\n    ");
        ep.append(out_vec.as_str());
        ep.append(
            " = vec4(total_zeros / num_zeros, 0);\n  }\n  else if (total_inv_weight > Epsilon)\n  {\n      ",
        );
        ep.append(out_vec.as_str());
        ep.append(
            " = vec4((1 / total_inv_weight) * total_inv_weight_vecs, 0);\n  }\n  else\n  {\n      ",
        );
        ep.append(out_vec.as_str());
        ep.append(" = vec4(0, 0, 0, -1);\n  }");
        proof {
            assert(ep@ =~= palette_epilogue(out_vec@));
        }
        s.append(ep.as_str());
        s
    }
}

/// A palette entry and a rotation leaf with the same endpoints, the same
/// source and the same rescale policy contribute byte-identical accumulation
/// fragments, so the flat form and a filter-tree node over only rotation
/// leaves accumulate with the same generated statements.
pub proof fn lemma_palette_fragment_matches_rotation(f: PaletteFilter, sc: Scale, c: Compute)
    requires
        c matches Compute::Rotation { start_point, end_point, source, rescale } && start_point
            == f.start_point && end_point == f.end_point && source@ == f.source@ && rescale == sc,
    ensures
        palette_filter_fragment(f, sc) == op_fragment(c),
{
}

} // verus!
