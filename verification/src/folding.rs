//! Assembling a complete compute-shader `main` around one stage's filter
//! tree.
//!
//! A [`FoldingMachine`] holds the stages of a color-grading program and the
//! image bindings they draw from. For one stage it generates the full shader
//! text: a `main` that unpacks every required image from the shared pixel
//! buffer, the stage's generated functions (each definition before its first
//! use), and an epilogue that packs the combined color back, keeping the
//! first input's alpha. Loading pixels, compiling the text and running it on
//! a device are the host's concern.

use vstd::prelude::*;

use crate::data::{DataSource, DataSourceKind};
use crate::decimal::{dec_text, u128_to_string};
use crate::dependency::{DataDependency, DataDependencyGraph};
use crate::filters::{compute_call_line, compute_params, compute_shader_texts, Compute};
use crate::imaging::Image;

verus! {

broadcast use vstd::seq::group_seq_axioms, vstd::std_specs::vec::group_vec_axioms;

/// Why a stage could not be assembled: the stage index names no stage, the
/// stage is a bare rotation leaf (which generates no callable function), the
/// stage reads no image source at all (so there is no pixel buffer to work
/// on), or a source it reads is not an image bound in the machine (with the
/// source's name).
#[derive(Debug)]
pub enum StageError {
    NoSuchStage,
    LeafStage,
    NoImageSources,
    UnboundSource(String),
}

/// The stages of a color-grading program together with the image bindings
/// they draw from. The constructors keep one binding per image name, as a
/// map keyed by name would: binding a name again replaces the earlier image
/// in the name's first-bound position, so the later binding wins.
pub struct FoldingMachine {
    pub stages: Vec<Compute>,
    pub images: Vec<Image>,
}

/// The bindings after one more image is bound: a name already bound has its
/// image replaced in place, so the later binding wins; a new name is
/// appended.
pub open spec fn bind_image(s: Seq<Image>, img: Image) -> Seq<Image>
    decreases s.len(),
{
    if s.len() == 0 {
        seq![img]
    } else if s[0].id@ == img.id@ {
        seq![img] + s.subrange(1, s.len() as int)
    } else {
        seq![s[0]] + bind_image(s.subrange(1, s.len() as int), img)
    }
}

/// The bindings after the first `i` (name, location) pairs are bound in
/// order, starting from no bindings.
pub open spec fn bound_images(pairs: Seq<(String, String)>, i: nat) -> Seq<Image>
    decreases i,
{
    if i == 0 || i > pairs.len() {
        Seq::<Image>::empty()
    } else {
        bind_image(
            bound_images(pairs, (i - 1) as nat),
            (Image { location: pairs[i - 1].1, id: pairs[i - 1].0, is_loaded: false }),
        )
    }
}

/// The bindings after the first `i` images of a list are bound in order: a
/// duplicated name keeps only its later image.
pub open spec fn rebound_images(imgs: Seq<Image>, i: nat) -> Seq<Image>
    decreases i,
{
    if i == 0 || i > imgs.len() {
        Seq::<Image>::empty()
    } else {
        bind_image(rebound_images(imgs, (i - 1) as nat), imgs[i - 1])
    }
}

/// No two bindings are for the same name.
pub open spec fn distinct_image_ids(s: Seq<Image>) -> bool {
    forall|i: int, j: int| 0 <= i < j < s.len() ==> (#[trigger] s[i]).id@ != (#[trigger] s[j]).id@
}

/// When the first binding of the image's name stands at `i`, binding
/// replaces it there and leaves everything else unchanged.
proof fn lemma_bind_image_found(s: Seq<Image>, img: Image, i: int)
    requires
        0 <= i < s.len(),
        s[i].id@ == img.id@,
        forall|j: int| 0 <= j < i ==> (#[trigger] s[j]).id@ != img.id@,
    ensures
        bind_image(s, img) == s.update(i, img),
    decreases i,
{
    if i == 0 {
        assert(bind_image(s, img) =~= s.update(0, img));
    } else {
        lemma_bind_image_found(s.subrange(1, s.len() as int), img, i - 1);
        assert(bind_image(s, img) =~= s.update(i, img));
    }
}

/// When the image's name is unbound, binding appends.
proof fn lemma_bind_image_absent(s: Seq<Image>, img: Image)
    requires
        forall|j: int| 0 <= j < s.len() ==> (#[trigger] s[j]).id@ != img.id@,
    ensures
        bind_image(s, img) == s.push(img),
    decreases s.len(),
{
    if s.len() == 0 {
        assert(bind_image(s, img) =~= s.push(img));
    } else {
        lemma_bind_image_absent(s.subrange(1, s.len() as int), img);
        assert(bind_image(s, img) =~= s.push(img));
    }
}

/// The position of the first binding of the image's name, when one exists.
proof fn lemma_first_image_match(s: Seq<Image>, img: Image) -> (i: int)
    requires
        exists|j: int| 0 <= j < s.len() && (#[trigger] s[j]).id@ == img.id@,
    ensures
        0 <= i < s.len(),
        s[i].id@ == img.id@,
        forall|j: int| 0 <= j < i ==> (#[trigger] s[j]).id@ != img.id@,
    decreases s.len(),
{
    if s[0].id@ == img.id@ {
        0
    } else {
        let rest = s.subrange(1, s.len() as int);
        let j0 = choose|j: int| 0 <= j < s.len() && (#[trigger] s[j]).id@ == img.id@;
        assert(rest[j0 - 1] == s[j0]);
        let i0 = lemma_first_image_match(rest, img);
        assert(s[i0 + 1] == rest[i0]);
        assert forall|j: int| 0 <= j < i0 + 1 implies (#[trigger] s[j]).id@ != img.id@ by {
            if j > 0 {
                assert(s[j] == rest[j - 1]);
            }
        }
        i0 + 1
    }
}

/// Binding one more image keeps names distinct: a binding never duplicates
/// a name, it replaces it.
pub proof fn lemma_bind_image_keeps_ids_distinct(s: Seq<Image>, img: Image)
    requires
        distinct_image_ids(s),
    ensures
        distinct_image_ids(bind_image(s, img)),
{
    if exists|j: int| 0 <= j < s.len() && (#[trigger] s[j]).id@ == img.id@ {
        let p = lemma_first_image_match(s, img);
        lemma_bind_image_found(s, img, p);
        let out = s.update(p, img);
        assert forall|i: int, j: int|
            0 <= i < j < out.len() implies (#[trigger] out[i]).id@ != (#[trigger] out[j]).id@ by {
            if i != p && j != p {
                assert(out[i] == s[i]);
                assert(out[j] == s[j]);
            } else if i == p {
                assert(out[j] == s[j]);
                assert(s[p].id@ == img.id@);
            } else {
                assert(out[i] == s[i]);
                assert(s[p].id@ == img.id@);
            }
        }
    } else {
        lemma_bind_image_absent(s, img);
        let out = s.push(img);
        assert forall|i: int, j: int|
            0 <= i < j < out.len() implies (#[trigger] out[i]).id@ != (#[trigger] out[j]).id@ by {
            if j < s.len() {
                assert(out[i] == s[i]);
                assert(out[j] == s[j]);
            } else {
                assert(out[i] == s[i]);
                assert(out[j] == img);
            }
        }
    }
}

/// A machine built by binding name after name holds one binding per name.
pub proof fn lemma_bound_images_distinct(pairs: Seq<(String, String)>, i: nat)
    ensures
        distinct_image_ids(bound_images(pairs, i)),
    decreases i,
{
    if i == 0 || i > pairs.len() {
    } else {
        lemma_bound_images_distinct(pairs, (i - 1) as nat);
        lemma_bind_image_keeps_ids_distinct(
            bound_images(pairs, (i - 1) as nat),
            (Image { location: pairs[i - 1].1, id: pairs[i - 1].0, is_loaded: false }),
        );
    }
}

/// A machine built from an image list holds one binding per name.
pub proof fn lemma_rebound_images_distinct(imgs: Seq<Image>, i: nat)
    ensures
        distinct_image_ids(rebound_images(imgs, i)),
    decreases i,
{
    if i == 0 || i > imgs.len() {
    } else {
        lemma_rebound_images_distinct(imgs, (i - 1) as nat);
        lemma_bind_image_keeps_ids_distinct(rebound_images(imgs, (i - 1) as nat), imgs[i - 1]);
    }
}

/// Binds one image: replaces the first binding of the same name, else
/// appends.
fn bind_one(images: &mut Vec<Image>, img: Image)
    ensures
        final(images)@ == bind_image(old(images)@, img),
{
    let n = images.len();
    let mut i: usize = 0;
    while i < n
        invariant
            i <= n,
            n == images.len(),
            images@ == old(images)@,
            forall|j: int| 0 <= j < i ==> (#[trigger] images@[j]).id@ != img.id@,
        decreases n - i,
    {
        if images[i].id == img.id {
            proof {
                lemma_bind_image_found(old(images)@, img, i as int);
            }
            images[i] = img;
            return ;
        }
        i = i + 1;
    }
    proof {
        lemma_bind_image_absent(old(images)@, img);
    }
    images.push(img);
}

/// Whether an entry of a stage's parameter set can be fed from the machine's
/// images: it must be an image source, bound under its name.
pub open spec fn source_bound(images: Seq<Image>, e: (DataSource, DataDependency)) -> bool {
    e.0.kind == DataSourceKind::Image && exists|j: int|
        0 <= j < images.len() && #[trigger] images[j].id@ == e.0.name@
}

/// The first parameter-set entry, in first-use order, that cannot be fed
/// from the machine's images.
pub open spec fn first_unbound(
    es: Seq<(DataSource, DataDependency)>,
    images: Seq<Image>,
) -> Option<DataSource>
    decreases es.len(),
{
    if es.len() == 0 {
        None
    } else if !source_bound(images, es[0]) {
        Some(es[0].0)
    } else {
        first_unbound(es.subrange(1, es.len() as int), images)
    }
}

/// The opening of the generated `main`.
pub open spec fn entry_header_text() -> Seq<char> {
    "void main()\n{\n  uint index = gl_GlobalInvocationID.x;\n"@
}

/// The lines that unpack one image's pixel at the invocation index from the
/// shared buffer: the packed word at the image's offset, its alpha byte, and
/// the normalized RGB vector the generated functions take as a parameter.
pub open spec fn image_load_text(n: Seq<char>, offset: Seq<char>) -> Seq<char> {
    "  uint img_"@ + n + "_value = in_colors0[index + "@ + offset + "];\n  uint img_"@ + n
        + "_alpha = img_"@ + n + "_value & (255 << 24);\n  vec3 img_"@ + n
        + "_rgb = vec3(uvec3(img_"@ + n + "_value & 255, (img_"@ + n
        + "_value >> 8) & 255, (img_"@ + n + "_value >> 16) & 255)) / 255.0;\n"@
}

/// The generated `main` opening plus the unpacking lines of the first `i`
/// parameters; the image at position `k` sits `k * img_len` words into the
/// shared buffer.
pub open spec fn entry_lines(
    es: Seq<(DataSource, DataDependency)>,
    img_len: nat,
    i: nat,
) -> Seq<char>
    decreases i,
{
    if i == 0 {
        entry_header_text()
    } else {
        entry_lines(es, img_len, (i - 1) as nat) + image_load_text(
            es[i - 1].0.name@,
            dec_text(((i - 1) * img_len) as nat),
        )
    }
}

/// The closing of the generated `main`: convert the stage call's result back
/// to RGB, repack it over the first input's alpha, and store it.
pub open spec fn end_text(call: Seq<char>, start_name: Seq<char>) -> Seq<char> {
    "  // Convert the out_color back into rgb. Maintain alpha.\n  vec3 color_out = vec3(hsv2rgb(half_spherical2hsv("@
        + call
        + ".xyz)));\n  uvec3 out_components = uvec3(255 * color_out);\n  in_colors0[index] = out_components.x         | (out_components.y << 8) |\n                      (out_components.z << 16) | img_"@
        + start_name + "_alpha;\n}\n"@
}

/// `base` with the first `i` function definitions prepended in order, so the
/// last-prepended definition stands first and every definition precedes its
/// first use.
pub open spec fn prepend_defs(ts: Seq<Seq<char>>, i: nat, base: Seq<char>) -> Seq<char>
    decreases i,
{
    if i == 0 || i > ts.len() {
        base
    } else {
        ts[i - 1] + prepend_defs(ts, (i - 1) as nat, base)
    }
}

/// The complete generated shader text of one stage: every function
/// definition the tree requires (definitions before uses), then `main`.
pub open spec fn stage_shader_text(c: Compute, img_len: nat) -> Seq<char> {
    let es = compute_params(c);
    let texts = compute_shader_texts(c);
    let defs = texts.subrange(1, texts.len() as int);
    prepend_defs(
        defs,
        defs.len(),
        entry_lines(es, img_len, es.len()) + end_text(compute_call_line(c), es[0].0.name@),
    )
}

/// Whether an image with this identifier is bound.
fn image_bound(images: &Vec<Image>, name: &String) -> (r: bool)
    ensures
        r == exists|j: int| 0 <= j < images@.len() && #[trigger] images@[j].id@ == name@,
{
    let n = images.len();
    let mut i: usize = 0;
    while i < n
        invariant
            i <= n,
            n == images@.len(),
            forall|j: int| 0 <= j < i ==> #[trigger] images@[j].id@ != name@,
        decreases n - i,
    {
        if images[i].id == *name {
            return true;
        }
        i = i + 1;
    }
    false
}

/// When every entry before `i` is bound and the entry at `i` is not, it is
/// the first unbound one.
proof fn lemma_first_unbound_at(
    es: Seq<(DataSource, DataDependency)>,
    images: Seq<Image>,
    i: int,
)
    requires
        0 <= i < es.len(),
        !source_bound(images, es[i]),
        forall|j: int| 0 <= j < i ==> source_bound(images, #[trigger] es[j]),
    ensures
        first_unbound(es, images) == Some(es[i].0),
    decreases i,
{
    if i > 0 {
        lemma_first_unbound_at(es.subrange(1, es.len() as int), images, i - 1);
    }
}

/// When every entry is bound, none is the first unbound one.
proof fn lemma_first_unbound_none(es: Seq<(DataSource, DataDependency)>, images: Seq<Image>)
    requires
        forall|j: int| 0 <= j < es.len() ==> source_bound(images, #[trigger] es[j]),
    ensures
        first_unbound(es, images) is None,
    decreases es.len(),
{
    if es.len() > 0 {
        lemma_first_unbound_none(es.subrange(1, es.len() as int), images);
    }
}

impl FoldingMachine {
    /// A machine over named image locations and the stages to run on them.
    /// Bindings merge as in a map keyed by name: the later of two bindings
    /// for one name wins, in the name's first-bound position.
    pub fn new(image_vec: Vec<(String, String)>, stages: Vec<Compute>) -> (r: FoldingMachine)
        ensures
            r.stages@ == stages@,
            r.images@ == bound_images(image_vec@, image_vec@.len()),
    {
        let mut images: Vec<Image> = Vec::new();
        let n = image_vec.len();
        let mut i: usize = 0;
        while i < n
            invariant
                i <= n,
                n == image_vec@.len(),
                images@ == bound_images(image_vec@, i as nat),
            decreases n - i,
        {
            let name = image_vec[i].0.clone();
            let location = image_vec[i].1.clone();
            bind_one(&mut images, Image::new(name, location));
            i = i + 1;
        }
        FoldingMachine { stages, images }
    }

    /// A machine over already-constructed image bindings. A duplicated name
    /// keeps only its later image, as in a map keyed by name.
    pub fn from_map(images: Vec<Image>, stages: Vec<Compute>) -> (r: FoldingMachine)
        ensures
            r.stages@ == stages@,
            r.images@ == rebound_images(images@, images@.len()),
    {
        let ghost orig = images@;
        let n = images.len();
        let mut rest = images;
        let mut bound: Vec<Image> = Vec::new();
        let mut i: usize = 0;
        while rest.len() > 0
            invariant
                i <= n,
                n == orig.len(),
                rest@ == orig.subrange(i as int, orig.len() as int),
                bound@ == rebound_images(orig, i as nat),
            decreases rest@.len(),
        {
            let img = rest.remove(0);
            proof {
                assert(img == orig[i as int]);
            }
            bind_one(&mut bound, img);
            i = i + 1;
            proof {
                assert(rest@ =~= orig.subrange(i as int, orig.len() as int));
            }
        }
        FoldingMachine { stages, images: bound }
    }

    /// Generates the complete shader text of one stage for inputs of
    /// `img_len` pixels each: every required function definition before its
    /// first use, then a `main` that unpacks each bound image, calls the
    /// stage, and packs the result back over the first input's alpha.
    ///
    /// Fails when the index names no stage, when the stage reads no source
    /// at all, or on the first source that is not an image bound in the
    /// machine.
    #[verifier::loop_isolation(false)]
    #[verifier::rlimit(100)]
    pub fn stage_shader(&self, stage: usize, img_len: u32) -> (r: Result<String, StageError>)
        ensures
            match r {
                Ok(text) => {
                    &&& stage < self.stages@.len()
                    &&& self.stages@[stage as int] is Compute
                    &&& compute_params(self.stages@[stage as int]).len() > 0
                    &&& first_unbound(compute_params(self.stages@[stage as int]), self.images@)
                        is None
                    &&& text@ == stage_shader_text(self.stages@[stage as int], img_len as nat)
                },
                Err(e) => match e {
                    StageError::NoSuchStage => stage >= self.stages@.len(),
                    StageError::LeafStage => stage < self.stages@.len() && !(
                    self.stages@[stage as int] is Compute),
                    StageError::NoImageSources => {
                        &&& stage < self.stages@.len()
                        &&& self.stages@[stage as int] is Compute
                        &&& compute_params(self.stages@[stage as int]).len() == 0
                    },
                    StageError::UnboundSource(nm) => {
                        &&& stage < self.stages@.len()
                        &&& self.stages@[stage as int] is Compute
                        &&& first_unbound(
                            compute_params(self.stages@[stage as int]),
                            self.images@,
                        ) matches Some(d) && nm@ == d.name@
                    },
                },
            },
    {
        if stage >= self.stages.len() {
            return Err(StageError::NoSuchStage);
        }
        let stage_tree = &self.stages[stage];
        if !stage_tree.is_compute() {
            return Err(StageError::LeafStage);
        }
        let mut params = DataDependencyGraph::new();
        stage_tree.get_required_sources(&mut params);
        let ghost es = params@;
        proof {
            assert(es == compute_params(self.stages@[stage as int]));
        }
        let entries = params.iter();
        let n = entries.len();
        if n == 0 {
            return Err(StageError::NoImageSources);
        }
        // Every source the stage reads must be an image bound in the machine.
        let mut i: usize = 0;
        while i < n
            invariant
                i <= n,
                forall|j: int| 0 <= j < i ==> source_bound(self.images@, #[trigger] es[j]),
            decreases n - i,
        {
            let kind_ok = match entries[i].0.kind {
                DataSourceKind::Image => true,
                _ => false,
            };
            let bound = kind_ok && image_bound(&self.images, &entries[i].0.name);
            if !bound {
                proof {
                    lemma_first_unbound_at(es, self.images@, i as int);
                }
                return Err(StageError::UnboundSource(entries[i].0.name.clone()));
            }
            i = i + 1;
        }
        proof {
            lemma_first_unbound_none(es, self.images@);
        }
        // The main prologue: unpack each image at its offset in the buffer.
        let mut entry_string = String::from_str(
            "void main()\n{\n  uint index = gl_GlobalInvocationID.x;\n",
        );
        let mut k: usize = 0;
        while k < n
            invariant
                k <= n,
                entry_string@ == entry_lines(es, img_len as nat, k as nat),
            decreases n - k,
        {
            proof {
                vstd::arithmetic::mul::lemma_mul_upper_bound(
                    k as int,
                    0xffff_ffff_ffff_ffffint,
                    img_len as int,
                    0xffff_ffffint,
                );
            }
            let offset: u128 = (k as u128) * (img_len as u128);
            let offset_text = u128_to_string(offset);
            let mut piece = String::from_str("  uint img_");
            piece.append(entries[k].0.name.as_str());
            piece.append("_value = in_colors0[index + ");
            piece.append(offset_text.as_str());
            piece.append("];\n  uint img_");
            piece.append(entries[k].0.name.as_str());
            piece.append("_alpha = img_");
            piece.append(entries[k].0.name.as_str());
            piece.append("_value & (255 << 24);\n  vec3 img_");
            piece.append(entries[k].0.name.as_str());
            piece.append("_rgb = vec3(uvec3(img_");
            piece.append(entries[k].0.name.as_str());
            piece.append("_value & 255, (img_");
            piece.append(entries[k].0.name.as_str());
            piece.append("_value >> 8) & 255, (img_");
            piece.append(entries[k].0.name.as_str());
            piece.append("_value >> 16) & 255)) / 255.0;\n");
            proof {
                assert(piece@ =~= image_load_text(
                    es[k as int].0.name@,
                    dec_text((k as nat) * (img_len as nat)),
                ));
            }
            entry_string.append(piece.as_str());
            k = k + 1;
        }
        // The stage's generated functions, and the main epilogue around the
        // stage call.
        let mut shaders = stage_tree.get_shader();
        proof {
            assert(compute_shader_texts(self.stages@[stage as int]).len() >= 1);
        }
        let compute_call = shaders.remove(0);
        let ghost texts = compute_shader_texts(self.stages@[stage as int]);
        proof {
            assert(compute_call@ == texts[0]);
            assert(texts[0] == compute_call_line(self.stages@[stage as int]));
            assert(shaders.deep_view() =~= texts.subrange(1, texts.len() as int));
        }
        let mut end_piece = String::from_str(
            "  // Convert the out_color back into rgb. Maintain alpha.\n  vec3 color_out = vec3(hsv2rgb(half_spherical2hsv(",
        );
        end_piece.append(compute_call.as_str());
        end_piece.append(
            ".xyz)));\n  uvec3 out_components = uvec3(255 * color_out);\n  in_colors0[index] = out_components.x         | (out_components.y << 8) |\n                      (out_components.z << 16) | img_",
        );
        end_piece.append(entries[0].0.name.as_str());
        end_piece.append("_alpha;\n}\n");
        proof {
            assert(end_piece@ =~= end_text(
                compute_call_line(self.stages@[stage as int]),
                es[0].0.name@,
            ));
        }
        let mut shading = entry_string;
        shading.append(end_piece.as_str());
        let ghost base = shading@;
        let ghost defs = shaders.deep_view();
        let m = shaders.len();
        let mut d: usize = 0;
        while d < m
            invariant
                d <= m,
                m == shaders@.len(),
                shading@ == prepend_defs(defs, d as nat, base),
            decreases m - d,
        {
            let def = shaders[d].clone();
            shading = def.concat(shading.as_str());
            d = d + 1;
        }
        proof {
            assert(shading@ == stage_shader_text(self.stages@[stage as int], img_len as nat));
        }
        Ok(shading)
    }
}

/// All image dimensions a stage draws from must agree; the host checks the
/// dimensions it decoded with this before it lays the images out in one
/// buffer.
pub fn consistent_dimensions(dims: &Vec<(u32, u32)>) -> (r: bool)
    ensures
        r == forall|i: int, j: int|
            0 <= i < dims@.len() && 0 <= j < dims@.len() ==> #[trigger] dims@[i]
                == #[trigger] dims@[j],
{
    let n = dims.len();
    if n == 0 {
        return true;
    }
    let first = dims[0];
    let mut i: usize = 1;
    while i < n
        invariant
            1 <= i <= n,
            n == dims@.len(),
            first == dims@[0],
            forall|j: int| 0 <= j < i ==> #[trigger] dims@[j] == dims@[0],
        decreases n - i,
    {
        if dims[i].0 != first.0 || dims[i].1 != first.1 {
            proof {
                assert(dims@[i as int] != dims@[0]);
            }
            return false;
        }
        proof {
            assert(dims@[i as int] =~= dims@[0]);
        }
        i = i + 1;
    }
    true
}

} // verus!
