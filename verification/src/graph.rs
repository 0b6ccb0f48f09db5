//! The render graph: named resources, named operations, and the staged,
//! two-phase execution plan that turns world state into draw submissions.
//!
//! Resources here are descriptors: extents, byte sizes and bindings, plus
//! decoded texture and material data.  The GPU objects they describe live
//! with the executor outside the library, keyed by the same names.  Unknown
//! names answer with a `NotFound` sentinel rather than failing.

use vstd::prelude::*;

verus! {

use crate::color::Color;
use crate::fixed::{GEOM_LIMIT, lemma_abs_product, lemma_div_between};
use crate::math::Vec2;
use crate::texture::TextureData;
use crate::transform::{Pose2, Pose3, PerspectiveParams};
use crate::world::{Bounds, spec_coord_total, spec_seg_total, lemma_totals_grow};

/// Bytes of one path uniform as laid out for the GPU.
pub const PATH_UNIFORM_SIZE: usize = 96;

/// Bytes of one ellipse uniform as laid out for the GPU.
pub const ELLIPSE_UNIFORM_SIZE: usize = 96;

/// Bytes of one tessellated curve segment: four four-byte coordinates.
pub const SEGMENT_BYTES: usize = 16;

/// Bytes of the fill-pass configuration uniform.
pub const FILL_CONFIG_SIZE: u64 = 80;

/// Bytes of the stroke-pass configuration uniform.
pub const STROKE_CONFIG_SIZE: u64 = 64;

/// Bytes of the 3D camera uniform: two four-by-four matrices.
pub const CAMERA3D_UNIFORM_SIZE: u64 = 128;

/// The default byte budget of one batched 2D draw.
pub const DEFAULT_BATCH_SIZE_2D: usize = 65536;

/// Interior samples when a quadratic curve is tessellated.
pub const QUAD_SAMPLES: i64 = 10;

/// Interior samples when a cubic curve is tessellated.
pub const CUBIC_SAMPLES: i64 = 100;

/// The device-independent rendering configuration: output extent, resource
/// capacity limits, and the 2D batching budget.
#[derive(Clone, Copy, Debug)]
pub struct RenderContext {
    pub width: u32,
    pub height: u32,
    pub max_vertices: u64,
    pub max_models: u64,
    pub max_paths: u64,
    pub batch_size_2d: usize,
}

/// Extents and limits small enough that every byte count the graph forms
/// stays representable, and a batch always has room for one uniform.
pub open spec fn context_wf(c: RenderContext) -> bool {
    &&& 0 < c.width <= 4096
    &&& 0 < c.height <= 4096
    &&& 0 < c.max_vertices <= 0x100_0000
    &&& 0 < c.max_models <= 0x100_0000
    &&& 0 < c.max_paths <= 0x100_0000
    &&& ELLIPSE_UNIFORM_SIZE <= c.batch_size_2d
    &&& PATH_UNIFORM_SIZE <= c.batch_size_2d
    &&& c.batch_size_2d <= 0x1000_0000
}

impl RenderContext {
    /// The default configuration: full-HD output and the stock limits.
    pub fn new() -> (c: RenderContext)
        ensures
            context_wf(c),
            c.width == 1920,
            c.height == 1080,
            c.max_vertices == 1000,
            c.max_models == 10000,
            c.max_paths == 10000,
            c.batch_size_2d == DEFAULT_BATCH_SIZE_2D,
    {
        RenderContext {
            width: 1920,
            height: 1080,
            max_vertices: 1000,
            max_models: 10000,
            max_paths: 10000,
            batch_size_2d: DEFAULT_BATCH_SIZE_2D,
        }
    }

    /// How many pixels one output frame holds.
    pub fn frame_size(&self) -> (r: usize)
        requires
            context_wf(*self),
        ensures
            r == self.width * self.height,
    {
        proof {
            assert(self.width * self.height <= 16777216) by (nonlinear_arith)
                requires 0 < self.width <= 4096 && 0 < self.height <= 4096,
            ;
        }
        (self.width as usize) * (self.height as usize)
    }
}

/// The uniform data of the 3D camera: its view pose and projection.
#[derive(Clone, Copy, PartialEq, Eq, Structural, Debug)]
pub struct Camera3DUniform {
    pub view: Pose3,
    pub projection: PerspectiveParams,
}

/// The per-mesh uniform: the pose its vertices are transformed by.
#[derive(Clone, Copy, PartialEq, Eq, Structural, Debug)]
pub struct Uniform3D {
    pub transform: Pose3,
}

/// The fill pass configuration: clear color, output resolution and the 2D
/// camera's view pose.
#[derive(Clone, Copy, PartialEq, Eq, Structural, Debug)]
pub struct FillConfigUniform {
    pub clear: Color,
    pub resolution_w: u32,
    pub resolution_h: u32,
    pub view: Pose2,
}

impl FillConfigUniform {
    /// Black clear color, full-HD resolution, identity view.
    pub fn default() -> (r: FillConfigUniform)
        ensures
            r.clear == (Color { r: 0u8, g: 0u8, b: 0u8 }),
            r.resolution_w == 1920,
            r.resolution_h == 1080,
            r.view == (Pose2 {
                scale: Vec2 { x: crate::fixed::UNIT, y: crate::fixed::UNIT },
                position: Vec2 { x: 0i64, y: 0i64 },
                rotation: 0i64,
            }),
    {
        FillConfigUniform {
            clear: Color::black(),
            resolution_w: 1920,
            resolution_h: 1080,
            view: Pose2 {
                scale: Vec2 { x: crate::fixed::UNIT, y: crate::fixed::UNIT },
                position: Vec2 { x: 0, y: 0 },
                rotation: 0,
            },
        }
    }
}

/// The stroke pass configuration: output resolution and the 2D camera's
/// view pose.
#[derive(Clone, Copy, PartialEq, Eq, Structural, Debug)]
pub struct StrokeConfigUniform {
    pub resolution_w: u32,
    pub resolution_h: u32,
    pub view: Pose2,
}

/// The uniform of the blurring pass; it carries no fields yet.
#[derive(Clone, Copy, PartialEq, Eq, Structural, Debug)]
pub struct GaussianUniform {
}

impl GaussianUniform {
    /// The empty uniform.
    pub fn default() -> (r: GaussianUniform)
        ensures r == (GaussianUniform { }),
    {
        GaussianUniform { }
    }
}

/// The per-path uniform written for one 2D draw.
#[derive(Clone, Copy, PartialEq, Eq, Structural, Debug)]
pub struct PathUniform {
    pub opacity: i64,
    pub segments: u32,
    pub color: Color,
    pub bounds: Bounds,
    pub transform: Pose2,
}

/// The per-ellipse uniform written for one 2D draw.
#[derive(Clone, Copy, PartialEq, Eq, Structural, Debug)]
pub struct EllipseUniform {
    pub opacity: i64,
    pub width: i64,
    pub height: i64,
    pub color: Color,
    pub transform: Pose2,
}

/// One tessellated curve segment: a straight piece from its start to its
/// end point.
#[derive(Clone, Copy, PartialEq, Eq, Structural, Debug)]
pub struct PathSegment {
    pub x1: i64,
    pub y1: i64,
    pub x2: i64,
    pub y2: i64,
}

/// One mesh's draw entry: which material to bind and how many indices to
/// draw; the vertex and index buffers are keyed by the draw's position.
#[derive(Clone, Debug)]
pub struct Model {
    pub material: String,
    pub size: u32,
}

/// A textured 2D material.
#[derive(Clone, Debug)]
pub struct Material2D {
    pub opacity: i64,
    pub offset: i64,
    pub color: TextureData,
}

/// A Phong-shaded material: lighting coefficients and its three maps.
#[derive(Clone, Debug)]
pub struct PhongMaterial {
    pub opacity: i64,
    pub shininess: i64,
    pub reflectivity: i64,
    pub normal: TextureData,
    pub diffuse: TextureData,
    pub specular: TextureData,
}

/// A material a model can be drawn with.
#[derive(Clone, Debug)]
pub enum ModelMaterial {
    Phong(PhongMaterial),
    Material2D(Material2D),
}

/// Which GPU stage a binding is visible to.
#[derive(Clone, Copy, PartialEq, Eq, Structural, Debug)]
pub enum ShaderStages {
    Vertex,
    Fragment,
    Compute,
}

/// What kind of resource a binding slot carries.
#[derive(Clone, Copy, PartialEq, Eq, Structural, Debug)]
pub enum BindingType {
    UniformBuffer,
    Texture2D,
    Sampler,
}

/// One slot of a bind-group layout.
#[derive(Clone, Copy, PartialEq, Eq, Structural, Debug)]
pub struct BindGroupLayoutEntry {
    pub binding: u32,
    pub visibility: ShaderStages,
    pub ty: BindingType,
}

impl PhongMaterial {
    /// The bind-group layout of a Phong material: a texture and a sampler
    /// slot for each of the normal, diffuse and specular maps, all visible
    /// to the fragment stage.
    pub fn bind_layout() -> (r: Vec<BindGroupLayoutEntry>)
        ensures
            r@ == seq![
                BindGroupLayoutEntry { binding: 0u32, visibility: ShaderStages::Fragment, ty: BindingType::Texture2D },
                BindGroupLayoutEntry { binding: 1u32, visibility: ShaderStages::Fragment, ty: BindingType::Sampler },
                BindGroupLayoutEntry { binding: 2u32, visibility: ShaderStages::Fragment, ty: BindingType::Texture2D },
                BindGroupLayoutEntry { binding: 3u32, visibility: ShaderStages::Fragment, ty: BindingType::Sampler },
                BindGroupLayoutEntry { binding: 4u32, visibility: ShaderStages::Fragment, ty: BindingType::Texture2D },
                BindGroupLayoutEntry { binding: 5u32, visibility: ShaderStages::Fragment, ty: BindingType::Sampler },
            ],
    {
        let mut r: Vec<BindGroupLayoutEntry> = Vec::new();
        r.push(BindGroupLayoutEntry { binding: 0, visibility: ShaderStages::Fragment, ty: BindingType::Texture2D });
        r.push(BindGroupLayoutEntry { binding: 1, visibility: ShaderStages::Fragment, ty: BindingType::Sampler });
        r.push(BindGroupLayoutEntry { binding: 2, visibility: ShaderStages::Fragment, ty: BindingType::Texture2D });
        r.push(BindGroupLayoutEntry { binding: 3, visibility: ShaderStages::Fragment, ty: BindingType::Sampler });
        r.push(BindGroupLayoutEntry { binding: 4, visibility: ShaderStages::Fragment, ty: BindingType::Texture2D });
        r.push(BindGroupLayoutEntry { binding: 5, visibility: ShaderStages::Fragment, ty: BindingType::Sampler });
        proof {
            assert(r@ =~= seq![
                BindGroupLayoutEntry { binding: 0u32, visibility: ShaderStages::Fragment, ty: BindingType::Texture2D },
                BindGroupLayoutEntry { binding: 1u32, visibility: ShaderStages::Fragment, ty: BindingType::Sampler },
                BindGroupLayoutEntry { binding: 2u32, visibility: ShaderStages::Fragment, ty: BindingType::Texture2D },
                BindGroupLayoutEntry { binding: 3u32, visibility: ShaderStages::Fragment, ty: BindingType::Sampler },
                BindGroupLayoutEntry { binding: 4u32, visibility: ShaderStages::Fragment, ty: BindingType::Texture2D },
                BindGroupLayoutEntry { binding: 5u32, visibility: ShaderStages::Fragment, ty: BindingType::Sampler },
            ]);
        }
        r
    }
}

impl Material2D {
    /// The bind-group layout of a 2D material: its configuration uniform,
    /// its color texture and a sampler, all visible to the fragment stage.
    pub fn bind_layout() -> (r: Vec<BindGroupLayoutEntry>)
        ensures
            r@ == seq![
                BindGroupLayoutEntry { binding: 0u32, visibility: ShaderStages::Fragment, ty: BindingType::UniformBuffer },
                BindGroupLayoutEntry { binding: 1u32, visibility: ShaderStages::Fragment, ty: BindingType::Texture2D },
                BindGroupLayoutEntry { binding: 2u32, visibility: ShaderStages::Fragment, ty: BindingType::Sampler },
            ],
    {
        let mut r: Vec<BindGroupLayoutEntry> = Vec::new();
        r.push(BindGroupLayoutEntry { binding: 0, visibility: ShaderStages::Fragment, ty: BindingType::UniformBuffer });
        r.push(BindGroupLayoutEntry { binding: 1, visibility: ShaderStages::Fragment, ty: BindingType::Texture2D });
        r.push(BindGroupLayoutEntry { binding: 2, visibility: ShaderStages::Fragment, ty: BindingType::Sampler });
        proof {
            assert(r@ =~= seq![
                BindGroupLayoutEntry { binding: 0u32, visibility: ShaderStages::Fragment, ty: BindingType::UniformBuffer },
                BindGroupLayoutEntry { binding: 1u32, visibility: ShaderStages::Fragment, ty: BindingType::Texture2D },
                BindGroupLayoutEntry { binding: 2u32, visibility: ShaderStages::Fragment, ty: BindingType::Sampler },
            ]);
        }
        r
    }
}

impl ModelMaterial {
    /// A textured 2D material.
    pub fn new_material2d(opacity: i64, offset: i64, color: TextureData) -> (r: ModelMaterial)
        ensures
            r matches ModelMaterial::Material2D(m)
                && m.opacity == opacity && m.offset == offset && m.color == color,
    {
        ModelMaterial::Material2D(Material2D { opacity, offset, color })
    }

    /// A Phong-shaded material from its coefficients and three maps.
    pub fn new_phong(
        opacity: i64,
        shininess: i64,
        reflectivity: i64,
        normal: TextureData,
        diffuse: TextureData,
        specular: TextureData,
    ) -> (r: ModelMaterial)
        ensures
            r matches ModelMaterial::Phong(m)
                && m.opacity == opacity && m.shininess == shininess
                && m.reflectivity == reflectivity && m.normal == normal
                && m.diffuse == diffuse && m.specular == specular,
    {
        ModelMaterial::Phong(PhongMaterial {
            opacity,
            shininess,
            reflectivity,
            normal,
            diffuse,
            specular,
        })
    }
}

/// A named GPU resource, described by what the executor must allocate for
/// it.  `NotFound` is the sentinel an unknown name answers with.
#[derive(Clone, Debug)]
pub enum RenderResource {
    NotFound,
    /// A plain buffer of the given byte size.
    Buffer { size: u64 },
    /// A render target of the given extent.
    Texture { width: u32, height: u32 },
    /// A uniform buffer and the binding slot it is bound at.
    Uniform { size: u64, binding: u32 },
    /// A material and its textures.
    Material(ModelMaterial),
    /// A per-object uniform buffer at a binding slot, plus the draw list
    /// rebuilt each frame.
    Batch { binding: u32, models: Vec<Model> },
    /// The 2D layer group: segment, path and ellipse buffers of the given
    /// byte sizes, bound together at a binding slot.
    Layer { segment_buffer: u64, path_buffer: u64, ellipse_buffer: u64, binding: u32 },
}

/// The pipeline an operation runs: which shaders it binds.
#[derive(Clone, Debug)]
pub struct PipelineConfig {
    pub vertex_shader: String,
    pub fragment_shader: String,
}

/// A named operation of the graph: what it reads, what it writes, and the
/// pipeline it submits.  `NotFound` is the sentinel an unknown name
/// answers with; running it is a no-op.
#[derive(Clone, Debug)]
pub enum RenderOperation {
    NotFound,
    Command { input: Vec<String>, output: Vec<String> },
    RenderPass { input: Vec<String>, output: Vec<String>, pipeline: PipelineConfig },
    ComputeDispatch { input: Vec<String>, output: Vec<String>, pipeline: PipelineConfig },
}

/// The first entry under the given name, front to back.
pub open spec fn spec_lookup<T>(entries: Seq<(String, T)>, name: Seq<char>) -> Option<T>
    decreases entries.len(),
{
    if entries.len() == 0 {
        None::<T>
    } else if entries[0].0@ == name {
        Some(entries[0].1)
    } else {
        spec_lookup(entries.drop_first(), name)
    }
}

/// Finds the first entry under the given name.
fn lookup_entry<'a, T>(entries: &'a Vec<(String, T)>, name: &String) -> (r: Option<&'a T>)
    ensures
        match r {
            Some(v) => spec_lookup(entries@, name@) == Some(*v),
            None => spec_lookup(entries@, name@) is None,
        },
{
    let n = entries.len();
    let mut i: usize = 0;
    proof {
        assert(entries@.skip(0) =~= entries@);
    }
    while i < n
        invariant
            n == entries@.len(),
            i <= n,
            spec_lookup(entries@, name@) == spec_lookup(entries@.skip(i as int), name@),
        decreases n - i,
    {
        proof {
            assert(entries@.skip(i as int)[0] == entries@[i as int]);
            assert(entries@.skip(i as int).drop_first() =~= entries@.skip(i + 1));
        }
        if entries[i].0 == *name {
            return Some(&entries[i].1);
        }
        i = i + 1;
    }
    proof {
        assert(entries@.skip(n as int).len() == 0);
    }
    None
}

/// Appending an entry changes a lookup only for a name not yet present.
pub proof fn lemma_lookup_push<T>(entries: Seq<(String, T)>, name: Seq<char>, entry: (String, T))
    ensures
        spec_lookup(entries.push(entry), name) == (if spec_lookup(entries, name) is Some {
            spec_lookup(entries, name)
        } else if entry.0@ == name {
            Some(entry.1)
        } else {
            None::<T>
        }),
    decreases entries.len(),
{
    reveal_with_fuel(spec_lookup, 3);
    if entries.len() == 0 {
        assert(entries.push(entry)[0] == entry);
        assert(entries.push(entry).drop_first() =~= Seq::<(String, T)>::empty());
    } else {
        assert(entries.push(entry)[0] == entries[0]);
        assert(entries.push(entry).drop_first() =~= entries.drop_first().push(entry));
        lemma_lookup_push(entries.drop_first(), name, entry);
    }
}

/// The fill pass: the render pass drawing filled 2D geometry, together
/// with the resources it needs: the output texture, its configuration
/// uniform, and the shared 2D layer buffers sized from the context limits.
pub fn create_fill_pass(context: &RenderContext) -> (r: (RenderOperation, Vec<(String, RenderResource)>))
    requires
        context_wf(*context),
    ensures
        r.0 matches RenderOperation::RenderPass { input, output, pipeline }
            && input@.len() == 2
            && input@[0]@ == "fill_config"@ && input@[1]@ == "world_2d"@
            && output@.len() == 1 && output@[0]@ == "output_texture"@
            && pipeline.vertex_shader@ == "fill.vert"@
            && pipeline.fragment_shader@ == "fill.frag"@,
        r.1@.len() == 3,
        r.1@[0].0@ == "output_texture"@,
        r.1@[0].1 == (RenderResource::Texture { width: context.width, height: context.height }),
        r.1@[1].0@ == "fill_config"@,
        r.1@[1].1 == (RenderResource::Uniform { size: FILL_CONFIG_SIZE, binding: 0u32 }),
        r.1@[2].0@ == "world_2d"@,
        r.1@[2].1 == (RenderResource::Layer {
            segment_buffer: (context.max_vertices * 16) as u64,
            path_buffer: (context.max_paths * 96) as u64,
            ellipse_buffer: (context.max_paths * 96) as u64,
            binding: 0u32,
        }),
{
    let mut input: Vec<String> = Vec::new();
    input.push("fill_config".to_owned());
    input.push("world_2d".to_owned());
    let mut output: Vec<String> = Vec::new();
    output.push("output_texture".to_owned());
    let op = RenderOperation::RenderPass {
        input,
        output,
        pipeline: PipelineConfig {
            vertex_shader: "fill.vert".to_owned(),
            fragment_shader: "fill.frag".to_owned(),
        },
    };
    let mut resources: Vec<(String, RenderResource)> = Vec::new();
    resources.push((
        "output_texture".to_owned(),
        RenderResource::Texture { width: context.width, height: context.height },
    ));
    resources.push((
        "fill_config".to_owned(),
        RenderResource::Uniform { size: FILL_CONFIG_SIZE, binding: 0 },
    ));
    resources.push((
        "world_2d".to_owned(),
        RenderResource::Layer {
            segment_buffer: context.max_vertices * 16,
            path_buffer: context.max_paths * 96,
            ellipse_buffer: context.max_paths * 96,
            binding: 0,
        },
    ));
    (op, resources)
}

/// The stroke pass: the render pass drawing 2D outlines, with its
/// configuration uniform.
pub fn create_stroke_pass(context: &RenderContext) -> (r: (RenderOperation, Vec<(String, RenderResource)>))
    requires
        context_wf(*context),
    ensures
        r.0 matches RenderOperation::RenderPass { input, output, pipeline }
            && input@.len() == 2
            && input@[0]@ == "stroke_config"@ && input@[1]@ == "world_2d"@
            && output@.len() == 1 && output@[0]@ == "output_texture"@
            && pipeline.vertex_shader@ == "stroke.vert"@
            && pipeline.fragment_shader@ == "stroke.frag"@,
        r.1@.len() == 1,
        r.1@[0].0@ == "stroke_config"@,
        r.1@[0].1 == (RenderResource::Uniform { size: STROKE_CONFIG_SIZE, binding: 0u32 }),
{
    let mut input: Vec<String> = Vec::new();
    input.push("stroke_config".to_owned());
    input.push("world_2d".to_owned());
    let mut output: Vec<String> = Vec::new();
    output.push("output_texture".to_owned());
    let op = RenderOperation::RenderPass {
        input,
        output,
        pipeline: PipelineConfig {
            vertex_shader: "stroke.vert".to_owned(),
            fragment_shader: "stroke.frag".to_owned(),
        },
    };
    let mut resources: Vec<(String, RenderResource)> = Vec::new();
    resources.push((
        "stroke_config".to_owned(),
        RenderResource::Uniform { size: STROKE_CONFIG_SIZE, binding: 0 },
    ));
    (op, resources)
}

/// The Phong pass: the render pass drawing lit 3D meshes, together with
/// the 3D camera uniform, the output texture, and the per-mesh batch whose
/// draw list is rebuilt each frame.
pub fn create_phong_pass(context: &RenderContext) -> (r: (RenderOperation, Vec<(String, RenderResource)>))
    requires
        context_wf(*context),
    ensures
        r.0 matches RenderOperation::RenderPass { input, output, pipeline }
            && input@.len() == 2
            && input@[0]@ == "camera_3d"@ && input@[1]@ == "world_3d"@
            && output@.len() == 1 && output@[0]@ == "output_texture"@
            && pipeline.vertex_shader@ == "phong.vert"@
            && pipeline.fragment_shader@ == "phong.frag"@,
        r.1@.len() == 3,
        r.1@[0].0@ == "camera_3d"@,
        r.1@[0].1 == (RenderResource::Uniform { size: CAMERA3D_UNIFORM_SIZE, binding: 0u32 }),
        r.1@[1].0@ == "output_texture"@,
        r.1@[1].1 == (RenderResource::Texture { width: context.width, height: context.height }),
        r.1@[2].0@ == "world_3d"@,
        r.1@[2].1 matches RenderResource::Batch { binding, models }
            && binding == 1u32 && models@.len() == 0,
{
    let mut input: Vec<String> = Vec::new();
    input.push("camera_3d".to_owned());
    input.push("world_3d".to_owned());
    let mut output: Vec<String> = Vec::new();
    output.push("output_texture".to_owned());
    let op = RenderOperation::RenderPass {
        input,
        output,
        pipeline: PipelineConfig {
            vertex_shader: "phong.vert".to_owned(),
            fragment_shader: "phong.frag".to_owned(),
        },
    };
    let mut resources: Vec<(String, RenderResource)> = Vec::new();
    resources.push((
        "camera_3d".to_owned(),
        RenderResource::Uniform { size: CAMERA3D_UNIFORM_SIZE, binding: 0 },
    ));
    resources.push((
        "output_texture".to_owned(),
        RenderResource::Texture { width: context.width, height: context.height },
    ));
    resources.push((
        "world_3d".to_owned(),
        RenderResource::Batch { binding: 1, models: Vec::new() },
    ));
    (op, resources)
}

/// The render graph: its configuration, named resources and operations,
/// and the ordered stages its operations are submitted in.
pub struct RenderGraph {
    /// Batches of operation names; each stage's submissions complete
    /// before the next stage begins, in declaration order.
    pub stages: Vec<Vec<String>>,
    pub context: RenderContext,
    pub resources: Vec<(String, RenderResource)>,
    pub operations: Vec<(String, RenderOperation)>,
    /// The sentinel handed out for unknown resource names; always holds
    /// `NotFound`.
    pub not_found_resource: RenderResource,
    /// The sentinel handed out for unknown operation names; always holds
    /// `NotFound`.
    pub not_found_operation: RenderOperation,
}

impl RenderGraph {
    /// The sentinels hold their sentinels and the configuration is sound.
    pub open spec fn wf(&self) -> bool {
        &&& self.not_found_resource is NotFound
        &&& self.not_found_operation is NotFound
        &&& context_wf(self.context)
    }

    /// A graph with no resources, operations or stages.
    pub fn empty() -> (g: RenderGraph)
        ensures
            g.wf(),
            g.stages@.len() == 0,
            g.resources@.len() == 0,
            g.operations@.len() == 0,
            context_wf(g.context),
            g.context.width == 1920 && g.context.height == 1080,
            g.context.batch_size_2d == DEFAULT_BATCH_SIZE_2D,
    {
        RenderGraph {
            stages: Vec::new(),
            context: RenderContext::new(),
            resources: Vec::new(),
            operations: Vec::new(),
            not_found_resource: RenderResource::NotFound,
            not_found_operation: RenderOperation::NotFound,
        }
    }

    /// Registers a resource under a name.  Lookups of other names are
    /// untouched; the new name answers with this resource unless an
    /// earlier entry already claimed it.
    pub fn insert_resource(&mut self, name: String, resource: RenderResource)
        requires
            old(self).wf(),
        ensures
            final(self).wf(),
            final(self).resources@ == old(self).resources@.push((name, resource)),
            final(self).operations@ == old(self).operations@,
            final(self).stages@ == old(self).stages@,
            final(self).context == old(self).context,
            forall|q: Seq<char>| #[trigger] spec_lookup(final(self).resources@, q)
                == (if spec_lookup(old(self).resources@, q) is Some {
                    spec_lookup(old(self).resources@, q)
                } else if name@ == q {
                    Some(resource)
                } else {
                    None::<RenderResource>
                }),
    {
        proof {
            assert forall|q: Seq<char>| true implies #[trigger] spec_lookup(
                old(self).resources@.push((name, resource)), q)
                == (if spec_lookup(old(self).resources@, q) is Some {
                    spec_lookup(old(self).resources@, q)
                } else if name@ == q {
                    Some(resource)
                } else {
                    None::<RenderResource>
                }) by {
                lemma_lookup_push(old(self).resources@, q, (name, resource));
            }
        }
        self.resources.push((name, resource));
    }

    /// Registers an operation under a name, with the same lookup behavior
    /// as resources.
    pub fn insert_operation(&mut self, name: String, operation: RenderOperation)
        requires
            old(self).wf(),
        ensures
            final(self).wf(),
            final(self).operations@ == old(self).operations@.push((name, operation)),
            final(self).resources@ == old(self).resources@,
            final(self).stages@ == old(self).stages@,
            final(self).context == old(self).context,
            forall|q: Seq<char>| #[trigger] spec_lookup(final(self).operations@, q)
                == (if spec_lookup(old(self).operations@, q) is Some {
                    spec_lookup(old(self).operations@, q)
                } else if name@ == q {
                    Some(operation)
                } else {
                    None::<RenderOperation>
                }),
    {
        proof {
            assert forall|q: Seq<char>| true implies #[trigger] spec_lookup(
                old(self).operations@.push((name, operation)), q)
                == (if spec_lookup(old(self).operations@, q) is Some {
                    spec_lookup(old(self).operations@, q)
                } else if name@ == q {
                    Some(operation)
                } else {
                    None::<RenderOperation>
                }) by {
                lemma_lookup_push(old(self).operations@, q, (name, operation));
            }
        }
        self.operations.push((name, operation));
    }

    /// Appends one stage: a batch of operation names submitted together
    /// after every earlier stage.
    pub fn push_stage(&mut self, stage: Vec<String>)
        requires
            old(self).wf(),
        ensures
            final(self).wf(),
            final(self).stages@ == old(self).stages@.push(stage),
            final(self).resources@ == old(self).resources@,
            final(self).operations@ == old(self).operations@,
            final(self).context == old(self).context,
    {
        self.stages.push(stage);
    }

    /// Registers a material as a named resource.
    pub fn add_material(&mut self, name: String, material: ModelMaterial)
        requires
            old(self).wf(),
        ensures
            final(self).wf(),
            final(self).resources@ == old(self).resources@.push(
                (name, RenderResource::Material(material))),
            final(self).operations@ == old(self).operations@,
            final(self).stages@ == old(self).stages@,
            final(self).context == old(self).context,
    {
        self.insert_resource(name, RenderResource::Material(material));
    }

    /// The resource registered under a name, or the `NotFound` sentinel
    /// when the name is unknown; the lookup never fails.
    pub fn resource(&self, name: &String) -> (r: &RenderResource)
        requires
            self.wf(),
        ensures
            match spec_lookup(self.resources@, name@) {
                Some(v) => *r == v,
                None => *r is NotFound,
            },
    {
        match lookup_entry(&self.resources, name) {
            Some(v) => v,
            None => &self.not_found_resource,
        }
    }

    /// The operation registered under a name, or the `NotFound` sentinel
    /// when the name is unknown; the lookup never fails.
    pub fn op(&self, name: &String) -> (r: &RenderOperation)
        requires
            self.wf(),
        ensures
            match spec_lookup(self.operations@, name@) {
                Some(v) => *r == v,
                None => *r is NotFound,
            },
    {
        match lookup_entry(&self.operations, name) {
            Some(v) => v,
            None => &self.not_found_operation,
        }
    }

    /// The stock 2D graph: a fill pass and then a stroke pass, their
    /// resources, and the shared framebuffer the output is read back from.
    pub fn default() -> (g: RenderGraph)
        ensures
            g.wf(),
            context_wf(g.context),
            g.context.width == 1920 && g.context.height == 1080,
            g.context.batch_size_2d == DEFAULT_BATCH_SIZE_2D,
            g.stages@.len() == 2,
            g.stages@[0]@.len() == 1 && g.stages@[0]@[0]@ == "fill pass"@,
            g.stages@[1]@.len() == 1 && g.stages@[1]@[0]@ == "stroke pass"@,
            spec_lookup(g.operations@, "fill pass"@) matches Some(op) && op is RenderPass,
            spec_lookup(g.operations@, "stroke pass"@) matches Some(op) && op is RenderPass,
            spec_lookup(g.resources@, "output_texture"@) == Some(RenderResource::Texture {
                width: g.context.width, height: g.context.height,
            }),
            spec_lookup(g.resources@, "fill_config"@) == Some(RenderResource::Uniform {
                size: FILL_CONFIG_SIZE, binding: 0u32,
            }),
            spec_lookup(g.resources@, "stroke_config"@) == Some(RenderResource::Uniform {
                size: STROKE_CONFIG_SIZE, binding: 0u32,
            }),
            spec_lookup(g.resources@, "world_2d"@) matches Some(r) && r is Layer,
            spec_lookup(g.resources@, "framebuffer"@) == Some(RenderResource::Buffer {
                size: (4 * g.context.width * g.context.height) as u64,
            }),
    {
        let mut g = RenderGraph::empty();

        let (fill_op, fill_resources) = create_fill_pass(&g.context);
        let (fr0, fr1, fr2) = vec3_split(fill_resources);
        g.insert_resource(fr0.0, fr0.1);
        g.insert_resource(fr1.0, fr1.1);
        g.insert_resource(fr2.0, fr2.1);
        let mut fill_stage: Vec<String> = Vec::new();
        fill_stage.push("fill pass".to_owned());
        g.push_stage(fill_stage);
        g.insert_operation("fill pass".to_owned(), fill_op);

        let (stroke_op, stroke_resources) = create_stroke_pass(&g.context);
        let (sr0,) = vec1_split(stroke_resources);
        g.insert_resource(sr0.0, sr0.1);
        let mut stroke_stage: Vec<String> = Vec::new();
        stroke_stage.push("stroke pass".to_owned());
        g.push_stage(stroke_stage);
        g.insert_operation("stroke pass".to_owned(), stroke_op);

        proof {
            assert(4 * g.context.width * g.context.height <= 0xffff_ffff_ffff_ffffu64)
                by (nonlinear_arith)
                requires 0 < g.context.width <= 4096 && 0 < g.context.height <= 4096,
            ;
        }
        let frame_bytes: u64 = 4 * (g.context.width as u64) * (g.context.height as u64);
        g.insert_resource("framebuffer".to_owned(), RenderResource::Buffer { size: frame_bytes });

        proof {
            reveal_strlit("fill pass");
            reveal_strlit("stroke pass");
            reveal_strlit("output_texture");
            reveal_strlit("fill_config");
            reveal_strlit("stroke_config");
            reveal_strlit("world_2d");
            reveal_strlit("framebuffer");
            assert("output_texture"@.len() == 14);
            assert("fill_config"@.len() == 11);
            assert("world_2d"@.len() == 8);
            assert("stroke_config"@.len() == 13);
            assert("framebuffer"@.len() == 11);
            assert("framebuffer"@[1] == 'r' && "fill_config"@[1] == 'i');
            assert("fill pass"@.len() == 9);
            assert("stroke pass"@.len() == 11);
        }
        g
    }
}

/// One blended curve sample: a quadratic mix of a start value, a middle
/// weight and an end value, at sample `j` of `n`, in exact integer
/// arithmetic with a flooring division.
pub open spec fn spec_curve_sample(a: int, m: int, b: int, j: int, n: int) -> int {
    ((n - j) * (n - j) * a + 2 * (n - j) * j * m + j * j * b) / (n * n)
}

/// Computes one blended curve sample; the result never leaves the range
/// the three inputs span.
fn curve_sample(a: i64, m: i64, b: i64, j: i64, n: i64) -> (r: i64)
    requires
        0 <= j <= n,
        2 <= n <= 100,
        -GEOM_LIMIT <= a <= GEOM_LIMIT,
        -GEOM_LIMIT <= m <= GEOM_LIMIT,
        -GEOM_LIMIT <= b <= GEOM_LIMIT,
    ensures
        r as int == spec_curve_sample(a as int, m as int, b as int, j as int, n as int),
        -GEOM_LIMIT <= r <= GEOM_LIMIT,
{
    proof {
        let ji = j as int;
        let ni = n as int;
        let g = GEOM_LIMIT as int;
        assert((ni - ji) * (ni - ji) + 2 * (ni - ji) * ji + ji * ji == ni * ni)
            by (nonlinear_arith);
        assert((ni - ji) * (ni - ji) >= 0 && 2 * (ni - ji) * ji >= 0 && ji * ji >= 0
            && (ni - ji) * (ni - ji) <= 10000 && 2 * (ni - ji) * ji <= 20000
            && ji * ji <= 10000 && 4 <= ni * ni <= 10000)
            by (nonlinear_arith)
            requires 0 <= ji <= ni && 2 <= ni <= 100,
        ;
        lemma_abs_product((ni - ji) * (ni - ji), a as int, (ni - ji) * (ni - ji), g);
        lemma_abs_product(2 * (ni - ji) * ji, m as int, 2 * (ni - ji) * ji, g);
        lemma_abs_product(ji * ji, b as int, ji * ji, g);
        assert(-((ni * ni) * g) <= (ni - ji) * (ni - ji) * (a as int)
            + 2 * (ni - ji) * ji * (m as int) + ji * ji * (b as int) <= (ni * ni) * g)
            by (nonlinear_arith)
            requires
                (ni - ji) * (ni - ji) + 2 * (ni - ji) * ji + ji * ji == ni * ni
                && -((ni - ji) * (ni - ji) * g) <= (ni - ji) * (ni - ji) * (a as int)
                    <= (ni - ji) * (ni - ji) * g
                && -(2 * (ni - ji) * ji * g) <= 2 * (ni - ji) * ji * (m as int)
                    <= 2 * (ni - ji) * ji * g
                && -(ji * ji * g) <= ji * ji * (b as int) <= ji * ji * g,
        ;
        assert((-g) * (ni * ni) == -((ni * ni) * g) && g * (ni * ni) == (ni * ni) * g)
            by (nonlinear_arith);
        lemma_div_between(
            (ni - ji) * (ni - ji) * (a as int) + 2 * (ni - ji) * ji * (m as int)
                + ji * ji * (b as int),
            -g, g, ni * ni);
    }
    let w1 = (n - j) * (n - j);
    let w2 = 2 * (n - j) * j;
    let w3 = j * j;
    let num = w1 * a + w2 * m + w3 * b;
    num.checked_div_euclid(n * n).unwrap()
}

/// The straight pieces a tessellated curve breaks into: `n` segments
/// joining consecutive blended samples.
fn tessellate_curve(ax: i64, ay: i64, mx: i64, my: i64, bx: i64, by: i64, n: i64)
    -> (r: Vec<PathSegment>)
    requires
        2 <= n <= 100,
        -GEOM_LIMIT <= ax <= GEOM_LIMIT, -GEOM_LIMIT <= ay <= GEOM_LIMIT,
        -GEOM_LIMIT <= mx <= GEOM_LIMIT, -GEOM_LIMIT <= my <= GEOM_LIMIT,
        -GEOM_LIMIT <= bx <= GEOM_LIMIT, -GEOM_LIMIT <= by <= GEOM_LIMIT,
    ensures
        r@.len() == n,
        forall|j: int| 0 <= j < n ==> {
            &&& (#[trigger] r@[j]).x1 as int == spec_curve_sample(ax as int, mx as int, bx as int, j, n as int)
            &&& r@[j].y1 as int == spec_curve_sample(ay as int, my as int, by as int, j, n as int)
            &&& r@[j].x2 as int == spec_curve_sample(ax as int, mx as int, bx as int, j + 1, n as int)
            &&& r@[j].y2 as int == spec_curve_sample(ay as int, my as int, by as int, j + 1, n as int)
        },
{
    let mut r: Vec<PathSegment> = Vec::new();
    let mut j: i64 = 0;
    let mut last_x = curve_sample(ax, mx, bx, 0, n);
    let mut last_y = curve_sample(ay, my, by, 0, n);
    while j < n
        invariant
            0 <= j <= n,
            2 <= n <= 100,
            -GEOM_LIMIT <= ax <= GEOM_LIMIT, -GEOM_LIMIT <= ay <= GEOM_LIMIT,
            -GEOM_LIMIT <= mx <= GEOM_LIMIT, -GEOM_LIMIT <= my <= GEOM_LIMIT,
            -GEOM_LIMIT <= bx <= GEOM_LIMIT, -GEOM_LIMIT <= by <= GEOM_LIMIT,
            last_x as int == spec_curve_sample(ax as int, mx as int, bx as int, j as int, n as int),
            last_y as int == spec_curve_sample(ay as int, my as int, by as int, j as int, n as int),
            r@.len() == j,
            forall|k: int| 0 <= k < j ==> {
                &&& (#[trigger] r@[k]).x1 as int == spec_curve_sample(ax as int, mx as int, bx as int, k, n as int)
                &&& r@[k].y1 as int == spec_curve_sample(ay as int, my as int, by as int, k, n as int)
                &&& r@[k].x2 as int == spec_curve_sample(ax as int, mx as int, bx as int, k + 1, n as int)
                &&& r@[k].y2 as int == spec_curve_sample(ay as int, my as int, by as int, k + 1, n as int)
            },
        decreases n - j,
    {
        let next_x = curve_sample(ax, mx, bx, j + 1, n);
        let next_y = curve_sample(ay, my, by, j + 1, n);
        r.push(PathSegment { x1: last_x, y1: last_y, x2: next_x, y2: next_y });
        last_x = next_x;
        last_y = next_y;
        j = j + 1;
    }
    r
}

/// The straight segments of the record with control code `c` whose
/// coordinates begin at `pi`: a line passes through unchanged; a quadratic
/// record (start, one control point, end) and a cubic record (start, two
/// control points, end) are sampled at the fixed densities; the cubic
/// blend weighs its start, its end and its first control point, the
/// three values the fill shader reads back.
pub open spec fn spec_record_segments(points: Seq<i64>, pi: int, c: u8) -> Seq<PathSegment> {
    if c == 0 {
        seq![PathSegment {
            x1: points[pi], y1: points[pi + 1],
            x2: points[pi + 2], y2: points[pi + 3],
        }]
    } else if c == 1 {
        Seq::new(QUAD_SAMPLES as nat, |j: int| PathSegment {
            x1: spec_curve_sample(points[pi] as int, points[pi + 2] as int, points[pi + 4] as int, j, QUAD_SAMPLES as int) as i64,
            y1: spec_curve_sample(points[pi + 1] as int, points[pi + 3] as int, points[pi + 5] as int, j, QUAD_SAMPLES as int) as i64,
            x2: spec_curve_sample(points[pi] as int, points[pi + 2] as int, points[pi + 4] as int, j + 1, QUAD_SAMPLES as int) as i64,
            y2: spec_curve_sample(points[pi + 1] as int, points[pi + 3] as int, points[pi + 5] as int, j + 1, QUAD_SAMPLES as int) as i64,
        })
    } else if c == 2 {
        Seq::new(CUBIC_SAMPLES as nat, |j: int| PathSegment {
            x1: spec_curve_sample(points[pi] as int, points[pi + 6] as int, points[pi + 2] as int, j, CUBIC_SAMPLES as int) as i64,
            y1: spec_curve_sample(points[pi + 1] as int, points[pi + 7] as int, points[pi + 3] as int, j, CUBIC_SAMPLES as int) as i64,
            x2: spec_curve_sample(points[pi] as int, points[pi + 6] as int, points[pi + 2] as int, j + 1, CUBIC_SAMPLES as int) as i64,
            y2: spec_curve_sample(points[pi + 1] as int, points[pi + 7] as int, points[pi + 3] as int, j + 1, CUBIC_SAMPLES as int) as i64,
        })
    } else {
        Seq::empty()
    }
}

/// The straight segments of the first `k` records of a path whose
/// coordinates begin at `pi` and whose control codes begin at `si`.
pub open spec fn spec_path_tess(points: Seq<i64>, controls: Seq<u8>, pi: int, si: int, k: int)
    -> Seq<PathSegment>
    decreases k,
{
    if k <= 0 {
        Seq::empty()
    } else {
        spec_path_tess(points, controls, pi, si, k - 1)
            + spec_record_segments(
                points,
                pi + spec_coord_total(controls, si, k - 1),
                controls[si + k - 1])
    }
}

/// A path tessellates into exactly as many straight segments as its
/// records' counts accumulate to.
pub proof fn lemma_tess_len(points: Seq<i64>, controls: Seq<u8>, pi: int, si: int, k: int)
    ensures
        spec_path_tess(points, controls, pi, si, k).len() == if k <= 0 { 0 } else {
            spec_seg_total(controls, si, k)
        },
    decreases k,
{
    if k > 0 {
        lemma_tess_len(points, controls, pi, si, k - 1);
        lemma_totals_grow(controls, si, 0, k - 1);
    }
}

/// Tessellates one path's packed records into straight segments, walking
/// `count` control codes from `si` and their coordinates from `pi`.
/// Returns the segments and their count.
pub fn tessellate_path(
    points: &Vec<i64>,
    controls: &Vec<u8>,
    pi: usize,
    si: usize,
    count: usize,
) -> (r: (Vec<PathSegment>, u32, usize))
    requires
        si + count <= controls@.len(),
        pi + spec_coord_total(controls@, si as int, count as int) <= points@.len(),
        points@.len() <= 0x200_0000,
        controls@.len() <= 0x10_0000,
        forall|k: int| 0 <= k < points@.len()
            ==> -GEOM_LIMIT <= #[trigger] points@[k] <= GEOM_LIMIT,
    ensures
        r.0@ == spec_path_tess(points@, controls@, pi as int, si as int, count as int),
        r.1 as int == spec_seg_total(controls@, si as int, count as int),
        r.2 as int == spec_coord_total(controls@, si as int, count as int),
{
    let mut segs: Vec<PathSegment> = Vec::new();
    let mut seg_count: u32 = 0;
    let mut p: usize = pi;
    let mut k: usize = 0;
    proof {
        lemma_totals_grow(controls@, si as int, 0, count as int);
    }
    while k < count
        invariant
            si + count <= controls@.len(),
            pi + spec_coord_total(controls@, si as int, count as int) <= points@.len(),
            points@.len() <= 0x200_0000,
            controls@.len() <= 0x10_0000,
            forall|q: int| 0 <= q < points@.len()
                ==> -GEOM_LIMIT <= #[trigger] points@[q] <= GEOM_LIMIT,
            k <= count,
            p == pi + spec_coord_total(controls@, si as int, k as int),
            seg_count as int == spec_seg_total(controls@, si as int, k as int),
            segs@ == spec_path_tess(points@, controls@, pi as int, si as int, k as int),
        decreases count - k,
    {
        proof {
            lemma_totals_grow(controls@, si as int, k as int, count as int);
            lemma_totals_grow(controls@, si as int, k + 1, count as int);
        }
        let c = controls[si + k];
        if c == 0 {
            let seg = PathSegment {
                x1: points[p], y1: points[p + 1],
                x2: points[p + 2], y2: points[p + 3],
            };
            segs.push(seg);
            proof {
                assert(segs@ =~= spec_path_tess(points@, controls@, pi as int, si as int, k + 1));
            }
            seg_count = seg_count + 1;
            p = p + 4;
        } else if c == 1 {
            let mut curve = tessellate_curve(
                points[p], points[p + 1],
                points[p + 2], points[p + 3],
                points[p + 4], points[p + 5],
                QUAD_SAMPLES,
            );
            proof {
                assert(curve@ =~= spec_record_segments(points@, p as int, 1u8));
            }
            segs.append(&mut curve);
            seg_count = seg_count + 10;
            p = p + 6;
        } else if c == 2 {
            let mut curve = tessellate_curve(
                points[p], points[p + 1],
                points[p + 6], points[p + 7],
                points[p + 2], points[p + 3],
                CUBIC_SAMPLES,
            );
            proof {
                assert(curve@ =~= spec_record_segments(points@, p as int, 2u8));
            }
            segs.append(&mut curve);
            seg_count = seg_count + 100;
            p = p + 8;
        } else {
            proof {
                assert(spec_record_segments(points@, p as int, controls@[si + k as int])
                    =~= Seq::<PathSegment>::empty());
                assert(segs@ =~= spec_path_tess(points@, controls@, pi as int, si as int, k + 1));
            }
            p = p + 4 + 2 * (c as usize);
        }
        k = k + 1;
    }
    (segs, seg_count, p - pi)
}

/// One flushed batch of 2D geometry: the buffer contents of a single
/// draw.
pub struct LayerDraw {
    pub segments: Vec<PathSegment>,
    pub paths: Vec<PathUniform>,
    pub ellipses: Vec<EllipseUniform>,
}

/// How many bytes one layer draw writes to the GPU buffers.
pub open spec fn spec_layer_bytes(l: LayerDraw) -> int {
    l.segments@.len() * (SEGMENT_BYTES as int)
        + l.paths@.len() * (PATH_UNIFORM_SIZE as int)
        + l.ellipses@.len() * (ELLIPSE_UNIFORM_SIZE as int)
}

/// The uniform an ellipse is drawn with: its extent, fill and transform;
/// while an animation steps, the interpolated pose, otherwise the rest
/// pose.
pub open spec fn spec_ellipse_uniform(e: crate::world::EllipseConfig, animating: bool) -> EllipseUniform {
    EllipseUniform {
        opacity: e.opacity,
        width: e.width,
        height: e.height,
        color: e.fill,
        transform: if animating { e.transform } else {
            Pose2 { scale: e.scale, position: e.position, rotation: e.rotation }
        },
    }
}

/// The uniform a path is drawn with; while an animation steps, the
/// interpolated pose, otherwise the rest pose.
pub open spec fn spec_path_uniform(p: crate::world::PathConfig, animating: bool, segment_count: u32) -> PathUniform {
    PathUniform {
        opacity: p.opacity,
        segments: segment_count,
        color: p.fill,
        bounds: p.bounds,
        transform: if animating { p.transform } else {
            Pose2 { scale: p.scale, position: p.position, rotation: p.rotation }
        },
    }
}

/// All ellipse uniforms the layers write, in order.
pub open spec fn spec_all_ellipses(layers: Seq<LayerDraw>) -> Seq<EllipseUniform>
    decreases layers.len(),
{
    if layers.len() == 0 {
        Seq::empty()
    } else {
        spec_all_ellipses(layers.drop_last()) + layers.last().ellipses@
    }
}

/// All path uniforms the layers write, in order.
pub open spec fn spec_all_paths(layers: Seq<LayerDraw>) -> Seq<PathUniform>
    decreases layers.len(),
{
    if layers.len() == 0 {
        Seq::empty()
    } else {
        spec_all_paths(layers.drop_last()) + layers.last().paths@
    }
}

/// All tessellated segments the layers write, in order.
pub open spec fn spec_all_segments(layers: Seq<LayerDraw>) -> Seq<PathSegment>
    decreases layers.len(),
{
    if layers.len() == 0 {
        Seq::empty()
    } else {
        spec_all_segments(layers.drop_last()) + layers.last().segments@
    }
}

/// Flushing one more layer appends exactly its contents to each flattened
/// stream.
pub proof fn lemma_all_push(layers: Seq<LayerDraw>, l: LayerDraw)
    ensures
        spec_all_ellipses(layers.push(l)) == spec_all_ellipses(layers) + l.ellipses@,
        spec_all_paths(layers.push(l)) == spec_all_paths(layers) + l.paths@,
        spec_all_segments(layers.push(l)) == spec_all_segments(layers) + l.segments@,
{
    assert(layers.push(l).drop_last() =~= layers);
    assert(layers.push(l).last() == l);
}

/// The ellipse uniforms the update phase owes for the first `k` ellipses.
pub open spec fn spec_expected_ellipses(es: Seq<crate::world::EllipseConfig>, animating: bool, k: int)
    -> Seq<EllipseUniform>
    decreases k,
{
    if k <= 0 {
        Seq::empty()
    } else {
        spec_expected_ellipses(es, animating, k - 1).push(spec_ellipse_uniform(es[k - 1], animating))
    }
}

/// How many bytes path `i`'s uniform and tessellated segments need.
pub open spec fn spec_path_bytes(paths: Seq<crate::world::PathConfig>, controls: Seq<u8>, i: int) -> int {
    (PATH_UNIFORM_SIZE as int) + spec_seg_total(
        controls,
        crate::world::segment_offset(paths, i),
        paths[i].path_segments as int) * (SEGMENT_BYTES as int)
}

/// The path uniforms the update phase owes for the first `k` paths: one
/// per path whose footprint fits the batch budget at all; a path too large
/// for any batch is left undrawn rather than overrunning a buffer.
pub open spec fn spec_expected_paths(
    paths: Seq<crate::world::PathConfig>,
    controls: Seq<u8>,
    animating: bool,
    batch: int,
    k: int,
) -> Seq<PathUniform>
    decreases k,
{
    if k <= 0 {
        Seq::empty()
    } else {
        let prev = spec_expected_paths(paths, controls, animating, batch, k - 1);
        if spec_path_bytes(paths, controls, k - 1) <= batch {
            prev.push(spec_path_uniform(
                paths[k - 1],
                animating,
                spec_seg_total(controls, crate::world::segment_offset(paths, k - 1),
                    paths[k - 1].path_segments as int) as u32))
        } else {
            prev
        }
    }
}

/// The tessellated segments the update phase owes for the first `k`
/// paths, with the same inclusion rule as their uniforms.
pub open spec fn spec_expected_segments(
    points: Seq<i64>,
    paths: Seq<crate::world::PathConfig>,
    controls: Seq<u8>,
    batch: int,
    k: int,
) -> Seq<PathSegment>
    decreases k,
{
    if k <= 0 {
        Seq::empty()
    } else {
        let prev = spec_expected_segments(points, paths, controls, batch, k - 1);
        if spec_path_bytes(paths, controls, k - 1) <= batch {
            prev + spec_path_tess(
                points, controls,
                spec_coord_total(controls, 0, crate::world::segment_offset(paths, k - 1)),
                crate::world::segment_offset(paths, k - 1),
                paths[k - 1].path_segments as int)
        } else {
            prev
        }
    }
}

/// The plan of one frame: which uniforms to rewrite and which batched
/// draws to submit, computed from the current world state.
pub struct FramePlan {
    pub camera_3d: Option<Camera3DUniform>,
    pub uniforms_3d: Vec<Uniform3D>,
    pub models: Vec<Model>,
    pub fill_config: Option<FillConfigUniform>,
    pub stroke_config: Option<StrokeConfigUniform>,
    pub layers: Vec<LayerDraw>,
}

/// Whether the entry under this name is a uniform resource.
pub open spec fn lookup_is_uniform(entries: Seq<(String, RenderResource)>, name: Seq<char>) -> bool {
    match spec_lookup(entries, name) {
        Some(r) => r is Uniform,
        None => false,
    }
}

/// Whether the entry under this name is a batch resource.
pub open spec fn lookup_is_batch(entries: Seq<(String, RenderResource)>, name: Seq<char>) -> bool {
    match spec_lookup(entries, name) {
        Some(r) => r is Batch,
        None => false,
    }
}

/// The plan the update phase owes for this graph and this world state:
/// in the 3D domain, the camera uniform (when its resource exists) and a
/// draw-list entry per mesh (when the batch resource exists); otherwise
/// the fill and stroke configurations rewritten from the 2D camera (when
/// their resources exist) and the batched layers, each within the byte
/// budget, whose flattened streams carry every ellipse's uniform and
/// every fitting path's uniform and tessellated segments, in world order.
pub open spec fn spec_plan_of(graph: RenderGraph, world: crate::world::World, plan: FramePlan) -> bool {
    &&& (world.domain is World3D ==> {
        &&& plan.camera_3d == (if lookup_is_uniform(graph.resources@, "camera_3d"@) {
            Some(Camera3DUniform {
                view: world.camera_3d.view,
                projection: world.camera_3d.projection,
            })
        } else {
            None::<Camera3DUniform>
        })
        &&& (lookup_is_batch(graph.resources@, "world_3d"@) ==> {
            &&& plan.uniforms_3d@.len() == world.meshes@.len()
            &&& plan.models@.len() == world.meshes@.len()
            &&& forall|i: int| 0 <= i < world.meshes@.len() ==> {
                &&& (#[trigger] plan.uniforms_3d@[i]).transform == world.meshes@[i].transform
                &&& plan.models@[i].size as int == world.meshes@[i].indices@.len()
                &&& plan.models@[i].material@ == world.meshes@[i].material@
            }
        })
        &&& (!lookup_is_batch(graph.resources@, "world_3d"@)
            ==> plan.uniforms_3d@.len() == 0 && plan.models@.len() == 0)
        &&& plan.fill_config is None
        &&& plan.stroke_config is None
        &&& plan.layers@.len() == 0
    })
    &&& (!(world.domain is World3D) ==> {
        &&& plan.camera_3d is None
        &&& plan.uniforms_3d@.len() == 0
        &&& plan.models@.len() == 0
        &&& plan.fill_config == (if lookup_is_uniform(graph.resources@, "fill_config"@) {
            Some(FillConfigUniform {
                clear: Color { r: 0u8, g: 0u8, b: 0u8 },
                resolution_w: graph.context.width,
                resolution_h: graph.context.height,
                view: world.camera_2d.view,
            })
        } else {
            None::<FillConfigUniform>
        })
        &&& plan.stroke_config == (if lookup_is_uniform(graph.resources@, "stroke_config"@) {
            Some(StrokeConfigUniform {
                resolution_w: graph.context.width,
                resolution_h: graph.context.height,
                view: world.camera_2d.view,
            })
        } else {
            None::<StrokeConfigUniform>
        })
        &&& forall|i: int| 0 <= i < plan.layers@.len()
            ==> spec_layer_bytes(#[trigger] plan.layers@[i]) <= graph.context.batch_size_2d
        &&& spec_all_ellipses(plan.layers@) == spec_expected_ellipses(
            world.ellipses@, world.animating, world.ellipses@.len() as int)
        &&& spec_all_paths(plan.layers@) == spec_expected_paths(
            world.paths@, world.controls@, world.animating,
            graph.context.batch_size_2d as int, world.paths@.len() as int)
        &&& spec_all_segments(plan.layers@) == spec_expected_segments(
            world.points@, world.paths@, world.controls@,
            graph.context.batch_size_2d as int, world.paths@.len() as int)
    })
}

impl RenderGraph {
    /// The update phase of one frame: reads the world and produces the
    /// frame's plan.
    ///
    /// In the 3D domain the camera uniform is rewritten when its resource
    /// exists, and the draw list is rebuilt, one entry per mesh, when the
    /// batch resource exists.  In the 2D domain the fill and stroke
    /// configurations are rewritten from the 2D camera when present, every
    /// ellipse's uniform is emitted, and every path whose footprint fits
    /// the batch budget is tessellated and emitted; geometry is flushed
    /// into a new layer whenever adding an item would push the current one
    /// over the budget, so no single draw ever exceeds it.
    pub fn run(&self, world: &crate::world::World) -> (plan: FramePlan)
        requires
            self.wf(),
            world.wf(),
        ensures
            spec_plan_of(*self, *world, plan),
    {
        match world.domain {
            crate::world::Domain::World3D => {
                let name_camera = "camera_3d".to_owned();
                let camera_3d = match self.resource(&name_camera) {
                    RenderResource::Uniform { .. } => Some(Camera3DUniform {
                        view: world.camera_3d.view,
                        projection: world.camera_3d.projection,
                    }),
                    _ => None,
                };
                let mut uniforms_3d: Vec<Uniform3D> = Vec::new();
                let mut models: Vec<Model> = Vec::new();
                let name_batch = "world_3d".to_owned();
                let is_batch = match self.resource(&name_batch) {
                    RenderResource::Batch { .. } => true,
                    _ => false,
                };
                if is_batch {
                    let n = world.meshes.len();
                    let mut i: usize = 0;
                    while i < n
                        invariant
                            world.wf(),
                            n == world.meshes@.len(),
                            i <= n,
                            uniforms_3d@.len() == i,
                            models@.len() == i,
                            forall|k: int| 0 <= k < i ==> {
                                &&& (#[trigger] uniforms_3d@[k]).transform == world.meshes@[k].transform
                                &&& models@[k].size as int == world.meshes@[k].indices@.len()
                                &&& models@[k].material@ == world.meshes@[k].material@
                            },
                        decreases n - i,
                    {
                        let mesh = &world.meshes[i];
                        uniforms_3d.push(Uniform3D { transform: mesh.transform });
                        models.push(Model {
                            material: clone_string(&mesh.material),
                            size: mesh.indices.len() as u32,
                        });
                        i = i + 1;
                    }
                }
                FramePlan {
                    camera_3d,
                    uniforms_3d,
                    models,
                    fill_config: None,
                    stroke_config: None,
                    layers: Vec::new(),
                }
            },
            _ => {
                let name_fill = "fill_config".to_owned();
                let fill_config = match self.resource(&name_fill) {
                    RenderResource::Uniform { .. } => Some(FillConfigUniform {
                        clear: Color::black(),
                        resolution_w: self.context.width,
                        resolution_h: self.context.height,
                        view: world.camera_2d.view,
                    }),
                    _ => None,
                };
                let name_stroke = "stroke_config".to_owned();
                let stroke_config = match self.resource(&name_stroke) {
                    RenderResource::Uniform { .. } => Some(StrokeConfigUniform {
                        resolution_w: self.context.width,
                        resolution_h: self.context.height,
                        view: world.camera_2d.view,
                    }),
                    _ => None,
                };

                let batch = self.context.batch_size_2d;
                let mut layers: Vec<LayerDraw> = Vec::new();
                let mut cur_segments: Vec<PathSegment> = Vec::new();
                let mut cur_paths: Vec<PathUniform> = Vec::new();
                let mut cur_ellipses: Vec<EllipseUniform> = Vec::new();
                let mut cur_bytes: usize = 0;

                let ne = world.ellipses.len();
                let mut i: usize = 0;
                while i < ne
                    invariant
                        world.wf(),
                        context_wf(self.context),
                        batch == self.context.batch_size_2d,
                        ne == world.ellipses@.len(),
                        i <= ne,
                        cur_bytes == cur_segments@.len() * SEGMENT_BYTES
                            + cur_paths@.len() * PATH_UNIFORM_SIZE
                            + cur_ellipses@.len() * ELLIPSE_UNIFORM_SIZE,
                        cur_bytes <= batch,
                        cur_segments@.len() == 0,
                        cur_paths@.len() == 0,
                        forall|k: int| 0 <= k < layers@.len()
                            ==> spec_layer_bytes(#[trigger] layers@[k]) <= batch,
                        spec_all_ellipses(layers@) + cur_ellipses@
                            == spec_expected_ellipses(world.ellipses@, world.animating, i as int),
                        spec_all_paths(layers@).len() == 0,
                        spec_all_segments(layers@).len() == 0,
                    decreases ne - i,
                {
                    if cur_bytes + ELLIPSE_UNIFORM_SIZE > batch {
                        let flushed = LayerDraw {
                            segments: cur_segments,
                            paths: cur_paths,
                            ellipses: cur_ellipses,
                        };
                        proof {
                            lemma_all_push(layers@, flushed);
                        }
                        layers.push(flushed);
                        cur_segments = Vec::new();
                        cur_paths = Vec::new();
                        cur_ellipses = Vec::new();
                        cur_bytes = 0;
                    }
                    let e = &world.ellipses[i];
                    let pose = if world.animating {
                        e.transform
                    } else {
                        Pose2 { scale: e.scale, position: e.position, rotation: e.rotation }
                    };
                    cur_ellipses.push(EllipseUniform {
                        opacity: e.opacity,
                        width: e.width,
                        height: e.height,
                        color: e.fill,
                        transform: pose,
                    });
                    cur_bytes = cur_bytes + ELLIPSE_UNIFORM_SIZE;
                    i = i + 1;
                }

                let np = world.paths.len();
                let mut seg_off: usize = 0;
                let mut pt_off: usize = 0;
                let mut j: usize = 0;
                proof {
                    crate::world::lemma_offsets_cover(world.paths@);
                    assert(world.paths@.take(0) =~= Seq::<crate::world::PathConfig>::empty());
                }
                while j < np
                    invariant
                        world.wf(),
                        context_wf(self.context),
                        batch == self.context.batch_size_2d,
                        np == world.paths@.len(),
                        j <= np,
                        seg_off == crate::world::segment_offset(world.paths@, j as int),
                        pt_off == spec_coord_total(world.controls@, 0, seg_off as int),
                        seg_off <= world.controls@.len(),
                        pt_off <= world.points@.len(),
                        cur_bytes == cur_segments@.len() * SEGMENT_BYTES
                            + cur_paths@.len() * PATH_UNIFORM_SIZE
                            + cur_ellipses@.len() * ELLIPSE_UNIFORM_SIZE,
                        cur_bytes <= batch,
                        forall|k: int| 0 <= k < layers@.len()
                            ==> spec_layer_bytes(#[trigger] layers@[k]) <= batch,
                        spec_all_ellipses(layers@) + cur_ellipses@
                            == spec_expected_ellipses(world.ellipses@, world.animating,
                                world.ellipses@.len() as int),
                        spec_all_paths(layers@) + cur_paths@ == spec_expected_paths(
                            world.paths@, world.controls@, world.animating,
                            batch as int, j as int),
                        spec_all_segments(layers@) + cur_segments@ == spec_expected_segments(
                            world.points@, world.paths@, world.controls@,
                            batch as int, j as int),
                    decreases np - j,
                {
                    let cfg = world.paths[j];
                    proof {
                        crate::world::lemma_offset_step(world.paths@, j as int);
                        crate::world::lemma_offset_monotonic(world.paths@, j + 1, np as int);
                        crate::world::lemma_offsets_cover(world.paths@);
                        crate::world::lemma_totals_grow(world.controls@, seg_off as int,
                            cfg.path_segments as int, cfg.path_segments as int);
                        crate::world::lemma_totals_split(world.controls@, 0, seg_off as int,
                            cfg.path_segments as int);
                        crate::world::lemma_totals_grow(world.controls@, 0,
                            seg_off + cfg.path_segments,
                            world.controls@.len() as int);
                    }
                    let (mut tess, seg_count, consumed) = tessellate_path(
                        &world.points, &world.controls, pt_off, seg_off, cfg.path_segments);
                    proof {
                        lemma_tess_len(world.points@, world.controls@, pt_off as int,
                            seg_off as int, cfg.path_segments as int);
                    }
                    let path_bytes = PATH_UNIFORM_SIZE + (seg_count as usize) * SEGMENT_BYTES;
                    if path_bytes <= batch {
                        if cur_bytes + path_bytes > batch {
                            let flushed = LayerDraw {
                                segments: cur_segments,
                                paths: cur_paths,
                                ellipses: cur_ellipses,
                            };
                            proof {
                                lemma_all_push(layers@, flushed);
                            }
                            layers.push(flushed);
                            cur_segments = Vec::new();
                            cur_paths = Vec::new();
                            cur_ellipses = Vec::new();
                            cur_bytes = 0;
                        }
                        let pose = if world.animating {
                            cfg.transform
                        } else {
                            Pose2 { scale: cfg.scale, position: cfg.position, rotation: cfg.rotation }
                        };
                        cur_paths.push(PathUniform {
                            opacity: cfg.opacity,
                            segments: seg_count,
                            color: cfg.fill,
                            bounds: cfg.bounds,
                            transform: pose,
                        });
                        cur_segments.append(&mut tess);
                        cur_bytes = cur_bytes + path_bytes;
                    }
                    seg_off = seg_off + cfg.path_segments;
                    pt_off = pt_off + consumed;
                    j = j + 1;
                }

                if cur_bytes > 0 {
                    let flushed = LayerDraw {
                        segments: cur_segments,
                        paths: cur_paths,
                        ellipses: cur_ellipses,
                    };
                    proof {
                        lemma_all_push(layers@, flushed);
                    }
                    layers.push(flushed);
                } else {
                    proof {
                        assert(spec_all_ellipses(layers@) + cur_ellipses@
                            =~= spec_all_ellipses(layers@));
                        assert(spec_all_paths(layers@) + cur_paths@ =~= spec_all_paths(layers@));
                        assert(spec_all_segments(layers@) + cur_segments@
                            =~= spec_all_segments(layers@));
                    }
                }

                FramePlan {
                    camera_3d: None,
                    uniforms_3d: Vec::new(),
                    models: Vec::new(),
                    fill_config,
                    stroke_config,
                    layers,
                }
            },
        }
    }
}

/// A copy of a string.
fn clone_string(s: &String) -> (r: String)
    ensures r@ == s@,
{
    s.clone()
}

/// Takes the three entries of a three-entry list.
fn vec3_split<T>(mut v: Vec<T>) -> (r: (T, T, T))
    requires
        v@.len() == 3,
    ensures
        r.0 == v@[0] && r.1 == v@[1] && r.2 == v@[2],
{
    let c = v.pop().unwrap();
    let b = v.pop().unwrap();
    let a = v.pop().unwrap();
    (a, b, c)
}

/// Takes the single entry of a one-entry list.
fn vec1_split<T>(mut v: Vec<T>) -> (r: (T,))
    requires
        v@.len() == 1,
    ensures
        r.0 == v@[0],
{
    let a = v.pop().unwrap();
    (a,)
}

} // verus!
