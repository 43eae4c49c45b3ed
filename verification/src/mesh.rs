//! Meshes as the renderer sees them: submeshes with their index lists and
//! materials, built from what a scene importer hands over.

use vstd::prelude::*;
use vstd::string::*;

use crate::commands::{per_frame_set, stage_pipeline, BoundSets, Command, CommandBuilder, DescriptorSetRef};
use crate::commands::{PipelineKind, Recording, Stage, VertexSource};
use crate::resources::Sampler;
use crate::texture::get_descriptor_set;

verus! {

/// Texture payload carried inside a scene file.
#[derive(Debug, PartialEq, Eq)]
pub enum TextureData {
    /// Already decoded texels.
    Texel,
    /// An encoded image file.
    Bytes(Vec<u8>),
}

/// A texture reference of an imported material.
#[derive(Debug, PartialEq, Eq)]
pub struct ImportedTexture {
    /// Path relative to the scene file; empty when the texture is embedded.
    pub path: String,
    /// Encoding of an embedded texture, such as `png`.
    pub format_hint: String,
    pub data: Option<TextureData>,
}

/// An imported material. Only the base colour is used.
#[derive(Debug, PartialEq, Eq)]
pub struct ImportedMaterial {
    /// The first base-colour texture, if the material has any.
    pub base_color: Option<ImportedTexture>,
}

/// One submesh as imported. Vertex attributes stay with the importer; the
/// renderer needs their counts and the faces.
#[derive(Debug, PartialEq, Eq)]
pub struct ImportedMesh {
    pub vertex_count: usize,
    pub normal_count: usize,
    /// Size of the first texture-coordinate channel, if there is one.
    pub tex_coord_count: Option<usize>,
    /// Vertex indices of each face.
    pub faces: Vec<Vec<u32>>,
    pub material_index: u32,
}

/// An imported scene.
#[derive(Debug, PartialEq, Eq)]
pub struct ImportedScene {
    pub meshes: Vec<ImportedMesh>,
    pub materials: Vec<ImportedMaterial>,
}

/// Why a scene cannot be rendered.
#[derive(Clone, Copy, Debug, PartialEq, Eq, Structural)]
pub enum LoadError {
    /// A submesh names a material that the scene does not have.
    MissingMaterial,
    /// An embedded texture is not PNG encoded.
    UnsupportedTextureFormat,
    /// An embedded texture has no payload.
    MissingTextureData,
    /// An embedded texture holds raw texels.
    TexelDataUnsupported,
    /// A face has fewer than three vertices.
    MalformedFace,
    /// A submesh has more indices than one draw can cover.
    TooManyIndices,
    /// A submesh has no texture coordinates.
    MissingTexCoords,
}

/// Where the base-colour texture of a material comes from.
#[derive(Debug, PartialEq, Eq)]
pub enum TextureSource {
    /// A file next to the scene.
    File { path: String },
    /// An encoded image carried by the scene.
    Embedded { bytes: Vec<u8> },
    /// The texture used when a material has none of its own.
    Fallback,
}

/// Mathematical form of [`TextureSource`].
pub enum TextureSourceView {
    File { path: Seq<char> },
    Embedded { bytes: Seq<u8> },
    Fallback,
}

impl View for TextureSource {
    type V = TextureSourceView;

    open spec fn view(&self) -> TextureSourceView {
        match self {
            TextureSource::File { path } => TextureSourceView::File { path: path@ },
            TextureSource::Embedded { bytes } => TextureSourceView::Embedded { bytes: bytes@ },
            TextureSource::Fallback => TextureSourceView::Fallback,
        }
    }
}

/// The descriptor set of a material: one texture with its sampler, bound at
/// binding 0.
#[derive(Debug, PartialEq, Eq)]
pub struct MaterialSet {
    pub texture: TextureSource,
    pub sampler: Sampler,
}

/// Mathematical form of [`MaterialSet`].
pub struct MaterialSetView {
    pub texture: TextureSourceView,
    pub sampler: Sampler,
}

impl View for MaterialSet {
    type V = MaterialSetView;

    open spec fn view(&self) -> MaterialSetView {
        MaterialSetView { texture: self.texture@, sampler: self.sampler }
    }
}

/// A material ready for drawing.
#[derive(Debug, PartialEq, Eq)]
pub struct Material {
    pub uniform_set: Option<MaterialSet>,
}

impl View for Material {
    type V = Option<MaterialSetView>;

    open spec fn view(&self) -> Option<MaterialSetView> {
        match self.uniform_set {
            Some(set) => Some(set@),
            None => None,
        }
    }
}

/// One submesh ready for drawing.
#[derive(Debug, PartialEq, Eq)]
pub struct MeshBuffer {
    pub vertex_count: usize,
    pub normal_count: usize,
    pub tex_coord_count: usize,
    pub indices: Vec<u32>,
    pub material: Material,
}

/// Mathematical form of [`MeshBuffer`].
pub struct MeshBufferView {
    pub vertex_count: usize,
    pub normal_count: usize,
    pub tex_coord_count: usize,
    pub indices: Seq<u32>,
    pub material: Option<MaterialSetView>,
}

impl View for MeshBuffer {
    type V = MeshBufferView;

    open spec fn view(&self) -> MeshBufferView {
        MeshBufferView {
            vertex_count: self.vertex_count,
            normal_count: self.normal_count,
            tex_coord_count: self.tex_coord_count,
            indices: self.indices@,
            material: self.material@,
        }
    }
}

impl MeshBufferView {
    /// A submesh can be drawn when it has a material set and one draw call
    /// can cover its indices.
    pub open spec fn drawable(self) -> bool {
        self.material is Some && self.indices.len() <= u32::MAX
    }
}

/// A mesh: its submeshes in the order of the scene file.
#[derive(Debug, PartialEq, Eq)]
pub struct Mesh {
    pub mesh_buffers: Vec<MeshBuffer>,
    pub materials: Vec<Material>,
}

/// The texture that `texture` asks for, with `base_dir` in front of relative
/// paths, or the reason why it cannot be used.
pub open spec fn texture_choice(texture: Option<ImportedTexture>, base_dir: Seq<char>) -> Result<
    TextureSourceView,
    LoadError,
> {
    match texture {
        None => Ok(TextureSourceView::Fallback),
        Some(texture) => if texture.path@.len() != 0 {
            Ok(TextureSourceView::File { path: base_dir + texture.path@ })
        } else if texture.format_hint@ != "png"@ {
            Err(LoadError::UnsupportedTextureFormat)
        } else {
            match texture.data {
                None => Err(LoadError::MissingTextureData),
                Some(TextureData::Texel) => Err(LoadError::TexelDataUnsupported),
                Some(TextureData::Bytes(bytes)) => Ok(TextureSourceView::Embedded { bytes: bytes@ }),
            }
        },
    }
}

/// The material that an imported material becomes.
pub open spec fn material_of(material: ImportedMaterial, base_dir: Seq<char>) -> Result<
    Option<MaterialSetView>,
    LoadError,
> {
    match texture_choice(material.base_color, base_dir) {
        Ok(texture) => Ok(Some(MaterialSetView { texture, sampler: crate::texture::default_sampler() })),
        Err(e) => Err(e),
    }
}

/// Chooses the base-colour texture of a material and wraps it in the
/// material's descriptor set. A material without a base-colour texture gets
/// the fallback texture, never an empty set.
pub fn load_material(material: &ImportedMaterial, base_dir: &str) -> (result: Result<
    Material,
    LoadError,
>)
    ensures
        match result {
            Ok(loaded) => Ok::<Option<MaterialSetView>, LoadError>(loaded@),
            Err(e) => Err(e),
        } == material_of(*material, base_dir@),
        material.base_color is None ==> result is Ok && result.unwrap()@ == Some(
            MaterialSetView {
                texture: TextureSourceView::Fallback,
                sampler: crate::texture::default_sampler(),
            },
        ),
{
    let source = match &material.base_color {
        None => TextureSource::Fallback,
        Some(texture) => {
            if !texture.path.as_str().is_empty() {
                let path = base_dir.to_owned().concat(texture.path.as_str());
                TextureSource::File { path }
            } else {
                let png = "png".to_owned();
                if !(texture.format_hint == png) {
                    return Err(LoadError::UnsupportedTextureFormat);
                }
                match &texture.data {
                    None => {
                        return Err(LoadError::MissingTextureData);
                    },
                    Some(TextureData::Texel) => {
                        return Err(LoadError::TexelDataUnsupported);
                    },
                    Some(TextureData::Bytes(bytes)) => TextureSource::Embedded { bytes: bytes.clone() },
                }
            }
        },
    };
    Ok(Material { uniform_set: Some(get_descriptor_set(source)) })
}

/// The index list of a submesh: the first three vertex indices of each face,
/// face after face.
pub open spec fn face_indices(faces: Seq<Vec<u32>>) -> Seq<u32> {
    Seq::new(3 * faces.len(), |k: int| faces[k / 3]@[k % 3])
}

/// Whether every face has at least the three vertices of a triangle.
pub open spec fn triangulated(faces: Seq<Vec<u32>>) -> bool {
    forall|f: int| 0 <= f < faces.len() ==> (#[trigger] faces[f])@.len() >= 3
}

/// Flattens faces into one index list. Fails with `TooManyIndices` when the
/// list would not fit one draw call, else with `MalformedFace` when a face is
/// not a triangle.
pub fn triangle_indices(faces: &Vec<Vec<u32>>) -> (result: Result<Vec<u32>, LoadError>)
    ensures
        3 * faces@.len() > u32::MAX ==> result == Err::<Vec<u32>, LoadError>(LoadError::TooManyIndices),
        3 * faces@.len() <= u32::MAX && !triangulated(faces@) ==> result == Err::<Vec<u32>, LoadError>(
            LoadError::MalformedFace,
        ),
        3 * faces@.len() <= u32::MAX && triangulated(faces@) ==> result is Ok && result.unwrap()@
            == face_indices(faces@),
{
    if faces.len() > 0x5555_5555 {
        return Err(LoadError::TooManyIndices);
    }
    let mut indices: Vec<u32> = Vec::new();
    let mut f: usize = 0;
    while f < faces.len()
        invariant
            f <= faces@.len() <= 0x5555_5555,
            indices@.len() == 3 * f,
            forall|g: int| 0 <= g < f ==> (#[trigger] faces@[g])@.len() >= 3,
            forall|k: int| 0 <= k < 3 * f ==> indices@[k] == faces@[k / 3]@[k % 3],
        decreases faces@.len() - f,
    {
        let face = &faces[f];
        if face.len() < 3 {
            return Err(LoadError::MalformedFace);
        }
        indices.push(face[0]);
        indices.push(face[1]);
        indices.push(face[2]);
        f += 1;
    }
    Ok(indices)
}

/// What submesh `i` of `scene` becomes, or the first reason why it cannot
/// be drawn.
pub open spec fn submesh_of(scene: ImportedScene, base_dir: Seq<char>, i: int) -> Result<
    MeshBufferView,
    LoadError,
> {
    let mesh = scene.meshes@[i];
    if mesh.material_index >= scene.materials@.len() {
        Err(LoadError::MissingMaterial)
    } else {
        match material_of(scene.materials@[mesh.material_index as int], base_dir) {
            Err(e) => Err(e),
            Ok(material) => if 3 * mesh.faces@.len() > u32::MAX {
                Err(LoadError::TooManyIndices)
            } else if !triangulated(mesh.faces@) {
                Err(LoadError::MalformedFace)
            } else {
                match mesh.tex_coord_count {
                    None => Err(LoadError::MissingTexCoords),
                    Some(tex_coord_count) => Ok(
                        MeshBufferView {
                            vertex_count: mesh.vertex_count,
                            normal_count: mesh.normal_count,
                            tex_coord_count,
                            indices: face_indices(mesh.faces@),
                            material,
                        },
                    ),
                }
            },
        }
    }
}

/// Builds the renderer's mesh from an imported scene. Submeshes keep the
/// order of the scene. The first submesh that cannot be drawn decides the
/// error.
pub fn load_gltf(scene: &ImportedScene, base_dir: &str) -> (result: Result<Mesh, LoadError>)
    ensures
        match result {
            Ok(mesh) => {
                &&& mesh.buffers().len() == scene.meshes@.len()
                &&& forall|i: int|
                    0 <= i < scene.meshes@.len() ==> submesh_of(*scene, base_dir@, i) == Ok::<
                        MeshBufferView,
                        LoadError,
                    >(#[trigger] mesh.buffers()[i])
                &&& mesh.materials@.len() == 0
                &&& mesh.drawable()
            },
            Err(e) => exists|k: int|
                {
                    &&& 0 <= k < scene.meshes@.len()
                    &&& #[trigger] submesh_of(*scene, base_dir@, k) == Err::<MeshBufferView, LoadError>(e)
                    &&& forall|j: int| 0 <= j < k ==> (#[trigger] submesh_of(*scene, base_dir@, j)) is Ok
                },
        },
{
    let mut mesh_buffers: Vec<MeshBuffer> = Vec::new();
    let mut i: usize = 0;
    while i < scene.meshes.len()
        invariant
            i <= scene.meshes@.len(),
            mesh_buffers@.len() == i,
            forall|j: int|
                0 <= j < i ==> submesh_of(*scene, base_dir@, j) == Ok::<MeshBufferView, LoadError>(
                    (#[trigger] mesh_buffers@[j])@,
                ),
            forall|j: int| 0 <= j < i ==> (#[trigger] mesh_buffers@[j])@.drawable(),
            forall|j: int| 0 <= j < i ==> (#[trigger] submesh_of(*scene, base_dir@, j)) is Ok,
        decreases scene.meshes@.len() - i,
    {
        let mesh = &scene.meshes[i];
        let material_index = mesh.material_index as usize;
        if material_index >= scene.materials.len() {
            return Err(LoadError::MissingMaterial);
        }
        let material = match load_material(&scene.materials[material_index], base_dir) {
            Ok(material) => material,
            Err(e) => {
                return Err(e);
            },
        };
        let indices = match triangle_indices(&mesh.faces) {
            Ok(indices) => indices,
            Err(e) => {
                return Err(e);
            },
        };
        let tex_coord_count = match mesh.tex_coord_count {
            Some(count) => count,
            None => {
                return Err(LoadError::MissingTexCoords);
            },
        };
        let mesh_buffer = MeshBuffer {
            vertex_count: mesh.vertex_count,
            normal_count: mesh.normal_count,
            tex_coord_count,
            indices,
            material,
        };
        assert(submesh_of(*scene, base_dir@, i as int) == Ok::<MeshBufferView, LoadError>(mesh_buffer@));
        mesh_buffers.push(mesh_buffer);
        i += 1;
    }
    let mesh = Mesh { mesh_buffers, materials: Vec::new() };
    assert forall|j: int| 0 <= j < scene.meshes@.len() implies submesh_of(*scene, base_dir@, j) == Ok::<
        MeshBufferView,
        LoadError,
    >(#[trigger] mesh.buffers()[j]) by {
    }
    Ok(mesh)
}

impl Mesh {
    /// The submeshes in drawing order.
    pub open spec fn buffers(&self) -> Seq<MeshBufferView> {
        Seq::new(self.mesh_buffers@.len(), |i: int| self.mesh_buffers@[i]@)
    }

    /// Every submesh can be drawn.
    pub open spec fn drawable(&self) -> bool {
        forall|i: int| 0 <= i < self.mesh_buffers@.len() ==> (#[trigger] self.mesh_buffers@[i])@.drawable()
    }

    /// Whether every submesh can be drawn.
    pub fn is_drawable(&self) -> (drawable: bool)
        ensures
            drawable == self.drawable(),
    {
        let mut i: usize = 0;
        while i < self.mesh_buffers.len()
            invariant
                i <= self.mesh_buffers@.len(),
                forall|j: int| 0 <= j < i ==> (#[trigger] self.mesh_buffers@[j])@.drawable(),
            decreases self.mesh_buffers@.len() - i,
        {
            let mesh_buffer = &self.mesh_buffers[i];
            if mesh_buffer.material.uniform_set.is_none() || mesh_buffer.indices.len() > 0xffff_ffff {
                return false;
            }
            i += 1;
        }
        true
    }

    /// Records the draws of all submeshes, in the order of the mesh: for each
    /// submesh its material is bound next to `general_set`, then its vertex
    /// buffers and its index buffer, and all of its indices are drawn.
    pub fn render(&self, builder: &mut CommandBuilder, pipeline: PipelineKind, general_set: DescriptorSetRef)
        requires
            old(builder).well_formed(),
            old(builder).current().stage == Stage::Geometry || old(builder).current().stage
                == Stage::ShadowMap,
            old(builder).current().viewport,
            old(builder).current().pipeline == Some(pipeline),
            stage_pipeline(old(builder).current().stage) == Some(pipeline),
            general_set == per_frame_set(pipeline),
            self.drawable(),
        ensures
            final(builder).well_formed(),
            final(builder).current() == after_draws(
                old(builder).current(),
                general_set,
                self.mesh_buffers@.len(),
            ),
            final(builder).recorded() == old(builder).recorded() + draw_commands(
                self.buffers(),
                pipeline,
                general_set,
                self.mesh_buffers@.len(),
            ),
    {
        let mut i: usize = 0;
        while i < self.mesh_buffers.len()
            invariant
                i <= self.mesh_buffers@.len(),
                self.drawable(),
                builder.well_formed(),
                old(builder).current().stage == Stage::Geometry || old(builder).current().stage
                    == Stage::ShadowMap,
                old(builder).current().viewport,
                old(builder).current().pipeline == Some(pipeline),
                stage_pipeline(old(builder).current().stage) == Some(pipeline),
                general_set == per_frame_set(pipeline),
                builder.current() == after_draws(old(builder).current(), general_set, i as nat),
                builder.recorded() == old(builder).recorded() + draw_commands(
                    self.buffers(),
                    pipeline,
                    general_set,
                    i as nat,
                ),
            decreases self.mesh_buffers@.len() - i,
        {
            let mesh_buffer = &self.mesh_buffers[i];
            let index_count: u32 = mesh_buffer.indices.len() as u32;
            builder.record(
                Command::BindDescriptorSets {
                    pipeline,
                    first: general_set,
                    second: Some(DescriptorSetRef::Material { submesh: i }),
                },
            );
            builder.record(Command::BindVertexBuffers { source: VertexSource::Submesh { submesh: i } });
            builder.record(Command::BindIndexBuffer { submesh: i });
            builder.record(Command::DrawIndexed { index_count, instance_count: 1 });
            i += 1;
        }
    }
}

/// The state of a recording after the first `n` submeshes were drawn from
/// `state`: what the last of them bound stays bound.
pub open spec fn after_draws(state: Recording, general_set: DescriptorSetRef, n: nat) -> Recording {
    if n == 0 {
        state
    } else {
        Recording {
            sets: Some(
                BoundSets {
                    first: general_set,
                    second: Some(DescriptorSetRef::Material { submesh: (n - 1) as usize }),
                },
            ),
            vertices: Some(VertexSource::Submesh { submesh: (n - 1) as usize }),
            indices: Some((n - 1) as usize),
            ..state
        }
    }
}

/// The commands that draw submesh `i`, which has `index_count` indices.
pub open spec fn submesh_commands(
    pipeline: PipelineKind,
    general_set: DescriptorSetRef,
    i: int,
    index_count: nat,
) -> Seq<Command> {
    seq![
        Command::BindDescriptorSets {
            pipeline,
            first: general_set,
            second: Some(DescriptorSetRef::Material { submesh: i as usize }),
        },
        Command::BindVertexBuffers { source: VertexSource::Submesh { submesh: i as usize } },
        Command::BindIndexBuffer { submesh: i as usize },
        Command::DrawIndexed { index_count: index_count as u32, instance_count: 1 },
    ]
}

/// The commands that draw the first `n` submeshes.
pub open spec fn draw_commands(
    buffers: Seq<MeshBufferView>,
    pipeline: PipelineKind,
    general_set: DescriptorSetRef,
    n: nat,
) -> Seq<Command>
    decreases n,
{
    if n == 0 {
        Seq::empty()
    } else {
        draw_commands(buffers, pipeline, general_set, (n - 1) as nat) + submesh_commands(
            pipeline,
            general_set,
            n - 1,
            buffers[n - 1].indices.len(),
        )
    }
}

/// Draw order is submesh order: four commands per submesh, and the draw of
/// submesh `i` is the one that covers all of its indices.
pub proof fn lemma_draw_order(
    buffers: Seq<MeshBufferView>,
    pipeline: PipelineKind,
    general_set: DescriptorSetRef,
    n: nat,
    i: int,
)
    requires
        0 <= i < n <= buffers.len(),
    ensures
        draw_commands(buffers, pipeline, general_set, n).len() == 4 * n,
        draw_commands(buffers, pipeline, general_set, n).subrange(4 * i, 4 * i + 4) == submesh_commands(
            pipeline,
            general_set,
            i,
            buffers[i].indices.len(),
        ),
    decreases n,
{
    let all = draw_commands(buffers, pipeline, general_set, n);
    let head = draw_commands(buffers, pipeline, general_set, (n - 1) as nat);
    let tail = submesh_commands(pipeline, general_set, n - 1, buffers[n - 1].indices.len());
    lemma_draw_count(buffers, pipeline, general_set, n);
    lemma_draw_count(buffers, pipeline, general_set, (n - 1) as nat);
    if i == n - 1 {
    } else {
        lemma_draw_order(buffers, pipeline, general_set, (n - 1) as nat, i);
    }
}

/// Four commands are recorded for each submesh.
pub proof fn lemma_draw_count(
    buffers: Seq<MeshBufferView>,
    pipeline: PipelineKind,
    general_set: DescriptorSetRef,
    n: nat,
)
    ensures
        draw_commands(buffers, pipeline, general_set, n).len() == 4 * n,
    decreases n,
{
    if n > 0 {
        lemma_draw_count(buffers, pipeline, general_set, (n - 1) as nat);
    }
}

} // verus!
