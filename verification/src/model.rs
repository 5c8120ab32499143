//! The layout of a loaded scene: what the renderer reads of each mesh and
//! material. The GPU buffers and bind groups themselves stay with the loader,
//! which keeps them in the same order.

use vstd::prelude::*;

verus! {

/// One drawable primitive.
pub struct Mesh {
    pub name: String,
    /// The number of indices in the mesh's index buffer.
    pub index_count: u32,
    /// The position of the mesh's material in the model's material list.
    pub material: usize,
}

/// One material: a bind group and the layout it was made with.
pub struct Material {
    pub name: String,
    /// Identifies the bind-group layout among all layouts of the device.
    pub layout_id: u64,
}

pub struct MeshView {
    pub name: Seq<char>,
    pub index_count: u32,
    pub material: usize,
}

pub struct MaterialView {
    pub name: Seq<char>,
    pub layout_id: u64,
}

impl View for Mesh {
    type V = MeshView;

    open spec fn view(&self) -> MeshView {
        MeshView { name: self.name@, index_count: self.index_count, material: self.material }
    }
}

impl View for Material {
    type V = MaterialView;

    open spec fn view(&self) -> MaterialView {
        MaterialView { name: self.name@, layout_id: self.layout_id }
    }
}

/// The name given to a mesh that the scene file leaves unnamed.
pub open spec fn unnamed_mesh() -> Seq<char> {
    "Unknown"@
}

/// The name given to a material that the scene file leaves unnamed.
pub open spec fn unnamed_material() -> Seq<char> {
    "Default Material"@
}

impl Mesh {
    /// A mesh as the scene file describes it: an unnamed mesh is called
    /// "Unknown", and one without a material uses the first material.
    pub fn new(name: Option<String>, index_count: u32, material: Option<usize>) -> (mesh: Mesh)
        ensures
            mesh@.name == (match name {
                Some(n) => n@,
                None => unnamed_mesh(),
            }),
            mesh@.index_count == index_count,
            mesh@.material == (match material {
                Some(m) => m,
                None => 0usize,
            }),
    {
        let name = match name {
            Some(n) => n,
            None => "Unknown".to_string(),
        };
        let material = match material {
            Some(m) => m,
            None => 0,
        };
        Mesh { name, index_count, material }
    }
}

impl Material {
    /// A material as the scene file describes it: an unnamed material is
    /// called "Default Material".
    pub fn new(name: Option<String>, layout_id: u64) -> (material: Material)
        ensures
            material@.name == (match name {
                Some(n) => n@,
                None => unnamed_material(),
            }),
            material@.layout_id == layout_id,
    {
        let name = match name {
            Some(n) => n,
            None => "Default Material".to_string(),
        };
        Material { name, layout_id }
    }
}

/// Why a scene layout was refused.
#[derive(Debug, Clone, Copy, PartialEq, Eq, Structural)]
pub enum ModelError {
    /// The mesh at this position names a material that the model lacks.
    MissingMaterial { mesh: usize },
}

/// The meshes and materials of one scene, in the loader's order. Every mesh
/// names a material of the model.
pub struct Model {
    meshes: Vec<Mesh>,
    materials: Vec<Material>,
}

/// The mathematical value of a [`Model`].
pub struct ModelView {
    pub meshes: Seq<MeshView>,
    pub materials: Seq<MaterialView>,
}

impl ModelView {
    /// No mesh names a missing material.
    pub open spec fn wf(self) -> bool {
        forall|i: int|
            0 <= i < self.meshes.len() ==> (#[trigger] self.meshes[i]).material < self.materials.len()
    }
}

impl View for Model {
    type V = ModelView;

    closed spec fn view(&self) -> ModelView {
        ModelView {
            meshes: Seq::new(self.meshes@.len(), |i: int| self.meshes@[i]@),
            materials: Seq::new(self.materials@.len(), |i: int| self.materials@[i]@),
        }
    }
}

impl Model {
    /// The invariant of a model: no mesh names a missing material.
    pub open spec fn wf(&self) -> bool {
        self@.wf()
    }

    /// Builds the model, or names the first mesh whose material is missing.
    pub fn new(meshes: Vec<Mesh>, materials: Vec<Material>) -> (result: Result<Model, ModelError>)
        ensures
            result is Ok <==> forall|j: int|
                0 <= j < meshes@.len() ==> (#[trigger] meshes@[j]).material < materials@.len(),
            match result {
                Ok(model) => {
                    &&& model.wf()
                    &&& model@.meshes == meshes@.map_values(|m: Mesh| m@)
                    &&& model@.materials == materials@.map_values(|m: Material| m@)
                },
                Err(ModelError::MissingMaterial { mesh }) => {
                    &&& mesh < meshes@.len()
                    &&& meshes@[mesh as int].material >= materials@.len()
                    &&& forall|j: int| 0 <= j < mesh ==> meshes@[j].material < materials@.len()
                },
            },
    {
        let mut i: usize = 0;
        while i < meshes.len()
            invariant
                i <= meshes.len(),
                forall|j: int| 0 <= j < i ==> meshes@[j].material < materials@.len(),
            decreases meshes.len() - i,
        {
            if meshes[i].material >= materials.len() {
                return Err(ModelError::MissingMaterial { mesh: i });
            }
            i += 1;
        }
        let model = Model { meshes, materials };
        assert(model@.meshes =~= meshes@.map_values(|m: Mesh| m@));
        assert(model@.materials =~= materials@.map_values(|m: Material| m@));
        Ok(model)
    }

    pub fn mesh_count(&self) -> (n: usize)
        ensures
            n == self@.meshes.len(),
    {
        self.meshes.len()
    }

    pub fn material_count(&self) -> (n: usize)
        ensures
            n == self@.materials.len(),
    {
        self.materials.len()
    }

    /// The mesh at `i`, which is one of the model's.
    pub fn mesh_at(&self, i: usize) -> (mesh: &Mesh)
        requires
            i < self@.meshes.len(),
        ensures
            mesh@ == self@.meshes[i as int],
    {
        &self.meshes[i]
    }

    /// The material at `i`, which is one of the model's.
    pub fn material_at(&self, i: usize) -> (material: &Material)
        requires
            i < self@.materials.len(),
        ensures
            material@ == self@.materials[i as int],
    {
        &self.materials[i]
    }

    pub fn mesh(&self, i: usize) -> (mesh: Option<&Mesh>)
        ensures
            match mesh {
                Some(m) => i < self@.meshes.len() && m@ == self@.meshes[i as int],
                None => i >= self@.meshes.len(),
            },
    {
        if i < self.meshes.len() {
            Some(&self.meshes[i])
        } else {
            None
        }
    }

    pub fn material(&self, i: usize) -> (material: Option<&Material>)
        ensures
            match material {
                Some(m) => i < self@.materials.len() && m@ == self@.materials[i as int],
                None => i >= self@.materials.len(),
            },
    {
        if i < self.materials.len() {
            Some(&self.materials[i])
        } else {
            None
        }
    }
}

} // verus!
