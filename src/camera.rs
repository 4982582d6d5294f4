use vstd::prelude::*;
use crate::checked::Checked;
use crate::document::{Document, Index};

verus! {

/// Which projection a camera uses.
#[derive(Clone, Copy, Debug, PartialEq, Eq, Structural)]
pub enum Kind {
    Perspective,
    Orthographic,
}

/// Stored perspective projection properties.
pub struct PerspectiveData {
    /// Optional user-defined name for this object.
    pub name: Option<String>,
}

/// Stored orthographic projection properties.
pub struct OrthographicData {
    /// Optional user-defined name for this object.
    pub name: Option<String>,
}

/// Stored camera: a checked kind and the properties of either projection.
pub struct CameraData {
    /// Optional user-defined name for this object.
    pub name: Option<String>,
    pub kind: Checked<Kind>,
    pub perspective: Option<PerspectiveData>,
    pub orthographic: Option<OrthographicData>,
}

/// Accessor of a stored camera.
pub struct Camera<'a> {
    pub document: &'a Document,
    pub json: &'a CameraData,
}

/// Accessor of stored perspective properties.
pub struct Perspective<'a> {
    pub document: &'a Document,
    pub json: &'a PerspectiveData,
}

/// Accessor of stored orthographic properties.
pub struct Orthographic<'a> {
    pub document: &'a Document,
    pub json: &'a OrthographicData,
}

/// A camera's projection.
pub enum Projection<'a> {
    /// Perspective projection.
    Perspective(Perspective<'a>),
    /// Orthographic projection.
    Orthographic(Orthographic<'a>),
}

/// Whether every index points into the document's cameras.
pub open spec fn in_range(doc: Document, indices: Seq<Index>) -> bool {
    forall|i: int| 0 <= i < indices.len() ==> (#[trigger] indices[i]).value < doc.cameras@.len()
}

impl Document {
    /// Resolves an index to the accessor of the camera it points to.
    pub fn get<'a>(&'a self, index: &Index) -> (r: Camera<'a>)
        requires
            index.value < self.cameras@.len(),
        ensures
            *r.document == *self,
            *r.json == self.cameras@[index.value as int],
    {
        Camera { document: self, json: &self.cameras[index.value as usize] }
    }

    /// Resolves a stored array of indices, in order: one accessor per index.
    pub fn resolve<'a>(&'a self, indices: &Vec<Index>) -> (r: Vec<Camera<'a>>)
        requires
            in_range(*self, indices@),
        ensures
            r@.len() == indices@.len(),
            forall|i: int|
                0 <= i < r@.len() ==> *(#[trigger] r@[i]).json == self.cameras@[indices@[i].value as int]
                    && *r@[i].document == *self,
    {
        let mut r: Vec<Camera<'a>> = Vec::new();
        let mut i: usize = 0;
        while i < indices.len()
            invariant
                i <= indices@.len(),
                in_range(*self, indices@),
                r@.len() == i,
                forall|k: int|
                    0 <= k < i ==> *(#[trigger] r@[k]).json == self.cameras@[indices@[k].value as int]
                        && *r@[k].document == *self,
            decreases indices@.len() - i,
        {
            let c = self.get(&indices[i]);
            r.push(c);
            i = i + 1;
        }
        r
    }
}

impl<'a> Camera<'a> {
    pub fn new(document: &'a Document, json: &'a CameraData) -> (r: Camera<'a>)
        ensures
            *r.document == *document,
            *r.json == *json,
    {
        Camera { document, json }
    }

    /// The camera's kind; the stored kind must have been validated.
    pub fn kind(&self) -> (r: Kind)
        requires
            self.json.kind is Valid,
        ensures
            self.json.kind == Checked::Valid(r),
    {
        match self.json.kind {
            Checked::Valid(k) => k,
            Checked::Invalid => vstd::pervasive::unreached(),
        }
    }

    /// The perspective properties, or `None` when absent.
    pub fn perspective(&self) -> (r: Option<Perspective<'a>>)
        ensures
            match r {
                Some(p) => self.json.perspective == Some(*p.json) && *p.document == *self.document,
                None => self.json.perspective is None,
            },
    {
        match &self.json.perspective {
            Some(json) => Some(Perspective { document: self.document, json }),
            None => None,
        }
    }

    /// The orthographic properties, or `None` when absent.
    pub fn orthographic(&self) -> (r: Option<Orthographic<'a>>)
        ensures
            match r {
                Some(o) => self.json.orthographic == Some(*o.json) && *o.document == *self.document,
                None => self.json.orthographic is None,
            },
    {
        match &self.json.orthographic {
            Some(json) => Some(Orthographic { document: self.document, json }),
            None => None,
        }
    }

    /// Returns the camera's projection properties: those that its kind
    /// selects, which must be present.
    pub fn projection(&self) -> (r: Projection<'a>)
        requires
            self.json.kind is Valid,
            self.json.kind == Checked::Valid(Kind::Perspective) ==> self.json.perspective is Some,
            self.json.kind == Checked::Valid(Kind::Orthographic) ==> self.json.orthographic is Some,
        ensures
            match r {
                Projection::Perspective(p) => self.json.kind == Checked::Valid(Kind::Perspective)
                    && self.json.perspective == Some(*p.json) && *p.document == *self.document,
                Projection::Orthographic(o) => self.json.kind == Checked::Valid(Kind::Orthographic)
                    && self.json.orthographic == Some(*o.json) && *o.document == *self.document,
            },
    {
        match self.kind() {
            Kind::Perspective => match &self.json.perspective {
                Some(json) => Projection::Perspective(Perspective { document: self.document, json }),
                None => vstd::pervasive::unreached(),
            },
            Kind::Orthographic => match &self.json.orthographic {
                Some(json) => Projection::Orthographic(Orthographic { document: self.document, json }),
                None => vstd::pervasive::unreached(),
            },
        }
    }
}

} // verus!
