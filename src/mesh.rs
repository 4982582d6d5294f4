use vstd::prelude::*;
use crate::checked::Checked;
use crate::document::{Document, Index};
use crate::semantic::Semantic;

verus! {

/// Stored accessor: a typed view into a buffer.
pub struct AccessorData {
    /// Optional user-defined name for this object.
    pub name: Option<String>,
    /// The number of elements that the accessor refers to.
    pub count: u32,
}

/// Stored primitive: its vertex attributes, each a checked semantic name
/// and the index of the accessor that holds the attribute's data, in the
/// order in which they were first set. Well-formed when no two attributes
/// share a semantic name (see `PrimitiveData::wf`).
pub struct PrimitiveData {
    pub attributes: Vec<(Checked<Semantic>, Index)>,
}

/// Accessor of a stored accessor.
pub struct Accessor<'a> {
    pub document: &'a Document,
    pub json: &'a AccessorData,
}

/// Accessor of a stored primitive.
pub struct Primitive<'a> {
    pub document: &'a Document,
    pub json: &'a PrimitiveData,
}

/// The vertex attributes of a primitive, visited by position.
pub struct Attributes<'a> {
    /// The parent document.
    pub document: &'a Document,
    /// The stored attributes.
    pub items: &'a Vec<(Checked<Semantic>, Index)>,
}

/// An attribute: its semantic and the accessor of its data.
pub type Attribute<'a> = (Semantic, Accessor<'a>);

/// Whether the attribute at `i` has a recognised semantic and an accessor
/// index inside the document.
pub open spec fn resolvable(doc: Document, items: Seq<(Checked<Semantic>, Index)>, i: int) -> bool {
    &&& items[i].0 is Valid
    &&& items[i].1.value < doc.accessors@.len()
}

/// No two attributes share a semantic name.
pub open spec fn keys_unique(items: Seq<(Checked<Semantic>, Index)>) -> bool {
    forall|i: int, j: int|
        0 <= i < items.len() && 0 <= j < items.len() && i != j ==> #[trigger] items[i].0
            != #[trigger] items[j].0
}

/// Whether an attribute with semantic `key` is stored.
pub open spec fn has_key(items: Seq<(Checked<Semantic>, Index)>, key: Checked<Semantic>) -> bool {
    exists|i: int| 0 <= i < items.len() && #[trigger] items[i].0 == key
}

fn key_eq(a: &Checked<Semantic>, b: &Checked<Semantic>) -> (r: bool)
    ensures
        r == (*a == *b),
{
    match (a, b) {
        (Checked::Valid(x), Checked::Valid(y)) => *x == *y,
        (Checked::Invalid, Checked::Invalid) => true,
        _ => false,
    }
}

impl PrimitiveData {
    pub open spec fn wf(&self) -> bool {
        keys_unique(self.attributes@)
    }

    /// A primitive without attributes.
    pub fn new() -> (r: PrimitiveData)
        ensures
            r.wf(),
            r.attributes@.len() == 0,
    {
        PrimitiveData { attributes: Vec::new() }
    }

    /// Sets the accessor of the attribute `key`: an existing attribute with
    /// that semantic keeps its place and takes the new index, otherwise the
    /// attribute is added at the end.
    pub fn insert(&mut self, key: Checked<Semantic>, index: Index)
        requires
            old(self).wf(),
        ensures
            final(self).wf(),
            has_key(old(self).attributes@, key) ==> exists|i: int|
                0 <= i < old(self).attributes@.len() && old(self).attributes@[i].0 == key
                    && final(self).attributes@ == old(self).attributes@.update(i, (key, index)),
            !has_key(old(self).attributes@, key) ==> final(self).attributes@
                == old(self).attributes@.push((key, index)),
    {
        let mut i: usize = 0;
        while i < self.attributes.len()
            invariant
                i <= self.attributes@.len(),
                self.attributes@ == old(self).attributes@,
                keys_unique(old(self).attributes@),
                forall|k: int| 0 <= k < i ==> self.attributes@[k].0 != key,
            decreases self.attributes@.len() - i,
        {
            if key_eq(&self.attributes[i].0, &key) {
                self.attributes.set(i, (key, index));
                proof {
                    assert(old(self).attributes@[i as int].0 == key);
                    assert(forall|k: int| 0 <= k < self.attributes@.len() && k != i ==> #[trigger] self.attributes@[k]
                        == old(self).attributes@[k]);
                    let a = self.attributes@;
                    let o = old(self).attributes@;
                    assert forall|x: int, y: int|
                        0 <= x < a.len() && 0 <= y < a.len() && x != y implies #[trigger] a[x].0
                            != #[trigger] a[y].0 by {
                        if x == i {
                            assert(o[y].0 != o[i as int].0);
                        } else if y == i {
                            assert(o[x].0 != o[i as int].0);
                        } else {
                            assert(o[x].0 != o[y].0);
                        }
                    }
                }
                return;
            }
            i = i + 1;
        }
        self.attributes.push((key, index));
    }
}

impl<'a> Primitive<'a> {
    /// The primitive's vertex attributes.
    pub fn attributes(&self) -> (r: Attributes<'a>)
        ensures
            *r.document == *self.document,
            *r.items == self.json.attributes,
    {
        Attributes { document: self.document, items: &self.json.attributes }
    }
}

impl<'a> Attributes<'a> {
    /// The number of attributes.
    pub fn len(&self) -> (r: usize)
        ensures
            r == self.items@.len(),
    {
        self.items.len()
    }

    /// The attribute at position `i`: its semantic, unwrapped, and the
    /// accessor that its index resolves to.
    pub fn nth(&self, i: usize) -> (r: Attribute<'a>)
        requires
            i < self.items@.len(),
            resolvable(*self.document, self.items@, i as int),
        ensures
            self.items@[i as int].0 == Checked::Valid(r.0),
            *r.1.json == self.document.accessors@[self.items@[i as int].1.value as int],
            *r.1.document == *self.document,
    {
        let (key, index) = &self.items[i];
        let semantic = match key {
            Checked::Valid(s) => *s,
            Checked::Invalid => vstd::pervasive::unreached(),
        };
        let accessor = Accessor {
            document: self.document,
            json: &self.document.accessors[index.value as usize],
        };
        (semantic, accessor)
    }
}

} // verus!
