//! Type references: the types a definition mentions, as written. Nothing is
//! resolved here; a later pass turns each reference into a type.

use crate::name::Name;
use mun_syntax::SyntaxNodePtr;
use vstd::prelude::*;

verus! {

/// A mention of a type, as the source wrote it.
#[derive(Debug, PartialEq, Eq, Hash)]
pub enum TypeRef {
    /// A type given by name.
    Path(Name),
    /// An array of the inner type.
    Array(Box<TypeRef>),
    /// The type of what never returns.
    Never,
    /// The unit type: what a function without a return type returns.
    Unit,
    /// No type was written where one belongs.
    Error,
}

impl Clone for TypeRef {
    fn clone(&self) -> (copy: Self)
        ensures
            copy == *self,
        decreases self,
    {
        match self {
            TypeRef::Path(name) => TypeRef::Path(name.clone()),
            TypeRef::Array(inner) => {
                let element: &TypeRef = &**inner;
                TypeRef::Array(Box::new(element.clone()))
            },
            TypeRef::Never => TypeRef::Never,
            TypeRef::Unit => TypeRef::Unit,
            TypeRef::Error => TypeRef::Error,
        }
    }
}

/// A type as it is written in the source: the reference and where it stands.
#[derive(Debug, PartialEq, Eq, Hash)]
pub struct TypeAnnotation {
    pub type_ref: TypeRef,
    pub ptr: SyntaxNodePtr,
}

/// The number of a slot in a [`TypeRefMap`].
#[derive(Debug, Clone, Copy, PartialEq, Eq, Hash, Structural)]
pub struct LocalTypeRefId(pub usize);

/// The type references of one definition, by slot.
#[derive(Debug, PartialEq, Eq)]
pub struct TypeRefMap {
    type_refs: Vec<TypeRef>,
}

impl View for TypeRefMap {
    type V = Seq<TypeRef>;

    closed spec fn view(&self) -> Seq<TypeRef> {
        self.type_refs@
    }
}

impl TypeRefMap {
    /// The number of slots.
    pub fn len(&self) -> (n: usize)
        ensures
            n == self@.len(),
    {
        self.type_refs.len()
    }

    /// The reference in slot `id`.
    pub fn get(&self, id: LocalTypeRefId) -> (type_ref: &TypeRef)
        requires
            id.0 < self@.len(),
        ensures
            *type_ref == self@[id.0 as int],
    {
        &self.type_refs[id.0]
    }
}

/// Where each slot of a [`TypeRefMap`] was written. A slot that stands for a
/// type nobody wrote (the unit sentinel, the marker of a missing type) has no
/// place in the source.
#[derive(Debug, PartialEq, Eq)]
pub struct TypeRefSourceMap {
    ptrs: Vec<Option<SyntaxNodePtr>>,
}

impl View for TypeRefSourceMap {
    type V = Seq<Option<SyntaxNodePtr>>;

    closed spec fn view(&self) -> Seq<Option<SyntaxNodePtr>> {
        self.ptrs@
    }
}

impl TypeRefSourceMap {
    /// The number of slots.
    pub fn len(&self) -> (n: usize)
        ensures
            n == self@.len(),
    {
        self.ptrs.len()
    }

    /// Where slot `id` was written, if it was written; `None` also for a slot
    /// the map does not have.
    pub fn type_ref_syntax(&self, id: LocalTypeRefId) -> (ptr: Option<SyntaxNodePtr>)
        ensures
            ptr == if id.0 < self@.len() {
                self@[id.0 as int]
            } else {
                None
            },
    {
        if id.0 < self.ptrs.len() {
            match &self.ptrs[id.0] {
                Some(ptr) => Some(ptr.clone()),
                None => None,
            }
        } else {
            None
        }
    }
}

/// What a slot holds for an annotation that may be missing.
pub open spec fn slot_type(annotation: Option<TypeAnnotation>) -> TypeRef {
    match annotation {
        Some(a) => a.type_ref,
        None => TypeRef::Error,
    }
}

/// Where the slot of an annotation that may be missing was written.
pub open spec fn slot_syntax(annotation: Option<TypeAnnotation>) -> Option<SyntaxNodePtr> {
    match annotation {
        Some(a) => Some(a.ptr),
        None => None,
    }
}

/// Collects the type references of one definition, slot by slot, together with
/// the places they were written.
pub struct TypeRefBuilder {
    map: TypeRefMap,
    source_map: TypeRefSourceMap,
}

impl TypeRefBuilder {
    /// The references allocated so far.
    pub closed spec fn type_refs(&self) -> Seq<TypeRef> {
        self.map@
    }

    /// The places of the references allocated so far.
    pub closed spec fn sources(&self) -> Seq<Option<SyntaxNodePtr>> {
        self.source_map@
    }

    /// Every slot has an entry in both maps.
    pub closed spec fn wf(&self) -> bool {
        self.map@.len() == self.source_map@.len()
    }

    /// A builder without slots.
    pub fn new() -> (builder: TypeRefBuilder)
        ensures
            builder.wf(),
            builder.type_refs() == Seq::<TypeRef>::empty(),
            builder.sources() == Seq::<Option<SyntaxNodePtr>>::empty(),
    {
        TypeRefBuilder {
            map: TypeRefMap { type_refs: Vec::new() },
            source_map: TypeRefSourceMap { ptrs: Vec::new() },
        }
    }

    fn alloc_slot(&mut self, type_ref: TypeRef, ptr: Option<SyntaxNodePtr>) -> (id: LocalTypeRefId)
        requires
            old(self).wf(),
        ensures
            final(self).wf(),
            id.0 == old(self).type_refs().len(),
            final(self).type_refs() == old(self).type_refs().push(type_ref),
            final(self).sources() == old(self).sources().push(ptr),
    {
        let id = LocalTypeRefId(self.map.type_refs.len());
        self.map.type_refs.push(type_ref);
        self.source_map.ptrs.push(ptr);
        id
    }

    /// A new slot for a type that was written.
    pub fn alloc_from_node(&mut self, node: &TypeAnnotation) -> (id: LocalTypeRefId)
        requires
            old(self).wf(),
        ensures
            final(self).wf(),
            id.0 == old(self).type_refs().len(),
            final(self).type_refs() == old(self).type_refs().push(node.type_ref),
            final(self).sources() == old(self).sources().push(Some(node.ptr)),
    {
        self.alloc_slot(node.type_ref.clone(), Some(node.ptr.clone()))
    }

    /// A new slot for a type that may not have been written: a missing type
    /// still takes a slot, which then holds [`TypeRef::Error`].
    pub fn alloc_from_node_opt(&mut self, node: &Option<TypeAnnotation>) -> (id: LocalTypeRefId)
        requires
            old(self).wf(),
        ensures
            final(self).wf(),
            id.0 == old(self).type_refs().len(),
            final(self).type_refs() == old(self).type_refs().push(slot_type(*node)),
            final(self).sources() == old(self).sources().push(slot_syntax(*node)),
    {
        match node {
            Some(node) => self.alloc_from_node(node),
            None => self.error(),
        }
    }

    /// A new slot that holds the unit type.
    pub fn unit(&mut self) -> (id: LocalTypeRefId)
        requires
            old(self).wf(),
        ensures
            final(self).wf(),
            id.0 == old(self).type_refs().len(),
            final(self).type_refs() == old(self).type_refs().push(TypeRef::Unit),
            final(self).sources() == old(self).sources().push(None),
    {
        self.alloc_slot(TypeRef::Unit, None)
    }

    /// A new slot that marks a missing type.
    pub fn error(&mut self) -> (id: LocalTypeRefId)
        requires
            old(self).wf(),
        ensures
            final(self).wf(),
            id.0 == old(self).type_refs().len(),
            final(self).type_refs() == old(self).type_refs().push(TypeRef::Error),
            final(self).sources() == old(self).sources().push(None),
    {
        self.alloc_slot(TypeRef::Error, None)
    }

    /// The two maps, which from here on do not change.
    pub fn finish(self) -> (maps: (TypeRefMap, TypeRefSourceMap))
        requires
            self.wf(),
        ensures
            maps.0@ == self.type_refs(),
            maps.1@ == self.sources(),
            maps.0@.len() == maps.1@.len(),
    {
        (self.map, self.source_map)
    }
}

} // verus!
