//! The item tree of a file: its top-level items in source order, each with
//! what the syntax says of it. Whoever parses the file builds the tree; the
//! model reads it.

use crate::name::Name;
use crate::type_ref::TypeAnnotation;
use mun_syntax::SyntaxNodePtr;
use vstd::prelude::*;

verus! {

/// A top-level item: its kind and its index among the items of that kind.
#[derive(Debug, Clone, Copy, PartialEq, Eq, Hash, Structural)]
pub enum ModItem {
    Function(usize),
    Struct(usize),
    TypeAlias(usize),
}

/// A function as the syntax shows it.
#[derive(Debug, PartialEq, Eq)]
pub struct FunctionItem {
    pub name: Name,
    /// Whether the function is declared `extern`.
    pub is_extern: bool,
    /// Whether a visibility marker stands before the function.
    pub has_visibility: bool,
    /// One entry for each parameter, with the type written for it, if any.
    pub params: Vec<Option<TypeAnnotation>>,
    /// The return type, if one is written.
    pub ret_type: Option<TypeAnnotation>,
    /// Where the function stands.
    pub ptr: SyntaxNodePtr,
}

/// A field of a struct as the syntax shows it.
#[derive(Debug, PartialEq, Eq)]
pub struct FieldItem {
    pub name: Name,
    pub ty: Option<TypeAnnotation>,
}

/// A struct as the syntax shows it.
#[derive(Debug, PartialEq, Eq)]
pub struct StructItem {
    pub name: Name,
    /// The fields in the order of their declaration.
    pub fields: Vec<FieldItem>,
    pub ptr: SyntaxNodePtr,
}

/// A type alias as the syntax shows it.
#[derive(Debug, PartialEq, Eq)]
pub struct TypeAliasItem {
    pub name: Name,
    /// The type the alias stands for, if one is written.
    pub type_ref: Option<TypeAnnotation>,
    pub ptr: SyntaxNodePtr,
}

/// The items of one file.
#[derive(Debug, PartialEq, Eq)]
pub struct ItemTree {
    /// The items in source order.
    pub top_level: Vec<ModItem>,
    pub functions: Vec<FunctionItem>,
    pub structs: Vec<StructItem>,
    pub type_aliases: Vec<TypeAliasItem>,
}

impl ItemTree {
    /// Whether the tree holds the item that `item` points at.
    pub open spec fn has_item(&self, item: ModItem) -> bool {
        match item {
            ModItem::Function(i) => i < self.functions@.len(),
            ModItem::Struct(i) => i < self.structs@.len(),
            ModItem::TypeAlias(i) => i < self.type_aliases@.len(),
        }
    }

    /// Every top-level entry points at an item of the tree.
    pub open spec fn wf(&self) -> bool {
        forall|i: int| 0 <= i < self.top_level@.len() ==> self.has_item(#[trigger] self.top_level@[i])
    }

    /// The name of an item.
    pub open spec fn item_name(&self, item: ModItem) -> Name {
        match item {
            ModItem::Function(i) => self.functions@[i as int].name,
            ModItem::Struct(i) => self.structs@[i as int].name,
            ModItem::TypeAlias(i) => self.type_aliases@[i as int].name,
        }
    }

    /// Where an item stands in the source.
    pub open spec fn item_ptr(&self, item: ModItem) -> SyntaxNodePtr {
        match item {
            ModItem::Function(i) => self.functions@[i as int].ptr,
            ModItem::Struct(i) => self.structs@[i as int].ptr,
            ModItem::TypeAlias(i) => self.type_aliases@[i as int].ptr,
        }
    }

    /// The names of the top-level items, in source order.
    pub open spec fn names(&self) -> Seq<Seq<char>> {
        Seq::new(self.top_level@.len(), |i: int| self.item_name(self.top_level@[i])@)
    }

    /// A tree without items.
    pub fn new() -> (tree: ItemTree)
        ensures
            tree.wf(),
            tree.top_level@.len() == 0,
            tree.functions@.len() == 0,
            tree.structs@.len() == 0,
            tree.type_aliases@.len() == 0,
    {
        ItemTree {
            top_level: Vec::new(),
            functions: Vec::new(),
            structs: Vec::new(),
            type_aliases: Vec::new(),
        }
    }

    /// Adds a function as the last item of the file.
    pub fn add_function(&mut self, function: FunctionItem) -> (item: ModItem)
        requires
            old(self).wf(),
        ensures
            final(self).wf(),
            item == ModItem::Function(old(self).functions@.len() as usize),
            final(self).top_level@ == old(self).top_level@.push(item),
            final(self).functions@ == old(self).functions@.push(function),
            final(self).structs@ == old(self).structs@,
            final(self).type_aliases@ == old(self).type_aliases@,
    {
        let item = ModItem::Function(self.functions.len());
        self.functions.push(function);
        self.top_level.push(item);
        item
    }

    /// Adds a struct as the last item of the file.
    pub fn add_struct(&mut self, strukt: StructItem) -> (item: ModItem)
        requires
            old(self).wf(),
        ensures
            final(self).wf(),
            item == ModItem::Struct(old(self).structs@.len() as usize),
            final(self).top_level@ == old(self).top_level@.push(item),
            final(self).functions@ == old(self).functions@,
            final(self).structs@ == old(self).structs@.push(strukt),
            final(self).type_aliases@ == old(self).type_aliases@,
    {
        let item = ModItem::Struct(self.structs.len());
        self.structs.push(strukt);
        self.top_level.push(item);
        item
    }

    /// Adds a type alias as the last item of the file.
    pub fn add_type_alias(&mut self, alias: TypeAliasItem) -> (item: ModItem)
        requires
            old(self).wf(),
        ensures
            final(self).wf(),
            item == ModItem::TypeAlias(old(self).type_aliases@.len() as usize),
            final(self).top_level@ == old(self).top_level@.push(item),
            final(self).functions@ == old(self).functions@,
            final(self).structs@ == old(self).structs@,
            final(self).type_aliases@ == old(self).type_aliases@.push(alias),
    {
        let item = ModItem::TypeAlias(self.type_aliases.len());
        self.type_aliases.push(alias);
        self.top_level.push(item);
        item
    }

    /// The number of top-level items.
    pub fn item_count(&self) -> (n: usize)
        ensures
            n == self.top_level@.len(),
    {
        self.top_level.len()
    }

    /// The name of an item of the tree.
    pub fn name_of(&self, item: ModItem) -> (name: &Name)
        requires
            self.has_item(item),
        ensures
            *name == self.item_name(item),
    {
        match item {
            ModItem::Function(i) => &self.functions[i].name,
            ModItem::Struct(i) => &self.structs[i].name,
            ModItem::TypeAlias(i) => &self.type_aliases[i].name,
        }
    }
}

} // verus!
