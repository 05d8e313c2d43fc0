use mun_hir::adt::{FieldData, LocalStructFieldId};
use mun_hir::builtin_type::BuiltinType;
use mun_hir::code_model::function::FunctionData;
use mun_hir::code_model::module::{Module, ModuleData, ModuleDefinitionDiagnostic};
use mun_hir::code_model::structure::StructField;
use mun_hir::code_model::{
    DefWithBody, DefWithStruct, Function, ModuleDef, Struct, TypeAlias, Visibility,
};
use mun_hir::db::{DefDatabase, FunctionAnalysis, HirDatabase};
use mun_hir::diagnostics::{Diagnostic, DiagnosticSink, Finding, Phase};
use mun_hir::expr::{Body, BodySourceMap};
use mun_hir::ids::{FileId, FunctionId, ItemTreeId, StructId, TypeAliasId};
use mun_hir::item_tree::{FieldItem, FunctionItem, ItemTree, ModItem, StructItem, TypeAliasItem};
use mun_hir::name::Name;
use mun_hir::resolve::Scope;
use mun_hir::ty::{InferenceResult, LowerBatchResult, LowerDiagnostic, Ty};
use mun_hir::type_ref::{LocalTypeRefId, TypeAnnotation, TypeRef, TypeRefBuilder};
use mun_hir::validator::{ExprValidator, TypeAliasValidator};
use mun_syntax::ast::{
    self, AstNode, ExternOwner, ModuleItemKind, ModuleItemOwner, NameOwner, StructKind,
    TypeAscriptionOwner, TypeRefKind, VisibilityOwner,
};
use mun_syntax::{SourceFile, SyntaxNodePtr};

fn name_of(name: Option<ast::Name>) -> Name {
    match name {
        Some(name) => Name::new(name.text().as_str()),
        None => Name::new("[missing name]"),
    }
}

fn type_ref(node: &ast::TypeRef) -> TypeRef {
    match node.kind() {
        TypeRefKind::PathType(path) => {
            match path.path().and_then(|p| p.segment()).and_then(|s| s.name_ref()) {
                Some(name) => TypeRef::Path(Name::new(name.text().as_str())),
                None => TypeRef::Error,
            }
        }
        TypeRefKind::ArrayType(inner) => TypeRef::Array(Box::new(match inner.type_ref() {
            Some(element) => type_ref(&element),
            None => TypeRef::Error,
        })),
        TypeRefKind::NeverType(_) => TypeRef::Never,
    }
}

fn annotation(node: Option<ast::TypeRef>) -> Option<TypeAnnotation> {
    node.map(|node| TypeAnnotation {
        type_ref: type_ref(&node),
        ptr: SyntaxNodePtr::new(node.syntax()),
    })
}

fn item_tree(text: &str) -> ItemTree {
    let file = SourceFile::parse(text).tree();
    let mut tree = ItemTree::new();
    for item in file.items() {
        match item.kind() {
            ModuleItemKind::FunctionDef(f) => {
                let mut params = Vec::new();
                if let Some(list) = f.param_list() {
                    for param in list.params() {
                        params.push(annotation(param.ascribed_type()));
                    }
                }
                tree.add_function(FunctionItem {
                    name: name_of(f.name()),
                    is_extern: f.is_extern(),
                    has_visibility: f.visibility().is_some(),
                    params,
                    ret_type: annotation(f.ret_type().and_then(|r| r.type_ref())),
                    ptr: SyntaxNodePtr::new(f.syntax()),
                });
            }
            ModuleItemKind::StructDef(s) => {
                let mut fields = Vec::new();
                if let StructKind::Record(list) = s.kind() {
                    for field in list.fields() {
                        fields.push(FieldItem {
                            name: name_of(field.name()),
                            ty: annotation(field.ascribed_type()),
                        });
                    }
                }
                tree.add_struct(StructItem {
                    name: name_of(s.name()),
                    fields,
                    ptr: SyntaxNodePtr::new(s.syntax()),
                });
            }
            ModuleItemKind::TypeAliasDef(t) => {
                tree.add_type_alias(TypeAliasItem {
                    name: name_of(t.name()),
                    type_ref: annotation(t.type_ref()),
                    ptr: SyntaxNodePtr::new(t.syntax()),
                });
            }
            ModuleItemKind::Use(_) => {}
        }
    }
    tree
}

fn database(text: &str) -> (HirDatabase, Module) {
    let mut db = HirDatabase::new();
    let file_id = db.add_file(item_tree(text));
    (db, Module::from(file_id))
}

fn function(id: usize) -> ModuleDef {
    ModuleDef::Function(Function { id: FunctionId(id) })
}

fn strukt(id: usize) -> ModuleDef {
    ModuleDef::Struct(Struct { id: StructId(id) })
}

fn alias(id: usize) -> ModuleDef {
    ModuleDef::TypeAlias(TypeAlias { id: TypeAliasId(id) })
}

fn structural(db: &HirDatabase, module: Module) -> Vec<Diagnostic> {
    let mut sink = DiagnosticSink::new();
    module.diagnostics(db, &mut sink);
    sink.diagnostics()
        .iter()
        .filter(|diagnostic| matches!(diagnostic, Diagnostic::DuplicateDefinition { .. }))
        .cloned()
        .collect()
}

#[test]
fn file_without_collisions_declares_every_item_in_order() {
    let (db, module) = database(
        "fn first() {}\nstruct Second {}\ntype Third = Second;\nfn fourth() {}\nstruct Fifth {}\n",
    );
    assert_eq!(module.file_id(), FileId(0));
    let declarations = module.declarations(&db);
    assert_eq!(
        declarations,
        vec![function(0), strukt(0), alias(0), function(1), strukt(1)]
    );
    assert_eq!(db.module_data(module.file_id).definitions(), &declarations[..]);
    assert!(db.module_data(module.file_id).diagnostics().is_empty());
    assert!(structural(&db, module).is_empty());
}

#[test]
fn empty_file_declares_nothing() {
    let (db, module) = database("");
    assert!(module.declarations(&db).is_empty());
    let mut sink = DiagnosticSink::new();
    module.diagnostics(&db, &mut sink);
    assert_eq!(sink.len(), 0);
}

#[test]
fn second_function_of_a_name_is_reported_and_kept() {
    let (db, module) = database("fn foo(x) {}\nfn foo(y) {}\n");
    assert_eq!(module.declarations(&db), vec![function(0), function(1)]);
    assert_eq!(
        db.module_data(module.file_id).diagnostics(),
        &[ModuleDefinitionDiagnostic::DuplicateName {
            name: Name::new("foo"),
            definition: ModItem::Function(1),
            first_definition: ModItem::Function(0),
        }][..]
    );
    let tree = db.item_tree(module.file_id);
    assert_ne!(tree.functions[0].ptr, tree.functions[1].ptr);
    assert_eq!(
        structural(&db, module),
        vec![Diagnostic::DuplicateDefinition {
            file: FileId(0),
            name: Name::new("foo"),
            definition: tree.functions[1].ptr.clone(),
            first_definition: tree.functions[0].ptr.clone(),
        }]
    );
}

#[test]
fn third_bearer_of_a_name_cites_the_first() {
    let (db, module) = database("fn a() {}\nfn dup() {}\nfn b() {}\nfn dup() {}\nfn dup() {}\n");
    assert_eq!(module.declarations(&db).len(), 5);
    assert_eq!(
        db.module_data(module.file_id).diagnostics(),
        &[
            ModuleDefinitionDiagnostic::DuplicateName {
                name: Name::new("dup"),
                definition: ModItem::Function(3),
                first_definition: ModItem::Function(1),
            },
            ModuleDefinitionDiagnostic::DuplicateName {
                name: Name::new("dup"),
                definition: ModItem::Function(4),
                first_definition: ModItem::Function(1),
            },
        ][..]
    );
    let tree = db.item_tree(module.file_id);
    assert_eq!(
        structural(&db, module),
        vec![
            Diagnostic::DuplicateDefinition {
                file: FileId(0),
                name: Name::new("dup"),
                definition: tree.functions[3].ptr.clone(),
                first_definition: tree.functions[1].ptr.clone(),
            },
            Diagnostic::DuplicateDefinition {
                file: FileId(0),
                name: Name::new("dup"),
                definition: tree.functions[4].ptr.clone(),
                first_definition: tree.functions[1].ptr.clone(),
            },
        ]
    );
}

#[test]
fn names_collide_across_kinds() {
    let (db, module) = database("struct Thing {}\nfn Thing() {}\ntype Thing = Thing;\nfn other() {}\n");
    assert_eq!(
        module.declarations(&db),
        vec![strukt(0), function(0), alias(0), function(1)]
    );
    assert_eq!(
        db.module_data(module.file_id).diagnostics(),
        &[
            ModuleDefinitionDiagnostic::DuplicateName {
                name: Name::new("Thing"),
                definition: ModItem::Function(0),
                first_definition: ModItem::Struct(0),
            },
            ModuleDefinitionDiagnostic::DuplicateName {
                name: Name::new("Thing"),
                definition: ModItem::TypeAlias(0),
                first_definition: ModItem::Struct(0),
            },
        ][..]
    );
}

#[test]
fn two_groups_of_collisions_are_reported_in_item_order() {
    let (db, module) = database("fn a() {}\nfn b() {}\nfn b() {}\nfn a() {}\n");
    assert_eq!(
        db.module_data(module.file_id).diagnostics(),
        &[
            ModuleDefinitionDiagnostic::DuplicateName {
                name: Name::new("b"),
                definition: ModItem::Function(2),
                first_definition: ModItem::Function(1),
            },
            ModuleDefinitionDiagnostic::DuplicateName {
                name: Name::new("a"),
                definition: ModItem::Function(3),
                first_definition: ModItem::Function(0),
            },
        ][..]
    );
}

#[test]
fn names_that_differ_in_case_do_not_collide() {
    let (db, module) = database("fn foo() {}\nfn Foo() {}\nfn fo() {}\nfn foo_() {}\n");
    assert_eq!(module.declarations(&db).len(), 4);
    assert!(db.module_data(module.file_id).diagnostics().is_empty());
}

#[test]
fn declarations_stand_for_their_items() {
    let (db, module) = database("struct A {}\nfn b() {}\nfn c() {}\ntype D = A;\n");
    let declarations = module.declarations(&db);
    let defs = db.upcast();
    let mut places = Vec::new();
    for declaration in declarations {
        match declaration {
            ModuleDef::Function(f) => places.push(ModItem::Function(f.id.lookup(defs).id.value)),
            ModuleDef::Struct(s) => places.push(ModItem::Struct(s.id.lookup(defs).id.value)),
            ModuleDef::TypeAlias(t) => places.push(ModItem::TypeAlias(t.id.lookup(defs).id.value)),
            ModuleDef::BuiltinType(_) => panic!("a file declares no builtin type"),
        }
    }
    assert_eq!(places, db.item_tree(module.file_id).top_level);
    assert_eq!(
        places,
        vec![
            ModItem::Struct(0),
            ModItem::Function(0),
            ModItem::Function(1),
            ModItem::TypeAlias(0)
        ]
    );
}

#[test]
fn second_file_continues_the_identities() {
    let mut db = HirDatabase::new();
    let first = db.add_file(item_tree("fn a() {}\nstruct S {}\nfn b() {}\n"));
    let second = db.add_file(item_tree("fn a() {}\nfn c() {}\nstruct S {}\n"));
    assert_eq!(first, FileId(0));
    assert_eq!(second, FileId(1));
    assert_eq!(
        Module::from(first).declarations(&db),
        vec![function(0), strukt(0), function(1)]
    );
    assert_eq!(
        Module::from(second).declarations(&db),
        vec![function(2), function(3), strukt(1)]
    );
    assert!(db.module_data(first).diagnostics().is_empty());
    assert!(db.module_data(second).diagnostics().is_empty());
    let a = Function { id: FunctionId(2) };
    assert_eq!(a.module(db.upcast()), Module::from(second));
    assert_eq!(a.id.lookup(db.upcast()).id, ItemTreeId::new(second, 0));
    assert_eq!(a.name(&db), Name::new("a"));
    assert_eq!(Function { id: FunctionId(1) }.name(&db), Name::new("b"));
}

#[test]
fn asking_again_gives_the_same_module_data() {
    let mut defs = DefDatabase::new();
    let file_id = defs.add_file(item_tree("fn x() {}\nstruct x {}\nfn y() {}\nfn x() {}\n"));
    let first = ModuleData::module_data_query(&mut defs, file_id);
    let functions = defs.function_count();
    let structs = defs.struct_count();
    let second = ModuleData::module_data_query(&mut defs, file_id);
    assert_eq!(first, second);
    assert_eq!(defs.function_count(), functions);
    assert_eq!(defs.struct_count(), structs);
    assert_eq!(functions, 3);
    assert_eq!(structs, 1);
    assert_eq!(first.definitions().len(), 4);
    assert_eq!(first.diagnostics().len(), 2);
}

#[test]
fn module_resolver_is_the_scope_of_the_module() {
    let (db, module) = database("fn f() {}\nstruct S {}\ntype T = S;\n");
    let resolver = module.resolver(db.upcast());
    assert_eq!(resolver.scopes(), &[Scope::ModuleScope(FileId(0))][..]);
    assert_eq!(Function { id: FunctionId(0) }.resolver(&db), resolver);
    assert_eq!(Struct { id: StructId(0) }.resolver(&db), resolver);
    assert_eq!(TypeAlias { id: TypeAliasId(0) }.resolver(&db), resolver);
}

#[test]
fn handles_convert_into_definitions() {
    let f = Function { id: FunctionId(4) };
    let s = Struct { id: StructId(2) };
    assert_eq!(ModuleDef::from(f), function(4));
    assert_eq!(ModuleDef::from(s), strukt(2));
    assert_eq!(Module::from(FileId(9)).file_id(), FileId(9));
}

fn function_handle(id: usize) -> Function {
    Function { id: FunctionId(id) }
}

fn path(name: &str) -> TypeRef {
    TypeRef::Path(Name::new(name))
}

#[test]
fn visibility_is_private_without_a_marker() {
    let (db, _) = database("fn hidden() {}\npub fn shown() {}\n");
    assert_eq!(function_handle(0).visibility(&db), Visibility::Private);
    assert_eq!(function_handle(1).visibility(&db), Visibility::Public);
    assert!(function_handle(0).visibility(&db).is_private());
    assert!(!function_handle(0).visibility(&db).is_public());
    assert!(function_handle(1).visibility(&db).is_public());
    assert!(!function_handle(1).visibility(&db).is_private());
    assert_eq!(function_handle(0).data(&db).visibility(), Visibility::Private);
    assert_eq!(function_handle(1).data(&db).visibility(), Visibility::Public);
}

#[test]
fn visibility_answers_both_questions() {
    assert!(Visibility::Public.is_public());
    assert!(!Visibility::Public.is_private());
    assert!(Visibility::Private.is_private());
    assert!(!Visibility::Private.is_public());
}

#[test]
fn parameter_without_a_type_keeps_its_slot() {
    let (db, _) = database("fn f(a: int, b, c: bool, d) {}\n");
    let data = function_handle(0).data(&db);
    assert_eq!(
        data.params(),
        &[LocalTypeRefId(0), LocalTypeRefId(1), LocalTypeRefId(2), LocalTypeRefId(3)][..]
    );
    let map = data.type_ref_map();
    assert_eq!(map.len(), 5);
    assert_eq!(*map.get(LocalTypeRefId(0)), path("int"));
    assert_eq!(*map.get(LocalTypeRefId(1)), TypeRef::Error);
    assert_eq!(*map.get(LocalTypeRefId(2)), path("bool"));
    assert_eq!(*map.get(LocalTypeRefId(3)), TypeRef::Error);
    let tree = db.item_tree(FileId(0));
    let sources = data.type_ref_source_map();
    assert_eq!(sources.len(), 5);
    assert_eq!(
        sources.type_ref_syntax(LocalTypeRefId(0)),
        tree.functions[0].params[0].as_ref().map(|a| a.ptr.clone())
    );
    assert!(sources.type_ref_syntax(LocalTypeRefId(0)).is_some());
    assert_eq!(sources.type_ref_syntax(LocalTypeRefId(1)), None);
    assert!(sources.type_ref_syntax(LocalTypeRefId(2)).is_some());
    assert_ne!(
        sources.type_ref_syntax(LocalTypeRefId(0)),
        sources.type_ref_syntax(LocalTypeRefId(2))
    );
    assert_eq!(sources.type_ref_syntax(LocalTypeRefId(3)), None);
    assert_eq!(sources.type_ref_syntax(LocalTypeRefId(17)), None);
}

#[test]
fn function_without_parameters_has_only_the_return_slot() {
    let (db, _) = database("fn f() {}\n");
    let data = function_handle(0).data(&db);
    assert!(data.params().is_empty());
    assert_eq!(*data.ret_type(), LocalTypeRefId(0));
    assert_eq!(data.type_ref_map().len(), 1);
}

#[test]
fn missing_return_type_is_unit() {
    let (db, _) = database("fn f(a: int) {}\nfn g(a: int) -> float {}\nfn h() -> never {}\n");
    let f = function_handle(0).data(&db);
    assert_eq!(*f.ret_type(), LocalTypeRefId(1));
    assert_eq!(*f.type_ref_map().get(*f.ret_type()), TypeRef::Unit);
    assert_eq!(f.type_ref_source_map().type_ref_syntax(*f.ret_type()), None);
    let g = function_handle(1).data(&db);
    assert_eq!(*g.ret_type(), LocalTypeRefId(1));
    assert_eq!(*g.type_ref_map().get(*g.ret_type()), path("float"));
    assert_eq!(
        g.type_ref_source_map().type_ref_syntax(*g.ret_type()),
        db.item_tree(FileId(0)).functions[1].ret_type.as_ref().map(|a| a.ptr.clone())
    );
    assert!(g.type_ref_source_map().type_ref_syntax(*g.ret_type()).is_some());
    let h = function_handle(2).data(&db);
    assert_eq!(*h.ret_type(), LocalTypeRefId(0));
    assert_eq!(*h.type_ref_map().get(*h.ret_type()), TypeRef::Never);
}

#[test]
fn never_and_array_types_are_kept_as_written() {
    let mut tree = ItemTree::new();
    let ptr = SyntaxNodePtr::new(SourceFile::parse("fn main() {}").tree().syntax());
    tree.add_function(FunctionItem {
        name: Name::new("f"),
        is_extern: false,
        has_visibility: false,
        params: vec![Some(TypeAnnotation {
            type_ref: TypeRef::Array(Box::new(TypeRef::Array(Box::new(path("int"))))),
            ptr: ptr.clone(),
        })],
        ret_type: Some(TypeAnnotation { type_ref: TypeRef::Never, ptr: ptr.clone() }),
        ptr: ptr.clone(),
    });
    let mut db = HirDatabase::new();
    db.add_file(tree);
    let data = function_handle(0).data(&db);
    assert_eq!(
        *data.type_ref_map().get(LocalTypeRefId(0)),
        TypeRef::Array(Box::new(TypeRef::Array(Box::new(path("int")))))
    );
    assert_eq!(*data.type_ref_map().get(LocalTypeRefId(1)), TypeRef::Never);
    assert_eq!(data.type_ref_source_map().type_ref_syntax(LocalTypeRefId(0)), Some(ptr));
}

#[test]
fn function_data_is_the_same_each_time() {
    let (db, _) = database("pub fn f(a: int, b) -> bool {}\nfn g() {}\n");
    let first = function_handle(0).data(&db);
    let second = function_handle(0).data(&db);
    assert_eq!(first, second);
    assert_eq!(first, FunctionData::fn_data_query(db.upcast(), FunctionId(0)));
    assert_eq!(first, db.fn_data(FunctionId(0)));
    assert_ne!(first, function_handle(1).data(&db));
    assert_eq!(Struct { id: StructId(0) }.id, StructId(0));
}

#[test]
fn function_answers_from_its_data() {
    let (db, _) = database("extern fn puts(text: string) -> int;\npub fn main() {}\n");
    let puts = function_handle(0);
    let main = function_handle(1);
    assert_eq!(puts.name(&db), Name::new("puts"));
    assert_eq!(main.name(&db), Name::new("main"));
    assert_eq!(*puts.data(&db).name(), Name::new("puts"));
    assert!(puts.is_extern(&db));
    assert!(!main.is_extern(&db));
    assert!(puts.data(&db).is_extern());
    assert_eq!(puts.module(db.upcast()), Module::from(FileId(0)));
    assert_eq!(puts.ty(&db), Ty::FnDef(puts));
    assert_eq!(main.ty(&db), Ty::FnDef(main));
    assert!(puts.body(&db).findings.is_empty());
    assert!(puts.infer(&db).findings.is_empty());
    assert!(puts.body_source_map(&db).exprs.is_empty());
    let def = DefWithBody::from(main);
    assert_eq!(def, DefWithBody::Function(main));
    assert!(def.body(&db).findings.is_empty());
    assert!(def.infer(&db).findings.is_empty());
    assert!(def.body_source_map(&db).exprs.is_empty());
    assert_eq!(def.resolver(&db), main.resolver(&db));
}

#[test]
fn struct_fields_come_in_declaration_order() {
    let (mut db, _) = database("struct S { a: int, b: int }\n");
    let s = Struct { id: StructId(0) };
    assert_eq!(s.name(db.upcast()), Name::new("S"));
    assert_eq!(s.ty(&db), Ty::Struct(s));
    assert_eq!(s.module(db.upcast()), Module::from(FileId(0)));
    let fields = s.fields(&db);
    assert_eq!(
        fields,
        vec![
            StructField { parent: s, id: LocalStructFieldId(0) },
            StructField { parent: s, id: LocalStructFieldId(1) },
        ]
    );
    assert_eq!(fields[0].name(&db), Name::new("a"));
    assert_eq!(fields[1].name(&db), Name::new("b"));
    assert_eq!(fields[0].id(), LocalStructFieldId(0));
    assert_eq!(fields[1].id(), LocalStructFieldId(1));
    assert_eq!(fields[0].ty(&db), Ty::Unknown);
    assert_eq!(fields[1].ty(&db), Ty::Unknown);
    db.set_struct_lowering(
        s,
        LowerBatchResult {
            types: vec![Ty::Builtin(BuiltinType::Int), Ty::Builtin(BuiltinType::Int)],
            diagnostics: Vec::new(),
        },
    );
    assert_eq!(fields[0].ty(&db), Ty::Builtin(BuiltinType::Int));
    assert_eq!(fields[1].ty(&db), Ty::Builtin(BuiltinType::Int));
    let data = s.data(db.upcast());
    assert_eq!(
        data.fields(),
        &[
            FieldData { name: Name::new("a"), type_ref: LocalTypeRefId(0) },
            FieldData { name: Name::new("b"), type_ref: LocalTypeRefId(1) },
        ][..]
    );
    assert_eq!(*data.type_ref_map().get(LocalTypeRefId(0)), path("int"));
    assert_eq!(*data.type_ref_map().get(LocalTypeRefId(1)), path("int"));
    assert_eq!(data, db.struct_data(StructId(0)));
}

#[test]
fn fields_keep_their_own_types() {
    let (mut db, _) = database("struct Empty {}\nstruct P { x: float, flag: bool, next: P }\n");
    let empty = Struct { id: StructId(0) };
    let p = Struct { id: StructId(1) };
    assert!(empty.fields(&db).is_empty());
    assert!(empty.lower(&db).types.is_empty());
    assert_eq!(p.lower(&db).types, vec![Ty::Unknown, Ty::Unknown, Ty::Unknown]);
    db.set_struct_lowering(
        p,
        LowerBatchResult {
            types: vec![
                Ty::Builtin(BuiltinType::Float),
                Ty::Builtin(BuiltinType::Bool),
                Ty::Struct(p),
            ],
            diagnostics: Vec::new(),
        },
    );
    let fields = p.fields(&db);
    assert_eq!(fields.len(), 3);
    assert_eq!(fields[0].ty(&db), Ty::Builtin(BuiltinType::Float));
    assert_eq!(fields[1].ty(&db), Ty::Builtin(BuiltinType::Bool));
    assert_eq!(fields[2].ty(&db), Ty::Struct(p));
    assert_eq!(fields[2].name(&db), Name::new("next"));
}

#[test]
fn field_is_found_by_name() {
    let (db, _) = database("struct S { a: int, b: int, a: bool }\n");
    let s = Struct { id: StructId(0) };
    assert_eq!(
        s.field(&db, &Name::new("a")),
        Some(StructField { parent: s, id: LocalStructFieldId(0) })
    );
    assert_eq!(
        s.field(&db, &Name::new("b")),
        Some(StructField { parent: s, id: LocalStructFieldId(1) })
    );
    assert_eq!(s.field(&db, &Name::new("c")), None);
    assert_eq!(s.field(&db, &Name::new("")), None);
    assert_eq!(s.field(&db, &Name::new("A")), None);
    let def = DefWithStruct::from(s);
    assert_eq!(def, DefWithStruct::Struct(s));
    assert_eq!(def.fields(&db), s.fields(&db));
    assert_eq!(def.field(&db, &Name::new("b")), s.field(&db, &Name::new("b")));
    assert_eq!(def.field(&db, &Name::new("zz")), None);
    assert_eq!(def.module(&db), Module::from(FileId(0)));
    assert_eq!(def.data(&db), s.data(db.upcast()));
}

#[test]
fn type_alias_has_one_slot_for_its_target() {
    let (mut db, _) = database("type Alias = Target;\nstruct Target {}\ntype Open;\n");
    let alias = TypeAlias { id: TypeAliasId(0) };
    let open = TypeAlias { id: TypeAliasId(1) };
    assert_eq!(alias.name(db.upcast()), Name::new("Alias"));
    assert_eq!(alias.module(db.upcast()), Module::from(FileId(0)));
    assert_eq!(alias.type_ref(&db), LocalTypeRefId(0));
    let data = alias.data(db.upcast());
    assert_eq!(data.type_ref_id(), LocalTypeRefId(0));
    assert_eq!(data.type_ref_map().len(), 1);
    assert_eq!(*data.type_ref_map().get(LocalTypeRefId(0)), path("Target"));
    assert_eq!(
        data.type_ref_source_map().type_ref_syntax(LocalTypeRefId(0)),
        db.item_tree(FileId(0)).type_aliases[0].type_ref.as_ref().map(|a| a.ptr.clone())
    );
    assert_eq!(data, alias.data(db.upcast()));
    assert_eq!(data, db.type_alias_data(TypeAliasId(0)));
    let missing = open.data(db.upcast());
    assert_eq!(*missing.name(), Name::new("Open"));
    assert_eq!(*missing.type_ref_map().get(LocalTypeRefId(0)), TypeRef::Error);
    assert_eq!(missing.type_ref_source_map().type_ref_syntax(LocalTypeRefId(0)), None);
    assert_eq!(alias.lower(&db).types, vec![Ty::Unknown]);
    let target = Ty::Struct(Struct { id: StructId(0) });
    db.set_type_alias_lowering(
        alias,
        LowerBatchResult { types: vec![target], diagnostics: Vec::new() },
    );
    assert_eq!(alias.lower(&db).ty(alias.type_ref(&db)), target);
    assert_eq!(open.lower(&db).ty(open.type_ref(&db)), Ty::Unknown);
}

#[test]
fn builder_hands_out_slots_in_order() {
    let ptr = SyntaxNodePtr::new(SourceFile::parse("fn main() {}").tree().syntax());
    let written = TypeAnnotation { type_ref: path("int"), ptr: ptr.clone() };
    let mut builder = TypeRefBuilder::new();
    assert_eq!(builder.alloc_from_node(&written), LocalTypeRefId(0));
    assert_eq!(builder.alloc_from_node_opt(&None), LocalTypeRefId(1));
    assert_eq!(builder.unit(), LocalTypeRefId(2));
    assert_eq!(builder.error(), LocalTypeRefId(3));
    assert_eq!(builder.alloc_from_node_opt(&Some(written)), LocalTypeRefId(4));
    let (map, sources) = builder.finish();
    assert_eq!(map.len(), 5);
    assert_eq!(sources.len(), 5);
    assert_eq!(*map.get(LocalTypeRefId(0)), path("int"));
    assert_eq!(*map.get(LocalTypeRefId(1)), TypeRef::Error);
    assert_eq!(*map.get(LocalTypeRefId(2)), TypeRef::Unit);
    assert_eq!(*map.get(LocalTypeRefId(3)), TypeRef::Error);
    assert_eq!(*map.get(LocalTypeRefId(4)), path("int"));
    assert_eq!(sources.type_ref_syntax(LocalTypeRefId(0)), Some(ptr.clone()));
    assert_eq!(sources.type_ref_syntax(LocalTypeRefId(1)), None);
    assert_eq!(sources.type_ref_syntax(LocalTypeRefId(2)), None);
    assert_eq!(sources.type_ref_syntax(LocalTypeRefId(3)), None);
    assert_eq!(sources.type_ref_syntax(LocalTypeRefId(4)), Some(ptr));
}

#[test]
fn types_that_an_alias_can_stand_for() {
    assert!(!Ty::Unknown.is_type_target());
    assert!(!Ty::FnDef(function_handle(0)).is_type_target());
    assert!(Ty::Never.is_type_target());
    assert!(Ty::Unit.is_type_target());
    assert!(Ty::Builtin(BuiltinType::Bool).is_type_target());
    assert!(Ty::Struct(Struct { id: StructId(0) }).is_type_target());
    assert_eq!(ModuleDef::from(BuiltinType::Int), ModuleDef::BuiltinType(BuiltinType::Int));
}

fn finding(node: &SyntaxNodePtr, message: &str) -> Finding {
    Finding { node: node.clone(), message: String::from(message) }
}

fn report(phase: Phase, node: &SyntaxNodePtr, message: &str) -> Diagnostic {
    Diagnostic::Analysis {
        file: FileId(0),
        phase,
        node: node.clone(),
        message: String::from(message),
    }
}

fn analysis(node: &SyntaxNodePtr, tag: &str) -> FunctionAnalysis {
    FunctionAnalysis {
        body: Body { findings: vec![finding(node, &format!("{tag}: body"))] },
        body_source_map: BodySourceMap { exprs: vec![node.clone()] },
        inference: InferenceResult {
            findings: vec![
                finding(node, &format!("{tag}: inference 1")),
                finding(node, &format!("{tag}: inference 2")),
            ],
        },
        validation: vec![finding(node, &format!("{tag}: validation"))],
    }
}

fn collect(db: &HirDatabase, module: Module) -> Vec<Diagnostic> {
    let mut sink = DiagnosticSink::new();
    module.diagnostics(db, &mut sink);
    sink.diagnostics().to_vec()
}

#[test]
fn unresolved_alias_target_is_reported_and_the_rest_still_runs() {
    let (mut db, module) = database("type Alias = Missing;\nfn after() {}\nstruct Last { x: Gone }\n");
    let alias = TypeAlias { id: TypeAliasId(0) };
    let after = Function { id: FunctionId(0) };
    let last = Struct { id: StructId(0) };
    let tree = item_tree("type Alias = Missing;\nfn after() {}\nstruct Last { x: Gone }\n");
    let alias_ptr = tree.type_aliases[0].ptr.clone();
    let missing_ptr = tree.type_aliases[0].type_ref.as_ref().map(|a| a.ptr.clone()).unwrap();
    let after_ptr = tree.functions[0].ptr.clone();
    let gone_ptr = tree.structs[0].fields[0].ty.as_ref().map(|a| a.ptr.clone()).unwrap();
    db.set_type_alias_lowering(
        alias,
        LowerBatchResult {
            types: vec![Ty::Unknown],
            diagnostics: vec![LowerDiagnostic::UnresolvedType { id: LocalTypeRefId(0) }],
        },
    );
    db.set_function_analysis(after, analysis(&after_ptr, "after"));
    db.set_struct_lowering(
        last,
        LowerBatchResult {
            types: vec![Ty::Unknown],
            diagnostics: vec![LowerDiagnostic::UnresolvedType { id: LocalTypeRefId(0) }],
        },
    );
    let found = collect(&db, module);
    assert!(found.contains(&Diagnostic::MissingTargetType {
        file: FileId(0),
        type_alias_def: alias_ptr.clone(),
    }));
    assert_eq!(
        found,
        vec![
            Diagnostic::UnresolvedType { file: FileId(0), type_ref: missing_ptr },
            Diagnostic::MissingTargetType { file: FileId(0), type_alias_def: alias_ptr },
            report(Phase::Body, &after_ptr, "after: body"),
            report(Phase::Inference, &after_ptr, "after: inference 1"),
            report(Phase::Inference, &after_ptr, "after: inference 2"),
            report(Phase::Validation, &after_ptr, "after: validation"),
            Diagnostic::UnresolvedType { file: FileId(0), type_ref: gone_ptr },
        ]
    );
}

#[test]
fn alias_with_a_usable_target_reports_nothing() {
    let (mut db, module) = database("struct Target {}\ntype Alias = Target;\n");
    let alias = TypeAlias { id: TypeAliasId(0) };
    db.set_type_alias_lowering(
        alias,
        LowerBatchResult {
            types: vec![Ty::Struct(Struct { id: StructId(0) })],
            diagnostics: Vec::new(),
        },
    );
    assert_eq!(collect(&db, module), Vec::new());
    let mut sink = DiagnosticSink::new();
    alias.diagnostics(&db, &mut sink);
    assert_eq!(sink.len(), 0);
}

#[test]
fn alias_that_resolves_to_a_function_has_no_target() {
    let (mut db, _) = database("fn f() {}\ntype Alias = f;\ntype Fine = int;\n");
    let alias = TypeAlias { id: TypeAliasId(0) };
    let fine = TypeAlias { id: TypeAliasId(1) };
    db.set_type_alias_lowering(
        alias,
        LowerBatchResult {
            types: vec![Ty::FnDef(Function { id: FunctionId(0) })],
            diagnostics: Vec::new(),
        },
    );
    db.set_type_alias_lowering(
        fine,
        LowerBatchResult { types: vec![Ty::Builtin(BuiltinType::Int)], diagnostics: Vec::new() },
    );
    let alias_ptr = db.item_tree(FileId(0)).type_aliases[0].ptr.clone();
    let mut sink = DiagnosticSink::new();
    TypeAliasValidator::new(alias, &db).validate_target_type_existence(&mut sink);
    assert_eq!(
        sink.diagnostics(),
        &[Diagnostic::MissingTargetType { file: FileId(0), type_alias_def: alias_ptr.clone() }][..]
    );
    TypeAliasValidator::new(fine, &db).validate_target_type_existence(&mut sink);
    assert_eq!(sink.len(), 1);
    let mut sink = DiagnosticSink::new();
    alias.diagnostics(&db, &mut sink);
    assert_eq!(
        sink.diagnostics(),
        &[Diagnostic::MissingTargetType { file: FileId(0), type_alias_def: alias_ptr }][..]
    );
}

#[test]
fn alias_without_a_target_is_reported() {
    let (db, module) = database("type Open;\n");
    let ptr = db.item_tree(FileId(0)).type_aliases[0].ptr.clone();
    assert_eq!(
        collect(&db, module),
        vec![Diagnostic::MissingTargetType { file: FileId(0), type_alias_def: ptr }]
    );
}

#[test]
fn module_findings_come_first_then_declarations_in_source_order() {
    let text = "fn one() {}\nstruct Two { a: A, b: B, c: C }\nfn one() {}\nfn three() {}\n";
    let (mut db, module) = database(text);
    let tree = item_tree(text);
    let one = tree.functions[0].ptr.clone();
    let again = tree.functions[1].ptr.clone();
    let three = tree.functions[2].ptr.clone();
    let field = |i: usize| tree.structs[0].fields[i].ty.as_ref().map(|a| a.ptr.clone()).unwrap();
    db.set_function_analysis(Function { id: FunctionId(2) }, analysis(&three, "three"));
    db.set_function_analysis(Function { id: FunctionId(0) }, analysis(&one, "one"));
    db.set_struct_lowering(
        Struct { id: StructId(0) },
        LowerBatchResult {
            types: vec![Ty::Unknown, Ty::Builtin(BuiltinType::Bool), Ty::Unknown],
            diagnostics: vec![
                LowerDiagnostic::UnresolvedType { id: LocalTypeRefId(2) },
                LowerDiagnostic::UnresolvedType { id: LocalTypeRefId(0) },
            ],
        },
    );
    assert_eq!(
        collect(&db, module),
        vec![
            Diagnostic::DuplicateDefinition {
                file: FileId(0),
                name: Name::new("one"),
                definition: again,
                first_definition: one.clone(),
            },
            report(Phase::Body, &one, "one: body"),
            report(Phase::Inference, &one, "one: inference 1"),
            report(Phase::Inference, &one, "one: inference 2"),
            report(Phase::Validation, &one, "one: validation"),
            Diagnostic::UnresolvedType { file: FileId(0), type_ref: field(2) },
            Diagnostic::UnresolvedType { file: FileId(0), type_ref: field(0) },
            report(Phase::Body, &three, "three: body"),
            report(Phase::Inference, &three, "three: inference 1"),
            report(Phase::Inference, &three, "three: inference 2"),
            report(Phase::Validation, &three, "three: validation"),
        ]
    );
}

#[test]
fn function_reports_body_then_inference_then_validation() {
    let (mut db, _) = database("fn f() {}\nfn quiet() {}\n");
    let f = Function { id: FunctionId(0) };
    let ptr = db.item_tree(FileId(0)).functions[0].ptr.clone();
    db.set_function_analysis(f, analysis(&ptr, "f"));
    assert_eq!(f.body(&db).findings, vec![finding(&ptr, "f: body")]);
    assert_eq!(f.infer(&db).findings.len(), 2);
    assert_eq!(f.body_source_map(&db).exprs, vec![ptr.clone()]);
    let mut sink = DiagnosticSink::new();
    f.diagnostics(&db, &mut sink);
    assert_eq!(
        sink.diagnostics(),
        &[
            report(Phase::Body, &ptr, "f: body"),
            report(Phase::Inference, &ptr, "f: inference 1"),
            report(Phase::Inference, &ptr, "f: inference 2"),
            report(Phase::Validation, &ptr, "f: validation"),
        ][..]
    );
    let mut sink = DiagnosticSink::new();
    ExprValidator::new(f, &db).validate_body(&mut sink);
    assert_eq!(sink.diagnostics(), &[report(Phase::Validation, &ptr, "f: validation")][..]);
    let mut sink = DiagnosticSink::new();
    Function { id: FunctionId(1) }.diagnostics(&db, &mut sink);
    assert_eq!(sink.len(), 0);
}

#[test]
fn findings_are_reported_in_the_file_of_the_definition() {
    let mut db = HirDatabase::new();
    db.add_file(item_tree("fn a() {}\n"));
    let second = db.add_file(item_tree("fn b() {}\nstruct S { x: Nope }\n"));
    let b = Function { id: FunctionId(1) };
    let s = Struct { id: StructId(0) };
    let ptr = db.item_tree(second).functions[0].ptr.clone();
    let nope = db.item_tree(second).structs[0].fields[0].ty.as_ref().map(|a| a.ptr.clone()).unwrap();
    db.set_function_analysis(
        b,
        FunctionAnalysis {
            body: Body { findings: Vec::new() },
            body_source_map: BodySourceMap { exprs: Vec::new() },
            inference: InferenceResult { findings: vec![finding(&ptr, "mismatch")] },
            validation: Vec::new(),
        },
    );
    db.set_struct_lowering(
        s,
        LowerBatchResult {
            types: vec![Ty::Unknown],
            diagnostics: vec![LowerDiagnostic::UnresolvedType { id: LocalTypeRefId(0) }],
        },
    );
    assert_eq!(collect(&db, Module::from(FileId(0))), Vec::new());
    assert_eq!(
        collect(&db, Module::from(second)),
        vec![
            Diagnostic::Analysis {
                file: FileId(1),
                phase: Phase::Inference,
                node: ptr,
                message: String::from("mismatch"),
            },
            Diagnostic::UnresolvedType { file: FileId(1), type_ref: nope },
        ]
    );
}

#[test]
fn sink_keeps_what_it_held() {
    let (db, module) = database("fn x() {}\nfn x() {}\n");
    let ptr = db.item_tree(FileId(0)).functions[0].ptr.clone();
    let second = db.item_tree(FileId(0)).functions[1].ptr.clone();
    let mut sink = DiagnosticSink::new();
    sink.push(report(Phase::Body, &ptr, "earlier"));
    module.diagnostics(&db, &mut sink);
    module.diagnostics(&db, &mut sink);
    let duplicate = Diagnostic::DuplicateDefinition {
        file: FileId(0),
        name: Name::new("x"),
        definition: second,
        first_definition: ptr.clone(),
    };
    assert_eq!(
        sink.diagnostics(),
        &[report(Phase::Body, &ptr, "earlier"), duplicate.clone(), duplicate][..]
    );
    assert_eq!(sink.len(), 3);
}

#[test]
fn later_record_replaces_the_earlier_one() {
    let (mut db, module) = database("fn f() {}\nfn g() {}\n");
    let f = Function { id: FunctionId(0) };
    let g = Function { id: FunctionId(1) };
    let ptr = db.item_tree(FileId(0)).functions[0].ptr.clone();
    db.set_function_analysis(f, analysis(&ptr, "old"));
    db.set_function_analysis(g, analysis(&ptr, "g"));
    db.set_function_analysis(f, FunctionAnalysis::blank());
    let found = collect(&db, module);
    assert_eq!(found.len(), 4);
    assert_eq!(found[0], report(Phase::Body, &ptr, "g: body"));
    assert_eq!(found[3], report(Phase::Validation, &ptr, "g: validation"));
    assert_eq!(LowerBatchResult::blank(2).types, vec![Ty::Unknown, Ty::Unknown]);
    assert!(LowerBatchResult::blank(2).diagnostics.is_empty());
}
