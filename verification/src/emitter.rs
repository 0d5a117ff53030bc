//! The module emitter: registries, section tables, and serialization.

use vstd::prelude::*;

use crate::encode;
use crate::model::EmitterModel;
use crate::model::ImportModel;
use crate::model::ExportModel;
use crate::model::empty_model;
use crate::model::has_import;
use crate::model::has_type;
use crate::model::import_index;
use crate::model::import_key;
use crate::model::import_ref_for;
use crate::model::type_index;
use crate::model::type_ref_for;
use crate::model::define_ref;
use crate::model::with_define;
use crate::model::with_export;
use crate::model::with_import;
use crate::model::with_type;
use crate::model::wf;
use crate::model::export_wire;
use crate::model::export_wires;
use crate::model::import_wire;
use crate::model::import_wires;
use crate::model::type_fits;
use crate::model::import_fits;
use crate::model::define_fits;
use crate::model::export_fits;
use crate::model::lemma_type_budget_push;
use crate::model::lemma_import_budget_push;
use crate::model::lemma_export_budget_push;
use crate::model::lemma_code_budget_push;
use crate::model::lemma_import_budget_entry;
use crate::model::lemma_export_budget_entry;
use crate::model::lemma_code_budget_entry;
use crate::model::meta_section_name;
use crate::model::output_bytes;
use crate::model::section_chunk;
use crate::encode::code_section_budget;
use crate::encode::code_section_bytes;
use crate::encode::export_section_budget;
use crate::encode::function_section_budget;
use crate::encode::import_section_budget;
use crate::encode::type_section_budget;
use crate::encode::custom_section_bytes;
use crate::encode::export_section_bytes;
use crate::encode::function_section_bytes;
use crate::encode::header_bytes;
use crate::encode::import_section_bytes;
use crate::encode::type_section_bytes;
use crate::encode::wasm_error;
use vstd::string::StrSliceExecFns;
use vstd::string::StringExecFns;

verus! {

/// The arity of a function: the number of i64 inputs it takes. Every function
/// in this module model returns exactly one i64, so a function type is
/// determined by its arity alone.
#[derive(Hash, PartialEq, Eq, Structural, Copy, Clone, Debug)]
pub struct Arity(pub u32);

/// An index into the type table of the module being emitted. At most one
/// entry exists per distinct arity; entries are created on demand.
#[derive(Hash, PartialEq, Eq, Structural, Copy, Clone, Debug)]
pub struct TypeRef(pub u32);

/// An index into the combined function index space of the module being
/// emitted: imported functions occupy the low indices, locally defined
/// functions follow.
#[derive(Hash, PartialEq, Eq, Structural, Copy, Clone, Debug)]
pub struct FuncRef(pub u32);

/// One registered import: the names it binds, the arity it was requested
/// with, and the type-table index it resolved to.
pub struct ImportEntry {
    pub module: String,
    pub fname: String,
    pub arity: u32,
    pub ty: u32,
}

impl View for ImportEntry {
    type V = ImportModel;

    open spec fn view(&self) -> ImportModel {
        ImportModel { module: self.module@, fname: self.fname@, arity: self.arity, ty: self.ty }
    }
}

/// One registered export: the export name and the function index it maps to.
pub struct ExportEntry {
    pub name: String,
    pub func: u32,
}

impl View for ExportEntry {
    type V = ExportModel;

    open spec fn view(&self) -> ExportModel {
        ExportModel { name: self.name@, func: self.func }
    }
}

/// An in-progress module. The tables are append-only while assembling;
/// `finish` consumes the emitter, serializes each non-empty section in the
/// fixed order the binary format demands, and runs the structural validator
/// over the result.
pub struct ModEmitter {
    /// The metadata payload embedded as the first section of the output.
    pub meta: Vec<u8>,
    /// The arity of each type-table entry; doubles as the arity-to-type
    /// registry, since arities are never repeated.
    pub types: Vec<u32>,
    /// The import entries; double as the key-to-index registry, since keys
    /// are never repeated.
    pub imports: Vec<ImportEntry>,
    /// The type index of each locally defined function.
    pub funcs: Vec<u32>,
    /// The raw, already-encoded body of each locally defined function,
    /// parallel to `funcs`.
    pub codes: Vec<Vec<u8>>,
    /// The export entries, in registration order.
    pub exports: Vec<ExportEntry>,
}

impl View for ModEmitter {
    type V = EmitterModel;

    open spec fn view(&self) -> EmitterModel {
        EmitterModel {
            meta: self.meta@,
            types: self.types@,
            imports: self.imports@.map_values(|e: ImportEntry| e@),
            funcs: self.funcs@,
            codes: self.codes@.map_values(|b: Vec<u8>| b@),
            exports: self.exports@.map_values(|e: ExportEntry| e@),
        }
    }
}

impl ModEmitter {
    /// Create an emitter holding the given metadata payload and otherwise
    /// empty tables. The default linear memory is not a table entry: it is
    /// fixed, and `finish` always emits it.
    pub fn new(meta: Vec<u8>) -> (r: ModEmitter)
        requires
            meta@.len() + 73 <= u32::MAX,
        ensures
            r@ == empty_model(meta@),
            wf(r@),
    {
        let r = ModEmitter {
            meta,
            types: Vec::new(),
            imports: Vec::new(),
            funcs: Vec::new(),
            codes: Vec::new(),
            exports: Vec::new(),
        };
        proof {
            assert(r@ =~~= empty_model(r.meta@));
        }
        r
    }

    /// Return the unique type index for a function type of the given arity,
    /// appending a new type-table entry when none exists yet. Idempotent: the
    /// table changes only on the first call per distinct arity.
    pub fn get_fn_type(&mut self, arity: Arity) -> (r: TypeRef)
        requires
            wf(old(self)@),
            has_type(old(self)@, arity.0) || type_fits(old(self)@, arity.0),
        ensures
            wf(final(self)@),
            final(self)@ == with_type(old(self)@, arity.0),
            r.0 == type_ref_for(old(self)@, arity.0),
            r.0 < final(self)@.types.len(),
            final(self)@.types[r.0 as int] == arity.0,
            has_type(final(self)@, arity.0),
            has_type(old(self)@, arity.0) ==> type_section_budget(final(self)@.types)
                == type_section_budget(old(self)@.types),
            !has_type(old(self)@, arity.0) ==> type_section_budget(final(self)@.types)
                == type_section_budget(old(self)@.types) + 8 + arity.0,
    {
        let ghost m0 = self@;
        let n = self.types.len();
        for i in 0..n
            invariant
                self@ == m0,
                wf(m0),
                n == self.types.len(),
                forall|k: int| 0 <= k < i ==> m0.types[k] != arity.0,
        {
            if self.types[i] == arity.0 {
                proof {
                    assert(has_type(m0, arity.0));
                    let j = type_index(m0, arity.0);
                    assert(m0.types[i as int] == arity.0 && m0.types[j] == arity.0);
                    assert(j == i as int);
                    assert(with_type(m0, arity.0) == m0);
                }
                return TypeRef(i as u32);
            }
        }
        proof {
            assert(!has_type(m0, arity.0));
        }
        let r = self.types.len() as u32;
        self.types.push(arity.0);
        proof {
            assert(self@ =~~= with_type(m0, arity.0));
            assert(self@.types[r as int] == arity.0);
            lemma_type_budget_push(m0.types, arity.0);
            assert(import_wires(self@) == import_wires(m0));
            assert(export_wires(self@) == export_wires(m0));
            assert(wf(self@)) by {
                assert(forall|i: int, j: int|
                    0 <= i < j < self@.types.len() ==> self@.types[i] != self@.types[j]);
            }
        }
        TypeRef(r)
    }

    /// Return the unique function index for an import with the given module
    /// name, function name and arity, appending a new import entry (and, when
    /// needed, a new type-table entry) when none exists yet. Imports must
    /// fully precede local definitions, so none may have been defined yet.
    pub fn import_func(&mut self, module: &str, fname: &str, arity: Arity) -> (r: FuncRef)
        requires
            wf(old(self)@),
            old(self)@.funcs.len() == 0,
            has_import(old(self)@, module@, fname@, arity.0) || import_fits(
                old(self)@,
                module@,
                fname@,
                arity.0,
            ),
        ensures
            wf(final(self)@),
            final(self)@ == with_import(old(self)@, module@, fname@, arity.0),
            r.0 == import_ref_for(old(self)@, module@, fname@, arity.0),
            final(self)@.funcs.len() == 0,
            has_type(old(self)@, arity.0) ==> type_section_budget(final(self)@.types)
                == type_section_budget(old(self)@.types),
            !has_type(old(self)@, arity.0) ==> type_section_budget(final(self)@.types)
                == type_section_budget(old(self)@.types) + 8 + arity.0,
            has_import(old(self)@, module@, fname@, arity.0) ==> import_section_budget(
                import_wires(final(self)@),
            ) == import_section_budget(import_wires(old(self)@)),
            !has_import(old(self)@, module@, fname@, arity.0) ==> import_section_budget(
                import_wires(final(self)@),
            ) == import_section_budget(import_wires(old(self)@)) + 16 + 4 * module@.len() + 4
                * fname@.len(),
    {
        let ghost m0 = self@;
        let n = self.imports.len();
        for i in 0..n
            invariant
                self@ == m0,
                wf(m0),
                m0.funcs.len() == 0,
                n == self.imports.len(),
                forall|k: int|
                    0 <= k < i ==> import_key(#[trigger] m0.imports[k]) != (
                        module@,
                        fname@,
                        arity.0,
                    ),
        {
            let hit = self.imports[i].arity == arity.0 && str_eq(
                self.imports[i].module.as_str(),
                module,
            ) && str_eq(self.imports[i].fname.as_str(), fname);
            if hit {
                proof {
                    assert(import_key(m0.imports[i as int]) == (module@, fname@, arity.0));
                    assert(has_import(m0, module@, fname@, arity.0));
                    let j = import_index(m0, module@, fname@, arity.0);
                    assert(import_key(m0.imports[j]) == (module@, fname@, arity.0));
                    assert(j == i as int);
                    assert(with_import(m0, module@, fname@, arity.0) == m0);
                    assert(m0.types[m0.imports[i as int].ty as int] == arity.0);
                    assert(has_type(m0, arity.0));
                }
                return FuncRef(i as u32);
            }
        }
        proof {
            assert(!has_import(m0, module@, fname@, arity.0));
        }
        let fid = self.imports.len() as u32;
        let ty = self.get_fn_type(arity);
        let entry = ImportEntry {
            module: String::from_str(module),
            fname: String::from_str(fname),
            arity: arity.0,
            ty: ty.0,
        };
        proof {
            assert(entry@ == ImportModel {
                module: module@,
                fname: fname@,
                arity: arity.0,
                ty: type_ref_for(m0, arity.0) as u32,
            });
        }
        self.imports.push(entry);
        proof {
            assert(self@ =~~= with_import(m0, module@, fname@, arity.0));
            let mf = self@;
            assert(import_wires(mf) =~= import_wires(m0).push(import_wire(entry@)));
            lemma_import_budget_push(import_wires(m0), import_wire(entry@));
            assert(export_wires(mf) == export_wires(m0));
            assert(wf(mf)) by {
                assert(forall|k: int|
                    0 <= k < m0.imports.len() ==> mf.imports[k] == m0.imports[k]);
                assert(forall|i: int, j: int|
                    0 <= i < j < mf.imports.len() ==> import_key(mf.imports[i]) != import_key(
                        mf.imports[j],
                    ));
            }
        }
        FuncRef(fid)
    }

    /// Register a locally defined function of the given arity with an
    /// already-encoded body: resolve or create its type, then append one
    /// parallel entry to the declaration table and the code table. The new
    /// function index follows all imports and all earlier definitions.
    pub fn define_func(&mut self, arity: Arity, body: Vec<u8>) -> (r: FuncRef)
        requires
            wf(old(self)@),
            define_fits(old(self)@, arity.0, body@),
        ensures
            wf(final(self)@),
            final(self)@ == with_define(old(self)@, arity.0, body@),
            r.0 == define_ref(old(self)@),
            has_type(old(self)@, arity.0) ==> type_section_budget(final(self)@.types)
                == type_section_budget(old(self)@.types),
            !has_type(old(self)@, arity.0) ==> type_section_budget(final(self)@.types)
                == type_section_budget(old(self)@.types) + 8 + arity.0,
            function_section_budget(final(self)@.funcs) == function_section_budget(
                old(self)@.funcs,
            ) + 5,
            code_section_budget(final(self)@.codes) == code_section_budget(old(self)@.codes) + 5
                + body@.len(),
    {
        let ghost m0 = self@;
        let ty = self.get_fn_type(arity);
        // the declaration table and the code table are parallel
        assert(self.funcs.len() == self.codes.len());
        let fid = (self.imports.len() + self.funcs.len()) as u32;
        let ghost body_bytes = body@;
        self.funcs.push(ty.0);
        self.codes.push(body);
        proof {
            assert(self@ =~~= with_define(m0, arity.0, body_bytes));
            lemma_code_budget_push(m0.codes, body_bytes);
            assert(import_wires(self@) == import_wires(m0));
            assert(export_wires(self@) == export_wires(m0));
        }
        FuncRef(fid)
    }

    /// Export the function with the given index under the given name. No
    /// deduplication: repeated names or indices pass through, and any
    /// uniqueness rule of the format is left to the validator.
    pub fn export_func(&mut self, fid: FuncRef, name: &str)
        requires
            wf(old(self)@),
            export_fits(old(self)@, name@),
        ensures
            wf(final(self)@),
            final(self)@ == with_export(old(self)@, name@, fid.0),
            export_section_budget(export_wires(final(self)@)) == export_section_budget(
                export_wires(old(self)@),
            ) + 11 + 4 * name@.len(),
    {
        let ghost m0 = self@;
        let entry = ExportEntry { name: String::from_str(name), func: fid.0 };
        self.exports.push(entry);
        proof {
            assert(self@ =~~= with_export(m0, name@, fid.0));
            assert(export_wires(self@) =~= export_wires(m0).push((name@, fid.0)));
            lemma_export_budget_push(export_wires(m0), (name@, fid.0));
            assert(import_wires(self@) == import_wires(m0));
        }
    }

    /// Serialize the module, consuming the emitter: the metadata custom
    /// section first, then each non-empty section in the fixed order type,
    /// import, function-declaration, memory (always present), export, code.
    /// The structural validator runs over the result; its diagnostic is
    /// returned when it rejects the bytes, which a correct caller never sees.
    pub fn finish(self) -> (r: Result<Vec<u8>, String>)
        requires
            wf(self@),
        ensures
            match r {
                Ok(bytes) => bytes@ == output_bytes(self@) && wasm_error(output_bytes(self@))
                    is None,
                Err(msg) => wasm_error(output_bytes(self@)) == Some(msg@),
            },
    {
        let ghost m = self@;
        let mut module = encode::module_new();
        proof {
            reveal_strlit("contractenvmetav0");
            assert(meta_section_name().len() == 17);
        }
        encode::module_append_custom(&mut module, "contractenvmetav0", &self.meta);
        proof {
            assert(encode::module_data(module) =~= header_bytes() + custom_section_bytes(
                meta_section_name(),
                m.meta,
            ));
        }
        let ghost after_meta = encode::module_data(module);
        if self.types.len() > 0 {
            let ts = build_type_section(&self.types);
            encode::module_append_types(&mut module, &ts);
        }
        proof {
            assert(encode::module_data(module) =~= after_meta + section_chunk(
                m.types.len() > 0,
                type_section_bytes(m.types),
            ));
        }
        let ghost after_types = encode::module_data(module);
        if self.imports.len() > 0 {
            proof {
                assert forall|k: int| 0 <= k < self.imports@.len() implies 4 * (
                #[trigger] self.imports@[k]).module@.len() <= u32::MAX && 4
                    * self.imports@[k].fname@.len() <= u32::MAX by {
                    lemma_import_budget_entry(import_wires(m), k);
                    assert(import_wires(m)[k] == import_wire(m.imports[k]));
                }
            }
            let is = build_import_section(&self.imports);
            proof {
                assert(self.imports@.map_values(|e: ImportEntry| import_wire(e@)) =~= import_wires(
                    m,
                ));
            }
            encode::module_append_imports(&mut module, &is);
        }
        proof {
            assert(encode::module_data(module) =~= after_types + section_chunk(
                m.imports.len() > 0,
                import_section_bytes(import_wires(m)),
            ));
        }
        let ghost after_imports = encode::module_data(module);
        if self.funcs.len() > 0 {
            let fs = build_function_section(&self.funcs);
            encode::module_append_functions(&mut module, &fs);
        }
        proof {
            assert(encode::module_data(module) =~= after_imports + section_chunk(
                m.funcs.len() > 0,
                function_section_bytes(m.funcs),
            ));
        }
        encode::module_append_default_memory(&mut module);
        let ghost after_memory = encode::module_data(module);
        if self.exports.len() > 0 {
            proof {
                assert forall|k: int| 0 <= k < self.exports@.len() implies 4 * (
                #[trigger] self.exports@[k]).name@.len() <= u32::MAX by {
                    lemma_export_budget_entry(export_wires(m), k);
                    assert(export_wires(m)[k] == export_wire(m.exports[k]));
                }
            }
            let es = build_export_section(&self.exports);
            proof {
                assert(self.exports@.map_values(|e: ExportEntry| export_wire(e@)) =~= export_wires(
                    m,
                ));
            }
            encode::module_append_exports(&mut module, &es);
        }
        proof {
            assert(encode::module_data(module) =~= after_memory + section_chunk(
                m.exports.len() > 0,
                export_section_bytes(export_wires(m)),
            ));
        }
        let ghost after_exports = encode::module_data(module);
        if self.codes.len() > 0 {
            proof {
                assert forall|k: int| 0 <= k < self.codes@.len() implies (
                #[trigger] self.codes@[k])@.len() <= u32::MAX by {
                    lemma_code_budget_entry(m.codes, k);
                    assert(m.codes[k] == self.codes@[k]@);
                }
            }
            let cs = build_code_section(&self.codes);
            encode::module_append_codes(&mut module, &cs);
        }
        proof {
            assert(encode::module_data(module) =~= after_exports + section_chunk(
                m.codes.len() > 0,
                code_section_bytes(m.codes),
            ));
            assert(encode::module_data(module) =~= output_bytes(m));
        }
        let bytes = encode::module_finish(module);
        match encode::validate_module(&bytes) {
            None => Ok(bytes),
            Some(msg) => Err(msg),
        }
    }
}

/// Build the type section for these arities, in table order.
fn build_type_section(types: &Vec<u32>) -> (s: wasm_encoder::TypeSection)
    requires
        types@.len() <= u32::MAX,
    ensures
        encode::type_section_arities(s) == types@,
{
    let mut s = encode::type_section_new();
    let n = types.len();
    for i in 0..n
        invariant
            n == types.len(),
            n <= u32::MAX,
            encode::type_section_arities(s) == types@.take(i as int),
    {
        encode::type_section_add(&mut s, types[i]);
        proof {
            assert(types@.take(i + 1) =~= types@.take(i as int).push(types@[i as int]));
        }
    }
    proof {
        assert(types@.take(n as int) =~= types@);
    }
    s
}

/// Build the import section for these entries, in table order.
fn build_import_section(imports: &Vec<ImportEntry>) -> (s: wasm_encoder::ImportSection)
    requires
        imports@.len() <= u32::MAX,
        forall|k: int|
            0 <= k < imports@.len() ==> 4 * (#[trigger] imports@[k]).module@.len() <= u32::MAX
                && 4 * imports@[k].fname@.len() <= u32::MAX,
    ensures
        encode::import_section_entries(s) == imports@.map_values(
            |e: ImportEntry| import_wire(e@),
        ),
{
    let mut s = encode::import_section_new();
    let n = imports.len();
    for i in 0..n
        invariant
            n == imports.len(),
            n <= u32::MAX,
            forall|k: int|
                0 <= k < n ==> 4 * (#[trigger] imports@[k]).module@.len() <= u32::MAX && 4
                    * imports@[k].fname@.len() <= u32::MAX,
            encode::import_section_entries(s) == imports@.take(i as int).map_values(
                |e: ImportEntry| import_wire(e@),
            ),
    {
        encode::import_section_add(
            &mut s,
            imports[i].module.as_str(),
            imports[i].fname.as_str(),
            imports[i].ty,
        );
        proof {
            assert(imports@.take(i + 1).map_values(|e: ImportEntry| import_wire(e@))
                =~= imports@.take(i as int).map_values(|e: ImportEntry| import_wire(e@)).push(
                import_wire(imports@[i as int]@),
            ));
        }
    }
    proof {
        assert(imports@.take(n as int) =~= imports@);
    }
    s
}

/// Build the function-declaration section for these type indices, in order.
fn build_function_section(funcs: &Vec<u32>) -> (s: wasm_encoder::FunctionSection)
    requires
        funcs@.len() <= u32::MAX,
    ensures
        encode::function_section_types(s) == funcs@,
{
    let mut s = encode::function_section_new();
    let n = funcs.len();
    for i in 0..n
        invariant
            n == funcs.len(),
            n <= u32::MAX,
            encode::function_section_types(s) == funcs@.take(i as int),
    {
        encode::function_section_add(&mut s, funcs[i]);
        proof {
            assert(funcs@.take(i + 1) =~= funcs@.take(i as int).push(funcs@[i as int]));
        }
    }
    proof {
        assert(funcs@.take(n as int) =~= funcs@);
    }
    s
}

/// Build the export section for these entries, in registration order.
fn build_export_section(exports: &Vec<ExportEntry>) -> (s: wasm_encoder::ExportSection)
    requires
        exports@.len() <= u32::MAX,
        forall|k: int|
            0 <= k < exports@.len() ==> 4 * (#[trigger] exports@[k]).name@.len() <= u32::MAX,
    ensures
        encode::export_section_entries(s) == exports@.map_values(
            |e: ExportEntry| export_wire(e@),
        ),
{
    let mut s = encode::export_section_new();
    let n = exports.len();
    for i in 0..n
        invariant
            n == exports.len(),
            n <= u32::MAX,
            forall|k: int|
                0 <= k < n ==> 4 * (#[trigger] exports@[k]).name@.len() <= u32::MAX,
            encode::export_section_entries(s) == exports@.take(i as int).map_values(
                |e: ExportEntry| export_wire(e@),
            ),
    {
        encode::export_section_add(&mut s, exports[i].name.as_str(), exports[i].func);
        proof {
            assert(exports@.take(i + 1).map_values(|e: ExportEntry| export_wire(e@))
                =~= exports@.take(i as int).map_values(|e: ExportEntry| export_wire(e@)).push(
                export_wire(exports@[i as int]@),
            ));
        }
    }
    proof {
        assert(exports@.take(n as int) =~= exports@);
    }
    s
}

/// Build the code section for these raw bodies, in definition order.
fn build_code_section(codes: &Vec<Vec<u8>>) -> (s: wasm_encoder::CodeSection)
    requires
        codes@.len() <= u32::MAX,
        forall|k: int| 0 <= k < codes@.len() ==> (#[trigger] codes@[k])@.len() <= u32::MAX,
    ensures
        encode::code_section_bodies(s) == codes@.map_values(|b: Vec<u8>| b@),
{
    let mut s = encode::code_section_new();
    let n = codes.len();
    for i in 0..n
        invariant
            n == codes.len(),
            n <= u32::MAX,
            forall|k: int| 0 <= k < n ==> (#[trigger] codes@[k])@.len() <= u32::MAX,
            encode::code_section_bodies(s) == codes@.take(i as int).map_values(
                |b: Vec<u8>| b@,
            ),
    {
        encode::code_section_add(&mut s, &codes[i]);
        proof {
            assert(codes@.take(i + 1).map_values(|b: Vec<u8>| b@) =~= codes@.take(
                i as int,
            ).map_values(|b: Vec<u8>| b@).push(codes@[i as int]@));
        }
    }
    proof {
        assert(codes@.take(n as int) =~= codes@);
    }
    s
}

/// Equality of two strings, decided by their character sequences.
fn str_eq(a: &str, b: &str) -> (r: bool)
    ensures
        r == (a@ == b@),
{
    let n = a.unicode_len();
    let m = b.unicode_len();
    if n != m {
        return false;
    }
    let mut i: usize = 0;
    while i < n
        invariant
            n == a@.len(),
            n == b@.len(),
            i <= n,
            forall|k: int| 0 <= k < i ==> a@[k] == b@[k],
        decreases n - i,
    {
        if a.get_char(i) != b.get_char(i) {
            return false;
        }
        i += 1;
    }
    proof {
        assert(a@ =~= b@);
    }
    true
}

} // verus!
