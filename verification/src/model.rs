//! The mathematical model of the emitter.
//!
//! An in-progress module is modelled by `EmitterModel`: the metadata payload,
//! the arity of every type-table entry, the import entries, the type index of
//! every locally defined function, the raw body of every locally defined
//! function, and the export entries. Every operation of the emitter is a
//! transition on this model, and `output_bytes` says which byte stream
//! `finish` serializes a model to.

use vstd::prelude::*;

use crate::encode::code_section_budget;
use crate::encode::code_section_bytes;
use crate::encode::custom_section_bytes;
use crate::encode::default_memory_section_bytes;
use crate::encode::export_section_budget;
use crate::encode::export_section_bytes;
use crate::encode::function_section_budget;
use crate::encode::function_section_bytes;
use crate::encode::header_bytes;
use crate::encode::import_section_budget;
use crate::encode::import_section_bytes;
use crate::encode::type_section_budget;
use crate::encode::type_section_bytes;

verus! {

/// Model of one import entry: the names it was registered under, the arity it
/// was requested with, and the type-table index it is bound to.
#[verifier::ext_equal]
pub ghost struct ImportModel {
    pub module: Seq<char>,
    pub fname: Seq<char>,
    pub arity: u32,
    pub ty: u32,
}

/// Model of one export entry: the export name and the function index it maps
/// to.
#[verifier::ext_equal]
pub ghost struct ExportModel {
    pub name: Seq<char>,
    pub func: u32,
}

/// Model of an in-progress module.
#[verifier::ext_equal]
pub ghost struct EmitterModel {
    /// The metadata payload embedded as the first section of the output.
    pub meta: Seq<u8>,
    /// The arity of each type-table entry, in table order.
    pub types: Seq<u32>,
    /// The import entries, in import-section order.
    pub imports: Seq<ImportModel>,
    /// The type index of each locally defined function, in definition order.
    pub funcs: Seq<u32>,
    /// The raw body of each locally defined function, in definition order.
    pub codes: Seq<Seq<u8>>,
    /// The export entries, in export-section order.
    pub exports: Seq<ExportModel>,
}

/// The key an import is deduplicated by.
pub open spec fn import_key(e: ImportModel) -> (Seq<char>, Seq<char>, u32) {
    (e.module, e.fname, e.arity)
}

/// The model of a freshly constructed emitter: only the metadata payload is
/// set, every table is empty.
pub open spec fn empty_model(meta: Seq<u8>) -> EmitterModel {
    EmitterModel {
        meta: meta,
        types: Seq::<u32>::empty(),
        imports: Seq::<ImportModel>::empty(),
        funcs: Seq::<u32>::empty(),
        codes: Seq::<Seq<u8>>::empty(),
        exports: Seq::<ExportModel>::empty(),
    }
}

/// What the import table contributes to the import section: one (module
/// name, function name, type index) triple per entry.
pub open spec fn import_wires(m: EmitterModel) -> Seq<(Seq<char>, Seq<char>, u32)> {
    m.imports.map_values(|e: ImportModel| import_wire(e))
}

/// What the export table contributes to the export section: one (name,
/// function index) pair per entry.
pub open spec fn export_wires(m: EmitterModel) -> Seq<(Seq<char>, u32)> {
    m.exports.map_values(|e: ExportModel| export_wire(e))
}

/// Well-formedness of a model: the type table holds at most one entry per
/// arity, import keys are pairwise distinct, every recorded type index is in
/// range and consistent with the table, the function-declaration table and
/// the code table are parallel, the counts fit the 32-bit index spaces, and
/// every section's byte budget fits the format's 32-bit section sizes.
pub open spec fn wf(m: EmitterModel) -> bool {
    &&& forall|i: int, j: int|
        0 <= i < j < m.types.len() ==> m.types[i] != m.types[j]
    &&& forall|i: int, j: int|
        0 <= i < j < m.imports.len() ==> import_key(m.imports[i]) != import_key(m.imports[j])
    &&& forall|i: int|
        0 <= i < m.imports.len() ==> #[trigger] m.imports[i].ty < m.types.len()
            && m.types[m.imports[i].ty as int] == m.imports[i].arity
    &&& forall|i: int| 0 <= i < m.funcs.len() ==> #[trigger] m.funcs[i] < m.types.len()
    &&& m.codes.len() == m.funcs.len()
    &&& m.types.len() <= u32::MAX
    &&& m.imports.len() + m.funcs.len() <= u32::MAX
    &&& m.exports.len() <= u32::MAX
    &&& m.meta.len() + 73 <= u32::MAX
    &&& type_section_budget(m.types) <= u32::MAX
    &&& import_section_budget(import_wires(m)) <= u32::MAX
    &&& function_section_budget(m.funcs) <= u32::MAX
    &&& export_section_budget(export_wires(m)) <= u32::MAX
    &&& code_section_budget(m.codes) <= u32::MAX
}

/// Whether one more type-table entry of this arity fits the format's 32-bit
/// section-size and index limits.
pub open spec fn type_fits(m: EmitterModel, arity: u32) -> bool {
    &&& m.types.len() < u32::MAX
    &&& type_section_budget(m.types) + 8 + arity <= u32::MAX
}

/// Whether one more import entry with these names and this arity fits the
/// format's 32-bit limits, a type-table entry for the arity included.
pub open spec fn import_fits(
    m: EmitterModel,
    module: Seq<char>,
    fname: Seq<char>,
    arity: u32,
) -> bool {
    &&& m.imports.len() < u32::MAX
    &&& import_section_budget(import_wires(m)) + 16 + 4 * module.len() + 4 * fname.len()
        <= u32::MAX
    &&& has_type(m, arity) || type_fits(m, arity)
}

/// Whether one more local definition with this arity and body fits the
/// format's 32-bit limits, a type-table entry for the arity included.
pub open spec fn define_fits(m: EmitterModel, arity: u32, body: Seq<u8>) -> bool {
    &&& m.imports.len() + m.funcs.len() < u32::MAX
    &&& function_section_budget(m.funcs) + 5 <= u32::MAX
    &&& code_section_budget(m.codes) + 5 + body.len() <= u32::MAX
    &&& has_type(m, arity) || type_fits(m, arity)
}

/// Whether one more export entry with this name fits the format's 32-bit
/// limits.
pub open spec fn export_fits(m: EmitterModel, name: Seq<char>) -> bool {
    &&& m.exports.len() < u32::MAX
    &&& export_section_budget(export_wires(m)) + 11 + 4 * name.len() <= u32::MAX
}

// ---- facts about the budgets ---------------------------------------------------

/// Appending one arity grows the type-section budget by that entry's bound.
pub proof fn lemma_type_budget_push(arities: Seq<u32>, arity: u32)
    ensures
        type_section_budget(arities.push(arity)) == type_section_budget(arities) + 8 + arity,
{
    assert(arities.push(arity).drop_last() =~= arities);
}

/// Appending one entry grows the import-section budget by that entry's bound.
pub proof fn lemma_import_budget_push(
    entries: Seq<(Seq<char>, Seq<char>, u32)>,
    e: (Seq<char>, Seq<char>, u32),
)
    ensures
        import_section_budget(entries.push(e)) == import_section_budget(entries) + 16 + 4
            * e.0.len() + 4 * e.1.len(),
{
    assert(entries.push(e).drop_last() =~= entries);
}

/// Appending one entry grows the export-section budget by that entry's bound.
pub proof fn lemma_export_budget_push(entries: Seq<(Seq<char>, u32)>, e: (Seq<char>, u32))
    ensures
        export_section_budget(entries.push(e)) == export_section_budget(entries) + 11 + 4
            * e.0.len(),
{
    assert(entries.push(e).drop_last() =~= entries);
}

/// Appending one body grows the code-section budget by that entry's bound.
pub proof fn lemma_code_budget_push(bodies: Seq<Seq<u8>>, body: Seq<u8>)
    ensures
        code_section_budget(bodies.push(body)) == code_section_budget(bodies) + 5 + body.len(),
{
    assert(bodies.push(body).drop_last() =~= bodies);
}

/// The import-section budget is at least its count prefix.
pub proof fn lemma_import_budget_min(entries: Seq<(Seq<char>, Seq<char>, u32)>)
    ensures
        import_section_budget(entries) >= 5,
    decreases entries.len(),
{
    if entries.len() > 0 {
        lemma_import_budget_min(entries.drop_last());
    }
}

/// The export-section budget is at least its count prefix.
pub proof fn lemma_export_budget_min(entries: Seq<(Seq<char>, u32)>)
    ensures
        export_section_budget(entries) >= 5,
    decreases entries.len(),
{
    if entries.len() > 0 {
        lemma_export_budget_min(entries.drop_last());
    }
}

/// The code-section budget is at least its count prefix.
pub proof fn lemma_code_budget_min(bodies: Seq<Seq<u8>>)
    ensures
        code_section_budget(bodies) >= 5,
    decreases bodies.len(),
{
    if bodies.len() > 0 {
        lemma_code_budget_min(bodies.drop_last());
    }
}

/// The import-section budget covers each single entry's bound.
pub proof fn lemma_import_budget_entry(entries: Seq<(Seq<char>, Seq<char>, u32)>, i: int)
    requires
        0 <= i < entries.len(),
    ensures
        import_section_budget(entries) >= 21 + 4 * entries[i].0.len() + 4 * entries[i].1.len(),
    decreases entries.len(),
{
    if i + 1 == entries.len() {
        lemma_import_budget_min(entries.drop_last());
        assert(entries.last() == entries[i]);
    } else {
        lemma_import_budget_entry(entries.drop_last(), i);
        assert(entries.drop_last()[i] == entries[i]);
    }
}

/// The export-section budget covers each single entry's bound.
pub proof fn lemma_export_budget_entry(entries: Seq<(Seq<char>, u32)>, i: int)
    requires
        0 <= i < entries.len(),
    ensures
        export_section_budget(entries) >= 16 + 4 * entries[i].0.len(),
    decreases entries.len(),
{
    if i + 1 == entries.len() {
        lemma_export_budget_min(entries.drop_last());
        assert(entries.last() == entries[i]);
    } else {
        lemma_export_budget_entry(entries.drop_last(), i);
        assert(entries.drop_last()[i] == entries[i]);
    }
}

/// The code-section budget covers each single body's bound.
pub proof fn lemma_code_budget_entry(bodies: Seq<Seq<u8>>, i: int)
    requires
        0 <= i < bodies.len(),
    ensures
        code_section_budget(bodies) >= 10 + bodies[i].len(),
    decreases bodies.len(),
{
    if i + 1 == bodies.len() {
        lemma_code_budget_min(bodies.drop_last());
        assert(bodies.last() == bodies[i]);
    } else {
        lemma_code_budget_entry(bodies.drop_last(), i);
        assert(bodies.drop_last()[i] == bodies[i]);
    }
}

// ---- the type registry -------------------------------------------------------

/// Whether the type table already holds an entry of this arity.
pub open spec fn has_type(m: EmitterModel, arity: u32) -> bool {
    exists|i: int| 0 <= i < m.types.len() && m.types[i] == arity
}

/// The table index of the entry of this arity (meaningful when `has_type`;
/// unique under `wf`).
pub open spec fn type_index(m: EmitterModel, arity: u32) -> int {
    choose|i: int| 0 <= i < m.types.len() && m.types[i] == arity
}

/// The type index `get_fn_type` returns on this model: the existing entry's
/// index, or the next fresh one.
pub open spec fn type_ref_for(m: EmitterModel, arity: u32) -> int {
    if has_type(m, arity) {
        type_index(m, arity)
    } else {
        m.types.len() as int
    }
}

/// The model after `get_fn_type`: unchanged when the arity is already
/// registered, else the type table grows by one entry.
pub open spec fn with_type(m: EmitterModel, arity: u32) -> EmitterModel {
    if has_type(m, arity) {
        m
    } else {
        EmitterModel { types: m.types.push(arity), ..m }
    }
}

// ---- the import registry -----------------------------------------------------

/// Whether an import with this exact (module, name, arity) key is already
/// registered.
pub open spec fn has_import(
    m: EmitterModel,
    module: Seq<char>,
    fname: Seq<char>,
    arity: u32,
) -> bool {
    exists|i: int|
        0 <= i < m.imports.len() && import_key(m.imports[i]) == (module, fname, arity)
}

/// The import-table index of the entry with this key (meaningful when
/// `has_import`; unique under `wf`).
pub open spec fn import_index(
    m: EmitterModel,
    module: Seq<char>,
    fname: Seq<char>,
    arity: u32,
) -> int {
    choose|i: int|
        0 <= i < m.imports.len() && import_key(m.imports[i]) == (module, fname, arity)
}

/// The function index `import_func` returns on this model: the existing
/// entry's index, or the next fresh one. Imports occupy the low indices of
/// the combined function index space.
pub open spec fn import_ref_for(
    m: EmitterModel,
    module: Seq<char>,
    fname: Seq<char>,
    arity: u32,
) -> int {
    if has_import(m, module, fname, arity) {
        import_index(m, module, fname, arity)
    } else {
        m.imports.len() as int
    }
}

/// The model after `import_func`: unchanged when the key is already
/// registered, else the type for the arity is resolved or created and one
/// import entry is appended.
pub open spec fn with_import(
    m: EmitterModel,
    module: Seq<char>,
    fname: Seq<char>,
    arity: u32,
) -> EmitterModel {
    if has_import(m, module, fname, arity) {
        m
    } else {
        let grown = with_type(m, arity);
        EmitterModel {
            imports: grown.imports.push(
                ImportModel { module, fname, arity, ty: type_ref_for(m, arity) as u32 },
            ),
            ..grown
        }
    }
}

// ---- local definitions and exports --------------------------------------------

/// The function index `define_func` returns on this model: imports first,
/// then locally defined functions.
pub open spec fn define_ref(m: EmitterModel) -> int {
    m.imports.len() + m.funcs.len() as int
}

/// The model after `define_func`: the type for the arity is resolved or
/// created, and the declaration and code tables each grow by one parallel
/// entry.
pub open spec fn with_define(m: EmitterModel, arity: u32, body: Seq<u8>) -> EmitterModel {
    let grown = with_type(m, arity);
    EmitterModel {
        funcs: grown.funcs.push(type_ref_for(m, arity) as u32),
        codes: grown.codes.push(body),
        ..grown
    }
}

/// The model after `export_func`: one export entry is appended, with no
/// deduplication.
pub open spec fn with_export(m: EmitterModel, name: Seq<char>, func: u32) -> EmitterModel {
    EmitterModel { exports: m.exports.push(ExportModel { name, func }), ..m }
}

// ---- serialization -------------------------------------------------------------

/// The name of the metadata custom section.
pub open spec fn meta_section_name() -> Seq<char> {
    "contractenvmetav0"@
}

/// What an import entry contributes to the import section: its names and its
/// type index.
pub open spec fn import_wire(e: ImportModel) -> (Seq<char>, Seq<char>, u32) {
    (e.module, e.fname, e.ty)
}

/// What an export entry contributes to the export section.
pub open spec fn export_wire(e: ExportModel) -> (Seq<char>, u32) {
    (e.name, e.func)
}

/// A section's contribution to the output: its bytes when it has entries,
/// nothing when it is empty (empty sections are omitted, not emitted empty).
pub open spec fn section_chunk(present: bool, bytes: Seq<u8>) -> Seq<u8> {
    if present {
        bytes
    } else {
        Seq::<u8>::empty()
    }
}

/// The byte stream `finish` serializes a model to: the header, the metadata
/// custom section, then each non-empty section in the fixed order type,
/// import, function-declaration, memory (always present), export, code.
pub open spec fn output_bytes(m: EmitterModel) -> Seq<u8> {
    header_bytes() + custom_section_bytes(meta_section_name(), m.meta) + section_chunk(
        m.types.len() > 0,
        type_section_bytes(m.types),
    ) + section_chunk(
        m.imports.len() > 0,
        import_section_bytes(import_wires(m)),
    ) + section_chunk(
        m.funcs.len() > 0,
        function_section_bytes(m.funcs),
    ) + default_memory_section_bytes() + section_chunk(
        m.exports.len() > 0,
        export_section_bytes(export_wires(m)),
    ) + section_chunk(m.codes.len() > 0, code_section_bytes(m.codes))
}

} // verus!
