//! Trusted boundary to the `wasm_encoder` and `wasmparser` crates.
//!
//! Every function here is `external_body`: its contract states what the
//! outside call does, over names for the section encodings, and nothing in
//! this file is checked by the verifier. Everything else in the crate is
//! proved against these contracts.

use vstd::prelude::*;

verus! {

// ---- declarations of the outside types -------------------------------------

#[verifier::external_type_specification]
#[verifier::external_body]
pub struct ExModule(wasm_encoder::Module);

#[verifier::external_type_specification]
#[verifier::external_body]
pub struct ExTypeSection(wasm_encoder::TypeSection);

#[verifier::external_type_specification]
#[verifier::external_body]
pub struct ExImportSection(wasm_encoder::ImportSection);

#[verifier::external_type_specification]
#[verifier::external_body]
pub struct ExFunctionSection(wasm_encoder::FunctionSection);

#[verifier::external_type_specification]
#[verifier::external_body]
pub struct ExExportSection(wasm_encoder::ExportSection);

#[verifier::external_type_specification]
#[verifier::external_body]
pub struct ExCodeSection(wasm_encoder::CodeSection);

// ---- names for the contents of the outside encoders ------------------------

/// The bytes a `wasm_encoder::Module` holds so far: the 8-byte header plus
/// every section appended to it, in order.
pub uninterp spec fn module_data(m: wasm_encoder::Module) -> Seq<u8>;

/// The arities of the function types appended to a `wasm_encoder::TypeSection`
/// by `type_section_add`, in order.
pub uninterp spec fn type_section_arities(s: wasm_encoder::TypeSection) -> Seq<u32>;

/// The (module name, function name, type index) entries appended to a
/// `wasm_encoder::ImportSection` by `import_section_add`, in order.
pub uninterp spec fn import_section_entries(
    s: wasm_encoder::ImportSection,
) -> Seq<(Seq<char>, Seq<char>, u32)>;

/// The type indices appended to a `wasm_encoder::FunctionSection`, in order.
pub uninterp spec fn function_section_types(s: wasm_encoder::FunctionSection) -> Seq<u32>;

/// The (export name, function index) entries appended to a
/// `wasm_encoder::ExportSection` by `export_section_add`, in order.
pub uninterp spec fn export_section_entries(
    s: wasm_encoder::ExportSection,
) -> Seq<(Seq<char>, u32)>;

/// The raw function bodies appended to a `wasm_encoder::CodeSection`, in order.
pub uninterp spec fn code_section_bodies(s: wasm_encoder::CodeSection) -> Seq<Seq<u8>>;

// ---- names for the bytes the outside encoders serialize to ------------------

/// The complete custom section (id byte, size, name length, name, payload)
/// that `wasm_encoder` appends for a custom section with this name and payload.
pub uninterp spec fn custom_section_bytes(name: Seq<char>, data: Seq<u8>) -> Seq<u8>;

/// The complete type section that `wasm_encoder` appends for a type section
/// holding one `(arity x i64) -> i64` function type per listed arity.
pub uninterp spec fn type_section_bytes(arities: Seq<u32>) -> Seq<u8>;

/// The complete import section that `wasm_encoder` appends for these
/// (module name, function name, type index) function imports.
pub uninterp spec fn import_section_bytes(
    entries: Seq<(Seq<char>, Seq<char>, u32)>,
) -> Seq<u8>;

/// The complete function section that `wasm_encoder` appends for these
/// function declarations (one type index each).
pub uninterp spec fn function_section_bytes(types: Seq<u32>) -> Seq<u8>;

/// The complete export section that `wasm_encoder` appends for these
/// (name, function index) function exports.
pub uninterp spec fn export_section_bytes(entries: Seq<(Seq<char>, u32)>) -> Seq<u8>;

/// The complete code section that `wasm_encoder` appends for these raw
/// function bodies.
pub uninterp spec fn code_section_bytes(bodies: Seq<Seq<u8>>) -> Seq<u8>;

/// The verdict of `wasmparser::validate` on a byte stream: `None` when the
/// stream is a structurally valid module, otherwise the diagnostic message.
/// The validator is a pure function of the bytes.
pub uninterp spec fn wasm_error(bytes: Seq<u8>) -> Option<Seq<char>>;

// ---- byte-size budgets of the outside encoders -------------------------------
//
// The binary format carries every section size as a u32, and `wasm_encoder`
// asserts that limit when it serializes a section (and a name's length when
// it encodes a string). Each budget below is an upper bound on the bytes a
// section's encoding can reach from its contents: five bytes for any LEB128
// length or count prefix, four bytes per name character (the widest UTF-8
// encoding), one byte per i64 parameter, at most five per 32-bit index, and
// the per-entry tag bytes. A wrapper that would serialize requires its
// budget to fit, which keeps the excluded assertion unreachable.

/// Byte bound for a custom section's size field: length prefix, name length
/// prefix and name, payload.
pub open spec fn custom_section_budget(name: Seq<char>, data: Seq<u8>) -> int {
    5 + 4 * name.len() + data.len() as int
}

/// Byte bound for the type section's size field: count prefix, then per
/// entry one tag byte, the parameter count, one byte per parameter, the
/// result count, and one result byte.
pub open spec fn type_section_budget(arities: Seq<u32>) -> int
    decreases arities.len(),
{
    if arities.len() == 0 {
        5
    } else {
        type_section_budget(arities.drop_last()) + 8 + arities.last()
    }
}

/// Byte bound for the import section's size field: count prefix, then per
/// entry two length-prefixed names and a tagged type index.
pub open spec fn import_section_budget(entries: Seq<(Seq<char>, Seq<char>, u32)>) -> int
    decreases entries.len(),
{
    if entries.len() == 0 {
        5
    } else {
        import_section_budget(entries.drop_last()) + 16 + 4 * entries.last().0.len() + 4
            * entries.last().1.len()
    }
}

/// Byte bound for the function section's size field: count prefix, then one
/// 32-bit index per entry.
pub open spec fn function_section_budget(types: Seq<u32>) -> int {
    5 + 5 * types.len() as int
}

/// Byte bound for the export section's size field: count prefix, then per
/// entry a length-prefixed name, a kind byte, and a 32-bit index.
pub open spec fn export_section_budget(entries: Seq<(Seq<char>, u32)>) -> int
    decreases entries.len(),
{
    if entries.len() == 0 {
        5
    } else {
        export_section_budget(entries.drop_last()) + 11 + 4 * entries.last().0.len()
    }
}

/// Byte bound for the code section's size field: count prefix, then per
/// entry a length-prefixed raw body.
pub open spec fn code_section_budget(bodies: Seq<Seq<u8>>) -> int
    decreases bodies.len(),
{
    if bodies.len() == 0 {
        5
    } else {
        code_section_budget(bodies.drop_last()) + 5 + bodies.last().len()
    }
}

// ---- known constants of the binary format -----------------------------------

/// The 8-byte header every module starts with: magic `\0asm` then version 1.
pub open spec fn header_bytes() -> Seq<u8> {
    seq![0x00u8, 0x61u8, 0x73u8, 0x6du8, 0x01u8, 0x00u8, 0x00u8, 0x00u8]
}

/// The memory section holding exactly one default linear memory (minimum one
/// page, no maximum, 32-bit, unshared): section id 5, payload size 3, one
/// entry with flags 0 and minimum 1.
pub open spec fn default_memory_section_bytes() -> Seq<u8> {
    seq![0x05u8, 0x03u8, 0x01u8, 0x00u8, 0x01u8]
}

// ---- the trusted wrappers ----------------------------------------------------

/// Relies on `wasm_encoder::Module::new`: a fresh module holds exactly the
/// 8-byte header.
#[verifier::external_body]
pub(crate) fn module_new() -> (m: wasm_encoder::Module)
    ensures
        module_data(m) == header_bytes(),
{
    wasm_encoder::Module::new()
}

/// Relies on `wasm_encoder::Module::section` with a `CustomSection`: appends
/// the encoded custom section, a function of the name and payload alone.
/// The encoder asserts that the section's size and the name's length fit a
/// u32; the budget bound keeps both unreachable.
#[verifier::external_body]
pub(crate) fn module_append_custom(m: &mut wasm_encoder::Module, name: &str, data: &Vec<u8>)
    requires
        custom_section_budget(name@, data@) <= u32::MAX,
    ensures
        module_data(*final(m)) == module_data(*old(m)) + custom_section_bytes(name@, data@),
{
    m.section(&wasm_encoder::CustomSection {
        name: std::borrow::Cow::Borrowed(name),
        data: std::borrow::Cow::Borrowed(data.as_slice()),
    });
}

/// Relies on `wasm_encoder::TypeSection::new`: a fresh section holds no types.
#[verifier::external_body]
pub(crate) fn type_section_new() -> (s: wasm_encoder::TypeSection)
    ensures
        type_section_arities(s) == Seq::<u32>::empty(),
{
    wasm_encoder::TypeSection::new()
}

/// Relies on `wasm_encoder::CoreTypeEncoder::function` (via
/// `TypeSection::ty`): appends one function type taking `arity` i64 values
/// and returning one i64.
/// The section's u32 entry counter must not wrap.
#[verifier::external_body]
pub(crate) fn type_section_add(s: &mut wasm_encoder::TypeSection, arity: u32)
    requires
        type_section_arities(*old(s)).len() < u32::MAX,
    ensures
        type_section_arities(*final(s)) == type_section_arities(*old(s)).push(arity),
{
    let params = std::iter::repeat(wasm_encoder::ValType::I64)
        .take(arity as usize)
        .collect::<Vec<_>>();
    s.ty().function(params, [wasm_encoder::ValType::I64]);
}

/// Relies on `wasm_encoder::Module::section` with a `TypeSection`: appends
/// the encoded type section, a function of the section's contents alone.
/// The encoder asserts that the section's size fits a u32; the budget bound
/// keeps that unreachable.
#[verifier::external_body]
pub(crate) fn module_append_types(m: &mut wasm_encoder::Module, s: &wasm_encoder::TypeSection)
    requires
        type_section_budget(type_section_arities(*s)) <= u32::MAX,
    ensures
        module_data(*final(m)) == module_data(*old(m)) + type_section_bytes(
            type_section_arities(*s),
        ),
{
    m.section(s);
}

/// Relies on `wasm_encoder::ImportSection::new`: a fresh section holds no
/// imports.
#[verifier::external_body]
pub(crate) fn import_section_new() -> (s: wasm_encoder::ImportSection)
    ensures
        import_section_entries(s) == Seq::<(Seq<char>, Seq<char>, u32)>::empty(),
{
    wasm_encoder::ImportSection::new()
}

/// Relies on `wasm_encoder::ImportSection::import` with
/// `EntityType::Function`: appends one function import binding
/// (module, name) to the given type index. The encoder asserts that each
/// name's length fits a u32, and the section's u32 entry counter must not
/// wrap; the bounds keep both unreachable.
#[verifier::external_body]
pub(crate) fn import_section_add(
    s: &mut wasm_encoder::ImportSection,
    module: &str,
    fname: &str,
    ty: u32,
)
    requires
        import_section_entries(*old(s)).len() < u32::MAX,
        4 * module@.len() <= u32::MAX,
        4 * fname@.len() <= u32::MAX,
    ensures
        import_section_entries(*final(s)) == import_section_entries(*old(s)).push(
            (module@, fname@, ty),
        ),
{
    s.import(module, fname, wasm_encoder::EntityType::Function(ty));
}

/// Relies on `wasm_encoder::Module::section` with an `ImportSection`: appends
/// the encoded import section, a function of the section's contents alone.
/// The encoder asserts that the section's size fits a u32; the budget bound
/// keeps that unreachable.
#[verifier::external_body]
pub(crate) fn module_append_imports(m: &mut wasm_encoder::Module, s: &wasm_encoder::ImportSection)
    requires
        import_section_budget(import_section_entries(*s)) <= u32::MAX,
    ensures
        module_data(*final(m)) == module_data(*old(m)) + import_section_bytes(
            import_section_entries(*s),
        ),
{
    m.section(s);
}

/// Relies on `wasm_encoder::FunctionSection::new`: a fresh section holds no
/// declarations.
#[verifier::external_body]
pub(crate) fn function_section_new() -> (s: wasm_encoder::FunctionSection)
    ensures
        function_section_types(s) == Seq::<u32>::empty(),
{
    wasm_encoder::FunctionSection::new()
}

/// Relies on `wasm_encoder::FunctionSection::function`: appends one function
/// declaration referencing the given type index.
/// The section's u32 entry counter must not wrap.
#[verifier::external_body]
pub(crate) fn function_section_add(s: &mut wasm_encoder::FunctionSection, ty: u32)
    requires
        function_section_types(*old(s)).len() < u32::MAX,
    ensures
        function_section_types(*final(s)) == function_section_types(*old(s)).push(ty),
{
    s.function(ty);
}

/// Relies on `wasm_encoder::Module::section` with a `FunctionSection`:
/// appends the encoded function section, a function of the section's contents
/// alone. The encoder asserts that the section's size fits a u32; the budget
/// bound keeps that unreachable.
#[verifier::external_body]
pub(crate) fn module_append_functions(
    m: &mut wasm_encoder::Module,
    s: &wasm_encoder::FunctionSection,
)
    requires
        function_section_budget(function_section_types(*s)) <= u32::MAX,
    ensures
        module_data(*final(m)) == module_data(*old(m)) + function_section_bytes(
            function_section_types(*s),
        ),
{
    m.section(s);
}

/// Relies on `wasm_encoder::MemorySection::memory` and `Module::section`: a
/// section holding one default linear memory (minimum one page, no maximum,
/// 32-bit, unshared, default page size) encodes to exactly the five bytes of
/// `default_memory_section_bytes`.
#[verifier::external_body]
pub(crate) fn module_append_default_memory(m: &mut wasm_encoder::Module)
    ensures
        module_data(*final(m)) == module_data(*old(m)) + default_memory_section_bytes(),
{
    let mut mems = wasm_encoder::MemorySection::new();
    mems.memory(wasm_encoder::MemoryType {
        minimum: 1,
        maximum: None,
        memory64: false,
        shared: false,
        page_size_log2: None,
    });
    m.section(&mems);
}

/// Relies on `wasm_encoder::ExportSection::new`: a fresh section holds no
/// exports.
#[verifier::external_body]
pub(crate) fn export_section_new() -> (s: wasm_encoder::ExportSection)
    ensures
        export_section_entries(s) == Seq::<(Seq<char>, u32)>::empty(),
{
    wasm_encoder::ExportSection::new()
}

/// Relies on `wasm_encoder::ExportSection::export` with `ExportKind::Func`:
/// appends one function export mapping the name to the function index. The
/// encoder asserts that the name's length fits a u32, and the section's u32
/// entry counter must not wrap; the bounds keep both unreachable.
#[verifier::external_body]
pub(crate) fn export_section_add(s: &mut wasm_encoder::ExportSection, name: &str, func: u32)
    requires
        export_section_entries(*old(s)).len() < u32::MAX,
        4 * name@.len() <= u32::MAX,
    ensures
        export_section_entries(*final(s)) == export_section_entries(*old(s)).push((name@, func)),
{
    s.export(name, wasm_encoder::ExportKind::Func, func);
}

/// Relies on `wasm_encoder::Module::section` with an `ExportSection`: appends
/// the encoded export section, a function of the section's contents alone.
/// The encoder asserts that the section's size fits a u32; the budget bound
/// keeps that unreachable.
#[verifier::external_body]
pub(crate) fn module_append_exports(m: &mut wasm_encoder::Module, s: &wasm_encoder::ExportSection)
    requires
        export_section_budget(export_section_entries(*s)) <= u32::MAX,
    ensures
        module_data(*final(m)) == module_data(*old(m)) + export_section_bytes(
            export_section_entries(*s),
        ),
{
    m.section(s);
}

/// Relies on `wasm_encoder::CodeSection::new`: a fresh section holds no
/// bodies.
#[verifier::external_body]
pub(crate) fn code_section_new() -> (s: wasm_encoder::CodeSection)
    ensures
        code_section_bodies(s) == Seq::<Seq<u8>>::empty(),
{
    wasm_encoder::CodeSection::new()
}

/// Relies on `wasm_encoder::CodeSection::raw`: appends one already-encoded
/// function body (the size prefix is added by the encoder). The encoder
/// asserts that the body's length fits a u32, and the section's u32 entry
/// counter must not wrap; the bounds keep both unreachable.
#[verifier::external_body]
pub(crate) fn code_section_add(s: &mut wasm_encoder::CodeSection, body: &Vec<u8>)
    requires
        code_section_bodies(*old(s)).len() < u32::MAX,
        body@.len() <= u32::MAX,
    ensures
        code_section_bodies(*final(s)) == code_section_bodies(*old(s)).push(body@),
{
    s.raw(body.as_slice());
}

/// Relies on `wasm_encoder::Module::section` with a `CodeSection`: appends
/// the encoded code section, a function of the section's contents alone.
/// The encoder asserts that the section's size fits a u32; the budget bound
/// keeps that unreachable.
#[verifier::external_body]
pub(crate) fn module_append_codes(m: &mut wasm_encoder::Module, s: &wasm_encoder::CodeSection)
    requires
        code_section_budget(code_section_bodies(*s)) <= u32::MAX,
    ensures
        module_data(*final(m)) == module_data(*old(m)) + code_section_bytes(
            code_section_bodies(*s),
        ),
{
    m.section(s);
}

/// Relies on `wasm_encoder::Module::finish`: returns exactly the bytes the
/// module holds.
#[verifier::external_body]
pub(crate) fn module_finish(m: wasm_encoder::Module) -> (r: Vec<u8>)
    ensures
        r@ == module_data(m),
{
    m.finish()
}

/// Relies on `wasmparser::validate`: a pure structural check of the byte
/// stream, returning the diagnostic message of the failure, if any.
#[verifier::external_body]
pub(crate) fn validate_module(bytes: &Vec<u8>) -> (r: Option<String>)
    ensures
        match r {
            None => wasm_error(bytes@) is None,
            Some(msg) => wasm_error(bytes@) == Some(msg@),
        },
{
    match wasmparser::validate(bytes.as_slice()) {
        Ok(_) => None,
        Err(e) => Some(e.message().to_string()),
    }
}

} // verus!
