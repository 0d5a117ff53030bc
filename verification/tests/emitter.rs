use synth_wasm::Arity;
use synth_wasm::FuncRef;
use synth_wasm::ModEmitter;
use wasmparser::Parser;
use wasmparser::Payload;

/// A minimal valid body for a function returning one i64: no locals,
/// `i64.const 0`, `end`.
fn const_body() -> Vec<u8> {
    vec![0x00, 0x42, 0x00, 0x0B]
}

/// Parse a finished module and return, per section, how many entries it has:
/// (types, imports, functions, memories, exports, code bodies), with `None`
/// for a section that does not appear at all.
fn section_counts(
    bytes: &[u8],
) -> (
    Option<u32>,
    Option<u32>,
    Option<u32>,
    Option<u32>,
    Option<u32>,
    Option<u32>,
) {
    let mut types = None;
    let mut imports = None;
    let mut functions = None;
    let mut memories = None;
    let mut exports = None;
    let mut codes = None;
    for payload in Parser::new(0).parse_all(bytes) {
        match payload.expect("parse") {
            Payload::TypeSection(r) => types = Some(r.count()),
            Payload::ImportSection(r) => imports = Some(r.count()),
            Payload::FunctionSection(r) => functions = Some(r.count()),
            Payload::MemorySection(r) => memories = Some(r.count()),
            Payload::ExportSection(r) => exports = Some(r.count()),
            Payload::CodeSectionStart { count, .. } => codes = Some(count),
            _ => {}
        }
    }
    (types, imports, functions, memories, exports, codes)
}

#[test]
fn type_dedup() {
    let mut em = ModEmitter::new(Vec::new());
    let t0 = em.get_fn_type(Arity(2));
    let t1 = em.get_fn_type(Arity(2));
    assert_eq!(t0, t1);
    assert_eq!(em.types.len(), 1);
    let t2 = em.get_fn_type(Arity(3));
    assert_ne!(t0, t2);
    assert_eq!(em.types.len(), 2);
    let t3 = em.get_fn_type(Arity(2));
    assert_eq!(t0, t3);
    assert_eq!(em.types.len(), 2);
    assert_eq!(t0.0, 0);
    assert_eq!(t2.0, 1);
}

#[test]
fn import_dedup() {
    let mut em = ModEmitter::new(Vec::new());
    let a = em.import_func("env", "log", Arity(1));
    let b = em.import_func("env", "log", Arity(1));
    assert_eq!(a, b);
    assert_eq!(em.imports.len(), 1);
    let c = em.import_func("env", "trace", Arity(1));
    assert_ne!(a, c);
    assert_eq!(em.imports.len(), 2);
    let d = em.import_func("host", "log", Arity(1));
    assert_ne!(a, d);
    assert_ne!(c, d);
    assert_eq!(em.imports.len(), 3);
    let e = em.import_func("env", "log", Arity(2));
    assert_ne!(a, e);
    assert_eq!(em.imports.len(), 4);
    let again = em.import_func("env", "log", Arity(1));
    assert_eq!(a, again);
    assert_eq!(em.imports.len(), 4);
}

#[test]
fn index_space_ordering() {
    let mut em = ModEmitter::new(Vec::new());
    let i0 = em.import_func("env", "first", Arity(0));
    let i1 = em.import_func("env", "second", Arity(1));
    assert_eq!(i0, FuncRef(0));
    assert_eq!(i1, FuncRef(1));
    let d0 = em.define_func(Arity(0), const_body());
    let d1 = em.define_func(Arity(1), const_body());
    assert_eq!(d0, FuncRef(2));
    assert_eq!(d1, FuncRef(3));
}

#[test]
fn parallel_sections() {
    let mut em = ModEmitter::new(Vec::new());
    assert_eq!(em.funcs.len(), em.codes.len());
    em.import_func("env", "log", Arity(1));
    assert_eq!(em.funcs.len(), em.codes.len());
    em.define_func(Arity(2), const_body());
    assert_eq!(em.funcs.len(), em.codes.len());
    em.define_func(Arity(2), const_body());
    let f = em.define_func(Arity(0), const_body());
    em.export_func(f, "f");
    assert_eq!(em.funcs.len(), em.codes.len());
    assert_eq!(em.funcs.len(), 3);
}

#[test]
fn section_omission() {
    // No imports, no exports: neither section appears in the output.
    let mut em = ModEmitter::new(Vec::new());
    em.define_func(Arity(1), const_body());
    let bytes = em.finish().expect("valid module");
    let (types, imports, functions, memories, exports, codes) = section_counts(&bytes);
    assert_eq!(imports, None);
    assert_eq!(exports, None);
    assert_eq!(types, Some(1));
    assert_eq!(functions, Some(1));
    assert_eq!(memories, Some(1));
    assert_eq!(codes, Some(1));

    // Imports but no local functions: no function or code section.
    let mut em = ModEmitter::new(Vec::new());
    em.import_func("env", "log", Arity(1));
    let bytes = em.finish().expect("valid module");
    let (types, imports, functions, _, exports, codes) = section_counts(&bytes);
    assert_eq!(imports, Some(1));
    assert_eq!(types, Some(1));
    assert_eq!(functions, None);
    assert_eq!(exports, None);
    assert_eq!(codes, None);
}

#[test]
fn round_trip() {
    let mut em = ModEmitter::new(Vec::new());
    let f = em.define_func(Arity(2), const_body());
    assert_eq!(f, FuncRef(0));
    em.export_func(f, "run");
    let bytes = em.finish().expect("the assembled module must validate");
    let (types, imports, functions, memories, exports, codes) = section_counts(&bytes);
    assert_eq!(imports, None);
    assert_eq!(types, Some(1));
    assert_eq!(functions, Some(1));
    assert_eq!(memories, Some(1));
    assert_eq!(exports, Some(1));
    assert_eq!(codes, Some(1));
}

#[test]
fn exported_name_and_index_survive() {
    let mut em = ModEmitter::new(Vec::new());
    em.import_func("env", "log", Arity(1));
    let f = em.define_func(Arity(2), const_body());
    em.export_func(f, "run");
    let bytes = em.finish().expect("valid module");
    let mut seen = Vec::new();
    let mut imported = Vec::new();
    for payload in Parser::new(0).parse_all(&bytes) {
        match payload.expect("parse") {
            Payload::ExportSection(r) => {
                for e in r {
                    let e = e.expect("export");
                    seen.push((e.name.to_string(), e.kind, e.index));
                }
            }
            Payload::ImportSection(r) => {
                for group in r {
                    match group.expect("import") {
                        wasmparser::Imports::Single(_, i) => {
                            imported.push((i.module.to_string(), i.name.to_string()));
                        }
                        _ => panic!("imports are emitted one at a time"),
                    }
                }
            }
            _ => {}
        }
    }
    assert_eq!(imported, vec![("env".to_string(), "log".to_string())]);
    assert_eq!(seen.len(), 1);
    assert_eq!(seen[0].0, "run");
    assert_eq!(seen[0].1, wasmparser::ExternalKind::Func);
    assert_eq!(seen[0].2, 1);
}

#[test]
fn metadata_first() {
    let header: [u8; 8] = [0x00, 0x61, 0x73, 0x6D, 0x01, 0x00, 0x00, 0x00];
    let name = b"contractenvmetav0";
    let meta = vec![1u8, 2, 3];

    // Custom section: id 0, payload size, name length, name, payload.
    let mut expected = Vec::new();
    expected.extend_from_slice(&header);
    expected.push(0x00);
    expected.push((1 + name.len() + meta.len()) as u8);
    expected.push(name.len() as u8);
    expected.extend_from_slice(name);
    expected.extend_from_slice(&meta);

    let em = ModEmitter::new(meta.clone());
    let bytes = em.finish().expect("valid module");
    assert_eq!(&bytes[..expected.len()], expected.as_slice());

    // The same prefix, unchanged, after registering types, imports,
    // functions and exports.
    let mut em = ModEmitter::new(meta);
    em.get_fn_type(Arity(5));
    em.import_func("env", "log", Arity(1));
    let f = em.define_func(Arity(2), const_body());
    em.export_func(f, "run");
    let bytes = em.finish().expect("valid module");
    assert_eq!(&bytes[..expected.len()], expected.as_slice());
}

#[test]
fn empty_module_exact_bytes() {
    let em = ModEmitter::new(Vec::new());
    let bytes = em.finish().expect("valid module");
    let mut expected: Vec<u8> = vec![0x00, 0x61, 0x73, 0x6D, 0x01, 0x00, 0x00, 0x00];
    // Empty metadata custom section.
    expected.push(0x00);
    expected.push(18);
    expected.push(17);
    expected.extend_from_slice(b"contractenvmetav0");
    // The default memory section.
    expected.extend_from_slice(&[0x05, 0x03, 0x01, 0x00, 0x01]);
    assert_eq!(bytes, expected);
}

#[test]
fn deep_vec() {
    // A module deep in entries: 1000 definitions pass through the emitter,
    // are serialized, and still validate.
    let mut em = ModEmitter::new(Vec::new());
    let mut f = FuncRef(0);
    for _ in 0..1000 {
        f = em.define_func(Arity(1), const_body());
    }
    assert_eq!(f, FuncRef(999));
    em.export_func(f, "last");
    let bytes = em.finish().expect("valid module");
    let (types, _, functions, _, _, codes) = section_counts(&bytes);
    assert_eq!(types, Some(1));
    assert_eq!(functions, Some(1000));
    assert_eq!(codes, Some(1000));
}

#[test]
fn validation_failure_is_reported() {
    let mut em = ModEmitter::new(Vec::new());
    // A body that is not a valid function encoding.
    em.define_func(Arity(0), vec![0xFF]);
    let r = em.finish();
    assert!(r.is_err());
}
