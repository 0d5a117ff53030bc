//! Laws of the emitter, stated and proved over the model transitions of
//! `crate::model`. The executable operations are each proved to perform the
//! corresponding transition, so these laws carry over to any sequence of
//! calls on an emitter.

use vstd::prelude::*;

use crate::encode::code_section_bytes;
use crate::encode::custom_section_bytes;
use crate::encode::default_memory_section_bytes;
use crate::encode::export_section_bytes;
use crate::encode::function_section_bytes;
use crate::encode::header_bytes;
use crate::encode::type_section_bytes;
use crate::model::EmitterModel;
use crate::model::define_ref;
use crate::model::export_wires;
use crate::model::has_import;
use crate::model::has_type;
use crate::model::import_key;
use crate::model::import_ref_for;
use crate::model::import_wires;
use crate::model::meta_section_name;
use crate::model::output_bytes;
use crate::model::section_chunk;
use crate::model::type_index;
use crate::model::type_ref_for;
use crate::model::wf;
use crate::model::with_define;
use crate::model::with_import;
use crate::model::with_type;

verus! {

/// The function-declaration table and the code table are parallel: under
/// well-formedness they always have the same length.
pub proof fn lemma_parallel_sections(m: EmitterModel)
    requires
        wf(m),
    ensures
        m.funcs.len() == m.codes.len(),
{
}

/// Type deduplication: registering the same arity twice changes nothing the
/// second time and returns the same type index, and a fresh arity adds
/// exactly one type-table entry.
pub proof fn lemma_type_dedup(m: EmitterModel, arity: u32)
    requires
        wf(m),
    ensures
        with_type(with_type(m, arity), arity) == with_type(m, arity),
        type_ref_for(with_type(m, arity), arity) == type_ref_for(m, arity),
        has_type(with_type(m, arity), arity),
        has_type(m, arity) ==> with_type(m, arity) == m,
        !has_type(m, arity) ==> with_type(m, arity).types.len() == m.types.len() + 1,
{
    if !has_type(m, arity) {
        let grown = with_type(m, arity);
        assert(grown.types[m.types.len() as int] == arity);
        assert(has_type(grown, arity));
        let j = type_index(grown, arity);
        assert(grown.types[j] == arity);
        assert(j == m.types.len() as int) by {
            if 0 <= j < m.types.len() {
                assert(m.types[j] == arity);
                assert(has_type(m, arity));
            }
        }
        assert(with_type(grown, arity) == grown);
    }
}

/// Import deduplication, first half: registering the same (module, name,
/// arity) key twice changes nothing the second time and returns the same
/// function index, and a fresh key adds exactly one import entry.
pub proof fn lemma_import_dedup(m: EmitterModel, module: Seq<char>, fname: Seq<char>, arity: u32)
    requires
        wf(m),
    ensures
        with_import(with_import(m, module, fname, arity), module, fname, arity) == with_import(
            m,
            module,
            fname,
            arity,
        ),
        import_ref_for(with_import(m, module, fname, arity), module, fname, arity)
            == import_ref_for(m, module, fname, arity),
        has_import(m, module, fname, arity) ==> with_import(m, module, fname, arity) == m,
        !has_import(m, module, fname, arity) ==> with_import(
            m,
            module,
            fname,
            arity,
        ).imports.len() == m.imports.len() + 1,
{
    if !has_import(m, module, fname, arity) {
        let grown = with_import(m, module, fname, arity);
        assert(import_key(grown.imports[m.imports.len() as int]) == (module, fname, arity));
        assert(has_import(grown, module, fname, arity));
        let j = crate::model::import_index(grown, module, fname, arity);
        assert(import_key(grown.imports[j]) == (module, fname, arity));
        assert(j == m.imports.len() as int) by {
            if 0 <= j < m.imports.len() {
                assert(grown.imports[j] == m.imports[j]);
                assert(has_import(m, module, fname, arity));
            }
        }
        assert(with_import(grown, module, fname, arity) == grown);
    }
}

/// Import deduplication, second half: registering one key neither hides nor
/// invents any other key, so calls that differ in any field each add their
/// own entry.
pub proof fn lemma_import_distinct_keys(
    m: EmitterModel,
    module: Seq<char>,
    fname: Seq<char>,
    arity: u32,
    module2: Seq<char>,
    fname2: Seq<char>,
    arity2: u32,
)
    requires
        wf(m),
        (module, fname, arity) != (module2, fname2, arity2),
    ensures
        has_import(with_import(m, module, fname, arity), module2, fname2, arity2) == has_import(
            m,
            module2,
            fname2,
            arity2,
        ),
{
    if !has_import(m, module, fname, arity) {
        let grown = with_import(m, module, fname, arity);
        assert(forall|i: int|
            0 <= i < m.imports.len() ==> grown.imports[i] == m.imports[i]);
        if has_import(m, module2, fname2, arity2) {
            let i = crate::model::import_index(m, module2, fname2, arity2);
            assert(import_key(grown.imports[i]) == (module2, fname2, arity2));
            assert(has_import(grown, module2, fname2, arity2));
        }
        if has_import(grown, module2, fname2, arity2) {
            let i = crate::model::import_index(grown, module2, fname2, arity2);
            assert(import_key(grown.imports[i]) == (module2, fname2, arity2));
            assert(i < m.imports.len()) by {
                if i == m.imports.len() {
                    assert(import_key(grown.imports[i]) == (module, fname, arity));
                }
            }
            assert(has_import(m, module2, fname2, arity2));
        }
    }
}

// ---- index-space ordering -------------------------------------------------------

/// The model after a sequence of import registrations, one key at a time.
pub open spec fn apply_imports(
    m: EmitterModel,
    keys: Seq<(Seq<char>, Seq<char>, u32)>,
) -> EmitterModel
    decreases keys.len(),
{
    if keys.len() == 0 {
        m
    } else {
        with_import(
            apply_imports(m, keys.drop_last()),
            keys.last().0,
            keys.last().1,
            keys.last().2,
        )
    }
}

/// The model after a sequence of local definitions, one (arity, body) at a
/// time.
pub open spec fn apply_defines(m: EmitterModel, defs: Seq<(u32, Seq<u8>)>) -> EmitterModel
    decreases defs.len(),
{
    if defs.len() == 0 {
        m
    } else {
        with_define(apply_defines(m, defs.drop_last()), defs.last().0, defs.last().1)
    }
}

/// Registering pairwise distinct keys into an emitter with an empty import
/// table appends one entry per key, in call order, and touches no function
/// definition.
pub proof fn lemma_apply_imports_entries(m: EmitterModel, keys: Seq<(Seq<char>, Seq<char>, u32)>)
    requires
        m.imports.len() == 0,
        forall|i: int, j: int| 0 <= i < j < keys.len() ==> keys[i] != keys[j],
    ensures
        apply_imports(m, keys).imports.len() == keys.len(),
        forall|i: int|
            0 <= i < keys.len() ==> import_key(#[trigger] apply_imports(m, keys).imports[i])
                == keys[i],
        apply_imports(m, keys).funcs == m.funcs,
    decreases keys.len(),
{
    if keys.len() > 0 {
        let prefix = keys.drop_last();
        lemma_apply_imports_entries(m, prefix);
        let prev = apply_imports(m, prefix);
        let last = keys.last();
        assert(!has_import(prev, last.0, last.1, last.2)) by {
            if has_import(prev, last.0, last.1, last.2) {
                let i = crate::model::import_index(prev, last.0, last.1, last.2);
                assert(import_key(prev.imports[i]) == (last.0, last.1, last.2));
                assert(prefix[i] == keys[i]);
                assert(keys[i] == keys[keys.len() - 1]);
            }
        }
        assert(apply_imports(m, keys).imports == prev.imports.push(
            apply_imports(m, keys).imports.last(),
        ));
    }
}

/// Index-space ordering, import half: with pairwise distinct keys and an
/// initially empty import table, the i-th registration (0-indexed) returns
/// function index i.
pub proof fn lemma_import_index_ordering(m: EmitterModel, keys: Seq<(Seq<char>, Seq<char>, u32)>)
    requires
        m.imports.len() == 0,
        forall|i: int, j: int| 0 <= i < j < keys.len() ==> keys[i] != keys[j],
    ensures
        forall|i: int|
            0 <= i < keys.len() ==> import_ref_for(
                #[trigger] apply_imports(m, keys.take(i)),
                keys[i].0,
                keys[i].1,
                keys[i].2,
            ) == i,
{
    assert forall|i: int|
        0 <= i < keys.len() implies import_ref_for(
        #[trigger] apply_imports(m, keys.take(i)),
        keys[i].0,
        keys[i].1,
        keys[i].2,
    ) == i by {
        let prefix = keys.take(i);
        lemma_apply_imports_entries(m, prefix);
        let prev = apply_imports(m, prefix);
        assert(!has_import(prev, keys[i].0, keys[i].1, keys[i].2)) by {
            if has_import(prev, keys[i].0, keys[i].1, keys[i].2) {
                let j = crate::model::import_index(prev, keys[i].0, keys[i].1, keys[i].2);
                assert(import_key(prev.imports[j]) == (keys[i].0, keys[i].1, keys[i].2));
                assert(prefix[j] == keys[j]);
                assert(keys[j] == keys[i]);
            }
        }
    }
}

/// Definitions keep the import table and grow the declaration table by one
/// entry each.
pub proof fn lemma_apply_defines_counts(m: EmitterModel, defs: Seq<(u32, Seq<u8>)>)
    ensures
        apply_defines(m, defs).imports == m.imports,
        apply_defines(m, defs).funcs.len() == m.funcs.len() + defs.len(),
    decreases defs.len(),
{
    if defs.len() > 0 {
        lemma_apply_defines_counts(m, defs.drop_last());
    }
}

/// Index-space ordering: for n imports with pairwise distinct keys followed
/// by any m definitions, the i-th import (0-indexed) is assigned function
/// index i and the j-th definition (0-indexed) is assigned function index
/// n + j.
pub proof fn lemma_index_space_ordering(
    m: EmitterModel,
    keys: Seq<(Seq<char>, Seq<char>, u32)>,
    defs: Seq<(u32, Seq<u8>)>,
)
    requires
        m.imports.len() == 0,
        m.funcs.len() == 0,
        forall|i: int, j: int| 0 <= i < j < keys.len() ==> keys[i] != keys[j],
    ensures
        forall|i: int|
            0 <= i < keys.len() ==> import_ref_for(
                #[trigger] apply_imports(m, keys.take(i)),
                keys[i].0,
                keys[i].1,
                keys[i].2,
            ) == i,
        forall|j: int|
            0 <= j < defs.len() ==> define_ref(
                #[trigger] apply_defines(apply_imports(m, keys), defs.take(j)),
            ) == keys.len() + j,
{
    lemma_import_index_ordering(m, keys);
    lemma_apply_imports_entries(m, keys);
    let mi = apply_imports(m, keys);
    assert forall|j: int|
        0 <= j < defs.len() implies define_ref(
        #[trigger] apply_defines(mi, defs.take(j)),
    ) == keys.len() + j by {
        lemma_apply_defines_counts(mi, defs.take(j));
    }
}

/// The model after a sequence of type registrations, one arity at a time.
pub open spec fn apply_types(m: EmitterModel, arities: Seq<u32>) -> EmitterModel
    decreases arities.len(),
{
    if arities.len() == 0 {
        m
    } else {
        with_type(apply_types(m, arities.drop_last()), arities.last())
    }
}

/// Type deduplication over any call history: after any sequence of requests
/// the type table holds at most one entry per arity, holds an entry for
/// every requested arity, holds no entry that was neither initial nor
/// requested, and keeps the initial entries unchanged in place — exactly one
/// entry per distinct requested arity, never more.
pub proof fn lemma_type_table_history(m: EmitterModel, arities: Seq<u32>)
    requires
        forall|i: int, j: int| 0 <= i < j < m.types.len() ==> m.types[i] != m.types[j],
    ensures
        forall|i: int, j: int|
            0 <= i < j < apply_types(m, arities).types.len() ==> apply_types(m, arities).types[i]
                != apply_types(m, arities).types[j],
        forall|k: int|
            0 <= k < arities.len() ==> has_type(apply_types(m, arities), #[trigger] arities[k]),
        forall|i: int|
            0 <= i < apply_types(m, arities).types.len() ==> m.types.contains(
                #[trigger] apply_types(m, arities).types[i],
            ) || arities.contains(apply_types(m, arities).types[i]),
        apply_types(m, arities).types.len() >= m.types.len(),
        apply_types(m, arities).types.take(m.types.len() as int) == m.types,
    decreases arities.len(),
{
    if arities.len() == 0 {
        assert(apply_types(m, arities).types.take(m.types.len() as int) =~= m.types);
    } else {
        let prefix = arities.drop_last();
        lemma_type_table_history(m, prefix);
        let prev = apply_types(m, prefix);
        let fin = apply_types(m, arities);
        let a = arities.last();
        if !has_type(prev, a) {
            assert(fin.types =~= prev.types.push(a));
        }
        assert(forall|i: int| 0 <= i < prev.types.len() ==> fin.types[i] == prev.types[i]);
        assert forall|i: int, j: int|
            0 <= i < j < fin.types.len() implies fin.types[i] != fin.types[j] by {
            if j >= prev.types.len() {
                assert(fin.types[j] == a);
                if fin.types[i] == a {
                    assert(has_type(prev, a));
                }
            }
        }
        assert forall|k: int|
            0 <= k < arities.len() implies has_type(fin, #[trigger] arities[k]) by {
            if k < arities.len() - 1 {
                assert(prefix[k] == arities[k]);
                assert(has_type(prev, arities[k]));
                let w = choose|w: int| 0 <= w < prev.types.len() && prev.types[w] == arities[k];
                assert(fin.types[w] == arities[k]);
            } else {
                if has_type(prev, a) {
                    let w = choose|w: int| 0 <= w < prev.types.len() && prev.types[w] == a;
                    assert(fin.types[w] == a);
                } else {
                    assert(fin.types[prev.types.len() as int] == a);
                }
            }
        }
        assert forall|i: int|
            0 <= i < fin.types.len() implies m.types.contains(#[trigger] fin.types[i])
                || arities.contains(fin.types[i]) by {
            if i < prev.types.len() {
                if prefix.contains(prev.types[i]) {
                    let w = choose|w: int| 0 <= w < prefix.len() && prefix[w] == prev.types[i];
                    assert(arities[w] == prev.types[i]);
                }
            } else {
                assert(fin.types[i] == a);
                assert(arities[arities.len() - 1] == a);
            }
        }
        assert(fin.types.take(m.types.len() as int) =~= m.types);
    }
}

/// Import deduplication over any call history: after any sequence of
/// registrations the import table holds at most one entry per key, holds an
/// entry for every requested key, holds no entry whose key was neither
/// initial nor requested, and keeps the initial entries unchanged in place —
/// exactly one entry per distinct requested key, never more.
pub proof fn lemma_import_table_history(m: EmitterModel, keys: Seq<(Seq<char>, Seq<char>, u32)>)
    requires
        forall|i: int, j: int|
            0 <= i < j < m.imports.len() ==> import_key(m.imports[i]) != import_key(m.imports[j]),
    ensures
        forall|i: int, j: int|
            0 <= i < j < apply_imports(m, keys).imports.len() ==> import_key(
                apply_imports(m, keys).imports[i],
            ) != import_key(apply_imports(m, keys).imports[j]),
        forall|k: int|
            0 <= k < keys.len() ==> has_import(
                apply_imports(m, keys),
                (#[trigger] keys[k]).0,
                keys[k].1,
                keys[k].2,
            ),
        forall|i: int|
            0 <= i < apply_imports(m, keys).imports.len() ==> (i < m.imports.len()
                && apply_imports(m, keys).imports[i] == m.imports[i]) || keys.contains(
                import_key(#[trigger] apply_imports(m, keys).imports[i]),
            ),
        apply_imports(m, keys).imports.len() >= m.imports.len(),
        apply_imports(m, keys).imports.take(m.imports.len() as int) == m.imports,
    decreases keys.len(),
{
    if keys.len() == 0 {
        assert(apply_imports(m, keys).imports.take(m.imports.len() as int) =~= m.imports);
    } else {
        let prefix = keys.drop_last();
        lemma_import_table_history(m, prefix);
        let prev = apply_imports(m, prefix);
        let fin = apply_imports(m, keys);
        let k = keys.last();
        if !has_import(prev, k.0, k.1, k.2) {
            assert(fin.imports =~= prev.imports.push(fin.imports.last()));
            assert(import_key(fin.imports.last()) == (k.0, k.1, k.2));
        }
        assert(forall|i: int| 0 <= i < prev.imports.len() ==> fin.imports[i] == prev.imports[i]);
        assert forall|i: int, j: int|
            0 <= i < j < fin.imports.len() implies import_key(fin.imports[i]) != import_key(
            fin.imports[j],
        ) by {
            if j >= prev.imports.len() {
                assert(import_key(fin.imports[j]) == (k.0, k.1, k.2));
                if import_key(fin.imports[i]) == (k.0, k.1, k.2) {
                    assert(has_import(prev, k.0, k.1, k.2));
                }
            }
        }
        assert forall|t: int|
            0 <= t < keys.len() implies has_import(
            fin,
            (#[trigger] keys[t]).0,
            keys[t].1,
            keys[t].2,
        ) by {
            if t < keys.len() - 1 {
                assert(prefix[t] == keys[t]);
                assert(has_import(prev, keys[t].0, keys[t].1, keys[t].2));
                let w = choose|w: int|
                    0 <= w < prev.imports.len() && import_key(prev.imports[w]) == (
                    keys[t].0,
                    keys[t].1,
                    keys[t].2,
                    );
                assert(import_key(fin.imports[w]) == (keys[t].0, keys[t].1, keys[t].2));
            } else {
                if has_import(prev, k.0, k.1, k.2) {
                    let w = choose|w: int|
                        0 <= w < prev.imports.len() && import_key(prev.imports[w]) == (
                        k.0,
                        k.1,
                        k.2,
                        );
                    assert(import_key(fin.imports[w]) == (k.0, k.1, k.2));
                } else {
                    assert(import_key(fin.imports[prev.imports.len() as int]) == (k.0, k.1, k.2));
                }
            }
        }
        assert forall|i: int|
            0 <= i < fin.imports.len() implies (i < m.imports.len() && fin.imports[i]
                == m.imports[i]) || keys.contains(import_key(#[trigger] fin.imports[i])) by {
            if i < prev.imports.len() {
                if !(i < m.imports.len() && prev.imports[i] == m.imports[i]) {
                    assert(prefix.contains(import_key(prev.imports[i])));
                    let w = choose|w: int|
                        0 <= w < prefix.len() && prefix[w] == import_key(prev.imports[i]);
                    assert(keys[w] == import_key(prev.imports[i]));
                }
            } else {
                assert(import_key(fin.imports[i]) == (k.0, k.1, k.2));
                assert(keys[keys.len() - 1] == k);
            }
        }
        assert(fin.imports.take(m.imports.len() as int) =~= m.imports);
    }
}

// ---- serialization laws -----------------------------------------------------------

/// Section omission, import half: with no imports the output holds no import
/// section; the remaining sections follow in their fixed order.
pub proof fn lemma_import_section_omitted(m: EmitterModel)
    requires
        m.imports.len() == 0,
    ensures
        output_bytes(m) == header_bytes() + custom_section_bytes(meta_section_name(), m.meta)
            + section_chunk(m.types.len() > 0, type_section_bytes(m.types)) + section_chunk(
            m.funcs.len() > 0,
            function_section_bytes(m.funcs),
        ) + default_memory_section_bytes() + section_chunk(
            m.exports.len() > 0,
            export_section_bytes(export_wires(m)),
        ) + section_chunk(m.codes.len() > 0, code_section_bytes(m.codes)),
{
    assert(output_bytes(m) =~= header_bytes() + custom_section_bytes(meta_section_name(), m.meta)
        + section_chunk(m.types.len() > 0, type_section_bytes(m.types)) + section_chunk(
        m.funcs.len() > 0,
        function_section_bytes(m.funcs),
    ) + default_memory_section_bytes() + section_chunk(
        m.exports.len() > 0,
        export_section_bytes(export_wires(m)),
    ) + section_chunk(m.codes.len() > 0, code_section_bytes(m.codes)));
}

/// Section omission, export half: with no exports the output holds no export
/// section; the remaining sections follow in their fixed order.
pub proof fn lemma_export_section_omitted(m: EmitterModel)
    requires
        m.exports.len() == 0,
    ensures
        output_bytes(m) == header_bytes() + custom_section_bytes(meta_section_name(), m.meta)
            + section_chunk(m.types.len() > 0, type_section_bytes(m.types)) + section_chunk(
            m.imports.len() > 0,
            crate::encode::import_section_bytes(import_wires(m)),
        ) + section_chunk(m.funcs.len() > 0, function_section_bytes(m.funcs))
            + default_memory_section_bytes() + section_chunk(
            m.codes.len() > 0,
            code_section_bytes(m.codes),
        ),
{
    assert(output_bytes(m) =~= header_bytes() + custom_section_bytes(meta_section_name(), m.meta)
        + section_chunk(m.types.len() > 0, type_section_bytes(m.types)) + section_chunk(
        m.imports.len() > 0,
        crate::encode::import_section_bytes(import_wires(m)),
    ) + section_chunk(m.funcs.len() > 0, function_section_bytes(m.funcs))
        + default_memory_section_bytes() + section_chunk(
        m.codes.len() > 0,
        code_section_bytes(m.codes),
    ));
}

/// Idempotent metadata placement: whatever was registered, the output starts
/// with the 8-byte header followed by the unchanged metadata custom section.
pub proof fn lemma_metadata_first(m: EmitterModel)
    ensures
        output_bytes(m).take(
            header_bytes().len() + custom_section_bytes(meta_section_name(), m.meta).len() as int,
        ) == header_bytes() + custom_section_bytes(meta_section_name(), m.meta),
{
    assert(output_bytes(m).take(
        header_bytes().len() + custom_section_bytes(meta_section_name(), m.meta).len() as int,
    ) =~= header_bytes() + custom_section_bytes(meta_section_name(), m.meta));
}

} // verus!
