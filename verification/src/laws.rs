//! Properties of the classified symbol sequence, stated over all
//! modules and proved once.

use vstd::prelude::*;

use crate::classify::Symbols;
use crate::classify::SymbolV;
use crate::classify::classified;
use crate::classify::func_sym_at;
use crate::classify::func_syms_from;
use crate::classify::import_syms_from;
use crate::classify::module_names;
use crate::classify::opt_name_lookup;
use crate::classify::size_for;
use crate::classify::spec_export_lookup;
use crate::module::ModuleDataV;
use crate::module::num_func_imports;
use crate::names::NameEntryV;
use crate::options::Options;

verus! {

/// A one-element sequence filters to itself or to nothing, by whether
/// its element passes.
proof fn lemma_filter_one(x: SymbolV, p: spec_fn(SymbolV) -> bool)
    ensures
        seq![x].filter(p) == if p(x) {
            seq![x]
        } else {
            Seq::<SymbolV>::empty()
        },
{
    reveal(Seq::filter);
    assert(seq![x].drop_last() =~= Seq::<SymbolV>::empty());
    assert(Seq::<SymbolV>::empty().filter(p) =~= Seq::<SymbolV>::empty());
    if p(x) {
        assert(seq![x].filter(p) =~= seq![x]);
    } else {
        assert(seq![x].filter(p) =~= Seq::<SymbolV>::empty());
    }
}

proof fn lemma_filter_empty(p: spec_fn(SymbolV) -> bool)
    ensures
        Seq::<SymbolV>::empty().filter(p) == Seq::<SymbolV>::empty(),
{
    reveal(Seq::filter);
}

/// While imports are wanted, the import phase emits exactly one
/// symbol per remaining import record.
proof fn lemma_import_syms_len(m: ModuleDataV, opts: Options, k: int)
    requires
        opts.imports,
        0 <= k <= m.imports.len(),
    ensures
        import_syms_from(m, opts, k).len() == m.imports.len() - k,
    decreases m.imports.len() - k,
{
    if k < m.imports.len() {
        lemma_import_syms_len(m, opts, k + 1);
    }
}

/// With both exports and privates wanted, the function phase emits
/// exactly one symbol per remaining defined function.
proof fn lemma_func_syms_len_all(
    m: ModuleDataV,
    names: Option<Seq<NameEntryV>>,
    opts: Options,
    i: int,
)
    requires
        opts.exports,
        opts.privates,
        0 <= i <= m.sizes.len(),
    ensures
        func_syms_from(m, names, opts, i).len() == m.sizes.len() - i,
    decreases m.sizes.len() - i,
{
    if i < m.sizes.len() {
        lemma_func_syms_len_all(m, names, opts, i + 1);
    }
}

/// Under options that enable every symbol kind — the default — the
/// number of emitted symbols is exactly the number of import records
/// plus the number of defined functions: no function is skipped,
/// because each one is either exported or private and both classes
/// are wanted.
pub proof fn lemma_full_options_count(m: ModuleDataV, opts: Options)
    requires
        opts.imports,
        opts.exports,
        opts.privates,
    ensures
        classified(m, opts).len() == m.imports.len() + m.sizes.len(),
{
    lemma_import_syms_len(m, opts, 0);
    lemma_func_syms_len_all(m, module_names(m), opts, 0);
}

/// Classification is a pure function of the module and the options:
/// two enumerations with identical inputs yield identical,
/// order-stable symbol sequences, because no hidden state takes part.
pub proof fn lemma_classification_deterministic(a: Symbols, b: Symbols)
    requires
        a.opts == b.opts,
        a.module@ == b.module@,
    ensures
        classified(a.module@, a.opts) == classified(b.module@, b.opts),
{
}

/// The import phase reads only the `imports` flag: options that agree
/// on it emit the same import symbols.
proof fn lemma_import_syms_agree(m: ModuleDataV, a: Options, b: Options, k: int)
    requires
        a.imports == b.imports,
    ensures
        import_syms_from(m, a, k) == import_syms_from(m, b, k),
    decreases m.imports.len() - k,
{
    if a.imports && 0 <= k < m.imports.len() {
        lemma_import_syms_agree(m, a, b, k + 1);
    }
}

/// Import symbols all pass an is-import test, so filtering by it
/// keeps them all.
proof fn lemma_import_syms_all_pass(
    m: ModuleDataV,
    opts: Options,
    k: int,
    p: spec_fn(SymbolV) -> bool,
)
    requires
        forall|s: SymbolV| #[trigger] p(s) <==> s is Import,
    ensures
        import_syms_from(m, opts, k).filter(p) == import_syms_from(m, opts, k),
    decreases m.imports.len() - k,
{
    if !opts.imports || k < 0 || k >= m.imports.len() {
        lemma_filter_empty(p);
    } else {
        lemma_import_syms_all_pass(m, opts, k + 1, p);
        let x = SymbolV::Import { name: m.imports[k].name };
        Seq::filter_distributes_over_add(seq![x], import_syms_from(m, opts, k + 1), p);
        lemma_filter_one(x, p);
    }
}

/// Function-phase symbols are never imports, so filtering by an
/// is-import test drops them all.
proof fn lemma_func_syms_none_pass(
    m: ModuleDataV,
    names: Option<Seq<NameEntryV>>,
    opts: Options,
    i: int,
    p: spec_fn(SymbolV) -> bool,
)
    requires
        forall|s: SymbolV| #[trigger] p(s) <==> s is Import,
    ensures
        func_syms_from(m, names, opts, i).filter(p) == Seq::<SymbolV>::empty(),
    decreases m.sizes.len() - i,
{
    if i < 0 || i >= m.sizes.len() {
        lemma_filter_empty(p);
    } else {
        lemma_func_syms_none_pass(m, names, opts, i + 1, p);
        let x = func_sym_at(m, names, opts, i);
        Seq::filter_distributes_over_add(x, func_syms_from(m, names, opts, i + 1), p);
        match spec_export_lookup(m.exports, i + num_func_imports(m)) {
            Some(name) => {
                if opts.exports {
                    lemma_filter_one(SymbolV::Export { name, size: size_for(m, opts, i) }, p);
                } else {
                    lemma_filter_empty(p);
                }
            },
            None => {
                if opts.privates {
                    lemma_filter_one(
                        SymbolV::Private {
                            index: i as usize,
                            name: opt_name_lookup(names, i),
                            size: size_for(m, opts, i),
                        },
                        p,
                    );
                } else {
                    lemma_filter_empty(p);
                }
            },
        }
        assert(func_syms_from(m, names, opts, i).filter(p) =~= Seq::<SymbolV>::empty());
    }
}

/// With neither exports nor privates wanted, the function phase emits
/// nothing.
proof fn lemma_func_syms_inactive(
    m: ModuleDataV,
    names: Option<Seq<NameEntryV>>,
    opts: Options,
    i: int,
)
    requires
        !opts.exports,
        !opts.privates,
    ensures
        func_syms_from(m, names, opts, i) == Seq::<SymbolV>::empty(),
    decreases m.sizes.len() - i,
{
    if 0 <= i < m.sizes.len() {
        lemma_func_syms_inactive(m, names, opts, i + 1);
        assert(func_syms_from(m, names, opts, i) =~= Seq::<SymbolV>::empty());
    }
}

/// Starting from nothing and enabling only `imports` yields exactly
/// the import-tagged subsequence of the default enumeration.
pub proof fn lemma_imports_flag_filters(m: ModuleDataV, dflt: Options, one: Options)
    requires
        dflt.imports && dflt.exports && dflt.privates && !dflt.sizes,
        one.imports && !one.exports && !one.privates && !one.sizes,
    ensures
        classified(m, one) == classified(m, dflt).filter(|s: SymbolV| s is Import),
{
    let p = |s: SymbolV| s is Import;
    let names = module_names(m);
    Seq::filter_distributes_over_add(
        import_syms_from(m, dflt, 0),
        func_syms_from(m, names, dflt, 0),
        p,
    );
    lemma_import_syms_all_pass(m, dflt, 0, p);
    lemma_func_syms_none_pass(m, names, dflt, 0, p);
    lemma_import_syms_agree(m, dflt, one, 0);
    lemma_func_syms_inactive(m, names, one, 0);
    assert(classified(m, one) =~= classified(m, dflt).filter(p));
}

/// The function phase with one class wanted equals the default
/// function phase filtered to that class: filtering to exports.
proof fn lemma_func_syms_filter_export(
    m: ModuleDataV,
    names: Option<Seq<NameEntryV>>,
    dflt: Options,
    one: Options,
    i: int,
    p: spec_fn(SymbolV) -> bool,
)
    requires
        forall|s: SymbolV| #[trigger] p(s) <==> s is Export,
        dflt.exports && dflt.privates && !dflt.sizes,
        one.exports && !one.privates && !one.sizes,
    ensures
        func_syms_from(m, names, dflt, i).filter(p) == func_syms_from(m, names, one, i),
    decreases m.sizes.len() - i,
{
    if i < 0 || i >= m.sizes.len() {
        lemma_filter_empty(p);
    } else {
        lemma_func_syms_filter_export(m, names, dflt, one, i + 1, p);
        Seq::filter_distributes_over_add(
            func_sym_at(m, names, dflt, i),
            func_syms_from(m, names, dflt, i + 1),
            p,
        );
        match spec_export_lookup(m.exports, i + num_func_imports(m)) {
            Some(name) => {
                lemma_filter_one(SymbolV::Export { name, size: size_for(m, dflt, i) }, p);
            },
            None => {
                lemma_filter_one(
                    SymbolV::Private {
                        index: i as usize,
                        name: opt_name_lookup(names, i),
                        size: size_for(m, dflt, i),
                    },
                    p,
                );
            },
        }
        assert(func_syms_from(m, names, dflt, i).filter(p) =~= func_syms_from(m, names, one, i));
    }
}

/// Starting from nothing and enabling only `exports` yields exactly
/// the export-tagged subsequence of the default enumeration.
pub proof fn lemma_exports_flag_filters(m: ModuleDataV, dflt: Options, one: Options)
    requires
        dflt.imports && dflt.exports && dflt.privates && !dflt.sizes,
        !one.imports && one.exports && !one.privates && !one.sizes,
    ensures
        classified(m, one) == classified(m, dflt).filter(|s: SymbolV| s is Export),
{
    let p = |s: SymbolV| s is Export;
    let names = module_names(m);
    Seq::filter_distributes_over_add(
        import_syms_from(m, dflt, 0),
        func_syms_from(m, names, dflt, 0),
        p,
    );
    lemma_import_syms_none_pass(m, dflt, 0, p);
    lemma_func_syms_filter_export(m, names, dflt, one, 0, p);
    assert(classified(m, one) =~= classified(m, dflt).filter(p));
}

/// Import symbols fail any test that only non-import symbols pass, so
/// filtering by it drops them all.
proof fn lemma_import_syms_none_pass(
    m: ModuleDataV,
    opts: Options,
    k: int,
    p: spec_fn(SymbolV) -> bool,
)
    requires
        forall|s: SymbolV| #[trigger] p(s) ==> !(s is Import),
    ensures
        import_syms_from(m, opts, k).filter(p) == Seq::<SymbolV>::empty(),
    decreases m.imports.len() - k,
{
    if !opts.imports || k < 0 || k >= m.imports.len() {
        lemma_filter_empty(p);
    } else {
        lemma_import_syms_none_pass(m, opts, k + 1, p);
        let x = SymbolV::Import { name: m.imports[k].name };
        Seq::filter_distributes_over_add(seq![x], import_syms_from(m, opts, k + 1), p);
        lemma_filter_one(x, p);
        assert(import_syms_from(m, opts, k).filter(p) =~= Seq::<SymbolV>::empty());
    }
}

/// The function phase with one class wanted equals the default
/// function phase filtered to that class: filtering to privates.
proof fn lemma_func_syms_filter_private(
    m: ModuleDataV,
    names: Option<Seq<NameEntryV>>,
    dflt: Options,
    one: Options,
    i: int,
    p: spec_fn(SymbolV) -> bool,
)
    requires
        forall|s: SymbolV| #[trigger] p(s) <==> s is Private,
        dflt.exports && dflt.privates && !dflt.sizes,
        !one.exports && one.privates && !one.sizes,
    ensures
        func_syms_from(m, names, dflt, i).filter(p) == func_syms_from(m, names, one, i),
    decreases m.sizes.len() - i,
{
    if i < 0 || i >= m.sizes.len() {
        lemma_filter_empty(p);
    } else {
        lemma_func_syms_filter_private(m, names, dflt, one, i + 1, p);
        Seq::filter_distributes_over_add(
            func_sym_at(m, names, dflt, i),
            func_syms_from(m, names, dflt, i + 1),
            p,
        );
        match spec_export_lookup(m.exports, i + num_func_imports(m)) {
            Some(name) => {
                lemma_filter_one(SymbolV::Export { name, size: size_for(m, dflt, i) }, p);
            },
            None => {
                lemma_filter_one(
                    SymbolV::Private {
                        index: i as usize,
                        name: opt_name_lookup(names, i),
                        size: size_for(m, dflt, i),
                    },
                    p,
                );
            },
        }
        assert(func_syms_from(m, names, dflt, i).filter(p) =~= func_syms_from(m, names, one, i));
    }
}

/// Starting from nothing and enabling only `privates` yields exactly
/// the private-tagged subsequence of the default enumeration.
pub proof fn lemma_privates_flag_filters(m: ModuleDataV, dflt: Options, one: Options)
    requires
        dflt.imports && dflt.exports && dflt.privates && !dflt.sizes,
        !one.imports && !one.exports && one.privates && !one.sizes,
    ensures
        classified(m, one) == classified(m, dflt).filter(|s: SymbolV| s is Private),
{
    let p = |s: SymbolV| s is Private;
    let names = module_names(m);
    Seq::filter_distributes_over_add(
        import_syms_from(m, dflt, 0),
        func_syms_from(m, names, dflt, 0),
        p,
    );
    lemma_import_syms_none_pass(m, dflt, 0, p);
    lemma_func_syms_filter_private(m, names, dflt, one, 0, p);
    assert(classified(m, one) =~= classified(m, dflt).filter(p));
}

/// With every symbol kind disabled — the `nothing` configuration,
/// whether or not sizes are requested — classification emits nothing.
pub proof fn lemma_no_kinds_no_symbols(m: ModuleDataV, opts: Options)
    requires
        !opts.imports,
        !opts.exports,
        !opts.privates,
    ensures
        classified(m, opts) == Seq::<SymbolV>::empty(),
{
    lemma_func_syms_inactive(m, module_names(m), opts, 0);
    assert(classified(m, opts) =~= Seq::<SymbolV>::empty());
}

/// A symbol with its size annotation removed.
pub open spec fn strip_size(s: SymbolV) -> SymbolV {
    match s {
        SymbolV::Import { name } => SymbolV::Import { name },
        SymbolV::Export { name, size: _ } => SymbolV::Export { name, size: None },
        SymbolV::Private { index, name, size: _ } => SymbolV::Private { index, name, size: None },
    }
}

/// The function phases of two option sets that agree on the class
/// flags emit the same symbols up to size annotations.
proof fn lemma_func_syms_strip_agree(
    m: ModuleDataV,
    names: Option<Seq<NameEntryV>>,
    a: Options,
    b: Options,
    i: int,
)
    requires
        a.exports == b.exports,
        a.privates == b.privates,
    ensures
        func_syms_from(m, names, a, i).map_values(|s: SymbolV| strip_size(s)) == func_syms_from(
            m,
            names,
            b,
            i,
        ).map_values(|s: SymbolV| strip_size(s)),
    decreases m.sizes.len() - i,
{
    let f = |s: SymbolV| strip_size(s);
    if i < 0 || i >= m.sizes.len() {
        assert(func_syms_from(m, names, a, i).map_values(f) =~= func_syms_from(
            m,
            names,
            b,
            i,
        ).map_values(f));
    } else {
        lemma_func_syms_strip_agree(m, names, a, b, i + 1);
        let xa = func_sym_at(m, names, a, i);
        let xb = func_sym_at(m, names, b, i);
        let ra = func_syms_from(m, names, a, i + 1);
        let rb = func_syms_from(m, names, b, i + 1);
        assert((xa + ra).map_values(f) =~= xa.map_values(f) + ra.map_values(f));
        assert((xb + rb).map_values(f) =~= xb.map_values(f) + rb.map_values(f));
        assert(xa.map_values(f) =~= xb.map_values(f));
    }
}

/// Enabling `sizes` never changes which symbols are emitted or their
/// names: two enumerations whose options differ at most in `sizes`
/// agree once size annotations are removed.
pub proof fn lemma_sizes_flag_only_annotates(m: ModuleDataV, a: Options, b: Options)
    requires
        a.imports == b.imports,
        a.exports == b.exports,
        a.privates == b.privates,
    ensures
        classified(m, a).map_values(|s: SymbolV| strip_size(s)) == classified(m, b).map_values(
            |s: SymbolV| strip_size(s),
        ),
{
    let f = |s: SymbolV| strip_size(s);
    let names = module_names(m);
    lemma_import_syms_agree(m, a, b, 0);
    lemma_func_syms_strip_agree(m, names, a, b, 0);
    let ia = import_syms_from(m, a, 0);
    let fa = func_syms_from(m, names, a, 0);
    let fb = func_syms_from(m, names, b, 0);
    assert((ia + fa).map_values(f) =~= ia.map_values(f) + fa.map_values(f));
    assert((ia + fb).map_values(f) =~= ia.map_values(f) + fb.map_values(f));
    assert(classified(m, a).map_values(f) =~= classified(m, b).map_values(f));
}

} // verus!
