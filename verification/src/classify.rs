//! Classification of a module's function index space into symbols.
//!
//! The emitted sequence has two phases: first every import record (when
//! imports are wanted), then every defined function in code-section
//! order, each classified as exported (an export record targets its
//! combined-space index; the latest such record's name wins) or private
//! (shown under its name-section name when one exists). A defined
//! function whose class is not wanted is skipped. The whole sequence is
//! a pure function of the module and the options.

use vstd::prelude::*;

use crate::module::CustomSection;
use crate::module::CustomSectionV;
use crate::module::ExportRecord;
use crate::module::ExportRecordV;
use crate::module::ExportTarget;
use crate::module::ModuleData;
use crate::module::ModuleDataV;
use crate::module::num_func_imports;
use crate::names::NameEntry;
use crate::names::NameEntryV;
use crate::names::decode_name_map;
use crate::names::name_lookup;
use crate::names::spec_name_lookup;
use crate::names::spec_name_map;
use crate::options::Options;

verus! {

/// A symbol from a wasm file.
#[derive(Clone, Debug)]
#[allow(inconsistent_fields)]
pub enum Symbol {
    /// An imported symbol.
    Import {
        /// The symbol's name.
        name: String,
    },
    /// An exported symbol.
    Export {
        /// The symbol's name.
        name: String,
        /// The symbol's size, if available.
        size: Option<usize>,
    },
    /// A private function that is not exported.
    Private {
        /// The zero-based defined-function index of this private
        /// function.
        index: usize,
        /// The name from the name section, if that information exists.
        name: Option<String>,
        /// The symbol's size, if available.
        size: Option<usize>,
    },
}

/// The specification-level value of a [`Symbol`].
#[allow(inconsistent_fields)]
pub ghost enum SymbolV {
    /// An imported symbol.
    Import { name: Seq<char> },
    /// An exported symbol.
    Export { name: Seq<char>, size: Option<usize> },
    /// A private, unexported function.
    Private { index: usize, name: Option<Seq<char>>, size: Option<usize> },
}

impl View for Symbol {
    type V = SymbolV;

    open spec fn view(&self) -> SymbolV {
        match self {
            Symbol::Import { name } => SymbolV::Import { name: name@ },
            Symbol::Export { name, size } => SymbolV::Export { name: name@, size: *size },
            Symbol::Private { index, name, size } => SymbolV::Private {
                index: *index,
                name: match name {
                    Some(n) => Some(n@),
                    None => None,
                },
                size: *size,
            },
        }
    }
}

/// The export name recorded for combined-space function index `idx`:
/// the name of the last export record that targets function `idx`,
/// records that export tables, memories or globals being ignored.
pub open spec fn spec_export_lookup(exports: Seq<ExportRecordV>, idx: int) -> Option<Seq<char>>
    decreases exports.len(),
{
    if exports.len() == 0 {
        None
    } else {
        match exports.last().target {
            ExportTarget::Function(j) => if j as int == idx {
                Some(exports.last().name)
            } else {
                spec_export_lookup(exports.drop_last(), idx)
            },
            _ => spec_export_lookup(exports.drop_last(), idx),
        }
    }
}

/// Find the export name for combined-space function index `idx`, the
/// latest matching export record winning.
pub fn export_lookup(exports: &Vec<ExportRecord>, idx: u128) -> (r: Option<String>)
    ensures
        match spec_export_lookup(exports@.map_values(|e: ExportRecord| e@), idx as int) {
            Some(n) => r matches Some(s) && s@ == n,
            None => r is None,
        },
{
    let ghost mapped = exports@.map_values(|e: ExportRecord| e@);
    let mut i = exports.len();
    proof {
        assert(mapped.take(i as int) =~= mapped);
    }
    while i > 0
        invariant
            i <= exports@.len(),
            mapped == exports@.map_values(|e: ExportRecord| e@),
            spec_export_lookup(mapped, idx as int) == spec_export_lookup(
                mapped.take(i as int),
                idx as int,
            ),
        decreases i,
    {
        i = i - 1;
        proof {
            assert(mapped.take(i as int + 1).last() == mapped[i as int]);
            assert(mapped.take(i as int + 1).drop_last() =~= mapped.take(i as int));
        }
        match exports[i].target {
            ExportTarget::Function(j) => {
                if (j as u128) == idx {
                    return Some(exports[i].name.clone());
                }
            },
            _ => {},
        }
    }
    proof {
        assert(mapped.take(0) =~= Seq::<ExportRecordV>::empty());
    }
    None
}

/// The payload of the first custom section named `name`, if any.
pub open spec fn first_name_section(customs: Seq<CustomSectionV>) -> Option<Seq<u8>>
    decreases customs.len(),
{
    if customs.len() == 0 {
        None
    } else if customs.first().name == "name"@ {
        Some(customs.first().payload)
    } else {
        first_name_section(customs.drop_first())
    }
}

/// The name map a module's `name` section yields: `None` when the
/// section is missing or malformed, the decoded entries otherwise.
pub open spec fn module_names(m: ModuleDataV) -> Option<Seq<NameEntryV>> {
    match first_name_section(m.customs) {
        None => None,
        Some(payload) => spec_name_map(payload, num_func_imports(m)),
    }
}

/// Look `idx` up in an optional name map.
pub open spec fn opt_name_lookup(names: Option<Seq<NameEntryV>>, idx: int) -> Option<Seq<char>> {
    match names {
        Some(es) => spec_name_lookup(es, idx),
        None => None,
    }
}

/// The size reported for defined function `i`: its recorded encoded
/// size when sizes are wanted, absent otherwise.
pub open spec fn size_for(m: ModuleDataV, opts: Options, i: int) -> Option<usize> {
    if opts.sizes {
        m.sizes[i]
    } else {
        None
    }
}

/// The symbols emitted for defined function `i`: one exported or
/// private symbol, or nothing when that symbol's class is not wanted.
pub open spec fn func_sym_at(
    m: ModuleDataV,
    names: Option<Seq<NameEntryV>>,
    opts: Options,
    i: int,
) -> Seq<SymbolV> {
    match spec_export_lookup(m.exports, i + num_func_imports(m)) {
        Some(name) => if opts.exports {
            seq![SymbolV::Export { name, size: size_for(m, opts, i) }]
        } else {
            Seq::empty()
        },
        None => if opts.privates {
            seq![
                SymbolV::Private {
                    index: i as usize,
                    name: opt_name_lookup(names, i),
                    size: size_for(m, opts, i),
                },
            ]
        } else {
            Seq::empty()
        },
    }
}

/// The symbols emitted for the defined functions from index `i` on.
pub open spec fn func_syms_from(
    m: ModuleDataV,
    names: Option<Seq<NameEntryV>>,
    opts: Options,
    i: int,
) -> Seq<SymbolV>
    decreases m.sizes.len() - i,
{
    if i < 0 || i >= m.sizes.len() {
        Seq::empty()
    } else {
        func_sym_at(m, names, opts, i) + func_syms_from(m, names, opts, i + 1)
    }
}

/// The import symbols emitted from import record `k` on: every record,
/// whatever it imports, when imports are wanted; nothing otherwise.
pub open spec fn import_syms_from(m: ModuleDataV, opts: Options, k: int) -> Seq<SymbolV>
    decreases m.imports.len() - k,
{
    if !opts.imports || k < 0 || k >= m.imports.len() {
        Seq::empty()
    } else {
        seq![SymbolV::Import { name: m.imports[k].name }] + import_syms_from(m, opts, k + 1)
    }
}

/// The full classified symbol sequence of a module under the given
/// options: the imports first, then the defined functions in
/// code-section order.
pub open spec fn classified(m: ModuleDataV, opts: Options) -> Seq<SymbolV> {
    import_syms_from(m, opts, 0) + func_syms_from(m, module_names(m), opts, 0)
}

/// The set of symbols in a wasm file: a parsed module together with
/// the options a traversal will use.
#[derive(Clone, Debug)]
pub struct Symbols {
    /// The options the traversal obeys.
    pub opts: Options,
    /// The parsed module.
    pub module: ModuleData,
}

impl Symbols {
    /// Pair a parsed module with traversal options.
    pub fn new(opts: Options, module: ModuleData) -> (r: Symbols)
        ensures
            r.opts == opts,
            r.module == module,
    {
        Symbols { opts, module }
    }

    /// Iterate over the symbols.
    pub fn iter(&self) -> (r: SymbolsIter<'_>)
        ensures
            r.wf(),
            r.source() == (self.opts, self.module@),
            r.remaining() == classified(self.module@, self.opts),
    {
        let nfi = self.module.num_imported_functions();
        let names: Option<Vec<NameEntry>> = match find_name_section(&self.module.customs) {
            Some(c) => {
                proof {
                    lemma_first_name_section_at(self.module@.customs, c as int);
                }
                decode_name_map(&self.module.customs[c].payload, nfi)
            },
            None => {
                proof {
                    lemma_first_name_section_at(
                        self.module@.customs,
                        self.module@.customs.len() as int,
                    );
                }
                None
            },
        };
        SymbolsIter { syms: self, names, nfi, state: IterState::Imports(0) }
    }
}

/// Find the position of the first custom section named `name`.
fn find_name_section(customs: &Vec<CustomSection>) -> (r: Option<usize>)
    ensures
        match r {
            Some(c) => {
                &&& c < customs@.len()
                &&& customs@[c as int]@.name == "name"@
                &&& forall|k: int| 0 <= k < c ==> customs@[k]@.name != "name"@
            },
            None => forall|k: int| 0 <= k < customs@.len() ==> customs@[k]@.name != "name"@,
        },
{
    let key: String = "name".to_owned();
    let n = customs.len();
    let mut c: usize = 0;
    while c < n
        invariant
            c <= n,
            n == customs@.len(),
            key@ == "name"@,
            forall|k: int| 0 <= k < c ==> customs@[k]@.name != "name"@,
        decreases n - c,
    {
        if customs[c].name == key {
            return Some(c);
        }
        c = c + 1;
    }
    None
}

/// Skipping custom sections not named `name` leaves the first `name`
/// section's payload unchanged: if the records before position `c` all
/// have other names, the scan's outcome is decided at `c`.
proof fn lemma_first_name_section_at(customs: Seq<CustomSectionV>, c: int)
    requires
        0 <= c <= customs.len(),
        forall|k: int| 0 <= k < c ==> customs[k].name != "name"@,
    ensures
        c < customs.len() && customs[c].name == "name"@ ==> first_name_section(customs) == Some(
            customs[c].payload,
        ),
        c == customs.len() ==> first_name_section(customs) is None,
    decreases c,
{
    if c > 0 {
        assert(customs[0].name != "name"@);
        lemma_first_name_section_at(customs.drop_first(), c - 1);
        assert(customs.drop_first().len() == customs.len() - 1);
        if c < customs.len() {
            assert(customs.drop_first()[c - 1] == customs[c]);
        }
    }
}

/// The phase and cursor of one traversal.
#[derive(Clone, Copy, Debug)]
enum IterState {
    /// Walking the import records; holds the next record to consider.
    Imports(usize),
    /// Walking the defined functions; holds the next index to
    /// consider.
    Functions(usize),
    /// The traversal is over.
    Finished,
}

/// An iterator returned by [`Symbols::iter`], which yields the symbols
/// in a wasm file one at a time, in classification order.
#[derive(Debug)]
pub struct SymbolsIter<'a> {
    /// The symbol set walked over.
    syms: &'a Symbols,
    /// The decoded name map, when the module carries a usable one.
    names: Option<Vec<NameEntry>>,
    /// The number of imported functions: the offset of the defined
    /// functions within the combined index space.
    nfi: usize,
    /// Where the traversal stands.
    state: IterState,
}

impl<'a> SymbolsIter<'a> {
    /// The decoded name map this traversal resolves private names
    /// from.
    pub closed spec fn names_view(self) -> Option<Seq<NameEntryV>> {
        match self.names {
            Some(v) => Some(v@.map_values(|e: NameEntry| e@)),
            None => None,
        }
    }

    /// The options and module this traversal reads.
    pub closed spec fn source(self) -> (Options, ModuleDataV) {
        (self.syms.opts, self.syms.module@)
    }

    /// The traversal's cursor is inside its module, the cached import
    /// count is right, and the name map is the module's.
    pub closed spec fn wf(self) -> bool {
        &&& self.nfi as int == num_func_imports(self.syms.module@)
        &&& self.names_view() == module_names(self.syms.module@)
        &&& match self.state {
            IterState::Imports(k) => k <= self.syms.module@.imports.len(),
            IterState::Functions(k) => k <= self.syms.module@.sizes.len(),
            IterState::Finished => true,
        }
    }

    /// The symbols this traversal has yet to emit.
    pub closed spec fn remaining(self) -> Seq<SymbolV> {
        let m = self.syms.module@;
        let opts = self.syms.opts;
        match self.state {
            IterState::Imports(k) => import_syms_from(m, opts, k as int) + func_syms_from(
                m,
                self.names_view(),
                opts,
                0,
            ),
            IterState::Functions(k) => func_syms_from(m, self.names_view(), opts, k as int),
            IterState::Finished => Seq::empty(),
        }
    }

    /// An upper bound on the steps left before the traversal finishes.
    closed spec fn fuel(self) -> int {
        let m = self.syms.module@;
        match self.state {
            IterState::Imports(k) => m.imports.len() - k + m.sizes.len() + 2,
            IterState::Functions(k) => m.sizes.len() - k + 1,
            IterState::Finished => 0,
        }
    }

    /// Emit the next symbol, or `None` once the traversal is over.
    pub fn next(&mut self) -> (r: Option<Symbol>)
        requires
            old(self).wf(),
        ensures
            final(self).wf(),
            final(self).source() == old(self).source(),
            old(self).remaining().len() == 0 ==> r is None && final(self).remaining() == old(
                self,
            ).remaining(),
            old(self).remaining().len() > 0 ==> (r matches Some(s) && s@ == old(
                self,
            ).remaining()[0] && final(self).remaining() == old(self).remaining().drop_first()),
    {
        loop
            invariant
                self.wf(),
                self.source() == old(self).source(),
                self.remaining() == old(self).remaining(),
            decreases self.fuel(),
        {
            let ghost pre = self.remaining();
            match self.state {
                IterState::Finished => {
                    return None;
                },
                IterState::Imports(k) => {
                    if self.syms.opts.imports && k < self.syms.module.imports.len() {
                        let name = self.syms.module.imports[k].name.clone();
                        self.state = IterState::Imports(k + 1);
                        let sym = Symbol::Import { name };
                        proof {
                            assert(self.syms.module@.imports[k as int]
                                == self.syms.module.imports@[k as int]@);
                            assert(pre[0] == sym@);
                            assert(self.remaining() =~= pre.drop_first());
                        }
                        return Some(sym);
                    } else {
                        self.state = IterState::Functions(0);
                        proof {
                            assert(self.remaining() =~= pre);
                        }
                    }
                },
                IterState::Functions(k) => {
                    if k >= self.syms.module.sizes.len() {
                        self.state = IterState::Finished;
                        proof {
                            assert(self.remaining() =~= pre);
                        }
                    } else {
                        let idx: u128 = (k as u128) + (self.nfi as u128);
                        let ex = export_lookup(&self.syms.module.exports, idx);
                        let size: Option<usize> = if self.syms.opts.sizes {
                            self.syms.module.sizes[k]
                        } else {
                            None
                        };
                        match ex {
                            Some(name) => {
                                if self.syms.opts.exports {
                                    self.state = IterState::Functions(k + 1);
                                    let sym = Symbol::Export { name, size };
                                    proof {
                                        assert(pre[0] == sym@);
                                        assert(self.remaining() =~= pre.drop_first());
                                    }
                                    return Some(sym);
                                } else {
                                    self.state = IterState::Functions(k + 1);
                                    proof {
                                        assert(self.remaining() =~= pre);
                                    }
                                }
                            },
                            None => {
                                if self.syms.opts.privates {
                                    let nm: Option<String> = match &self.names {
                                        Some(es) => name_lookup(es, k),
                                        None => None,
                                    };
                                    self.state = IterState::Functions(k + 1);
                                    let sym = Symbol::Private { index: k, name: nm, size };
                                    proof {
                                        assert(pre[0] == sym@);
                                        assert(self.remaining() =~= pre.drop_first());
                                    }
                                    return Some(sym);
                                } else {
                                    self.state = IterState::Functions(k + 1);
                                    proof {
                                        assert(self.remaining() =~= pre);
                                    }
                                }
                            },
                        }
                    }
                },
            }
        }
    }
}

} // verus!
