//! The structured view of a WebAssembly module that symbol
//! classification works over.
//!
//! Only the data that classification reads is kept: import records,
//! export records, custom sections, and the encoded byte size of each
//! defined function's body. The function index space is the
//! concatenation of the imported functions (numbered first, in import
//! order, counting only imports that are themselves functions) and the
//! defined functions (in code-section order).

use vstd::prelude::*;

verus! {

/// The kind of entity an import record brings in.
#[derive(Clone, Copy, Debug, PartialEq, Eq, Structural)]
pub enum ImportKind {
    /// An imported function; it occupies a slot of the function index
    /// space.
    Function,
    /// An imported table.
    Table,
    /// An imported linear memory.
    Memory,
    /// An imported global.
    Global,
}

/// One record of the import section: the imported field's name and the
/// kind of entity imported.
#[derive(Clone, Debug)]
pub struct ImportRecord {
    /// The imported field's name.
    pub name: String,
    /// What kind of entity the record imports.
    pub kind: ImportKind,
}

/// The specification-level value of an [`ImportRecord`].
pub ghost struct ImportRecordV {
    /// The imported field's name.
    pub name: Seq<char>,
    /// What kind of entity the record imports.
    pub kind: ImportKind,
}

impl View for ImportRecord {
    type V = ImportRecordV;

    open spec fn view(&self) -> ImportRecordV {
        ImportRecordV { name: self.name@, kind: self.kind }
    }
}

/// What an export record points at inside the module.
#[derive(Clone, Copy, Debug, PartialEq, Eq, Structural)]
pub enum ExportTarget {
    /// A function, by its index in the combined function index space.
    Function(u32),
    /// A table, by index.
    Table(u32),
    /// A linear memory, by index.
    Memory(u32),
    /// A global, by index.
    Global(u32),
}

/// One record of the export section: the exported name and its target.
#[derive(Clone, Debug)]
pub struct ExportRecord {
    /// The name the entity is exported under.
    pub name: String,
    /// What the record exports.
    pub target: ExportTarget,
}

/// The specification-level value of an [`ExportRecord`].
pub ghost struct ExportRecordV {
    /// The name the entity is exported under.
    pub name: Seq<char>,
    /// What the record exports.
    pub target: ExportTarget,
}

impl View for ExportRecord {
    type V = ExportRecordV;

    open spec fn view(&self) -> ExportRecordV {
        ExportRecordV { name: self.name@, target: self.target }
    }
}

/// A custom section: a name and an opaque byte payload.
#[derive(Clone, Debug)]
pub struct CustomSection {
    /// The section's name.
    pub name: String,
    /// The section's raw contents.
    pub payload: Vec<u8>,
}

/// The specification-level value of a [`CustomSection`].
pub ghost struct CustomSectionV {
    /// The section's name.
    pub name: Seq<char>,
    /// The section's raw contents.
    pub payload: Seq<u8>,
}

impl View for CustomSection {
    type V = CustomSectionV;

    open spec fn view(&self) -> CustomSectionV {
        CustomSectionV { name: self.name@, payload: self.payload@ }
    }
}

/// The sections of a parsed module that symbol classification reads.
#[derive(Clone, Debug)]
pub struct ModuleData {
    /// The import records, in import-section order.
    pub imports: Vec<ImportRecord>,
    /// The export records, in export-section order.
    pub exports: Vec<ExportRecord>,
    /// The custom sections, in order of appearance.
    pub customs: Vec<CustomSection>,
    /// For each defined function, in code-section order, the byte
    /// length its body re-encodes to, or `None` if re-encoding fails.
    pub sizes: Vec<Option<usize>>,
}

/// The specification-level value of a [`ModuleData`].
pub ghost struct ModuleDataV {
    /// The import records, in import-section order.
    pub imports: Seq<ImportRecordV>,
    /// The export records, in export-section order.
    pub exports: Seq<ExportRecordV>,
    /// The custom sections, in order of appearance.
    pub customs: Seq<CustomSectionV>,
    /// Per defined function, its re-encoded byte length if available.
    pub sizes: Seq<Option<usize>>,
}

impl View for ModuleData {
    type V = ModuleDataV;

    open spec fn view(&self) -> ModuleDataV {
        ModuleDataV {
            imports: self.imports@.map_values(|r: ImportRecord| r@),
            exports: self.exports@.map_values(|r: ExportRecord| r@),
            customs: self.customs@.map_values(|s: CustomSection| s@),
            sizes: self.sizes@,
        }
    }
}

/// How many of the import records import a function, counted over the
/// first `n` records. Only those records occupy slots of the function
/// index space.
pub open spec fn count_func_imports(imports: Seq<ImportRecordV>, n: int) -> int
    decreases n,
{
    if n <= 0 {
        0
    } else {
        count_func_imports(imports, n - 1)
            + if imports[n - 1].kind == ImportKind::Function { 1int } else { 0 }
    }
}

/// The number of imported functions: the length of the imported prefix
/// of the function index space.
pub open spec fn num_func_imports(m: ModuleDataV) -> int {
    count_func_imports(m.imports, m.imports.len() as int)
}

impl ModuleData {
    /// Assemble a module from its section data.
    pub fn new(
        imports: Vec<ImportRecord>,
        exports: Vec<ExportRecord>,
        customs: Vec<CustomSection>,
        sizes: Vec<Option<usize>>,
    ) -> (r: ModuleData)
        ensures
            r@.imports == imports@.map_values(|r: ImportRecord| r@),
            r@.exports == exports@.map_values(|r: ExportRecord| r@),
            r@.customs == customs@.map_values(|s: CustomSection| s@),
            r@.sizes == sizes@,
    {
        ModuleData { imports, exports, customs, sizes }
    }

    /// The number of import records of any kind.
    pub fn num_import_records(&self) -> (r: usize)
        ensures
            r == self@.imports.len(),
    {
        self.imports.len()
    }

    /// The number of defined (non-imported) functions.
    pub fn num_defined_functions(&self) -> (r: usize)
        ensures
            r == self@.sizes.len(),
    {
        self.sizes.len()
    }

    /// The number of imported functions, i.e. the offset at which the
    /// defined functions start in the combined function index space.
    pub fn num_imported_functions(&self) -> (r: usize)
        ensures
            r == num_func_imports(self@),
    {
        let ghost iv = self@.imports;
        let mut count: usize = 0;
        let n = self.imports.len();
        let mut i: usize = 0;
        while i < n
            invariant
                i <= n,
                n == self.imports.len(),
                iv == self@.imports,
                count == count_func_imports(iv, i as int),
                count <= i,
            decreases n - i,
        {
            proof {
                assert(iv[i as int] == self.imports[i as int]@);
            }
            if matches!(self.imports[i].kind, ImportKind::Function) {
                count = count + 1;
            }
            i = i + 1;
        }
        count
    }
}

} // verus!
