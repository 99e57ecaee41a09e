//! Loading a module from wasm binary bytes.
//!
//! The generic WebAssembly deserializer is an external collaborator:
//! `parity_wasm` decodes the byte stream into its section records.
//! [`load_module`] is the one trusted loading step — deserialize,
//! then read the records out into plain [`ModuleData`] through the
//! per-section adapters that follow it — and its contract names both
//! whether the bytes parse and what data they parse to, each a
//! function of the bytes alone. A byte source that does not decode
//! as a wasm module is a fatal [`ParseError`]; everything after a
//! successful load is verified code.
//!
//! Each defined function's encoded size is computed here, once, while
//! the module is loaded: the classifier then reads plain values only,
//! and whether sizes are *reported* stays a traversal option.

use vstd::prelude::*;

use parity_wasm::elements::Deserialize;
use parity_wasm::elements::Serialize;

use crate::classify::Symbols;
use crate::module::CustomSection;
use crate::module::ExportRecord;
use crate::module::ExportTarget;
use crate::module::ImportKind;
use crate::module::ImportRecord;
use crate::module::ModuleData;
use crate::module::ModuleDataV;
use crate::options::Options;

verus! {

/// A fatal parse failure: the bytes do not decode as a WebAssembly
/// module.
#[derive(Clone, Debug)]
pub struct ParseError {
    /// The underlying decoder's diagnostic.
    pub message: String,
}

#[verifier::external_type_specification]
#[verifier::external_body]
pub struct ExWasmModule(parity_wasm::elements::Module);

/// Whether the external deserializer accepts the bytes as a
/// WebAssembly module. Deserialization from a byte sequence is
/// deterministic, so acceptance is a function of the bytes alone;
/// [`load_module`] returns `Ok` on exactly the accepted ones.
pub uninterp spec fn parse_ok_of(bytes: Seq<u8>) -> bool;

/// The section data carried by the module the bytes deserialize to:
/// its import records, export records, custom sections, and the
/// re-encoded size of each defined function's body. Like acceptance,
/// this is a function of the bytes alone. Meaningful only where
/// [`parse_ok_of`] holds.
pub uninterp spec fn module_data_of(bytes: Seq<u8>) -> ModuleDataV;

/// Relies on `parity_wasm::elements::Module::deserialize`: decodes a
/// wasm binary module from the bytes or reports why they are not
/// one, deterministically in the bytes. On success the section
/// records are read out through the adapters below, so the returned
/// data is the named function of the bytes.
#[verifier::external_body]
fn load_module(bytes: &[u8]) -> (r: Result<ModuleData, String>)
    ensures
        r is Ok <==> parse_ok_of(bytes@),
        r matches Ok(d) ==> d@ == module_data_of(bytes@),
{
    let mut reader: &[u8] = bytes;
    match parity_wasm::elements::Module::deserialize(&mut reader) {
        Ok(m) => Ok(ModuleData {
            imports: import_records(&m),
            exports: export_records(&m),
            customs: custom_section_records(&m),
            sizes: body_sizes(&m),
        }),
        Err(e) => Err(e.to_string()),
    }
}

/// Relies on `Module::import_section`, `ImportSection::entries`,
/// `ImportEntry::field` and `ImportEntry::external`: the import
/// records in import-section order, with the imported field's name
/// and what kind of entity it imports.
#[verifier::external_body]
fn import_records(m: &parity_wasm::elements::Module) -> Vec<ImportRecord> {
    let mut out: Vec<ImportRecord> = Vec::new();
    if let Some(sec) = m.import_section() {
        for e in sec.entries() {
            let kind = match *e.external() {
                parity_wasm::elements::External::Function(_) => ImportKind::Function,
                parity_wasm::elements::External::Table(_) => ImportKind::Table,
                parity_wasm::elements::External::Memory(_) => ImportKind::Memory,
                parity_wasm::elements::External::Global(_) => ImportKind::Global,
            };
            out.push(ImportRecord { name: e.field().to_string(), kind });
        }
    }
    out
}

/// Relies on `Module::export_section`, `ExportSection::entries`,
/// `ExportEntry::field` and `ExportEntry::internal`: the export
/// records in export-section order, with the exported name and the
/// index of what they target.
#[verifier::external_body]
fn export_records(m: &parity_wasm::elements::Module) -> Vec<ExportRecord> {
    let mut out: Vec<ExportRecord> = Vec::new();
    if let Some(sec) = m.export_section() {
        for e in sec.entries() {
            let target = match *e.internal() {
                parity_wasm::elements::Internal::Function(i) => ExportTarget::Function(i),
                parity_wasm::elements::Internal::Table(i) => ExportTarget::Table(i),
                parity_wasm::elements::Internal::Memory(i) => ExportTarget::Memory(i),
                parity_wasm::elements::Internal::Global(i) => ExportTarget::Global(i),
            };
            out.push(ExportRecord { name: e.field().to_string(), target });
        }
    }
    out
}

/// Relies on `Module::custom_sections`, `CustomSection::name` and
/// `CustomSection::payload`: the custom sections in order of
/// appearance, each as its name and raw payload.
#[verifier::external_body]
fn custom_section_records(m: &parity_wasm::elements::Module) -> Vec<CustomSection> {
    let mut out: Vec<CustomSection> = Vec::new();
    for sec in m.custom_sections() {
        out.push(CustomSection { name: sec.name().to_string(), payload: sec.payload().to_vec() });
    }
    out
}

/// Relies on `Module::code_section`, `CodeSection::bodies`,
/// `FuncBody::code` and `Instructions::serialize`: for each defined
/// function in code-section order, the byte length its instruction
/// stream re-encodes to, or `None` where re-encoding fails.
#[verifier::external_body]
fn body_sizes(m: &parity_wasm::elements::Module) -> Vec<Option<usize>> {
    let mut out: Vec<Option<usize>> = Vec::new();
    if let Some(sec) = m.code_section() {
        for body in sec.bodies() {
            let mut buf: Vec<u8> = Vec::new();
            match body.code().clone().serialize(&mut buf) {
                Ok(()) => out.push(Some(buf.len())),
                Err(_) => out.push(None),
            }
        }
    }
    out
}

/// Get the symbols in the given wasm file.
///
/// Succeeds exactly when the bytes deserialize as a module — a
/// malformed `name` custom section never causes an error here, since
/// its payload is only decoded, leniently, during enumeration. On
/// success the returned set pairs the given options, unchanged, with
/// the module data named of the bytes, so enumerating it yields that
/// module's classified symbols; on failure the error carries the
/// deserializer's diagnostic.
pub fn symbols(opts: Options, bytes: &[u8]) -> (r: Result<Symbols, ParseError>)
    ensures
        r is Ok <==> parse_ok_of(bytes@),
        r matches Ok(s) ==> s.opts == opts && s.module@ == module_data_of(bytes@),
{
    match load_module(bytes) {
        Ok(module) => Ok(Symbols::new(opts, module)),
        Err(message) => Err(ParseError { message }),
    }
}

} // verus!
