//! List the symbols within a WebAssembly binary module.
//!
//! A module's function-level symbols fall into three classes: imported
//! symbols, exported symbols, and private (defined but unexported)
//! functions. This crate decodes the sections needed to enumerate them,
//! resolves human-readable names for private functions from the custom
//! `name` section, and can report each defined function's encoded code
//! size on demand.

mod classify;
mod laws;
mod leb;
mod load;
mod module;
mod names;
mod options;
mod text;

pub use classify::Symbol;
pub use classify::SymbolV;
pub use classify::Symbols;
pub use classify::SymbolsIter;
pub use classify::classified;
pub use classify::export_lookup;
pub use classify::first_name_section;
pub use classify::func_sym_at;
pub use classify::func_syms_from;
pub use classify::import_syms_from;
pub use classify::module_names;
pub use classify::opt_name_lookup;
pub use classify::size_for;
pub use classify::spec_export_lookup;
pub use laws::lemma_classification_deterministic;
pub use laws::lemma_exports_flag_filters;
pub use laws::lemma_full_options_count;
pub use laws::lemma_imports_flag_filters;
pub use laws::lemma_no_kinds_no_symbols;
pub use laws::lemma_privates_flag_filters;
pub use laws::lemma_sizes_flag_only_annotates;
pub use laws::strip_size;
pub use load::ParseError;
pub use load::module_data_of;
pub use load::parse_ok_of;
pub use load::symbols;
pub use module::CustomSection;
pub use module::CustomSectionV;
pub use module::ExportRecord;
pub use module::ExportRecordV;
pub use module::ExportTarget;
pub use module::ImportKind;
pub use module::ImportRecord;
pub use module::ImportRecordV;
pub use module::ModuleData;
pub use module::ModuleDataV;
pub use module::count_func_imports;
pub use module::num_func_imports;
pub use names::NameEntry;
pub use names::NameEntryV;
pub use names::decode_name_map;
pub use names::name_lookup;
pub use names::spec_name_lookup;
pub use names::spec_name_map;
pub use names::utf8_lossy_of;
pub use options::Options;
pub use text::decimal_string;
pub use text::spec_decimal;
pub use text::spec_display_text;
