//! Tests of symbol classification, from constructed section data and
//! from real wasm binary bytes.

use wasm_nm::CustomSection;
use wasm_nm::ExportRecord;
use wasm_nm::ExportTarget;
use wasm_nm::ImportKind;
use wasm_nm::ImportRecord;
use wasm_nm::ModuleData;
use wasm_nm::Options;
use wasm_nm::Symbol;
use wasm_nm::Symbols;
use wasm_nm::decimal_string;
use wasm_nm::decode_name_map;
use wasm_nm::export_lookup;
use wasm_nm::name_lookup;
use wasm_nm::symbols;

fn import(name: &str) -> ImportRecord {
    ImportRecord { name: name.to_string(), kind: ImportKind::Function }
}

fn import_of(name: &str, kind: ImportKind) -> ImportRecord {
    ImportRecord { name: name.to_string(), kind }
}

fn export_fn(name: &str, idx: u32) -> ExportRecord {
    ExportRecord { name: name.to_string(), target: ExportTarget::Function(idx) }
}

fn collect(syms: &Symbols) -> Vec<Symbol> {
    let mut out = Vec::new();
    let mut it = syms.iter();
    while let Some(s) = it.next() {
        out.push(s);
    }
    out
}

fn tag(s: &Symbol) -> char {
    match s {
        Symbol::Import { .. } => 'i',
        Symbol::Export { .. } => 'e',
        Symbol::Private { .. } => 'p',
    }
}

fn rendering(syms: &Symbols) -> Vec<(char, String)> {
    collect(syms).iter().map(|s| (tag(s), s.display_text())).collect()
}

/// A module with one function import, one table import, three defined
/// functions (the first exported, the second named, the third bare),
/// and a well-formed name section.
fn sample_module() -> ModuleData {
    // name section payload: one kind-1 subsection, one entry naming
    // combined index 2 (defined function 1) "fluxions".
    let payload = vec![
        0x01, 0x0b, 0x01, 0x02, 0x08, b'f', b'l', b'u', b'x', b'i', b'o', b'n', b's',
    ];
    ModuleData::new(
        vec![import("imported"), import_of("tbl", ImportKind::Table)],
        vec![export_fn("quicksilver", 1)],
        vec![CustomSection { name: "name".to_string(), payload }],
        vec![Some(7), Some(3), Some(9)],
    )
}

#[test]
fn default_enables_all_but_sizes() {
    let o = Options::default();
    assert!(o.imports);
    assert!(o.exports);
    assert!(o.privates);
    assert!(!o.sizes);
}

#[test]
fn nothing_disables_all() {
    let o = Options::nothing();
    assert!(!o.imports);
    assert!(!o.exports);
    assert!(!o.privates);
    assert!(!o.sizes);
    let syms = Symbols::new(o, sample_module());
    assert_eq!(collect(&syms).len(), 0);
}

#[test]
fn full_options_count_matches() {
    // Under the default options nothing is skipped: one symbol per
    // import record plus one per defined function.
    let syms = Symbols::new(Options::default(), sample_module());
    assert_eq!(collect(&syms).len(), 2 + 3);
}

#[test]
fn classification_is_repeatable() {
    let syms = Symbols::new(Options::default(), sample_module());
    let first = rendering(&syms);
    let second = rendering(&syms);
    assert_eq!(first, second);
    assert_eq!(
        first,
        vec![
            ('i', "imported".to_string()),
            ('i', "tbl".to_string()),
            ('e', "quicksilver".to_string()),
            ('p', "fluxions".to_string()),
            ('p', "function[2]".to_string()),
        ]
    );
}

#[test]
fn single_flag_matches_filtered_default() {
    let module = sample_module();
    let full = rendering(&Symbols::new(Options::default(), module.clone()));
    for flag in ['i', 'e', 'p'] {
        let mut one = Options::nothing();
        match flag {
            'i' => one.imports = true,
            'e' => one.exports = true,
            _ => one.privates = true,
        }
        let got = rendering(&Symbols::new(one, module.clone()));
        let filtered: Vec<(char, String)> =
            full.iter().filter(|(t, _)| *t == flag).cloned().collect();
        assert_eq!(got, filtered);
    }
}

#[test]
fn later_export_record_wins() {
    // Two export records target the same function index under
    // different names: exactly one Export symbol comes out, under the
    // later record's name.
    let module = ModuleData::new(
        vec![],
        vec![export_fn("early", 0), export_fn("late", 0)],
        vec![],
        vec![Some(1)],
    );
    let out = collect(&Symbols::new(Options::default(), module));
    assert_eq!(out.len(), 1);
    match &out[0] {
        Symbol::Export { name, .. } => assert_eq!(name, "late"),
        other => panic!("expected an export, got {:?}", other),
    }
}

#[test]
fn table_exports_are_ignored() {
    let module = ModuleData::new(
        vec![],
        vec![ExportRecord { name: "tbl".to_string(), target: ExportTarget::Table(0) }],
        vec![],
        vec![Some(1)],
    );
    let out = collect(&Symbols::new(Options::default(), module));
    assert_eq!(out.len(), 1);
    assert_eq!(tag(&out[0]), 'p');
}

#[test]
fn unnamed_private_displays_as_function_index() {
    // No exports, no name section: each defined function displays by
    // its zero-based defined-function index.
    let module = ModuleData::new(vec![], vec![], vec![], vec![None, None]);
    let out = collect(&Symbols::new(Options::default(), module));
    assert_eq!(out.len(), 2);
    assert_eq!(out[0].display_text(), "function[0]");
    assert_eq!(out[1].display_text(), "function[1]");
}

#[test]
fn sizes_flag_only_adds_sizes() {
    let module = sample_module();
    let plain = Symbols::new(Options::default(), module.clone());
    let mut with_sizes_opts = Options::default();
    with_sizes_opts.sizes = true;
    let sized = Symbols::new(with_sizes_opts, module);
    assert_eq!(rendering(&plain), rendering(&sized));
    let plain_syms = collect(&plain);
    let sized_syms = collect(&sized);
    for s in &plain_syms {
        match s {
            Symbol::Export { size, .. } | Symbol::Private { size, .. } => {
                assert_eq!(*size, None)
            },
            Symbol::Import { .. } => {},
        }
    }
    let mut sized_sizes = Vec::new();
    for s in &sized_syms {
        match s {
            Symbol::Export { size, .. } | Symbol::Private { size, .. } => {
                sized_sizes.push(*size)
            },
            Symbol::Import { .. } => {},
        }
    }
    assert_eq!(sized_sizes, vec![Some(7), Some(3), Some(9)]);
}

#[test]
fn malformed_name_section_degrades() {
    // A kind-1 subsection whose declared length overruns the payload:
    // classification proceeds, with no private names resolved.
    let module = ModuleData::new(
        vec![],
        vec![],
        vec![CustomSection { name: "name".to_string(), payload: vec![0x01, 0x05, 0x01] }],
        vec![Some(1)],
    );
    let out = collect(&Symbols::new(Options::default(), module));
    assert_eq!(out.len(), 1);
    match &out[0] {
        Symbol::Private { name, index, .. } => {
            assert_eq!(*name, None);
            assert_eq!(*index, 0);
        },
        other => panic!("expected a private symbol, got {:?}", other),
    }
}

#[test]
fn truncated_count_field_degrades() {
    // The subsection is announced as empty, so its entry count is
    // truncated: no names, no error.
    let module = ModuleData::new(
        vec![],
        vec![],
        vec![CustomSection { name: "name".to_string(), payload: vec![0x01, 0x00] }],
        vec![None],
    );
    let out = collect(&Symbols::new(Options::default(), module));
    assert_eq!(out.len(), 1);
    assert_eq!(out[0].display_text(), "function[0]");
}

#[test]
fn name_map_decodes_entries_and_normalizes() {
    // Two entries; with two imported functions, combined indices 2
    // and 1 normalize to 0 and 0 (saturating), the later entry
    // winning the duplicate slot.
    let payload = vec![
        0x01, 0x07, // kind 1, 7 bytes
        0x02, // two entries
        0x02, 0x01, b'a', // index 2 -> 0, "a"
        0x01, 0x01, b'b', // index 1 -> 0 (saturated), "b"
    ];
    let decoded = decode_name_map(&payload, 2).expect("well-formed payload");
    assert_eq!(decoded.len(), 2);
    assert_eq!(decoded[0].index, 0);
    assert_eq!(decoded[0].name, "a");
    assert_eq!(decoded[1].index, 0);
    assert_eq!(decoded[1].name, "b");
    let found = name_lookup(&decoded, 0).expect("index 0 is named");
    assert_eq!(found, "b");
    assert_eq!(name_lookup(&decoded, 1), None);
}

#[test]
fn name_map_skips_other_subsections() {
    // A kind-0 subsection precedes the function-names subsection.
    let payload = vec![
        0x00, 0x02, 0xaa, 0xbb, // kind 0, skipped
        0x01, 0x04, 0x01, 0x00, 0x01, b'z', // kind 1, one entry
    ];
    let decoded = decode_name_map(&payload, 0).expect("well-formed payload");
    assert_eq!(decoded.len(), 1);
    assert_eq!(decoded[0].index, 0);
    assert_eq!(decoded[0].name, "z");
}

#[test]
fn name_map_empty_payload_is_empty_map() {
    let empty: Vec<u8> = Vec::new();
    let decoded = decode_name_map(&empty, 0).expect("an empty payload is fine");
    assert_eq!(decoded.len(), 0);
}

#[test]
fn name_map_replaces_invalid_utf8() {
    let payload = vec![0x01, 0x04, 0x01, 0x00, 0x01, 0xff];
    let decoded = decode_name_map(&payload, 0).expect("length-wise well-formed");
    assert_eq!(decoded[0].name, "\u{FFFD}");
}

#[test]
fn name_map_decodes_five_byte_index() {
    // The largest function index, in the longest legal encoding.
    let payload = vec![0x01, 0x08, 0x01, 0xff, 0xff, 0xff, 0xff, 0x0f, 0x01, b'm'];
    let decoded = decode_name_map(&payload, 0).expect("well-formed payload");
    assert_eq!(decoded[0].index, u32::MAX);
    assert_eq!(decoded[0].name, "m");
}

#[test]
fn name_map_rejects_overflowing_varint() {
    // A fifth byte carrying bits beyond the 32-bit range.
    let payload = vec![0x01, 0x08, 0x01, 0xff, 0xff, 0xff, 0xff, 0x10, 0x01, b'm'];
    assert!(decode_name_map(&payload, 0).is_none());
}

#[test]
fn name_map_rejects_oversized_varint() {
    // A six-byte encoding can never be a 32-bit count.
    let payload = vec![0x01, 0x06, 0x80, 0x80, 0x80, 0x80, 0x80, 0x01];
    assert!(decode_name_map(&payload, 0).is_none());
}

#[test]
fn export_lookup_last_match_wins() {
    let exports = vec![
        export_fn("first", 4),
        ExportRecord { name: "mem".to_string(), target: ExportTarget::Memory(4) },
        export_fn("second", 4),
    ];
    assert_eq!(export_lookup(&exports, 4), Some("second".to_string()));
    assert_eq!(export_lookup(&exports, 5), None);
}

#[test]
fn decimal_rendering_exact() {
    assert_eq!(decimal_string(0), "0");
    assert_eq!(decimal_string(9), "9");
    assert_eq!(decimal_string(10), "10");
    assert_eq!(decimal_string(409), "409");
    assert_eq!(decimal_string(1000), "1000");
}

/// A complete wasm binary: one import (`env.imported`), two defined
/// functions where the first is exported as `quicksilver` and the
/// second is named `fluxions` by the name section.
fn scenario_bytes() -> Vec<u8> {
    vec![
        0x00, 0x61, 0x73, 0x6d, 0x01, 0x00, 0x00, 0x00, // magic, version
        0x01, 0x04, 0x01, 0x60, 0x00, 0x00, // type section: () -> ()
        0x02, 0x10, 0x01, // import section, one entry
        0x03, b'e', b'n', b'v', // module "env"
        0x08, b'i', b'm', b'p', b'o', b'r', b't', b'e', b'd', // field
        0x00, 0x00, // a function import of type 0
        0x03, 0x03, 0x02, 0x00, 0x00, // function section: two of type 0
        0x07, 0x0f, 0x01, // export section, one entry
        0x0b, b'q', b'u', b'i', b'c', b'k', b's', b'i', b'l', b'v', b'e', b'r',
        0x00, 0x01, // function index 1
        0x0a, 0x07, 0x02, // code section, two bodies
        0x02, 0x00, 0x0b, // no locals, just `end`
        0x02, 0x00, 0x0b, // no locals, just `end`
        0x00, 0x12, // custom section
        0x04, b'n', b'a', b'm', b'e', // named "name"
        0x01, 0x0b, // function-names subsection, 11 bytes
        0x01, // one entry
        0x02, // combined index 2 (defined function 1)
        0x08, b'f', b'l', b'u', b'x', b'i', b'o', b'n', b's',
    ]
}

#[test]
fn end_to_end_scenario() {
    let mut opts = Options::default();
    opts.sizes = true;
    let syms = symbols(opts, &scenario_bytes()).expect("the bytes are a wasm module");
    let out = collect(&syms);
    assert_eq!(out.len(), 3);
    match &out[0] {
        Symbol::Import { name } => assert_eq!(name, "imported"),
        other => panic!("expected an import, got {:?}", other),
    }
    match &out[1] {
        Symbol::Export { name, size } => {
            assert_eq!(name, "quicksilver");
            assert_eq!(*size, Some(1));
        },
        other => panic!("expected an export, got {:?}", other),
    }
    match &out[2] {
        Symbol::Private { index, name, size } => {
            assert_eq!(*index, 1);
            assert_eq!(name.as_deref(), Some("fluxions"));
            assert_eq!(*size, Some(1));
        },
        other => panic!("expected a private symbol, got {:?}", other),
    }
}

#[test]
fn loading_is_deterministic() {
    let first = symbols(Options::default(), &scenario_bytes()).expect("valid module");
    let second = symbols(Options::default(), &scenario_bytes()).expect("valid module");
    assert_eq!(rendering(&first), rendering(&second));
}

#[test]
fn malformed_name_section_in_binary_is_not_fatal() {
    // A module whose `name` custom section holds a truncated
    // subsection still loads; only the private name is lost.
    let bytes = vec![
        0x00, 0x61, 0x73, 0x6d, 0x01, 0x00, 0x00, 0x00, // magic, version
        0x01, 0x04, 0x01, 0x60, 0x00, 0x00, // type section: () -> ()
        0x03, 0x02, 0x01, 0x00, // function section: one of type 0
        0x0a, 0x04, 0x01, 0x02, 0x00, 0x0b, // code section, one body
        0x00, 0x06, 0x04, b'n', b'a', b'm', b'e', 0x01, // truncated payload
    ];
    let syms = symbols(Options::default(), &bytes).expect("the module itself is valid");
    let out = collect(&syms);
    assert_eq!(out.len(), 1);
    assert_eq!(out[0].display_text(), "function[0]");
}

#[test]
fn empty_module_has_no_symbols() {
    let bytes = vec![0x00, 0x61, 0x73, 0x6d, 0x01, 0x00, 0x00, 0x00];
    let syms = symbols(Options::default(), &bytes).expect("an empty module is valid");
    assert_eq!(collect(&syms).len(), 0);
}

#[test]
fn bad_magic_is_parse_error() {
    let err = symbols(Options::default(), b"not a wasm module").expect_err("bad magic");
    assert!(!err.message.is_empty());
}

#[test]
fn truncated_module_is_parse_error() {
    let mut bytes = scenario_bytes();
    bytes.truncate(20);
    assert!(symbols(Options::default(), &bytes).is_err());
}
