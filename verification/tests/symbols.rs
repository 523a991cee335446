//! Tests for name validation and the enumeration cursor.

use plthook::cname::CName;
use plthook::symbols::{EnumOutcome, SymbolIterator};
use plthook::{ObjectFile, OpenOutcome};

fn open_object(handle: usize) -> ObjectFile {
    ObjectFile::from_open_outcome(OpenOutcome {
        status: 0,
        handle,
        message: String::new(),
    })
    .expect("open succeeds")
}

/// The entries a simulated provider enumerates, in order.
fn provider_entries() -> Vec<(Vec<u8>, usize, i32)> {
    vec![
        (b"atoi".to_vec(), 400, 3),
        (b"atof".to_vec(), 700, 3),
        (b"getpid".to_vec(), 900, 1),
    ]
}

/// Simulates one native enumeration step at the given cursor position.
fn provider_enum(pos: u32) -> EnumOutcome {
    let entries = provider_entries();
    match entries.get(pos as usize) {
        Some(entry) => EnumOutcome {
            status: 0,
            next_pos: pos + 1,
            name: entry.0.clone(),
            func_address: entry.1,
            protection: entry.2,
        },
        None => EnumOutcome {
            status: -1,
            next_pos: pos,
            name: Vec::new(),
            func_address: 0,
            protection: 0,
        },
    }
}

/// Drains a cursor against the simulated provider.
fn drain(it: &mut SymbolIterator) -> Vec<(Vec<u8>, usize, i32)> {
    let mut out = Vec::new();
    while !it.done {
        match it.next(provider_enum(it.pos)) {
            Some(sym) => out.push((sym.name, sym.func_address, sym.protection)),
            None => break,
        }
    }
    out
}

#[test]
fn cname_accepts_plain_bytes() {
    let name = CName::new(b"atoi").expect("no nul");
    assert_eq!(name.as_bytes(), b"atoi");
}

#[test]
fn cname_rejects_embedded_nul() {
    assert!(CName::new(b"at\0oi").is_none());
    assert!(CName::new(b"\0").is_none());
    assert!(CName::new(b"atoi\0").is_none());
}

#[test]
fn cname_accepts_empty() {
    let name = CName::new(b"").expect("no nul");
    assert_eq!(name.as_bytes(), b"");
}

#[test]
fn cname_terminated_appends_one_nul() {
    let name = CName::new(b"atoi").expect("no nul");
    assert_eq!(name.terminated(), b"atoi\0");
}

#[test]
fn symbols_enumerates_all_entries() {
    let object = open_object(7);
    let mut it = object.symbols();
    let symbols = drain(&mut it);
    assert!(!symbols.is_empty());
    assert_eq!(symbols.len(), 3);
    assert_eq!(symbols[0], (b"atoi".to_vec(), 400, 3));
    assert_eq!(symbols[1], (b"atof".to_vec(), 700, 3));
    assert_eq!(symbols[2], (b"getpid".to_vec(), 900, 1));
    assert!(it.done);
}

#[test]
fn symbols_starts_over_each_time() {
    let object = open_object(7);

    let mut first = object.symbols();
    assert_eq!(first.pos, 0);
    first.next(provider_enum(first.pos));
    first.next(provider_enum(first.pos));
    assert_eq!(first.pos, 2);

    // A second enumeration is an independent cursor from position zero, not a
    // continuation of the first.
    let mut second = object.symbols();
    assert_eq!(second.pos, 0);
    assert!(!second.done);
    let sym = second.next(provider_enum(second.pos)).expect("first entry");
    assert_eq!(sym.name, b"atoi".to_vec());

    // The first cursor is unaffected and picks up where it stood.
    let sym = first.next(provider_enum(first.pos)).expect("third entry");
    assert_eq!(sym.name, b"getpid".to_vec());
}

#[test]
fn exhaustion_is_not_an_error_and_is_final() {
    let object = open_object(7);
    let mut it = object.symbols();
    let symbols = drain(&mut it);
    assert_eq!(symbols.len(), 3);
    // The sentinel ended the sequence without producing an error value, and
    // the cursor stays done.
    assert!(it.done);
}

#[test]
fn windows_reports_no_protection_bits() {
    // Where the platform offers no protection reporting, the provider hands
    // back zero and the symbol carries exactly that: nothing is fabricated.
    let object = open_object(7);
    let mut it = object.symbols();
    let sym = it
        .next(EnumOutcome {
            status: 0,
            next_pos: 1,
            name: b"GetCurrentProcessId".to_vec(),
            func_address: 1200,
            protection: 0,
        })
        .expect("entry produced");
    assert_eq!(sym.protection, 0);
}
