//! A verified ownership and protocol layer for hooking dynamically-linked
//! function calls through a native provider that rewrites PLT/IAT entries.
//!
//! The native provider itself (opening an object's table, enumerating its
//! entries, swapping a slot, closing the handle) is an outside collaborator
//! that this crate never calls directly: every native interaction is
//! represented as plain values — a call to make, and the outcome it produced.
//! This crate holds the logic around those calls: validating names and paths,
//! translating status codes, the replace-then-restore protocol of a hooked
//! symbol, shared ownership of the opened handle with an exactly-once close,
//! and the forward-only enumeration cursor.

pub mod cname;
pub mod errors;
pub mod symbols;

use vstd::prelude::*;

verus! {

use crate::cname::{CName, no_nul};
use crate::errors::{Error, ErrorKind, kind_of_code};
use crate::symbols::SymbolIterator;

/// The native open call the binding asks for: which object's table to open.
#[derive(Debug)]
pub enum OpenCall {
    /// Open the running process's own table (a null path for the provider).
    MainProgram,
    /// Open the object at this filesystem path.
    FilePath(CName),
    /// Open an object already loaded, by the module handle a dynamic-loading
    /// primitive returned. The caller answers for the handle's validity.
    ByHandle(usize),
}

/// What a native open call returned, as plain values.
///
/// The message must be read from the provider's last-error slot right after a
/// failing call, before any other native call can overwrite it; it is empty
/// when the call succeeded.
#[derive(Debug)]
pub struct OpenOutcome {
    /// Zero on success; otherwise the provider's error code.
    pub status: i32,
    /// The opaque handle produced on success.
    pub handle: usize,
    /// The provider's last-error message when the status is non-zero.
    pub message: String,
}

/// What a native replace call returned, as plain values.
///
/// As with [`OpenOutcome`], the message comes from the provider's process-wide
/// last-error slot and must be fetched before any further native call.
#[derive(Debug)]
pub struct ReplaceOutcome {
    /// Zero on success; otherwise the provider's error code.
    pub status: i32,
    /// The address the slot held before the swap, reported on success.
    pub old_address: usize,
    /// The provider's last-error message when the status is non-zero.
    pub message: String,
}

/// A native replace call to perform: swap the named slot of the given object
/// to the new address. Restores are replace calls as well.
#[derive(Debug)]
pub struct ReplaceCall {
    /// The handle of the opened object whose table is edited.
    pub handle: usize,
    /// The symbol whose slot is swapped; validated to be representable.
    pub name: CName,
    /// The address the slot is set to.
    pub new_address: usize,
}

/// An [object file] loaded in memory, as the verified layer tracks it: the
/// opaque native handle, the count of owners that keep it alive, and whether
/// the native close has fired.
///
/// The owners are the object value itself and every [`Replacement`] whose
/// restore is still pending; the native close must fire exactly once, when
/// the last owner lets go.
///
/// [object file]: https://en.wikipedia.org/wiki/Object_file
#[derive(Debug)]
pub struct ObjectFile {
    /// The opaque handle the native open produced.
    pub handle: usize,
    /// How many owners still keep the handle alive.
    pub owners: u64,
    /// Whether the native close has fired; no operation is valid afterward.
    pub closed: bool,
}

impl ObjectFile {
    /// Well-formed: the handle is closed exactly when no owner is left.
    pub open spec fn wf(self) -> bool {
        self.closed <==> self.owners == 0
    }

    /// The open call for the running process's own table.
    pub fn open_main_program() -> (call: OpenCall)
        ensures
            call is MainProgram,
    {
        OpenCall::MainProgram
    }

    /// Validates a filesystem path for the native open.
    ///
    /// A path whose bytes hold a nul cannot be represented as a native
    /// null-terminated string, so no file of that name can exist: the open
    /// fails locally with `FileNotFound` and an empty message, and no native
    /// call is described.
    pub fn open_file(path: &[u8]) -> (r: Result<OpenCall, Error>)
        ensures
            (match r {
                Ok(call) => no_nul(path@) && (call matches OpenCall::FilePath(name)
                    && name@ == path@),
                Err(e) => !no_nul(path@) && e.kind == ErrorKind::FileNotFound
                    && e.message@.len() == 0,
            }),
    {
        match CName::new(path) {
            Some(name) => Ok(OpenCall::FilePath(name)),
            None => Err(Error::new(ErrorKind::FileNotFound, String::new())),
        }
    }

    /// The open call for an object already loaded, by its module handle.
    ///
    /// The handle comes from a dynamic-loading primitive outside this layer;
    /// nothing here validates its provenance — that is the caller's duty.
    pub fn open_by_handle(handle: usize) -> (call: OpenCall)
        ensures
            call == OpenCall::ByHandle(handle),
    {
        OpenCall::ByHandle(handle)
    }

    /// Interprets what a native open returned: status zero yields the object
    /// with its one initial owner; any other status yields the translated
    /// error carrying the native message.
    pub fn from_open_outcome(outcome: OpenOutcome) -> (r: Result<ObjectFile, Error>)
        ensures
            (match r {
                Ok(object) => outcome.status == 0 && object.handle == outcome.handle
                    && object.owners == 1 && !object.closed && object.wf(),
                Err(e) => outcome.status != 0 && e.kind == kind_of_code(outcome.status)
                    && e.message@ == outcome.message@,
            }),
    {
        if outcome.status == 0 {
            Ok(ObjectFile { handle: outcome.handle, owners: 1, closed: false })
        } else {
            Err(Error::new(ErrorKind::from(outcome.status), outcome.message))
        }
    }

    /// Validates a symbol name and describes the native swap to perform.
    ///
    /// A name with an embedded nul byte cannot exist in the table, so the
    /// replace fails locally with `FunctionNotFound` and an empty message,
    /// and no native call is described. Concurrent replace calls on the same
    /// object are not serialized here; callers must not overlap them.
    pub fn replace(&self, symbol_name: &[u8], func_address: usize) -> (r: Result<
        ReplaceCall,
        Error,
    >)
        requires
            !self.closed,
        ensures
            (match r {
                Ok(call) => no_nul(symbol_name@) && call.handle == self.handle
                    && call.name@ == symbol_name@ && call.new_address == func_address,
                Err(e) => !no_nul(symbol_name@) && e.kind == ErrorKind::FunctionNotFound
                    && e.message@.len() == 0,
            }),
    {
        match CName::new(symbol_name) {
            Some(name) => Ok(ReplaceCall { handle: self.handle, name, new_address: func_address }),
            None => Err(Error::new(ErrorKind::FunctionNotFound, String::new())),
        }
    }

    /// Interprets what the native swap returned.
    ///
    /// Success records the displaced address, arms the restore, and adds one
    /// owner of the handle, so the handle cannot be closed while the restore
    /// is pending. Failure translates the status, attaches the native
    /// message, and leaves the object as it was: no partial modification.
    pub fn accept_replacement(&mut self, call: ReplaceCall, outcome: ReplaceOutcome) -> (r: Result<
        Replacement,
        Error,
    >)
        requires
            old(self).wf(),
            !old(self).closed,
            call.handle == old(self).handle,
            old(self).owners < u64::MAX,
        ensures
            final(self).handle == old(self).handle,
            !final(self).closed,
            final(self).wf(),
            (match r {
                Ok(rep) => outcome.status == 0 && final(self).owners == old(self).owners + 1
                    && rep.address == outcome.old_address && (rep.restore matches Some(rr)
                    && rr.handle == old(self).handle && rr.name@ == call.name@),
                Err(e) => outcome.status != 0 && final(self).owners == old(self).owners
                    && e.kind == kind_of_code(outcome.status) && e.message@ == outcome.message@,
            }),
    {
        if outcome.status == 0 {
            self.owners = self.owners + 1;
            Ok(
                Replacement {
                    restore: Some(RestoreRef { handle: call.handle, name: call.name }),
                    address: outcome.old_address,
                },
            )
        } else {
            Err(Error::new(ErrorKind::from(outcome.status), outcome.message))
        }
    }

    /// Lets one owner go: the object value itself, or a replacement whose
    /// restore has ended or been discarded. Returns true exactly when this
    /// was the last owner, i.e. when the native close must now fire.
    pub fn release_owner(&mut self) -> (close: bool)
        requires
            old(self).wf(),
            !old(self).closed,
        ensures
            releases_to(*old(self), *final(self), close),
            final(self).wf(),
    {
        self.owners = self.owners - 1;
        if self.owners == 0 {
            self.closed = true;
            true
        } else {
            false
        }
    }

    /// A fresh enumeration cursor over this object's table. Every call starts
    /// over at position zero, independent of any earlier cursor.
    pub fn symbols(&self) -> (it: SymbolIterator)
        requires
            !self.closed,
        ensures
            it.handle == self.handle,
            it.pos == 0,
            !it.done,
    {
        SymbolIterator { handle: self.handle, pos: 0, done: false }
    }
}

/// How one release of an owner transforms the object.
pub open spec fn releases_to(before: ObjectFile, after: ObjectFile, close: bool) -> bool {
    &&& after.handle == before.handle
    &&& after.owners == before.owners - 1
    &&& (close <==> before.owners == 1)
    &&& after.closed == close
}

/// Law: the release that closes the handle is the last one the object admits.
/// Once `release_owner` answers true the object is closed and owner-less, and
/// every operation — another release included — requires an unclosed object,
/// so the native close can fire at most once per handle.
pub proof fn lemma_close_is_final(before: ObjectFile, after: ObjectFile, close: bool)
    requires
        before.wf(),
        !before.closed,
        releases_to(before, after, close),
        close,
    ensures
        after.closed,
        after.owners == 0,
{
}

/// What a restore must know: the handle of the owning object and the symbol
/// name that was swapped. Dropped once the restore ends or is discarded.
#[derive(Debug)]
pub struct RestoreRef {
    /// The handle of the object whose slot must be put back.
    pub handle: usize,
    /// The symbol name the replace used.
    pub name: CName,
}

/// One successful swap of a slot in an object's table.
///
/// The record holds the displaced address, so callers can still invoke the
/// original function, and — until it is released or discarded — the restore
/// capability that puts the displaced address back. Exactly one restore can
/// ever be issued per record; afterward the record is inert.
#[derive(Debug)]
pub struct Replacement {
    /// The restore capability; `None` once discarded or released.
    pub restore: Option<RestoreRef>,
    /// The address the slot held before the swap.
    pub address: usize,
}

impl Replacement {
    /// The address the slot held before the swap: the displaced function.
    pub fn original_address(&self) -> (address: usize)
        ensures
            address == self.address,
    {
        self.address
    }

    /// Cancels the pending restore for good: the slot keeps the replaced
    /// value even after this record's lifetime ends. Idempotent. Answers
    /// whether this call disarmed the record — the first discard gives up the
    /// record's share of the handle, so the caller must then release that
    /// owner; later discards change nothing.
    pub fn discard(&mut self) -> (released: bool)
        ensures
            final(self).restore is None,
            final(self).address == old(self).address,
            released == (old(self).restore is Some),
    {
        let taken = self.restore.take();
        taken.is_some()
    }

    /// The end of the record: while still armed it yields the restore — a
    /// second replace call putting the displaced address back — and disarms,
    /// so no second restore can ever be issued. An inert record (discarded,
    /// or already released) yields nothing. The caller performs the call
    /// best-effort and then releases the record's owner of the handle.
    pub fn release(&mut self) -> (restore: Option<ReplaceCall>)
        ensures
            final(self).restore is None,
            final(self).address == old(self).address,
            (match old(self).restore {
                Some(rr) => restore matches Some(call) && call.handle == rr.handle && call.name@
                    == rr.name@ && call.new_address == old(self).address,
                None => restore is None,
            }),
    {
        match self.restore.take() {
            Some(rr) => Some(
                ReplaceCall { handle: rr.handle, name: rr.name, new_address: self.address },
            ),
            None => None,
        }
    }
}

/// The hookable table as the binding models it: each symbol name to the
/// address its slot stores. A replace call swaps exactly one slot.
pub open spec fn table_after_replace(
    table: Map<Seq<u8>, usize>,
    call: ReplaceCall,
) -> Map<Seq<u8>, usize> {
    table.insert(call.name@, call.new_address)
}

/// The table a record's end leaves behind: the restore swap when the record
/// is still armed, and no change at all when it is inert.
pub open spec fn table_after_release(
    table: Map<Seq<u8>, usize>,
    rep: Replacement,
) -> Map<Seq<u8>, usize> {
    match rep.restore {
        Some(rr) => table.insert(rr.name@, rep.address),
        None => table,
    }
}

/// Law: after a replace, the table routes the symbol to the new address —
/// calls through the slot observe the replacement — and every other slot is
/// untouched.
pub proof fn lemma_replace_routes_to_replacement(
    table: Map<Seq<u8>, usize>,
    call: ReplaceCall,
    other: Seq<u8>,
)
    requires
        other != call.name@,
    ensures
        table_after_replace(table, call)[call.name@] == call.new_address,
        table.dom().contains(other) ==> table_after_replace(table, call)[other] == table[other],
{
}

/// Law: releasing an un-discarded replacement restores the table.
///
/// When the swap's outcome reported the address the table held for the name
/// — which is what the record captures as its original address — the restore
/// call that [`Replacement::release`] yields returns every slot to its state
/// before the replace.
pub proof fn lemma_release_restores(
    table: Map<Seq<u8>, usize>,
    call: ReplaceCall,
    rep: Replacement,
)
    requires
        table.dom().contains(call.name@),
        rep.restore matches Some(rr) && rr.name@ == call.name@,
        rep.address == table[call.name@],
    ensures
        table_after_release(table_after_replace(table, call), rep) == table,
{
    let replaced = table_after_replace(table, call);
    assert(table_after_release(replaced, rep) =~= table);
}

/// Law: a discarded replacement changes nothing when it ends — the replaced
/// behavior stays in effect permanently.
pub proof fn lemma_discarded_release_changes_nothing(
    table: Map<Seq<u8>, usize>,
    rep: Replacement,
)
    requires
        rep.restore is None,
    ensures
        table_after_release(table, rep) == table,
{
}

} // verus!
