//! The lazy enumeration protocol over the native iteration primitive.
//!
//! The native provider walks an opened object's table one entry at a time,
//! advancing an opaque position cursor it maintains; a non-zero status is
//! ordinary exhaustion, not an error. The cursor here is forward-only and
//! cannot be restarted; a new enumeration is a fresh cursor at position zero.

use vstd::prelude::*;

verus! {

/// One resolved entry of an object's table at enumeration time.
///
/// A symbol is a snapshot: it keeps no identity or update relationship to the
/// live slot. The name is copied into owned bytes at the enumeration step,
/// because the native buffer's lifetime beyond the call is not guaranteed.
#[derive(Debug)]
pub struct Symbol {
    /// The symbol's name, without a nul terminator.
    pub name: Vec<u8>,
    /// Where the function pointer is stored: the address of the slot, not the
    /// address of the function itself.
    pub func_address: usize,
    /// Memory protection bits of the entry, a bitwise-or of read, write and
    /// execute, exactly as the native layer reports them; zero on platforms
    /// where the provider reports none. Nothing here fabricates bits.
    pub protection: i32,
}

/// What one native enumeration step returned, as plain values.
#[derive(Debug)]
pub struct EnumOutcome {
    /// Zero when an entry was produced; any other value signals the end of
    /// the sequence.
    pub status: i32,
    /// The cursor position after the step, as the native layer advanced it.
    pub next_pos: u32,
    /// The entry's name, copied out of the native buffer.
    pub name: Vec<u8>,
    /// The address of the entry's function-pointer slot.
    pub func_address: usize,
    /// The entry's memory protection bits, where the platform supplies them.
    pub protection: i32,
}

/// A forward-only cursor over one object's table.
///
/// Obtained from an opened object at position zero; each step hands the
/// cursor the outcome of one native enumeration call. Once done, it stays
/// done: the sequence is finite and cannot be restarted.
#[derive(Debug)]
pub struct SymbolIterator {
    /// The handle of the object being enumerated.
    pub handle: usize,
    /// The opaque position the native layer maintains across steps.
    pub pos: u32,
    /// Whether the sequence has ended.
    pub done: bool,
}

impl SymbolIterator {
    /// Interprets one native enumeration step: status zero materializes the
    /// entry and advances the cursor; any other status ends the sequence for
    /// good — ordinary exhaustion, not an error.
    pub fn next(&mut self, outcome: EnumOutcome) -> (symbol: Option<Symbol>)
        requires
            !old(self).done,
        ensures
            final(self).handle == old(self).handle,
            outcome.status == 0 ==> final(self).pos == outcome.next_pos && !final(self).done
                && (symbol matches Some(sym) && sym.name@ == outcome.name@ && sym.func_address
                == outcome.func_address && sym.protection == outcome.protection),
            outcome.status != 0 ==> final(self).done && symbol is None && final(self).pos == old(
                self,
            ).pos,
    {
        if outcome.status == 0 {
            self.pos = outcome.next_pos;
            Some(
                Symbol {
                    name: outcome.name,
                    func_address: outcome.func_address,
                    protection: outcome.protection,
                },
            )
        } else {
            self.done = true;
            None
        }
    }
}

} // verus!
