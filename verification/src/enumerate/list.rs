//! The list that an enumeration fills with the identities of the devices it
//! finds.

use vstd::prelude::*;
use crate::ledger::Ledger;
use crate::{ForeignType, XnvmeError};

verus! {

/// A result list of the foreign library. The slot holds the address at which
/// the foreign list lives.
pub struct List(ForeignType<usize>);

/// The one owner of a foreign result list.
///
/// The foreign list has room for a fixed number of identities. The handle
/// keeps count of what the foreign side took: the identities that were
/// appended with success, in the order in which they were appended.
pub struct ListHandle {
    list: List,
    capacity: u32,
    entries: Vec<usize>,
}

impl ListHandle {
    /// The list holds no more identities than it has room for.
    pub closed spec fn wf(&self) -> bool {
        self.entries@.len() <= self.capacity
    }

    /// The address of the foreign list.
    pub closed spec fn spec_as_raw(&self) -> usize {
        self.list.0@
    }

    /// The room that the list was made with.
    pub closed spec fn spec_capacity(&self) -> u32 {
        self.capacity
    }

    /// The identities in the list, first appended first; each is the address
    /// of a foreign identity record.
    pub closed spec fn spec_entries(&self) -> Seq<usize> {
        self.entries@
    }

    /// Takes the reply of the foreign allocation of a list with room for
    /// `capacity` identities: the address it wrote and the code it returned.
    ///
    /// A code other than zero is reported, and nothing is owned. With code
    /// zero the new, empty list at `list` is wrapped in its one owner.
    pub fn new(capacity: u32, list: usize, err: i32, ledger: &mut Ledger) -> (made: crate::Result<
        Self,
    >)
        requires
            old(ledger).wf(),
            err == 0 ==> list != 0 && !old(ledger).live().contains(list),
        ensures
            final(ledger).wf(),
            err != 0 ==> {
                &&& made == Err::<Self, XnvmeError>(XnvmeError::XError(err))
                &&& final(ledger).live() == old(ledger).live()
                &&& final(ledger).history() == old(ledger).history()
            },
            err == 0 ==> {
                &&& made is Ok
                &&& made->Ok_0.wf()
                &&& made->Ok_0.spec_as_raw() == list
                &&& made->Ok_0.spec_capacity() == capacity
                &&& made->Ok_0.spec_entries() == Seq::<usize>::empty()
                &&& final(ledger).live() == old(ledger).live().insert(list)
                &&& final(ledger).history() == old(ledger).history().push(
                    crate::ledger::Event::Acquired(list),
                )
            },
    {
        if err != 0 {
            return Err(XnvmeError::XError(err));
        }
        ledger.acquire(list);
        Ok(ListHandle { list: List(ForeignType::new(list)), capacity, entries: Vec::new() })
    }

    /// The address of the foreign list, for further foreign calls.
    pub fn as_raw(&self) -> (addr: usize)
        ensures
            addr == self.spec_as_raw(),
    {
        *self.list.0.get()
    }

    /// The room that the list was made with.
    pub fn capacity(&self) -> (capacity: u32)
        ensures
            capacity == self.spec_capacity(),
    {
        self.capacity
    }

    /// The identities in the list, in the order in which they were appended.
    /// Never more than the capacity.
    pub fn entries(&self) -> (entries: &Vec<usize>)
        requires
            self.wf(),
        ensures
            entries@ == self.spec_entries(),
            entries@.len() <= self.spec_capacity(),
    {
        &self.entries
    }

    /// Takes the reply of the foreign append of the identity at `ident`.
    ///
    /// With code zero, and room in the list, the identity is the new last
    /// entry. Any other code is reported, and the list is as it was. A list
    /// that is full takes nothing more: whatever the reply, the append ends in
    /// an error that carries the code of the reply, so the list never
    /// outgrows its capacity.
    pub fn callback(&mut self, ident: usize, err: i32) -> (appended: crate::Result<()>)
        requires
            old(self).wf(),
        ensures
            final(self).wf(),
            final(self).spec_as_raw() == old(self).spec_as_raw(),
            final(self).spec_capacity() == old(self).spec_capacity(),
            final(self).spec_entries().len() <= final(self).spec_capacity(),
            err == 0 && old(self).spec_entries().len() < old(self).spec_capacity() ==> {
                &&& appended == Ok::<(), XnvmeError>(())
                &&& final(self).spec_entries() == old(self).spec_entries().push(ident)
            },
            err != 0 || old(self).spec_entries().len() >= old(self).spec_capacity() ==> {
                &&& appended == Err::<(), XnvmeError>(XnvmeError::XError(err))
                &&& final(self).spec_entries() == old(self).spec_entries()
            },
    {
        if err == 0 && self.entries.len() < self.capacity as usize {
            self.entries.push(ident);
            Ok(())
        } else {
            Err(XnvmeError::XError(err))
        }
    }

    /// Takes the reply of the foreign rendering of the list: the number of
    /// bytes written, or a negative error code, which is reported.
    pub fn pp(&self, written: i32) -> (printed: crate::Result<()>)
        ensures
            written < 0 ==> printed == Err::<(), XnvmeError>(XnvmeError::XError(written)),
            written >= 0 ==> printed == Ok::<(), XnvmeError>(()),
    {
        if written < 0 {
            return Err(XnvmeError::XError(written));
        }
        Ok(())
    }

    /// Tears the handle down. The result is the address that the foreign
    /// free call is now owed, once.
    #[must_use]
    pub fn free(self, ledger: &mut Ledger) -> (addr: usize)
        requires
            old(ledger).wf(),
            old(ledger).live().contains(self.spec_as_raw()),
        ensures
            addr == self.spec_as_raw(),
            final(ledger).wf(),
            final(ledger).live() == old(ledger).live().remove(self.spec_as_raw()),
            final(ledger).history() == old(ledger).history().push(
                crate::ledger::Event::Released(self.spec_as_raw()),
            ),
    {
        let addr = self.as_raw();
        ledger.give_up(addr, false);
        addr
    }
}

} // verus!
