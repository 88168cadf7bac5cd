//! The enumeration bridge: devices that the foreign library finds are handed,
//! one by one, to a callback of the caller.

use vstd::prelude::*;
use crate::device::DeviceHandle;
use crate::ledger::{Event, Ledger};
use crate::XnvmeError;

pub mod list;

verus! {

/// What the foreign enumerator is told to do with a device once its dispatch
/// is over.
#[derive(Debug, Clone, Copy, PartialEq, Eq, Structural)]
pub enum EnumerateAction {
    /// Leave the device open.
    KeepOpen,
    /// Close the device.
    Close,
}

/// Implement this trait to add logic to an enumeration pass.
pub trait EnumerateCallback: Sized {
    /// What one call of `callback` on the device at `device` may make of the
    /// callback object: `pre` before the call, `post` after it. The
    /// implementor chooses the relation; the bridge promises that the object
    /// went through it once for every device found, in the order of finding.
    /// Left as it is, the relation allows everything.
    open spec fn visits(pre: Self, device: usize, post: Self) -> bool {
        true
    }

    /// Called for each enumerated device. The device is lent for the length
    /// of the call: the handle still owns the same device afterwards.
    fn callback(&mut self, device: &mut DeviceHandle) -> (done: crate::Result<()>)
        ensures
            final(device)@ == old(device)@,
            Self::visits(*old(self), old(device)@, *final(self)),
    ;
}

/// Drives a callback over the devices of one enumeration pass.
pub struct Enumerator<C: EnumerateCallback> {
    pub(crate) _c: core::marker::PhantomData<C>,
}

/// What one pass over `devices` adds to the ledger's history: each device is
/// taken for its dispatch and left to the foreign side again, before the next
/// one is taken.
pub open spec fn pass_history(devices: Seq<usize>) -> Seq<Event>
    decreases devices.len(),
{
    if devices.len() == 0 {
        Seq::empty()
    } else {
        pass_history(devices.drop_last()).push(Event::Acquired(devices.last())).push(
            Event::Kept(devices.last()),
        )
    }
}

impl<C> Enumerator<C> where C: EnumerateCallback {
    /// Whether `post` is what becomes of `pre` when the callback is called on
    /// each of `devices` once, first to last.
    pub open spec fn dispatched(pre: C, devices: Seq<usize>, post: C) -> bool
        decreases devices.len(),
    {
        if devices.len() == 0 {
            post == pre
        } else {
            exists|mid: C|
                Self::dispatched(pre, devices.drop_last(), mid) && #[trigger] C::visits(
                    mid,
                    devices.last(),
                    post,
                )
        }
    }

    /// One more dispatch extends a pass: if `mid` is what became of `pre` over
    /// `devices`, and one call on `device` makes `post` of `mid`, then `post` is
    /// what becomes of `pre` over `devices` followed by `device`.
    pub proof fn lemma_dispatched_push(pre: C, devices: Seq<usize>, mid: C, device: usize, post: C)
        requires
            Self::dispatched(pre, devices, mid),
            C::visits(mid, device, post),
        ensures
            Self::dispatched(pre, devices.push(device), post),
    {
        let grown = devices.push(device);
        assert(grown.drop_last() =~= devices);
        assert(grown.last() == device);
        assert(Self::dispatched(pre, grown.drop_last(), mid));
        assert(C::visits(mid, grown.last(), post));
    }

    /// Replays one enumeration pass: `devices` are the addresses of the
    /// devices that the foreign enumerator found, in the order in which it
    /// found them, and `err` is the code that it returned at the end.
    ///
    /// Every device found is dispatched to `arg` once, in that order,
    /// whatever the callback returned for the devices before it. The result
    /// goes by the foreign code alone: zero is success, anything else is
    /// reported. No device is owned by this layer once the pass is over.
    pub fn enumerate(arg: &mut C, ledger: &mut Ledger, devices: &Vec<usize>, err: i32) -> (done:
        crate::Result<()>)
        requires
            old(ledger).wf(),
            forall|i: int|
                0 <= i < devices@.len() ==> devices@[i] != 0 && !old(ledger).live().contains(
                    #[trigger] devices@[i],
                ),
        ensures
            err == 0 ==> done == Ok::<(), XnvmeError>(()),
            err != 0 ==> done == Err::<(), XnvmeError>(XnvmeError::XError(err)),
            Self::dispatched(*old(arg), devices@, *final(arg)),
            final(ledger).wf(),
            final(ledger).live() == old(ledger).live(),
            final(ledger).history() == old(ledger).history() + pass_history(devices@),
    {
        let n: usize = devices.len();
        let mut i: usize = 0;
        while i < n
            invariant
                n == devices@.len(),
                i <= n,
                ledger.wf(),
                ledger.live() == old(ledger).live(),
                ledger.history() == old(ledger).history() + pass_history(devices@.take(i as int)),
                Self::dispatched(*old(arg), devices@.take(i as int), *arg),
                forall|k: int|
                    0 <= k < devices@.len() ==> devices@[k] != 0 && !old(ledger).live().contains(
                        #[trigger] devices@[k],
                    ),
            decreases n - i,
        {
            let ghost before = *arg;
            let ghost seen = devices@.take(i as int);
            let _ = Self::list_cb(arg, ledger, devices[i]);
            proof {
                let now = devices@.take(i + 1);
                assert(now.drop_last() =~= seen);
                assert(now.last() == devices@[i as int]);
                assert(now =~= seen.push(devices@[i as int]));
                Self::lemma_dispatched_push(*old(arg), seen, before, devices@[i as int], *arg);
                assert((old(ledger).history() + pass_history(seen)).push(
                    Event::Acquired(devices@[i as int]),
                ).push(Event::Kept(devices@[i as int])) =~= old(ledger).history() + pass_history(
                    now,
                ));
            }
            i += 1;
        }
        proof {
            assert(devices@.take(n as int) =~= devices@);
        }
        Self::complete(err)
    }

    /// Ends a pass: takes the code that the foreign enumerator returned. Zero
    /// is success; any other code is reported. What the callbacks returned
    /// plays no part.
    pub fn complete(err: i32) -> (done: crate::Result<()>)
        ensures
            err == 0 ==> done == Ok::<(), XnvmeError>(()),
            err != 0 ==> done == Err::<(), XnvmeError>(XnvmeError::XError(err)),
    {
        match err {
            0 => Ok(()),
            _ => Err(XnvmeError::XError(err)),
        }
    }

    /// Dispatches one device that the foreign enumerator found.
    ///
    /// The device is wrapped in a handle for the length of the call and the
    /// callback is called on it once. What the callback returns is dropped:
    /// one device that fails does not end the pass. The handle then lets the
    /// device go without closing it, and the foreign enumerator is told to
    /// keep it open, so the device is closed neither twice nor by a handle
    /// that only borrowed it.
    pub fn list_cb(arg: &mut C, ledger: &mut Ledger, dev: usize) -> (action: EnumerateAction)
        requires
            old(ledger).wf(),
            dev != 0,
            !old(ledger).live().contains(dev),
        ensures
            action == EnumerateAction::KeepOpen,
            C::visits(*old(arg), dev, *final(arg)),
            final(ledger).wf(),
            final(ledger).live() == old(ledger).live(),
            final(ledger).history() == old(ledger).history().push(Event::Acquired(dev)).push(
                Event::Kept(dev),
            ),
    {
        let mut device = DeviceHandle::new(dev, ledger);
        let _ = arg.callback(&mut device);
        let _ = device.into_raw(ledger);
        proof {
            assert(old(ledger).live().insert(dev).remove(dev) =~= old(ledger).live());
        }
        EnumerateAction::KeepOpen
    }
}

} // verus!
