//! Device handles: exclusive ownership of one open device.

use vstd::prelude::*;
use vstd::string::StringSliceAdditionalSpecFns;
use crate::ledger::Ledger;
use crate::options::{Options, RawOptions};
use crate::{ForeignType, XnvmeError};

verus! {

/// Whether `bytes` holds a zero byte at `i` and none before it.
pub open spec fn is_first_nul(bytes: Seq<u8>, i: int) -> bool {
    &&& 0 <= i < bytes.len()
    &&& bytes[i] == 0
    &&& forall|j: int| 0 <= j < i ==> bytes[j] != 0
}

/// Whether `bytes` holds no zero byte.
pub open spec fn nul_free(bytes: Seq<u8>) -> bool {
    forall|j: int| 0 <= j < bytes.len() ==> bytes[j] != 0
}

/// Writes a string as the foreign library reads strings: its bytes, then one
/// zero byte. A string that holds a zero byte itself has no such form; the
/// error gives the index of its first zero byte.
pub fn terminated(s: &str) -> (out: crate::Result<Vec<u8>>)
    ensures
        match out {
            Ok(bytes) => nul_free(s.spec_bytes()) && bytes@ == s.spec_bytes().push(0u8),
            Err(XnvmeError::InvalidParameter(i)) => is_first_nul(s.spec_bytes(), i as int),
            Err(XnvmeError::XError(_)) => false,
        },
{
    let bytes = s.as_bytes();
    let n: usize = bytes.len();
    let mut out: Vec<u8> = Vec::new();
    let mut i: usize = 0;
    while i < n
        invariant
            bytes@ == s.spec_bytes(),
            n == bytes@.len(),
            i <= n,
            out@ == bytes@.take(i as int),
            forall|j: int| 0 <= j < i ==> bytes@[j] != 0,
        decreases n - i,
    {
        if bytes[i] == 0 {
            return Err(XnvmeError::InvalidParameter(i));
        }
        out.push(bytes[i]);
        proof {
            assert(out@ =~= bytes@.take(i + 1));
        }
        i += 1;
    }
    proof {
        assert(bytes@.take(n as int) =~= bytes@);
    }
    out.push(0);
    Ok(out)
}

/// A device of the foreign library. The slot holds the address at which the
/// foreign device record lives; the record itself is never read or moved.
pub struct Device(ForeignType<usize>);

/// The one owner of an open device.
///
/// A handle is entered in the ledger from the moment it takes the device
/// until it gives it up, by `close` (the foreign close call is then due) or by
/// `into_raw` (the device stays open, and the foreign side answers for it).
pub struct DeviceHandle {
    device: Device,
}

impl View for DeviceHandle {
    type V = usize;

    /// The address of the device that this handle owns.
    closed spec fn view(&self) -> usize {
        self.device.0@
    }
}

/// A foreign open call that is ready to be made: the URI, terminated, and the
/// configuration in its foreign form.
pub struct OpenCall {
    uri: Vec<u8>,
    options: RawOptions,
}

impl OpenCall {
    pub closed spec fn spec_uri(&self) -> Seq<u8> {
        self.uri@
    }

    pub closed spec fn spec_options(&self) -> RawOptions {
        self.options
    }

    /// The URI to hand to the foreign open call, with its terminator.
    pub fn uri(&self) -> (uri: &Vec<u8>)
        ensures
            uri@ == self.spec_uri(),
    {
        &self.uri
    }

    /// The configuration to hand to the foreign open call.
    pub fn options(&self) -> (options: RawOptions)
        ensures
            options == self.spec_options(),
    {
        self.options
    }

    /// Takes the reply of the foreign open call: the address it returned and,
    /// beside it, the error code it left.
    ///
    /// A null address means failure: the code is reported, nothing is owned
    /// and nothing needs releasing. Any other address is wrapped in a new
    /// handle, its one owner from now on.
    pub fn complete(self, dev: usize, code: i32, ledger: &mut Ledger) -> (opened: crate::Result<
        DeviceHandle,
    >)
        requires
            old(ledger).wf(),
            dev != 0 ==> !old(ledger).live().contains(dev),
        ensures
            final(ledger).wf(),
            dev == 0 ==> {
                &&& opened == Err::<DeviceHandle, XnvmeError>(XnvmeError::XError(code))
                &&& final(ledger).live() == old(ledger).live()
                &&& final(ledger).history() == old(ledger).history()
            },
            dev != 0 ==> {
                &&& opened is Ok
                &&& opened->Ok_0@ == dev
                &&& final(ledger).live() == old(ledger).live().insert(dev)
                &&& final(ledger).history() == old(ledger).history().push(
                    crate::ledger::Event::Acquired(dev),
                )
            },
    {
        if dev == 0 {
            Err(XnvmeError::XError(code))
        } else {
            Ok(DeviceHandle::new(dev, ledger))
        }
    }
}

impl DeviceHandle {
    /// Wraps the device at `device` in a handle.
    ///
    /// For callers that know the address to be that of an open device which
    /// no handle owns: the handle becomes its one owner.
    pub fn new(device: usize, ledger: &mut Ledger) -> (handle: Self)
        requires
            old(ledger).wf(),
            device != 0,
            !old(ledger).live().contains(device),
        ensures
            handle@ == device,
            final(ledger).wf(),
            final(ledger).live() == old(ledger).live().insert(device),
            final(ledger).history() == old(ledger).history().push(
                crate::ledger::Event::Acquired(device),
            ),
    {
        ledger.acquire(device);
        DeviceHandle { device: Device(ForeignType::new(device)) }
    }

    /// The address of the device, for further foreign calls. The same on
    /// every call while the handle lives.
    pub fn as_raw(&self) -> (addr: usize)
        ensures
            addr == self@,
    {
        *self.device.0.get()
    }

    /// Prepares the opening of the device at `device_uri`.
    ///
    /// A URI that holds a zero byte is refused with `InvalidParameter` and
    /// the index of that byte: no foreign call is prepared, and so none is
    /// made. Every other URI gives the call to make, with the URI terminated
    /// and `options` in their foreign form.
    pub fn open(device_uri: &str, options: &Options) -> (call: crate::Result<OpenCall>)
        ensures
            match call {
                Ok(call) => {
                    &&& nul_free(device_uri.spec_bytes())
                    &&& call.spec_uri() == device_uri.spec_bytes().push(0u8)
                    &&& (call.spec_options().be@, call.spec_options().rdonly)
                        == options.spec_as_raw()
                },
                Err(XnvmeError::InvalidParameter(i)) => is_first_nul(
                    device_uri.spec_bytes(),
                    i as int,
                ),
                Err(XnvmeError::XError(_)) => false,
            },
    {
        match terminated(device_uri) {
            Ok(uri) => Ok(OpenCall { uri, options: options.as_raw() }),
            Err(e) => Err(e),
        }
    }

    /// Tears the handle down. The result is the address that the foreign
    /// close call is now owed, once.
    #[must_use]
    pub fn close(self, ledger: &mut Ledger) -> (addr: usize)
        requires
            old(ledger).wf(),
            old(ledger).live().contains(self@),
        ensures
            addr == self@,
            final(ledger).wf(),
            final(ledger).live() == old(ledger).live().remove(self@),
            final(ledger).history() == old(ledger).history().push(
                crate::ledger::Event::Released(self@),
            ),
    {
        let addr = self.as_raw();
        ledger.give_up(addr, false);
        addr
    }

    /// Gives the device up without closing it: no close call is owed by this
    /// layer, and the foreign side answers for the device from now on.
    pub fn into_raw(self, ledger: &mut Ledger) -> (addr: usize)
        requires
            old(ledger).wf(),
            old(ledger).live().contains(self@),
        ensures
            addr == self@,
            final(ledger).wf(),
            final(ledger).live() == old(ledger).live().remove(self@),
            final(ledger).history() == old(ledger).history().push(
                crate::ledger::Event::Kept(self@),
            ),
    {
        let addr = self.as_raw();
        ledger.give_up(addr, true);
        addr
    }
}

} // verus!
