//! How a device is to be opened, and how that is written for the foreign
//! library.

use vstd::prelude::*;

verus! {

/// The I/O path that a device is opened through.
#[derive(Debug, Clone, Copy, PartialEq, Eq, Structural)]
pub enum Backend {
    Linux,
    Spdk,
    Fbsd,
    Posix,
    Macos,
    Ramdisk,
    Vfio,
}

impl Backend {
    /// Whether the foreign library knows an identifier for this backend.
    pub open spec fn spec_is_supported(self) -> bool {
        !(self is Fbsd || self is Macos)
    }

    /// The identifier that the foreign library knows this backend by, or the
    /// words "not supported" where it knows none.
    pub open spec fn spec_name(self) -> Seq<char> {
        match self {
            Backend::Linux => "linux"@,
            Backend::Spdk => "spdk"@,
            Backend::Posix => "posix"@,
            Backend::Ramdisk => "ramdisk"@,
            Backend::Vfio => "vfio"@,
            Backend::Fbsd | Backend::Macos => "not supported"@,
        }
    }

    /// The backend that an identifier names, if it names one.
    pub open spec fn spec_from_name(name: Seq<char>) -> Option<Backend> {
        if name == "linux"@ {
            Some(Backend::Linux)
        } else if name == "spdk"@ {
            Some(Backend::Spdk)
        } else if name == "posix"@ {
            Some(Backend::Posix)
        } else if name == "ramdisk"@ {
            Some(Backend::Ramdisk)
        } else if name == "vfio"@ {
            Some(Backend::Vfio)
        } else {
            None
        }
    }

    #[verifier::when_used_as_spec(spec_is_supported)]
    pub fn is_supported(self) -> (supported: bool)
        ensures
            supported == self.spec_is_supported(),
    {
        match self {
            Backend::Fbsd | Backend::Macos => false,
            _ => true,
        }
    }

    /// The identifier of this backend, in lower case, without a terminator.
    /// A backend without foreign support gives "not supported", never the
    /// identifier of another backend.
    pub fn name(self) -> (name: &'static str)
        ensures
            name@ == self.spec_name(),
    {
        match self {
            Backend::Linux => "linux",
            Backend::Spdk => "spdk",
            Backend::Posix => "posix",
            Backend::Ramdisk => "ramdisk",
            Backend::Vfio => "vfio",
            _ => "not supported",
        }
    }

    /// Reads an identifier back.
    pub fn from_name(name: &str) -> (backend: Option<Backend>)
        ensures
            backend == Self::spec_from_name(name@),
    {
        let name = name.to_owned();
        if name == "linux".to_owned() {
            Some(Backend::Linux)
        } else if name == "spdk".to_owned() {
            Some(Backend::Spdk)
        } else if name == "posix".to_owned() {
            Some(Backend::Posix)
        } else if name == "ramdisk".to_owned() {
            Some(Backend::Ramdisk)
        } else if name == "vfio".to_owned() {
            Some(Backend::Vfio)
        } else {
            None
        }
    }
}

/// The identifiers of the backends differ from each other and from the words
/// for a backend without support: reading the identifier of a supported
/// backend back gives that backend, and reading "not supported" back gives
/// none.
pub proof fn lemma_backend_round_trip(backend: Backend)
    ensures
        backend.spec_is_supported() ==> Backend::spec_from_name(backend.spec_name()) == Some(
            backend,
        ),
        !backend.spec_is_supported() ==> Backend::spec_from_name(backend.spec_name()) == None::<
            Backend,
        >,
{
    reveal_strlit("linux");
    reveal_strlit("spdk");
    reveal_strlit("posix");
    reveal_strlit("ramdisk");
    reveal_strlit("vfio");
    reveal_strlit("not supported");
    assert("linux"@.len() == 5 && "posix"@.len() == 5);
    assert("spdk"@.len() == 4 && "vfio"@.len() == 4);
    assert("ramdisk"@.len() == 7 && "not supported"@.len() == 13);
    assert("linux"@[0] != "posix"@[0]);
    assert("spdk"@[0] != "vfio"@[0]);
}

/// The open configuration as the foreign library reads it: the fields of its
/// options record that this layer sets.
#[derive(Debug, Clone, Copy)]
pub struct RawOptions {
    /// Backend identifier, without the terminator.
    pub be: &'static str,
    /// The read-only bit: 1 when set, 0 when clear.
    pub rdonly: u32,
}

impl RawOptions {
    /// The configuration that this record was written from, as far as it can
    /// be told: the backend that `be` names and whether the read-only bit is
    /// set.
    pub open spec fn spec_read_back(&self) -> Option<Options> {
        match Backend::spec_from_name(self.be@) {
            Some(backend) => Some(Options { backend, rdonly: self.rdonly != 0 }),
            None => None,
        }
    }

    /// Reads the record back into a configuration. `None` where `be` names no
    /// backend.
    pub fn read_back(&self) -> (options: Option<Options>)
        ensures
            options == self.spec_read_back(),
    {
        match Backend::from_name(self.be) {
            Some(backend) => Some(Options { backend, rdonly: self.rdonly != 0 }),
            None => None,
        }
    }
}

/// The wanted open configuration.
#[derive(Debug, Clone, Copy, PartialEq, Eq, Structural)]
pub struct Options {
    pub backend: Backend,
    pub rdonly: bool,
}

impl Options {
    /// What `as_raw` writes.
    pub open spec fn spec_as_raw(&self) -> (Seq<char>, u32) {
        (
            self.backend.spec_name(),
            if self.rdonly {
                1u32
            } else {
                0u32
            },
        )
    }

    /// Writes the configuration for the foreign library: the backend as its
    /// identifier and the read-only flag as one bit. Total: every
    /// configuration has a foreign form.
    pub fn as_raw(&self) -> (raw: RawOptions)
        ensures
            (raw.be@, raw.rdonly) == self.spec_as_raw(),
    {
        RawOptions {
            be: self.backend.name(),
            rdonly: if self.rdonly {
                1
            } else {
                0
            },
        }
    }
}

/// Writing a configuration for the foreign library and reading it back gives
/// the configuration again, for every backend that the foreign library
/// supports. A backend without support is written as "not supported", which
/// reads back as no configuration at all; the read-only flag survives either
/// way.
pub proof fn lemma_options_round_trip(options: Options, raw: RawOptions)
    requires
        (raw.be@, raw.rdonly) == options.spec_as_raw(),
    ensures
        options.backend.spec_is_supported() ==> raw.spec_read_back() == Some(options),
        !options.backend.spec_is_supported() ==> raw.spec_read_back() == None::<Options>,
        (raw.rdonly != 0) == options.rdonly,
{
    lemma_backend_round_trip(options.backend);
}

/// Why a configuration could not be built.
#[derive(Debug, Clone, Copy)]
pub enum OptionsBuilderError {
    /// The field of this name was never set.
    UninitializedField(&'static str),
}

/// Collects the fields of an `Options` one by one.
#[derive(Debug, Clone, Copy)]
pub struct OptionsBuilder {
    backend: Option<Backend>,
    rdonly: Option<bool>,
}

impl Default for OptionsBuilder {
    fn default() -> (builder: Self)
        ensures
            builder.spec_backend() == None::<Backend>,
            builder.spec_rdonly() == None::<bool>,
    {
        OptionsBuilder { backend: None, rdonly: None }
    }
}

impl OptionsBuilder {
    pub closed spec fn spec_backend(&self) -> Option<Backend> {
        self.backend
    }

    pub closed spec fn spec_rdonly(&self) -> Option<bool> {
        self.rdonly
    }

    /// Sets the backend; a later call replaces an earlier one.
    pub fn backend(self, value: Backend) -> (builder: Self)
        ensures
            builder.spec_backend() == Some(value),
            builder.spec_rdonly() == self.spec_rdonly(),
    {
        OptionsBuilder { backend: Some(value), rdonly: self.rdonly }
    }

    /// Sets the read-only flag; a later call replaces an earlier one.
    pub fn rdonly(self, value: bool) -> (builder: Self)
        ensures
            builder.spec_backend() == self.spec_backend(),
            builder.spec_rdonly() == Some(value),
    {
        OptionsBuilder { backend: self.backend, rdonly: Some(value) }
    }

    /// The configuration, once both fields are set. A missing field is named
    /// in the error, the backend first.
    pub fn build(&self) -> (built: core::result::Result<Options, OptionsBuilderError>)
        ensures
            match built {
                Ok(options) => self.spec_backend() == Some(options.backend)
                    && self.spec_rdonly() == Some(options.rdonly),
                Err(OptionsBuilderError::UninitializedField(field)) => if self.spec_backend()
                    is None {
                    field@ == "backend"@
                } else {
                    self.spec_rdonly() is None && field@ == "rdonly"@
                },
            },
    {
        match self.backend {
            None => Err(OptionsBuilderError::UninitializedField("backend")),
            Some(backend) => match self.rdonly {
                None => Err(OptionsBuilderError::UninitializedField("rdonly")),
                Some(rdonly) => Ok(Options { backend, rdonly }),
            },
        }
    }
}

} // verus!
