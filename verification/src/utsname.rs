//! The OS identity record and its field accessors.

use vstd::prelude::*;
use crate::text::{raw_field_ok, decoded_field, wf_field, lemma_decoded_field_wf, decode_field};

verus! {

/// Supported platform families. Each fixes the length of the raw
/// buffers that the system call fills.
#[derive(Clone, Copy, PartialEq, Eq, Structural, Debug)]
pub enum Platform {
    Linux,
    Darwin,
}

/// Length of each raw identity buffer on the given platform.
pub open spec fn platform_len(p: Platform) -> int {
    match p {
        Platform::Linux => 65,
        Platform::Darwin => 256,
    }
}

impl Platform {
    /// Length of each raw identity buffer on this platform.
    pub fn buffer_len(&self) -> (r: usize)
        ensures
            r == platform_len(*self),
    {
        match self {
            Platform::Linux => 65,
            Platform::Darwin => 256,
        }
    }
}

/// Why no identity record could be produced.
#[derive(Clone, Copy, PartialEq, Eq, Structural, Debug)]
pub enum IdentityError {
    /// The system call itself reported failure.
    Unavailable,
    /// A raw buffer had the wrong length, lacked a null terminator, or
    /// held bytes before the terminator that are not valid text.
    Malformed,
}

/// The raw output of the system call: one fixed-size, null-terminated
/// byte buffer per identity field, copied out as plain byte vectors.
pub struct RawIdentity {
    pub sysname: Vec<u8>,
    pub nodename: Vec<u8>,
    pub release: Vec<u8>,
    pub version: Vec<u8>,
    pub machine: Vec<u8>,
}

/// Every raw buffer is well formed for the given platform's buffer length.
pub open spec fn raw_ok(raw: &RawIdentity, p: Platform) -> bool {
    &&& raw_field_ok(raw.sysname@, platform_len(p))
    &&& raw_field_ok(raw.nodename@, platform_len(p))
    &&& raw_field_ok(raw.release@, platform_len(p))
    &&& raw_field_ok(raw.version@, platform_len(p))
    &&& raw_field_ok(raw.machine@, platform_len(p))
}

/// Abstract value of an identity record: the platform it was read on and
/// the text of each field.
pub struct UtsNameView {
    pub platform: Platform,
    pub sysname: Seq<char>,
    pub nodename: Seq<char>,
    pub release: Seq<char>,
    pub version: Seq<char>,
    pub machine: Seq<char>,
}

/// The record that well-formed raw buffers decode to.
pub open spec fn decoded_record(raw: &RawIdentity, p: Platform) -> UtsNameView {
    UtsNameView {
        platform: p,
        sysname: decoded_field(raw.sysname@),
        nodename: decoded_field(raw.nodename@),
        release: decoded_field(raw.release@),
        version: decoded_field(raw.version@),
        machine: decoded_field(raw.machine@),
    }
}

/// An OS identity record: one decoded string per identity field.
/// Constructed only from raw buffers that validated, so every field is
/// null-free text shorter than the platform's buffer.
#[derive(Debug)]
pub struct UtsName {
    platform: Platform,
    sysname: String,
    nodename: String,
    release: String,
    version: String,
    machine: String,
}

impl View for UtsName {
    type V = UtsNameView;

    closed spec fn view(&self) -> UtsNameView {
        UtsNameView {
            platform: self.platform,
            sysname: self.sysname@,
            nodename: self.nodename@,
            release: self.release@,
            version: self.version@,
            machine: self.machine@,
        }
    }
}

impl Clone for UtsName {
    /// The clone holds the same platform and the same field text.
    fn clone(&self) -> (r: UtsName)
        ensures
            r@ == self@,
    {
        proof {
            use_type_invariant(&*self);
        }
        UtsName {
            platform: self.platform,
            sysname: self.sysname.clone(),
            nodename: self.nodename.clone(),
            release: self.release.clone(),
            version: self.version.clone(),
            machine: self.machine.clone(),
        }
    }
}

impl UtsName {
    #[verifier::type_invariant]
    closed spec fn inv(self) -> bool {
        &&& wf_field(self.sysname@, platform_len(self.platform))
        &&& wf_field(self.nodename@, platform_len(self.platform))
        &&& wf_field(self.release@, platform_len(self.platform))
        &&& wf_field(self.version@, platform_len(self.platform))
        &&& wf_field(self.machine@, platform_len(self.platform))
    }

    /// Validate and decode the raw output of the system call for the
    /// given platform. Succeeds exactly when every buffer has the
    /// platform's length, holds a null terminator, and holds valid UTF-8
    /// before it; the record then carries each field's decoded text.
    pub fn from_raw(raw: &RawIdentity, platform: Platform) -> (r: Result<UtsName, IdentityError>)
        ensures
            match r {
                Ok(u) => raw_ok(raw, platform) && u@ == decoded_record(raw, platform),
                Err(e) => e == IdentityError::Malformed && !raw_ok(raw, platform),
            },
    {
        let len = platform.buffer_len();
        let sysname = match decode_field(&raw.sysname, len) {
            Some(s) => s,
            None => {
                return Err(IdentityError::Malformed);
            },
        };
        let nodename = match decode_field(&raw.nodename, len) {
            Some(s) => s,
            None => {
                return Err(IdentityError::Malformed);
            },
        };
        let release = match decode_field(&raw.release, len) {
            Some(s) => s,
            None => {
                return Err(IdentityError::Malformed);
            },
        };
        let version = match decode_field(&raw.version, len) {
            Some(s) => s,
            None => {
                return Err(IdentityError::Malformed);
            },
        };
        let machine = match decode_field(&raw.machine, len) {
            Some(s) => s,
            None => {
                return Err(IdentityError::Malformed);
            },
        };
        proof {
            lemma_decoded_field_wf(raw.sysname@, platform_len(platform));
            lemma_decoded_field_wf(raw.nodename@, platform_len(platform));
            lemma_decoded_field_wf(raw.release@, platform_len(platform));
            lemma_decoded_field_wf(raw.version@, platform_len(platform));
            lemma_decoded_field_wf(raw.machine@, platform_len(platform));
        }
        Ok(UtsName { platform, sysname, nodename, release, version, machine })
    }

    /// Platform the record was read on.
    pub fn platform(&self) -> (r: Platform)
        ensures
            r == self@.platform,
    {
        self.platform
    }

    /// Name of the operating system kernel.
    pub fn sysname(&self) -> (r: &str)
        ensures
            r@ == self@.sysname,
            wf_field(self@.sysname, platform_len(self@.platform)),
    {
        proof {
            use_type_invariant(&*self);
        }
        self.sysname.as_str()
    }

    /// Name of this node on the network.
    pub fn nodename(&self) -> (r: &str)
        ensures
            r@ == self@.nodename,
            wf_field(self@.nodename, platform_len(self@.platform)),
    {
        proof {
            use_type_invariant(&*self);
        }
        self.nodename.as_str()
    }

    /// Release level of the kernel.
    pub fn release(&self) -> (r: &str)
        ensures
            r@ == self@.release,
            wf_field(self@.release, platform_len(self@.platform)),
    {
        proof {
            use_type_invariant(&*self);
        }
        self.release.as_str()
    }

    /// Version level of the kernel.
    pub fn version(&self) -> (r: &str)
        ensures
            r@ == self@.version,
            wf_field(self@.version, platform_len(self@.platform)),
    {
        proof {
            use_type_invariant(&*self);
        }
        self.version.as_str()
    }

    /// Hardware architecture the kernel runs on.
    pub fn machine(&self) -> (r: &str)
        ensures
            r@ == self@.machine,
            wf_field(self@.machine, platform_len(self@.platform)),
    {
        proof {
            use_type_invariant(&*self);
        }
        self.machine.as_str()
    }
}

/// Identity records decoded from the same raw buffers on the same
/// platform hold the same text in every field: retrieving the identity
/// again yields stable field values as long as the underlying data has
/// not changed.
pub proof fn lemma_identity_stable(a: UtsName, b: UtsName, raw: &RawIdentity, platform: Platform)
    requires
        a@ == decoded_record(raw, platform),
        b@ == decoded_record(raw, platform),
    ensures
        a@.sysname == b@.sysname,
        a@.nodename == b@.nodename,
        a@.release == b@.release,
        a@.version == b@.version,
        a@.machine == b@.machine,
{
}

} // verus!
