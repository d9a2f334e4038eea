//! Value types of the BLE system-interface layer: status codes returned by
//! the controller and a model of the controller's packet buffers.
//!
//! The buffer type records the header fields (payload length, payload offset)
//! and the backing storage as plain values, so that the length and bounds
//! logic around them is checked here; handing buffers to and from the
//! controller itself happens outside this crate.

use vstd::prelude::*;

verus! {

/// Result type returned by helpers that wrap controller status values.
pub type BleResult = Result<(), BleStatus>;

/// Raw status code reported for a successful operation.
pub const BLE_STAT_SUCCESS: u8 = 0x00;

/// Raw status code reported while the controller is busy.
pub const BLE_STAT_BUSY: u8 = 0x93;

/// Raw status code reported for an operation still pending.
pub const BLE_STAT_PENDING: u8 = 0x95;

/// Raw status code reported for invalid parameters.
pub const BLE_STAT_INVALID_PARAMS: u8 = 0x92;

/// Raw status code reported when resources are exhausted.
pub const BLE_STAT_INSUFFICIENT_RESOURCES: u8 = 0x64;

/// Raw status code reported when no memory is available.
pub const BLE_STAT_OUT_OF_MEMORY: u8 = 0x98;

/// Raw status code reported on a timeout.
pub const BLE_STAT_TIMEOUT: u8 = 0xFF;

/// Commonly observed BLE controller status codes.
///
/// Any status that is not modelled explicitly is surfaced through
/// [`BleStatus::Other`].
#[derive(Debug, Clone, Copy, PartialEq, Eq, Structural)]
pub enum BleStatus {
    Success,
    Busy,
    Pending,
    InvalidParameters,
    InsufficientResources,
    OutOfMemory,
    Timeout,
    Other(u8),
}

/// The status variant that a raw low byte decodes to.
pub open spec fn spec_status_from_byte(b: u8) -> BleStatus {
    if b == BLE_STAT_SUCCESS {
        BleStatus::Success
    } else if b == BLE_STAT_BUSY {
        BleStatus::Busy
    } else if b == BLE_STAT_PENDING {
        BleStatus::Pending
    } else if b == BLE_STAT_INVALID_PARAMS {
        BleStatus::InvalidParameters
    } else if b == BLE_STAT_INSUFFICIENT_RESOURCES {
        BleStatus::InsufficientResources
    } else if b == BLE_STAT_OUT_OF_MEMORY {
        BleStatus::OutOfMemory
    } else if b == BLE_STAT_TIMEOUT {
        BleStatus::Timeout
    } else {
        BleStatus::Other(b)
    }
}

impl BleStatus {
    /// Convert a raw status word, as the controller returns it, into the
    /// strongly-typed representation; only the low byte carries the code.
    pub fn from_raw(value: u32) -> (r: BleStatus)
        ensures
            r == spec_status_from_byte((value & 0xFF) as u8),
    {
        let b: u8 = (value & 0xFF) as u8;
        if b == BLE_STAT_SUCCESS {
            BleStatus::Success
        } else if b == BLE_STAT_BUSY {
            BleStatus::Busy
        } else if b == BLE_STAT_PENDING {
            BleStatus::Pending
        } else if b == BLE_STAT_INVALID_PARAMS {
            BleStatus::InvalidParameters
        } else if b == BLE_STAT_INSUFFICIENT_RESOURCES {
            BleStatus::InsufficientResources
        } else if b == BLE_STAT_OUT_OF_MEMORY {
            BleStatus::OutOfMemory
        } else if b == BLE_STAT_TIMEOUT {
            BleStatus::Timeout
        } else {
            BleStatus::Other(b)
        }
    }

    /// The raw 8-bit code of this status.
    pub open spec fn spec_code(self) -> u8 {
        match self {
            BleStatus::Success => BLE_STAT_SUCCESS,
            BleStatus::Busy => BLE_STAT_BUSY,
            BleStatus::Pending => BLE_STAT_PENDING,
            BleStatus::InvalidParameters => BLE_STAT_INVALID_PARAMS,
            BleStatus::InsufficientResources => BLE_STAT_INSUFFICIENT_RESOURCES,
            BleStatus::OutOfMemory => BLE_STAT_OUT_OF_MEMORY,
            BleStatus::Timeout => BLE_STAT_TIMEOUT,
            BleStatus::Other(code) => code,
        }
    }

    /// Returns the raw 8-bit status code.
    pub fn code(self) -> (r: u8)
        ensures
            r == self.spec_code(),
    {
        match self {
            BleStatus::Success => BLE_STAT_SUCCESS,
            BleStatus::Busy => BLE_STAT_BUSY,
            BleStatus::Pending => BLE_STAT_PENDING,
            BleStatus::InvalidParameters => BLE_STAT_INVALID_PARAMS,
            BleStatus::InsufficientResources => BLE_STAT_INSUFFICIENT_RESOURCES,
            BleStatus::OutOfMemory => BLE_STAT_OUT_OF_MEMORY,
            BleStatus::Timeout => BLE_STAT_TIMEOUT,
            BleStatus::Other(code) => code,
        }
    }

    /// Converts the status into a `Result`, treating [`BleStatus::Success`]
    /// as the success case and every other status as the error it names.
    pub fn into_result(self) -> (r: BleResult)
        ensures
            self == BleStatus::Success ==> r == BleResult::Ok(()),
            self != BleStatus::Success ==> r == BleResult::Err(self),
    {
        match self {
            BleStatus::Success => Ok(()),
            other => Err(other),
        }
    }
}

/// Model of a controller packet buffer: the header fields as plain values
/// and the backing storage as bytes.
///
/// The payload occupies `data_size` bytes of the storage starting at
/// `data_offset`; `capacity` is the storage length.
pub struct BleBuffer {
    buff: Vec<u8>,
    data_size: u16,
    data_offset: u16,
}

impl BleBuffer {
    /// The backing storage bytes.
    pub closed spec fn spec_storage(self) -> Seq<u8> {
        self.buff@
    }

    /// The recorded payload length.
    pub closed spec fn spec_len(self) -> u16 {
        self.data_size
    }

    /// The recorded payload offset.
    pub closed spec fn spec_offset(self) -> u16 {
        self.data_offset
    }

    /// A buffer is well formed when its storage length fits the 16-bit
    /// header field that records it.
    pub open spec fn well_formed(self) -> bool {
        self.spec_storage().len() <= u16::MAX
    }

    /// A fresh buffer with zeroed storage of the given capacity and an
    /// empty payload.
    pub fn new(total_len: u16) -> (r: BleBuffer)
        ensures
            r.well_formed(),
            r.spec_storage() == Seq::new(total_len as nat, |i: int| 0u8),
            r.spec_len() == 0,
            r.spec_offset() == 0,
    {
        let mut buff: Vec<u8> = Vec::new();
        let mut i: usize = 0;
        while i < total_len as usize
            invariant
                i <= total_len,
                buff@ =~= Seq::new(i as nat, |j: int| 0u8),
            decreases total_len as usize - i,
        {
            buff.push(0u8);
            i = i + 1;
        }
        assert(buff@ =~= Seq::new(total_len as nat, |i: int| 0u8));
        BleBuffer { buff, data_size: 0, data_offset: 0 }
    }

    /// The recorded payload length in bytes.
    pub fn len(&self) -> (r: usize)
        ensures
            r == self.spec_len(),
    {
        self.data_size as usize
    }

    /// Whether the recorded payload length is zero.
    pub fn is_empty(&self) -> (r: bool)
        ensures
            r == (self.spec_len() == 0),
    {
        self.len() == 0
    }

    /// The storage capacity in bytes.
    pub fn capacity(&self) -> (r: usize)
        ensures
            r == self.spec_storage().len(),
    {
        self.buff.len()
    }

    /// The recorded payload offset in bytes.
    pub fn offset(&self) -> (r: usize)
        ensures
            r == self.spec_offset(),
    {
        self.data_offset as usize
    }

    /// Record a new payload length; the storage is untouched.
    pub fn set_len(&mut self, len: usize)
        requires
            old(self).well_formed(),
            len <= (*old(self)).spec_storage().len(),
        ensures
            (*final(self)).spec_len() == len,
            (*final(self)).spec_offset() == (*old(self)).spec_offset(),
            (*final(self)).spec_storage() == (*old(self)).spec_storage(),
    {
        self.data_size = len as u16;
    }

    /// Record a new payload offset; the storage is untouched.
    pub fn set_offset(&mut self, offset: usize)
        requires
            old(self).well_formed(),
            offset <= (*old(self)).spec_storage().len(),
        ensures
            (*final(self)).spec_offset() == offset,
            (*final(self)).spec_len() == (*old(self)).spec_len(),
            (*final(self)).spec_storage() == (*old(self)).spec_storage(),
    {
        self.data_offset = offset as u16;
    }

    /// Overwrite the payload with `data`, adjusting length and offset.
    ///
    /// Fails, leaving the buffer unchanged, exactly when the payload does
    /// not fit in the storage; on success the payload sits at offset zero.
    pub fn write_payload(&mut self, data: &[u8]) -> (r: Result<(), ()>)
        requires
            old(self).well_formed(),
        ensures
            data@.len() > (*old(self)).spec_storage().len() ==> {
                &&& r == Result::<(), ()>::Err(())
                &&& *final(self) == *old(self)
            },
            data@.len() <= (*old(self)).spec_storage().len() ==> {
                &&& r == Result::<(), ()>::Ok(())
                &&& (*final(self)).spec_len() == data@.len()
                &&& (*final(self)).spec_offset() == 0
                &&& (*final(self)).spec_storage() =~= data@ + (*old(self)).spec_storage().skip(
                    data@.len() as int,
                )
            },
    {
        if data.len() > self.buff.len() {
            return Err(());
        }
        self.data_offset = 0;
        self.data_size = data.len() as u16;
        let mut i: usize = 0;
        while i < data.len()
            invariant
                i <= data@.len(),
                data@.len() <= self.buff@.len(),
                self.buff@.len() == (*old(self)).spec_storage().len(),
                self.buff@ =~= data@.take(i as int) + (*old(self)).spec_storage().skip(i as int),
                self.data_size == data@.len(),
                self.data_offset == 0,
            decreases data@.len() - i,
        {
            let b = data[i];
            self.buff.set(i, b);
            assert(self.buff@ =~= data@.take(i + 1int) + (*old(self)).spec_storage().skip(
                i + 1int,
            ));
            i = i + 1;
        }
        assert(self.buff@ =~= data@ + (*old(self)).spec_storage().skip(data@.len() as int));
        Ok(())
    }

    /// The span of storage that holds the payload, as an offset and length,
    /// or `None` when the payload is empty or reaches past the storage.
    pub fn payload_span(&self) -> (r: Option<(usize, usize)>)
        requires
            self.well_formed(),
        ensures
            self.spec_len() == 0 ==> r is None,
            self.spec_len() > 0 && self.spec_offset() + self.spec_len()
                > self.spec_storage().len() ==> r is None,
            self.spec_len() > 0 && self.spec_offset() + self.spec_len()
                <= self.spec_storage().len() ==> r == Some(
                (self.spec_offset() as usize, self.spec_len() as usize),
            ),
    {
        if self.data_size == 0 {
            return None;
        }
        let end: usize = self.data_offset as usize + self.data_size as usize;
        if end > self.buff.len() {
            return None;
        }
        Some((self.data_offset as usize, self.data_size as usize))
    }

    /// A copy of the payload bytes, or `None` when [`Self::payload_span`]
    /// yields none.
    pub fn payload(&self) -> (r: Option<Vec<u8>>)
        requires
            self.well_formed(),
        ensures
            match r {
                Some(p) => {
                    &&& self.spec_len() > 0
                    &&& self.spec_offset() + self.spec_len() <= self.spec_storage().len()
                    &&& p@ == self.spec_storage().subrange(
                        self.spec_offset() as int,
                        self.spec_offset() + self.spec_len(),
                    )
                },
                None => self.spec_len() == 0 || self.spec_offset() + self.spec_len()
                    > self.spec_storage().len(),
            },
    {
        match self.payload_span() {
            None => None,
            Some((off, len)) => {
                let storage_len = self.buff.len();
                let mut out: Vec<u8> = Vec::new();
                let mut i: usize = 0;
                while i < len
                    invariant
                        i <= len,
                        off + len <= storage_len,
                        storage_len == self.buff@.len(),
                        out@ =~= self.buff@.subrange(off as int, off + i),
                    decreases len - i,
                {
                    out.push(self.buff[off + i]);
                    assert(out@ =~= self.buff@.subrange(off as int, off + i + 1));
                    i = i + 1;
                }
                Some(out)
            },
        }
    }
}

} // verus!
