//! Payloads received from a device: an image or chunk data with its metadata.

use vstd::prelude::*;

verus! {

/// Type of a payload.
#[derive(Clone, Copy, Debug, PartialEq, Eq, Structural)]
pub enum PayloadType {
    /// The payload contains image only.
    Image,
    /// The payload contains image and chunk data.
    ImageExtendedChunk,
    /// The payload contains chunk data only.
    Chunk,
}

/// Image meta information. The pixel format is held as its raw code.
#[derive(Clone, Copy, Debug, PartialEq, Eq, Structural)]
pub struct ImageInfo {
    /// Width of the image.
    pub width: usize,
    /// Height of the image.
    pub height: usize,
    /// X offset in pixels from the whole image origin.
    pub x_offset: usize,
    /// Y offset in pixels from the whole image origin.
    pub y_offset: usize,
    /// Pixel format code of the image.
    pub pixel_format: u32,
    /// Image size in bytes.
    pub image_size: usize,
}

/// A payload sent from a device: its buffer and the number of valid bytes in it. The timestamp
/// is in nanoseconds.
#[derive(Debug)]
pub struct Payload {
    id: u64,
    payload_type: PayloadType,
    image_info: Option<ImageInfo>,
    payload: Vec<u8>,
    valid_payload_size: usize,
    timestamp: u64,
}

impl Payload {
    /// The image and the valid bytes lie within the buffer.
    #[verifier::type_invariant]
    closed spec fn inv(&self) -> bool {
        &&& self.valid_payload_size <= self.payload@.len()
        &&& self.image_info matches Some(info) ==> info.image_size <= self.payload@.len()
    }

    pub closed spec fn spec_id(&self) -> u64 {
        self.id
    }

    pub closed spec fn spec_payload_type(&self) -> PayloadType {
        self.payload_type
    }

    pub closed spec fn spec_image_info(&self) -> Option<ImageInfo> {
        self.image_info
    }

    /// The whole buffer.
    pub closed spec fn spec_buffer(&self) -> Seq<u8> {
        self.payload@
    }

    pub closed spec fn spec_valid_payload_size(&self) -> usize {
        self.valid_payload_size
    }

    pub closed spec fn spec_timestamp(&self) -> u64 {
        self.timestamp
    }

    /// A payload; the valid size and the image size must lie within the buffer.
    pub fn new(
        id: u64,
        payload_type: PayloadType,
        image_info: Option<ImageInfo>,
        payload: Vec<u8>,
        valid_payload_size: usize,
        timestamp: u64,
    ) -> (r: Self)
        requires
            valid_payload_size <= payload@.len(),
            image_info matches Some(info) ==> info.image_size <= payload@.len(),
        ensures
            r.spec_id() == id,
            r.spec_payload_type() == payload_type,
            r.spec_image_info() == image_info,
            r.spec_buffer() == payload@,
            r.spec_valid_payload_size() == valid_payload_size,
            r.spec_timestamp() == timestamp,
    {
        Payload { id, payload_type, image_info, payload, valid_payload_size, timestamp }
    }

    /// Type of the payload.
    pub fn payload_type(&self) -> (r: PayloadType)
        ensures
            r == self.spec_payload_type(),
    {
        self.payload_type
    }

    /// Image meta information, if the payload contains an image.
    pub fn image_info(&self) -> (r: Option<&ImageInfo>)
        ensures
            match self.spec_image_info() {
                Some(info) => r matches Some(i) && *i == info,
                None => r is None,
            },
    {
        match &self.image_info {
            Some(info) => Some(info),
            None => None,
        }
    }

    /// The image: the first `image_size` bytes of the buffer, if the payload contains one.
    pub fn image(&self) -> (r: Option<&[u8]>)
        ensures
            match self.spec_image_info() {
                Some(info) => r matches Some(s) && s@ == self.spec_buffer().subrange(
                    0,
                    info.image_size as int,
                ),
                None => r is None,
            },
    {
        proof {
            use_type_invariant(self);
        }
        match &self.image_info {
            Some(info) => Some(vstd::slice::slice_subrange(self.payload.as_slice(), 0, info.image_size)),
            None => None,
        }
    }

    /// The valid bytes of the payload.
    pub fn payload(&self) -> (r: &[u8])
        ensures
            r@ == self.spec_buffer().subrange(0, self.spec_valid_payload_size() as int),
    {
        proof {
            use_type_invariant(self);
        }
        vstd::slice::slice_subrange(self.payload.as_slice(), 0, self.valid_payload_size)
    }

    /// Unique id of the payload.
    pub fn id(&self) -> (r: u64)
        ensures
            r == self.spec_id(),
    {
        self.id
    }

    /// Timestamp of the device when the payload was generated, in nanoseconds.
    pub fn timestamp(&self) -> (r: u64)
        ensures
            r == self.spec_timestamp(),
    {
        self.timestamp
    }

    /// The valid bytes, as a vector.
    pub fn into_vec(self) -> (r: Vec<u8>)
        ensures
            r@ == self.spec_buffer().subrange(0, self.spec_valid_payload_size() as int),
    {
        proof {
            use_type_invariant(&self);
        }
        let Payload { payload, valid_payload_size, .. } = self;
        let mut payload = payload;
        payload.truncate(valid_payload_size);
        payload
    }
}

} // verus!
