//! A configurable codec that decides how data is decoded and encoded: the byte order
//! to use and the largest buffer it accepts.
use vstd::prelude::*;

use crate::endian::Endian;
use crate::error::{Error, ErrorKind, Result};

verus! {

/// Maximum number of bytes a configured [`Codec`] instance can handle at a time.
#[derive(Clone, Copy, Debug, PartialEq, Eq)]
pub struct Limit(u32);

/// The limit a codec uses when none other is chosen: one page, `0x1000` bytes.
pub const DEFAULT_MAX_LIMIT: u32 = 0x1000;

impl Limit {
    /// The number of bytes this limit allows.
    pub closed spec fn spec_get(self) -> u32 {
        self.0
    }

    /// Creates a new [`Limit`] with a given value.
    pub fn new(value: u32) -> (l: Limit)
        ensures
            l.spec_get() == value,
    {
        Limit(value)
    }

    /// Gets the inner value for this limit.
    pub fn get(self) -> (v: u32)
        ensures
            v == self.spec_get(),
    {
        self.0
    }
}

impl core::ops::Deref for Limit {
    type Target = u32;

    fn deref(&self) -> (v: &u32)
        ensures
            *v == self.spec_get(),
    {
        &self.0
    }
}

impl Default for Limit {
    fn default() -> (l: Limit)
        ensures
            l.spec_get() == DEFAULT_MAX_LIMIT,
    {
        Limit(DEFAULT_MAX_LIMIT)
    }
}

/// Configurable type that is used to decode and encode data: a byte order and a
/// [`Limit`] on the size of the buffers it handles.
#[derive(Clone, Copy, Debug, PartialEq, Eq)]
pub struct Codec {
    endian: Endian,
    limit: Limit,
}

impl Codec {
    /// The byte order of this codec.
    pub closed spec fn spec_endian(self) -> Endian {
        self.endian
    }

    /// The limit of this codec.
    pub closed spec fn spec_limit(self) -> Limit {
        self.limit
    }

    /// The codec that [`Codec::default`] returns: little endian byte order and a limit
    /// of `0x1000` bytes.
    pub closed spec fn spec_default() -> Codec {
        Codec { endian: Endian::Little, limit: Limit(DEFAULT_MAX_LIMIT) }
    }

    /// Constructs a new [`CodecBuilder`] with neither a byte order nor a limit set.
    pub fn builder() -> (b: CodecBuilder)
        ensures
            b.spec_endian() is None,
            b.spec_limit() is None,
    {
        CodecBuilder { endian: None, limit: None }
    }

    /// Returns the byte order, or endianness, associated with this codec.
    pub fn endian(&self) -> (e: Endian)
        ensures
            e == self.spec_endian(),
    {
        self.endian
    }

    /// Returns the maximum number of bytes this codec can handle.
    pub fn limit(&self) -> (l: Limit)
        ensures
            l == self.spec_limit(),
    {
        self.limit
    }

    /// Returns `true` if this codec uses big endian byte order.
    pub fn is_big_endian(&self) -> (b: bool)
        ensures
            b == (self.spec_endian() == Endian::Big),
    {
        self.endian.is_big_endian()
    }

    /// Returns `true` if this codec uses little endian byte order.
    pub fn is_little_endian(&self) -> (b: bool)
        ensures
            b == (self.spec_endian() == Endian::Little),
    {
        self.endian.is_little_endian()
    }
}

impl Default for Codec {
    /// A little endian codec with the default limit of `0x1000` bytes.
    fn default() -> (c: Codec)
        ensures
            c.spec_endian() == Endian::Little,
            c.spec_limit().spec_get() == DEFAULT_MAX_LIMIT,
            c == Codec::spec_default(),
    {
        let built = Codec::builder().with_little_endian().with_limit(
            Limit::new(DEFAULT_MAX_LIMIT),
        ).try_build();
        match built {
            Ok(codec) => codec,
            Err(_) => Codec { endian: Endian::Little, limit: Limit(DEFAULT_MAX_LIMIT) },
        }
    }
}

/// Builder that constructs validated instances of the [`Codec`] type.
pub struct CodecBuilder {
    /// Byte order serialization kind.
    endian: Option<Endian>,
    /// Maximum allowed buffer length.
    limit: Option<Limit>,
}

/// Reason given when a codec is built without a byte order.
pub const MISSING_ENDIAN: &'static str = "endianness must be set";

/// Reason given when a codec is built without a limit.
pub const MISSING_LIMIT: &'static str = "byte limit must be set";

impl CodecBuilder {
    /// The byte order chosen so far, if any.
    pub closed spec fn spec_endian(self) -> Option<Endian> {
        self.endian
    }

    /// The limit chosen so far, if any.
    pub closed spec fn spec_limit(self) -> Option<Limit> {
        self.limit
    }

    /// Creates a new [`CodecBuilder`] with neither a byte order nor a limit set.
    pub fn new() -> (b: CodecBuilder)
        ensures
            b.spec_endian() is None,
            b.spec_limit() is None,
    {
        CodecBuilder { endian: None, limit: None }
    }

    /// Use big endian byte order serialization for the codec.
    pub fn with_big_endian(self) -> (b: CodecBuilder)
        ensures
            b.spec_endian() == Some(Endian::Big),
            b.spec_limit() == self.spec_limit(),
    {
        CodecBuilder { endian: Some(Endian::Big), ..self }
    }

    /// Use little endian byte order serialization for the codec.
    pub fn with_little_endian(self) -> (b: CodecBuilder)
        ensures
            b.spec_endian() == Some(Endian::Little),
            b.spec_limit() == self.spec_limit(),
    {
        CodecBuilder { endian: Some(Endian::Little), ..self }
    }

    /// Use the limit `LIMIT`, fixed at compile time, for the codec.
    pub fn with_const_limit<const LIMIT: u32>(self) -> (b: CodecBuilder)
        ensures
            b.spec_endian() == self.spec_endian(),
            b.spec_limit() matches Some(l) && l.spec_get() == LIMIT,
    {
        CodecBuilder { limit: Some(Limit::new(LIMIT)), ..self }
    }

    /// Set the endianness used for the codec.
    pub fn with_endian(self, endian: Endian) -> (b: CodecBuilder)
        ensures
            b.spec_endian() == Some(endian),
            b.spec_limit() == self.spec_limit(),
    {
        let mut this = self;
        this.endian = Some(endian);
        this
    }

    /// Set the limit used for the codec.
    pub fn with_limit(self, limit: Limit) -> (b: CodecBuilder)
        ensures
            b.spec_endian() == self.spec_endian(),
            b.spec_limit() == Some(limit),
    {
        let mut this = self;
        this.limit = Some(limit);
        this
    }

    /// Returns a configured [`Codec`] from this [`CodecBuilder`].
    ///
    /// # Errors
    ///
    /// Returns an invalid-codec error if the byte order, or else the limit, was left
    /// unset.
    pub fn try_build(self) -> (r: Result<Codec>)
        ensures
            r is Ok <==> self.spec_endian() is Some && self.spec_limit() is Some,
            r matches Ok(c) ==> Some(c.spec_endian()) == self.spec_endian() && Some(
                c.spec_limit(),
            ) == self.spec_limit(),
            r matches Err(e) ==> e.spec_kind() == (if self.spec_endian() is None {
                ErrorKind::InvalidCodec { reason: MISSING_ENDIAN }
            } else {
                ErrorKind::InvalidCodec { reason: MISSING_LIMIT }
            }),
    {
        let endian = match self.endian {
            Some(endian) => endian,
            None => {
                return Err(Error::invalid_codec(MISSING_ENDIAN));
            },
        };
        let limit = match self.limit {
            Some(limit) => limit,
            None => {
                return Err(Error::invalid_codec(MISSING_LIMIT));
            },
        };
        Ok(Codec { endian, limit })
    }

    /// Returns a configured [`Codec`] from this [`CodecBuilder`], using the values of
    /// `fallback` for any that were left unset.
    pub fn build(self, fallback: Codec) -> (c: Codec)
        ensures
            c.spec_endian() == (match self.spec_endian() {
                Some(e) => e,
                None => fallback.spec_endian(),
            }),
            c.spec_limit() == (match self.spec_limit() {
                Some(l) => l,
                None => fallback.spec_limit(),
            }),
    {
        let endian = match self.endian {
            Some(endian) => endian,
            None => fallback.endian(),
        };
        let limit = match self.limit {
            Some(limit) => limit,
            None => fallback.limit(),
        };
        Codec { endian, limit }
    }
}

} // verus!
