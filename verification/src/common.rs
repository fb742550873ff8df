use crate::errors::IotDBError;
use vstd::prelude::*;

verus! {

/// Scalar type tag of one result cell, as declared per column by the server.
///
/// The integer encoding is fixed by the wire protocol (`BOOLEAN = 0` through
/// `TEXT = 5`); both directions of the mapping round-trip exactly
/// (`lemma_data_type_round_trip`).
#[derive(Clone, Copy, Debug, PartialEq, Eq, Hash, Structural)]
pub enum DataType {
    BOOLEAN,
    INT32,
    INT64,
    FLOAT,
    DOUBLE,
    TEXT,
}

impl DataType {
    /// The wire integer this variant is encoded as.
    pub open spec fn spec_code(self) -> int {
        match self {
            DataType::BOOLEAN => 0,
            DataType::INT32 => 1,
            DataType::INT64 => 2,
            DataType::FLOAT => 3,
            DataType::DOUBLE => 4,
            DataType::TEXT => 5,
        }
    }

    /// The variant a wire integer decodes to, if any.
    pub open spec fn spec_from_code(code: int) -> Option<DataType> {
        if code == 0 {
            Some(DataType::BOOLEAN)
        } else if code == 1 {
            Some(DataType::INT32)
        } else if code == 2 {
            Some(DataType::INT64)
        } else if code == 3 {
            Some(DataType::FLOAT)
        } else if code == 4 {
            Some(DataType::DOUBLE)
        } else if code == 5 {
            Some(DataType::TEXT)
        } else {
            None
        }
    }

    /// The variant a column type name decodes to, if any.
    pub open spec fn spec_from_name(name: Seq<char>) -> Option<DataType> {
        if name == "BOOLEAN"@ {
            Some(DataType::BOOLEAN)
        } else if name == "INT32"@ {
            Some(DataType::INT32)
        } else if name == "INT64"@ {
            Some(DataType::INT64)
        } else if name == "FLOAT"@ {
            Some(DataType::FLOAT)
        } else if name == "DOUBLE"@ {
            Some(DataType::DOUBLE)
        } else if name == "TEXT"@ {
            Some(DataType::TEXT)
        } else {
            None
        }
    }

    /// Encode this data type as its wire integer.
    pub fn to_code(self) -> (r: i32)
        ensures
            r == self.spec_code(),
    {
        match self {
            DataType::BOOLEAN => 0,
            DataType::INT32 => 1,
            DataType::INT64 => 2,
            DataType::FLOAT => 3,
            DataType::DOUBLE => 4,
            DataType::TEXT => 5,
        }
    }

    /// Decode a wire integer; an unknown tag is a typed error, never a panic.
    pub fn from_code(code: i32) -> (r: Result<DataType, IotDBError>)
        ensures
            match r {
                Ok(t) => Self::spec_from_code(code as int) == Some(t),
                Err(e) => Self::spec_from_code(code as int) is None && e
                    == IotDBError::UnknownVariant(code),
            },
    {
        match code {
            0 => Ok(DataType::BOOLEAN),
            1 => Ok(DataType::INT32),
            2 => Ok(DataType::INT64),
            3 => Ok(DataType::FLOAT),
            4 => Ok(DataType::DOUBLE),
            5 => Ok(DataType::TEXT),
            _ => Err(IotDBError::UnknownVariant(code)),
        }
    }

    /// Decode a column type name as the server spells it in a result header;
    /// an unknown name is a typed error, never a panic.
    pub fn from_name(name: &String) -> (r: Result<DataType, IotDBError>)
        ensures
            match r {
                Ok(t) => Self::spec_from_name(name@) == Some(t),
                Err(e) => Self::spec_from_name(name@) is None && e
                    == IotDBError::UnknownTypeName(*name),
            },
    {
        if *name == "BOOLEAN".to_owned() {
            Ok(DataType::BOOLEAN)
        } else if *name == "INT32".to_owned() {
            Ok(DataType::INT32)
        } else if *name == "INT64".to_owned() {
            Ok(DataType::INT64)
        } else if *name == "FLOAT".to_owned() {
            Ok(DataType::FLOAT)
        } else if *name == "DOUBLE".to_owned() {
            Ok(DataType::DOUBLE)
        } else if *name == "TEXT".to_owned() {
            Ok(DataType::TEXT)
        } else {
            Err(IotDBError::UnknownTypeName(name.clone()))
        }
    }
}

/// Decoding the code a data type encodes to yields the same data type back.
pub proof fn lemma_data_type_round_trip(t: DataType)
    ensures
        DataType::spec_from_code(t.spec_code()) == Some(t),
{
}

/// A code that decodes to some data type is exactly that data type's code.
pub proof fn lemma_data_type_code_canonical(code: int, t: DataType)
    requires
        DataType::spec_from_code(code) == Some(t),
    ensures
        t.spec_code() == code,
{
}

/// Series encoding scheme, with its fixed wire integer (`PLAIN = 0` through
/// `GORILLA = 8`).
#[derive(Clone, Copy, Debug, PartialEq, Eq, Hash, Structural)]
pub enum Encoding {
    PLAIN,
    PlainDictionary,
    RLE,
    DIFF,
    Ts2diff,
    BITMAP,
    GorillaV1,
    REGULAR,
    GORILLA,
}

impl Encoding {
    /// The wire integer this variant is encoded as.
    pub open spec fn spec_code(self) -> int {
        match self {
            Encoding::PLAIN => 0,
            Encoding::PlainDictionary => 1,
            Encoding::RLE => 2,
            Encoding::DIFF => 3,
            Encoding::Ts2diff => 4,
            Encoding::BITMAP => 5,
            Encoding::GorillaV1 => 6,
            Encoding::REGULAR => 7,
            Encoding::GORILLA => 8,
        }
    }

    /// The variant a wire integer decodes to, if any.
    pub open spec fn spec_from_code(code: int) -> Option<Encoding> {
        if code == 0 {
            Some(Encoding::PLAIN)
        } else if code == 1 {
            Some(Encoding::PlainDictionary)
        } else if code == 2 {
            Some(Encoding::RLE)
        } else if code == 3 {
            Some(Encoding::DIFF)
        } else if code == 4 {
            Some(Encoding::Ts2diff)
        } else if code == 5 {
            Some(Encoding::BITMAP)
        } else if code == 6 {
            Some(Encoding::GorillaV1)
        } else if code == 7 {
            Some(Encoding::REGULAR)
        } else if code == 8 {
            Some(Encoding::GORILLA)
        } else {
            None
        }
    }

    /// Encode this encoding as its wire integer.
    pub fn to_code(self) -> (r: i32)
        ensures
            r == self.spec_code(),
    {
        match self {
            Encoding::PLAIN => 0,
            Encoding::PlainDictionary => 1,
            Encoding::RLE => 2,
            Encoding::DIFF => 3,
            Encoding::Ts2diff => 4,
            Encoding::BITMAP => 5,
            Encoding::GorillaV1 => 6,
            Encoding::REGULAR => 7,
            Encoding::GORILLA => 8,
        }
    }

    /// Decode a wire integer; an unknown tag is a typed error, never a panic.
    pub fn from_code(code: i32) -> (r: Result<Encoding, IotDBError>)
        ensures
            match r {
                Ok(t) => Self::spec_from_code(code as int) == Some(t),
                Err(e) => Self::spec_from_code(code as int) is None && e
                    == IotDBError::UnknownVariant(code),
            },
    {
        match code {
            0 => Ok(Encoding::PLAIN),
            1 => Ok(Encoding::PlainDictionary),
            2 => Ok(Encoding::RLE),
            3 => Ok(Encoding::DIFF),
            4 => Ok(Encoding::Ts2diff),
            5 => Ok(Encoding::BITMAP),
            6 => Ok(Encoding::GorillaV1),
            7 => Ok(Encoding::REGULAR),
            8 => Ok(Encoding::GORILLA),
            _ => Err(IotDBError::UnknownVariant(code)),
        }
    }
}

impl Default for Encoding {
    /// The encoding used when the caller names none.
    fn default() -> (r: Encoding)
        ensures
            r == Encoding::PLAIN,
    {
        Encoding::PLAIN
    }
}

/// Decoding the code an encoding encodes to yields the same encoding back.
pub proof fn lemma_encoding_round_trip(t: Encoding)
    ensures
        Encoding::spec_from_code(t.spec_code()) == Some(t),
{
}

/// Block compression scheme, with its fixed wire integer
/// (`UNCOMPRESSED = 0` through `LZ4 = 7`).
#[derive(Clone, Copy, Debug, PartialEq, Eq, Hash, Structural)]
pub enum Compressor {
    UNCOMPRESSED,
    SNAPPY,
    GZIP,
    LZO,
    SDT,
    PAA,
    PLA,
    LZ4,
}

impl Compressor {
    /// The wire integer this variant is encoded as.
    pub open spec fn spec_code(self) -> int {
        match self {
            Compressor::UNCOMPRESSED => 0,
            Compressor::SNAPPY => 1,
            Compressor::GZIP => 2,
            Compressor::LZO => 3,
            Compressor::SDT => 4,
            Compressor::PAA => 5,
            Compressor::PLA => 6,
            Compressor::LZ4 => 7,
        }
    }

    /// The variant a wire integer decodes to, if any.
    pub open spec fn spec_from_code(code: int) -> Option<Compressor> {
        if code == 0 {
            Some(Compressor::UNCOMPRESSED)
        } else if code == 1 {
            Some(Compressor::SNAPPY)
        } else if code == 2 {
            Some(Compressor::GZIP)
        } else if code == 3 {
            Some(Compressor::LZO)
        } else if code == 4 {
            Some(Compressor::SDT)
        } else if code == 5 {
            Some(Compressor::PAA)
        } else if code == 6 {
            Some(Compressor::PLA)
        } else if code == 7 {
            Some(Compressor::LZ4)
        } else {
            None
        }
    }

    /// Encode this compressor as its wire integer.
    pub fn to_code(self) -> (r: i32)
        ensures
            r == self.spec_code(),
    {
        match self {
            Compressor::UNCOMPRESSED => 0,
            Compressor::SNAPPY => 1,
            Compressor::GZIP => 2,
            Compressor::LZO => 3,
            Compressor::SDT => 4,
            Compressor::PAA => 5,
            Compressor::PLA => 6,
            Compressor::LZ4 => 7,
        }
    }

    /// Decode a wire integer; an unknown tag is a typed error, never a panic.
    pub fn from_code(code: i32) -> (r: Result<Compressor, IotDBError>)
        ensures
            match r {
                Ok(t) => Self::spec_from_code(code as int) == Some(t),
                Err(e) => Self::spec_from_code(code as int) is None && e
                    == IotDBError::UnknownVariant(code),
            },
    {
        match code {
            0 => Ok(Compressor::UNCOMPRESSED),
            1 => Ok(Compressor::SNAPPY),
            2 => Ok(Compressor::GZIP),
            3 => Ok(Compressor::LZO),
            4 => Ok(Compressor::SDT),
            5 => Ok(Compressor::PAA),
            6 => Ok(Compressor::PLA),
            7 => Ok(Compressor::LZ4),
            _ => Err(IotDBError::UnknownVariant(code)),
        }
    }
}

impl Default for Compressor {
    /// The compressor used when the caller names none.
    fn default() -> (r: Compressor)
        ensures
            r == Compressor::SNAPPY,
    {
        Compressor::SNAPPY
    }
}

/// Decoding the code a compressor encodes to yields the same compressor back.
pub proof fn lemma_compressor_round_trip(t: Compressor)
    ensures
        Compressor::spec_from_code(t.spec_code()) == Some(t),
{
}

/// Client/server protocol revision negotiated by the session handshake, with
/// its fixed wire integer (`V1 = 0` through `V3 = 2`).
#[derive(Clone, Copy, Debug, PartialEq, Eq, Hash, Structural)]
pub enum ProtocolVersion {
    V1,
    V2,
    V3,
}

impl ProtocolVersion {
    /// The wire integer this variant is encoded as.
    pub open spec fn spec_code(self) -> int {
        match self {
            ProtocolVersion::V1 => 0,
            ProtocolVersion::V2 => 1,
            ProtocolVersion::V3 => 2,
        }
    }

    /// The variant a wire integer decodes to, if any.
    pub open spec fn spec_from_code(code: int) -> Option<ProtocolVersion> {
        if code == 0 {
            Some(ProtocolVersion::V1)
        } else if code == 1 {
            Some(ProtocolVersion::V2)
        } else if code == 2 {
            Some(ProtocolVersion::V3)
        } else {
            None
        }
    }

    /// Encode this protocol version as its wire integer.
    pub fn to_code(self) -> (r: i32)
        ensures
            r == self.spec_code(),
    {
        match self {
            ProtocolVersion::V1 => 0,
            ProtocolVersion::V2 => 1,
            ProtocolVersion::V3 => 2,
        }
    }

    /// Decode a wire integer; an unknown tag is a typed error, never a panic.
    pub fn from_code(code: i32) -> (r: Result<ProtocolVersion, IotDBError>)
        ensures
            match r {
                Ok(t) => Self::spec_from_code(code as int) == Some(t),
                Err(e) => Self::spec_from_code(code as int) is None && e
                    == IotDBError::UnknownVariant(code),
            },
    {
        match code {
            0 => Ok(ProtocolVersion::V1),
            1 => Ok(ProtocolVersion::V2),
            2 => Ok(ProtocolVersion::V3),
            _ => Err(IotDBError::UnknownVariant(code)),
        }
    }
}

/// Decoding the code a protocol version encodes to yields it back.
pub proof fn lemma_protocol_version_round_trip(t: ProtocolVersion)
    ensures
        ProtocolVersion::spec_from_code(t.spec_code()) == Some(t),
{
}

} // verus!
