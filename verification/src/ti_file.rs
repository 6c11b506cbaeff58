//! Parser for TI-84 Plus CE variable files (.8xp, .8xv, .8xg, ...).
//!
//! The **TI83F* format: a 55-byte header (magic, signature, comment, data
//! length at 53), the data section of variable entries, and a 2-byte checksum
//! (the low 16 bits of the sum of the data section's bytes).
//!
//! An entry: header size (2), data size (2), type (1), name (8), version (1),
//! flag (1, bit 7 archived), data size again (2), then the data.
use vstd::prelude::*;
use vstd::std_specs::convert::FromSpecImpl;
use vstd::utf8::valid_utf8;
use vstd::string::StringSliceAdditionalSpecFns;
use vstd::string::StringExecFns;
use crate::text::{hex_text, push_hex};

verus! {

/// Magic signature at the start of every file.
pub const MAGIC: [u8; 8] = [0x2A, 0x2A, 0x54, 0x49, 0x38, 0x33, 0x46, 0x2A];

/// Smallest file: 55-byte header, 17-byte entry header, 2-byte checksum.
pub const MIN_FILE_SIZE: usize = 74;

/// Variable type codes.
#[derive(Debug, Clone, Copy, PartialEq, Eq, Structural)]
pub enum VarType {
    RealNumber,
    RealList,
    Matrix,
    Equation,
    String,
    Program,
    ProtectedProgram,
    Picture,
    Gdb,
    Complex,
    ComplexList,
    AppVar,
    Group,
    Os,
    FlashApp,
    Unknown(u8),
}

/// The type a type code denotes.
pub open spec fn var_type_of(val: u8) -> VarType {
    if val == 0x00 {
        VarType::RealNumber
    } else if val == 0x01 {
        VarType::RealList
    } else if val == 0x02 {
        VarType::Matrix
    } else if val == 0x03 {
        VarType::Equation
    } else if val == 0x04 {
        VarType::String
    } else if val == 0x05 {
        VarType::Program
    } else if val == 0x06 {
        VarType::ProtectedProgram
    } else if val == 0x07 {
        VarType::Picture
    } else if val == 0x08 {
        VarType::Gdb
    } else if val == 0x0C {
        VarType::Complex
    } else if val == 0x0D {
        VarType::ComplexList
    } else if val == 0x15 {
        VarType::AppVar
    } else if val == 0x17 {
        VarType::Group
    } else if val == 0x23 {
        VarType::Os
    } else if val == 0x24 {
        VarType::FlashApp
    } else {
        VarType::Unknown(val)
    }
}

/// The type code of a type.
pub open spec fn type_code(t: VarType) -> u8 {
    match t {
        VarType::RealNumber => 0x00,
        VarType::RealList => 0x01,
        VarType::Matrix => 0x02,
        VarType::Equation => 0x03,
        VarType::String => 0x04,
        VarType::Program => 0x05,
        VarType::ProtectedProgram => 0x06,
        VarType::Picture => 0x07,
        VarType::Gdb => 0x08,
        VarType::Complex => 0x0C,
        VarType::ComplexList => 0x0D,
        VarType::AppVar => 0x15,
        VarType::Group => 0x17,
        VarType::Os => 0x23,
        VarType::FlashApp => 0x24,
        VarType::Unknown(v) => v,
    }
}

impl From<u8> for VarType {
    fn from(val: u8) -> (r: Self) {
        if val == 0x00 {
            VarType::RealNumber
        } else if val == 0x01 {
            VarType::RealList
        } else if val == 0x02 {
            VarType::Matrix
        } else if val == 0x03 {
            VarType::Equation
        } else if val == 0x04 {
            VarType::String
        } else if val == 0x05 {
            VarType::Program
        } else if val == 0x06 {
            VarType::ProtectedProgram
        } else if val == 0x07 {
            VarType::Picture
        } else if val == 0x08 {
            VarType::Gdb
        } else if val == 0x0C {
            VarType::Complex
        } else if val == 0x0D {
            VarType::ComplexList
        } else if val == 0x15 {
            VarType::AppVar
        } else if val == 0x17 {
            VarType::Group
        } else if val == 0x23 {
            VarType::Os
        } else if val == 0x24 {
            VarType::FlashApp
        } else {
            VarType::Unknown(val)
        }
    }
}

impl FromSpecImpl<u8> for VarType {
    open spec fn obeys_from_spec() -> bool {
        true
    }

    open spec fn from_spec(val: u8) -> VarType {
        var_type_of(val)
    }
}

impl VarType {
    /// The type code.
    pub fn as_u8(&self) -> (r: u8)
        ensures
            r == type_code(*self),
    {
        match self {
            VarType::RealNumber => 0x00,
            VarType::RealList => 0x01,
            VarType::Matrix => 0x02,
            VarType::Equation => 0x03,
            VarType::String => 0x04,
            VarType::Program => 0x05,
            VarType::ProtectedProgram => 0x06,
            VarType::Picture => 0x07,
            VarType::Gdb => 0x08,
            VarType::Complex => 0x0C,
            VarType::ComplexList => 0x0D,
            VarType::AppVar => 0x15,
            VarType::Group => 0x17,
            VarType::Os => 0x23,
            VarType::FlashApp => 0x24,
            VarType::Unknown(v) => *v,
        }
    }

    /// A program, plain or protected.
    pub fn is_program(&self) -> (r: bool)
        ensures
            r == (*self == VarType::Program || *self == VarType::ProtectedProgram),
    {
        match self {
            VarType::Program => true,
            VarType::ProtectedProgram => true,
            _ => false,
        }
    }

    /// An application variable.
    pub fn is_appvar(&self) -> (r: bool)
        ensures
            r == (*self == VarType::AppVar),
    {
        match self {
            VarType::AppVar => true,
            _ => false,
        }
    }
}

/// A variable entry of a file.
#[derive(Debug, Clone)]
pub struct TiVarEntry {
    pub var_type: VarType,
    /// Name, up to 8 bytes, padded with zeros.
    pub name: [u8; 8],
    pub version: u8,
    /// Flag bit 7: to be archived.
    pub archived: bool,
    /// The variable's data (for programs and appvars, with its 2-byte size).
    pub data: Vec<u8>,
}

/// A variable entry as values.
pub struct EntryView {
    pub var_type: VarType,
    pub name: Seq<u8>,
    pub version: u8,
    pub archived: bool,
    pub data: Seq<u8>,
}

impl View for TiVarEntry {
    type V = EntryView;

    open spec fn view(&self) -> EntryView {
        EntryView {
            var_type: self.var_type,
            name: self.name@,
            version: self.version,
            archived: self.archived,
            data: self.data@,
        }
    }
}

/// A parsed file.
#[derive(Debug, Clone)]
pub struct TiFile {
    pub entries: Vec<TiVarEntry>,
}

impl View for TiFile {
    type V = Seq<EntryView>;

    open spec fn view(&self) -> Seq<EntryView> {
        self.entries@.map_values(|e: TiVarEntry| e@)
    }
}

/// Why a file was rejected.
#[derive(Debug, Clone, PartialEq, Eq, Structural)]
pub enum TiFileError {
    TooShort,
    BadMagic,
    TruncatedEntry,
    BadChecksum { expected: u16, actual: u16 },
}

/// Length of a name: the position of its first zero byte, or 8.
pub open spec fn name_length(name: Seq<u8>) -> int
    decreases name.len(),
{
    if name.len() == 0 {
        0
    } else if name[0] == 0 {
        0
    } else {
        1 + name_length(name.drop_first())
    }
}

/// The 16-bit little-endian value at `at`.
pub open spec fn le16(s: Seq<u8>, at: int) -> u16 {
    (s[at] as u16) | ((s[at + 1] as u16) << 8u16)
}

/// The low 16 bits of the sum of the bytes.
pub open spec fn checksum(s: Seq<u8>) -> u16
    decreases s.len(),
{
    if s.len() == 0 {
        0
    } else {
        vstd::wrapping::u16_specs::wrapping_add(checksum(s.drop_last()), s.last() as u16)
    }
}

/// The entry whose header starts at `offset`, with data from `offset + 17`
/// to `end`.
pub open spec fn entry_at(data: Seq<u8>, offset: int, end: int) -> EntryView {
    EntryView {
        var_type: var_type_of(data[offset + 4]),
        name: data.subrange(offset + 5, offset + 13),
        version: data[offset + 13],
        archived: data[offset + 14] & 0x80 != 0,
        data: data.subrange(offset + 17, end),
    }
}

/// The entries from `offset` up to the end of the data section at `end`;
/// an entry header needs 17 bytes, and an entry whose data runs past the
/// section end makes the file truncated.
pub open spec fn entries_from(data: Seq<u8>, offset: int, end: int) -> Result<
    Seq<EntryView>,
    TiFileError,
>
    decreases end - offset,
{
    if offset + 17 > end || offset < 0 {
        Ok(Seq::empty())
    } else {
        let e = offset + 17 + le16(data, offset + 2);
        if e > end {
            Err(TiFileError::TruncatedEntry)
        } else {
            match entries_from(data, e, end) {
                Ok(rest) => Ok(seq![entry_at(data, offset, e)] + rest),
                Err(err) => Err(err),
            }
        }
    }
}

/// Entries `pre` followed by a parse result.
pub open spec fn prepend(pre: Seq<EntryView>, r: Result<Seq<EntryView>, TiFileError>) -> Result<
    Seq<EntryView>,
    TiFileError,
> {
    match r {
        Ok(rest) => Ok(pre + rest),
        Err(err) => Err(err),
    }
}

/// The result of parsing a file.
pub open spec fn parsed(data: Seq<u8>) -> Result<Seq<EntryView>, TiFileError> {
    if data.len() < MIN_FILE_SIZE {
        Err(TiFileError::TooShort)
    } else if data.subrange(0, 8) != MAGIC@ {
        Err(TiFileError::BadMagic)
    } else {
        let dl = le16(data, 53) as int;
        if data.len() < 55 + dl + 2 {
            Err(TiFileError::TooShort)
        } else {
            let computed = checksum(data.subrange(55, 55 + dl));
            let stored = le16(data, 55 + dl);
            if computed != stored {
                Err(TiFileError::BadChecksum { expected: stored, actual: computed })
            } else {
                entries_from(data, 55, 55 + dl)
            }
        }
    }
}

/// `std::str::from_utf8`: the bytes as a string slice. As std documents it,
/// this fails exactly when the bytes are not valid UTF-8, and a string slice
/// holds the bytes it was made from.
#[verifier::external_body]
fn utf8_slice(bytes: &[u8]) -> (r: Option<&str>)
    ensures
        r is Some <==> valid_utf8(bytes@),
        r matches Some(s) ==> s.spec_bytes() == bytes@,
{
    std::str::from_utf8(bytes).ok()
}

impl TiVarEntry {
    /// Length of the name: up to its first zero byte.
    pub fn name_len(&self) -> (r: usize)
        ensures
            r == name_length(self.name@),
            r <= 8,
    {
        let mut i: usize = 0;
        assert(self.name@.subrange(0, 8) =~= self.name@);
        while i < 8 && self.name[i] != 0
            invariant
                i <= 8,
                name_length(self.name@) == i + name_length(self.name@.subrange(i as int, 8)),
                forall|j: int| 0 <= j < i ==> self.name@[j] != 0,
            decreases 8 - i,
        {
            assert(self.name@.subrange(i as int, 8).drop_first() =~= self.name@.subrange(
                i + 1,
                8,
            ));
            i = i + 1;
        }
        proof {
            if i < 8 {
                assert(self.name@.subrange(i as int, 8)[0] == 0);
            } else {
                assert(self.name@.subrange(8, 8).len() == 0);
            }
        }
        i
    }

    /// The name up to its first zero byte, as text; "???" when those bytes
    /// are not valid UTF-8.
    pub fn name_str(&self) -> (r: &str)
        ensures
            ({
                let bytes = self.name@.subrange(0, name_length(self.name@));
                &&& valid_utf8(bytes) ==> r.spec_bytes() == bytes
                &&& !valid_utf8(bytes) ==> r@ == "???"@
            }),
    {
        let len = self.name_len();
        let (head, _tail) = self.name.as_slice().split_at(len);
        match utf8_slice(head) {
            Some(s) => s,
            None => "???",
        }
    }

    /// An assembly program: a program whose data, after its 2-byte size,
    /// starts with 0xEF 0x7B.
    pub fn is_asm_program(&self) -> (r: bool)
        ensures
            r == ((self.var_type == VarType::Program || self.var_type == VarType::ProtectedProgram)
                && self.data@.len() >= 4 && self.data@[2] == 0xEF && self.data@[3] == 0x7B),
    {
        self.var_type.is_program() && self.data.len() >= 4 && self.data[2] == 0xEF && self.data[3]
            == 0x7B
    }
}

/// The 16-bit little-endian value at `at`, computed.
fn read_u16(data: &[u8], at: usize) -> (r: u16)
    requires
        at + 2 <= data@.len(),
    ensures
        r == le16(data@, at as int),
{
    (data[at] as u16) | ((data[at + 1] as u16) << 8)
}

impl TiFileError {
    /// The message that describes the error.
    pub open spec fn message_text(self) -> Seq<char> {
        match self {
            TiFileError::TooShort => "file too short"@,
            TiFileError::BadMagic => "bad magic (expected **TI83F*)"@,
            TiFileError::TruncatedEntry => "truncated variable entry"@,
            TiFileError::BadChecksum { expected, actual } => "bad checksum: expected 0x"@
                + hex_text(expected as nat, 4) + ", got 0x"@ + hex_text(actual as nat, 4),
        }
    }

    /// A message for the user: what was wrong with the file, with both sums
    /// in hexadecimal for a checksum mismatch.
    pub fn message(&self) -> (r: String)
        ensures
            r@ == self.message_text(),
    {
        match self {
            TiFileError::TooShort => String::from_str("file too short"),
            TiFileError::BadMagic => String::from_str("bad magic (expected **TI83F*)"),
            TiFileError::TruncatedEntry => String::from_str("truncated variable entry"),
            TiFileError::BadChecksum { expected, actual } => {
                let mut s = String::from_str("bad checksum: expected 0x");
                push_hex(&mut s, *expected as u32, 4);
                s.append(", got 0x");
                push_hex(&mut s, *actual as u32, 4);
                s
            },
        }
    }
}

impl TiFile {
    /// Parse a file: check the size, the magic and the checksum, then read the
    /// variable entries of the data section.
    pub fn parse(data: &[u8]) -> (r: Result<Self, TiFileError>)
        ensures
            r is Ok <==> parsed(data@) is Ok,
            r matches Ok(f) ==> parsed(data@) == Ok::<Seq<EntryView>, TiFileError>(f@),
            r matches Err(e) ==> parsed(data@) == Err::<Seq<EntryView>, TiFileError>(e),
    {
        if data.len() < MIN_FILE_SIZE {
            return Err(TiFileError::TooShort);
        }
        let mut k: usize = 0;
        while k < 8
            invariant
                k <= 8,
                data@.len() >= 74,
                forall|j: int| 0 <= j < k ==> data@[j] == MAGIC@[j],
            decreases 8 - k,
        {
            if data[k] != MAGIC[k] {
                assert(data@.subrange(0, 8)[k as int] != MAGIC@[k as int]);
                return Err(TiFileError::BadMagic);
            }
            k = k + 1;
        }
        assert(data@.subrange(0, 8) =~= MAGIC@);
        let data_len = read_u16(data, 53) as usize;
        if data.len() < 55 + data_len + 2 {
            return Err(TiFileError::TooShort);
        }
        let data_end = 55 + data_len;
        let mut computed_sum: u16 = 0;
        let mut i: usize = 55;
        while i < data_end
            invariant
                55 <= i <= data_end,
                data_end + 2 <= data@.len(),
                computed_sum == checksum(data@.subrange(55, i as int)),
            decreases data_end - i,
        {
            assert(data@.subrange(55, i + 1).drop_last() =~= data@.subrange(55, i as int));
            computed_sum = computed_sum.wrapping_add(data[i] as u16);
            i = i + 1;
        }
        let stored_sum = read_u16(data, data_end);
        if computed_sum != stored_sum {
            return Err(TiFileError::BadChecksum { expected: stored_sum, actual: computed_sum });
        }
        let mut offset: usize = 55;
        let mut entries: Vec<TiVarEntry> = Vec::new();
        assert(data@.subrange(55, data_end as int) =~= data@.subrange(55, i as int));
        assert(parsed(data@) == entries_from(data@, 55, data_end as int));
        assert(entries@.map_values(|e: TiVarEntry| e@) =~= Seq::<EntryView>::empty());
        assert(Seq::<EntryView>::empty() + entries_from(data@, 55, data_end as int)->Ok_0
            =~= entries_from(data@, 55, data_end as int)->Ok_0);
        while offset + 17 <= data_end
            invariant
                55 <= offset <= data_end,
                parsed(data@) == entries_from(data@, 55, data_end as int),
                data_end + 2 <= data@.len(),
                data_end == 55 + le16(data@, 53),
                entries_from(data@, 55, data_end as int) == prepend(
                    entries@.map_values(|e: TiVarEntry| e@),
                    entries_from(data@, offset as int, data_end as int),
                ),
            decreases data_end - offset,
        {
            let var_data_len = read_u16(data, offset + 2) as usize;
            let var_type = VarType::from(data[offset + 4]);
            let mut name = [0u8; 8];
            let mut n: usize = 0;
            while n < 8
                invariant
                    n <= 8,
                    offset + 17 <= data_end,
                    data_end <= data@.len(),
                    forall|j: int| 0 <= j < n ==> name@[j] == data@[offset + 5 + j],
                decreases 8 - n,
            {
                name[n] = data[offset + 5 + n];
                n = n + 1;
            }
            let version = data[offset + 13];
            let flag = data[offset + 14];
            let archived = (flag & 0x80) != 0;
            let var_data_start = offset + 17;
            let var_data_end = var_data_start + var_data_len;
            if var_data_end > data_end {
                return Err(TiFileError::TruncatedEntry);
            }
            let bytes = vstd::slice::slice_to_vec(
                vstd::slice::slice_subrange(data, var_data_start, var_data_end),
            );
            let entry = TiVarEntry { var_type, name, version, archived, data: bytes };
            assert(name@ =~= data@.subrange(offset + 5, offset + 13));
            assert(entry@ == entry_at(data@, offset as int, var_data_end as int));
            let ghost before = entries@;
            entries.push(entry);
            assert(entries@.map_values(|e: TiVarEntry| e@) =~= before.map_values(
                |e: TiVarEntry| e@,
            ).push(entry@));
            assert(seq![entry@] + entries_from(data@, var_data_end as int, data_end as int)->Ok_0
                =~= seq![entry@] + entries_from(data@, var_data_end as int, data_end as int)->Ok_0);
            assert(before.map_values(|e: TiVarEntry| e@).push(entry@) =~= before.map_values(
                |e: TiVarEntry| e@,
            ) + seq![entry@]);
            proof {
                match entries_from(data@, var_data_end as int, data_end as int) {
                    Ok(rest) => {
                        assert(before.map_values(|e: TiVarEntry| e@) + (seq![entry@] + rest)
                            =~= before.map_values(|e: TiVarEntry| e@).push(entry@) + rest);
                    },
                    Err(_) => {},
                }
            }
            offset = var_data_end;
        }
        assert(entries_from(data@, offset as int, data_end as int) == Ok::<
            Seq<EntryView>,
            TiFileError,
        >(Seq::empty()));
        assert(entries@.map_values(|e: TiVarEntry| e@) + Seq::<EntryView>::empty() =~= entries@.map_values(
            |e: TiVarEntry| e@,
        ));
        Ok(TiFile { entries })
    }
}

/// Decoding type codes: exactly the documented codes (0x00-0x08, 0x0C,
/// 0x0D, 0x15, 0x17, 0x23, 0x24) decode to a named type, every other code to
/// `Unknown` of itself; and every named type decodes from its code, e.g.
/// 0x01 to `RealList` and 0x05 to `Program`.
pub proof fn lemma_type_codes_decode(v: u8, t: VarType)
    ensures
        (var_type_of(v) is Unknown) <==> !(v <= 0x08 || v == 0x0C || v == 0x0D || v == 0x15 || v
            == 0x17 || v == 0x23 || v == 0x24),
        var_type_of(v) is Unknown ==> var_type_of(v) == VarType::Unknown(v),
        !(t is Unknown) ==> var_type_of(type_code(t)) == t,
        var_type_of(0x01) == VarType::RealList && var_type_of(0x05) == VarType::Program
            && var_type_of(0x06) == VarType::ProtectedProgram && var_type_of(0x15)
            == VarType::AppVar,
{
}

/// Every type code converts to a type whose code it is again.
pub proof fn lemma_type_code_round_trip(v: u8)
    ensures
        type_code(var_type_of(v)) == v,
{
}

} // verus!
