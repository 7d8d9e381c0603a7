use vstd::prelude::*;

verus! {

/// The read operations: firmware versions, a configuration page, the checksum.
#[derive(Copy, Clone, PartialEq, Eq, Debug, Structural)]
pub enum ReadCommandMajorSerial {
    Major0,
    Major1(ReadCommandMajor1MinorSerial),
    Major2,
}

/// The readable configuration pages.
#[derive(Copy, Clone, PartialEq, Eq, Debug, Structural)]
pub enum ReadCommandMajor1MinorSerial {
    Minor0,
    Minor1,
    Minor2,
    Minor3,
}

/// The write operations: a configuration page, or commit.
#[derive(Copy, Clone, PartialEq, Eq, Debug, Structural)]
pub enum WriteCommandMajorSerial {
    Major1(WriteCommandMajor1MinorSerial),
    Major3,
}

/// The writable configuration pages.
#[derive(Copy, Clone, PartialEq, Eq, Debug, Structural)]
pub enum WriteCommandMajor1MinorSerial {
    Minor0,
    Minor1,
    Minor2,
    Minor3,
    Minor4,
    Minor5,
    Minor6,
    Minor7,
}

/// Minor opcode of a readable page.
pub open spec fn read_minor_code(m: ReadCommandMajor1MinorSerial) -> u8 {
    match m {
        ReadCommandMajor1MinorSerial::Minor0 => 0,
        ReadCommandMajor1MinorSerial::Minor1 => 1,
        ReadCommandMajor1MinorSerial::Minor2 => 2,
        ReadCommandMajor1MinorSerial::Minor3 => 3,
    }
}

/// Minor opcode of a writable page.
pub open spec fn write_minor_code(m: WriteCommandMajor1MinorSerial) -> u8 {
    match m {
        WriteCommandMajor1MinorSerial::Minor0 => 0,
        WriteCommandMajor1MinorSerial::Minor1 => 1,
        WriteCommandMajor1MinorSerial::Minor2 => 2,
        WriteCommandMajor1MinorSerial::Minor3 => 3,
        WriteCommandMajor1MinorSerial::Minor4 => 4,
        WriteCommandMajor1MinorSerial::Minor5 => 5,
        WriteCommandMajor1MinorSerial::Minor6 => 6,
        WriteCommandMajor1MinorSerial::Minor7 => 7,
    }
}

impl From<ReadCommandMajor1MinorSerial> for u8 {
    fn from(m: ReadCommandMajor1MinorSerial) -> (r: u8)
        ensures
            r == read_minor_code(m),
    {
        match m {
            ReadCommandMajor1MinorSerial::Minor0 => 0,
            ReadCommandMajor1MinorSerial::Minor1 => 1,
            ReadCommandMajor1MinorSerial::Minor2 => 2,
            ReadCommandMajor1MinorSerial::Minor3 => 3,
        }
    }
}

impl vstd::std_specs::convert::FromSpecImpl<ReadCommandMajor1MinorSerial> for u8 {
    open spec fn obeys_from_spec() -> bool {
        true
    }

    open spec fn from_spec(m: ReadCommandMajor1MinorSerial) -> u8 {
        read_minor_code(m)
    }
}

impl From<WriteCommandMajor1MinorSerial> for u8 {
    fn from(m: WriteCommandMajor1MinorSerial) -> (r: u8)
        ensures
            r == write_minor_code(m),
    {
        match m {
            WriteCommandMajor1MinorSerial::Minor0 => 0,
            WriteCommandMajor1MinorSerial::Minor1 => 1,
            WriteCommandMajor1MinorSerial::Minor2 => 2,
            WriteCommandMajor1MinorSerial::Minor3 => 3,
            WriteCommandMajor1MinorSerial::Minor4 => 4,
            WriteCommandMajor1MinorSerial::Minor5 => 5,
            WriteCommandMajor1MinorSerial::Minor6 => 6,
            WriteCommandMajor1MinorSerial::Minor7 => 7,
        }
    }
}

impl vstd::std_specs::convert::FromSpecImpl<WriteCommandMajor1MinorSerial> for u8 {
    open spec fn obeys_from_spec() -> bool {
        true
    }

    open spec fn from_spec(m: WriteCommandMajor1MinorSerial) -> u8 {
        write_minor_code(m)
    }
}

/// Major opcode of a read operation.
pub open spec fn read_major(serial: ReadCommandMajorSerial) -> u8 {
    match serial {
        ReadCommandMajorSerial::Major0 => 0x10,
        ReadCommandMajorSerial::Major1(_) => 0x11,
        ReadCommandMajorSerial::Major2 => 0x12,
    }
}

/// Minor opcode of a read operation; zero where it carries none.
pub open spec fn read_minor(serial: ReadCommandMajorSerial) -> u8 {
    match serial {
        ReadCommandMajorSerial::Major1(m) => read_minor_code(m),
        _ => 0,
    }
}

/// Major opcode of a write operation.
pub open spec fn write_major(serial: WriteCommandMajorSerial) -> u8 {
    match serial {
        WriteCommandMajorSerial::Major1(_) => 0x21,
        WriteCommandMajorSerial::Major3 => 0x23,
    }
}

/// Minor opcode of a write operation; zero where it carries none.
pub open spec fn write_minor(serial: WriteCommandMajorSerial) -> u8 {
    match serial {
        WriteCommandMajorSerial::Major1(m) => write_minor_code(m),
        WriteCommandMajorSerial::Major3 => 0,
    }
}

/// The 25 zero bytes that a read command carries as payload.
pub open spec fn empty_payload() -> Seq<u8> {
    Seq::new(25, |j: int| 0u8)
}

/// `f` is the 33-byte command frame for the given opcodes and payload:
/// report id 1, magic 0xA5, major opcode, magic 0x5A, verification byte
/// `0xFF - major`, minor opcode at offset 6, the payload from offset 8, and
/// zero in the spacer bytes 5 and 7.
pub open spec fn is_frame(f: Seq<u8>, major: u8, minor: u8, payload: Seq<u8>) -> bool {
    &&& f.len() == 33
    &&& payload.len() == 25
    &&& f[0] == 0x01
    &&& f[1] == 0xA5
    &&& f[2] == major
    &&& f[3] == 0x5A
    &&& f[4] == 0xFF - major
    &&& f[5] == 0
    &&& f[6] == minor
    &&& f[7] == 0
    &&& forall|j: int| 0 <= j < 25 ==> #[trigger] f[8 + j] == payload[j]
}

/// Builds the frame that asks the device for one read operation; the reply
/// is then fetched with GET_REPORT.
pub fn read_command_frame(serial: ReadCommandMajorSerial) -> (r: [u8; 33])
    ensures
        is_frame(r@, read_major(serial), read_minor(serial), empty_payload()),
{
    let mut data: [u8; 33] = [0; 33];
    data[0] = 0x01;
    data[1] = 0xA5;
    data[3] = 0x5A;
    match serial {
        ReadCommandMajorSerial::Major0 => {
            data[2] = 0x10;
            data[4] = 0xEF;
        },
        ReadCommandMajorSerial::Major1(minor) => {
            data[2] = 0x11;
            data[4] = 0xEE;
            data[6] = minor.into();
        },
        ReadCommandMajorSerial::Major2 => {
            data[2] = 0x12;
            data[4] = 0xED;
        },
    }
    assert forall|j: int| 0 <= j < 25 implies #[trigger] data@[8 + j] == empty_payload()[j] by {}
    data
}

/// Builds the frame of one write operation, with `load` as its payload.
pub fn write_command_frame(serial: WriteCommandMajorSerial, load: [u8; 25]) -> (r: [u8; 33])
    ensures
        is_frame(r@, write_major(serial), write_minor(serial), load@),
{
    let mut data: [u8; 33] = [0; 33];
    data[0] = 0x01;
    data[1] = 0xA5;
    data[3] = 0x5A;
    match serial {
        WriteCommandMajorSerial::Major1(minor) => {
            data[2] = 0x21;
            data[4] = 0xDE;
            data[6] = minor.into();
        },
        WriteCommandMajorSerial::Major3 => {
            data[2] = 0x23;
            data[4] = 0xDC;
        },
    }
    let ghost head = data@.subrange(0, 8);
    let mut j: usize = 0;
    while j < 25
        invariant
            j <= 25,
            data@.len() == 33,
            data@.subrange(0, 8) == head,
            forall|k: int| 0 <= k < j ==> #[trigger] data@[8 + k] == load@[k],
        decreases 25 - j,
    {
        data[8 + j] = load[j];
        assert(data@.subrange(0, 8) =~= head);
        j = j + 1;
    }
    assert(data@[0] == head[0] && data@[1] == head[1] && data@[2] == head[2] && data@[3] == head[3]);
    assert(data@[4] == head[4] && data@[5] == head[5] && data@[6] == head[6] && data@[7] == head[7]);
    data
}

/// The verification byte of every frame is the complement of its major
/// opcode, for each operation that can be framed.
pub proof fn lemma_verification_byte(r: ReadCommandMajorSerial, w: WriteCommandMajorSerial, f: Seq<u8>, g: Seq<u8>, p: Seq<u8>)
    requires
        is_frame(f, read_major(r), read_minor(r), empty_payload()),
        is_frame(g, write_major(w), write_minor(w), p),
    ensures
        f[4] == 0xFF - f[2],
        g[4] == 0xFF - g[2],
        f[2] == 0x10 || f[2] == 0x11 || f[2] == 0x12,
        g[2] == 0x21 || g[2] == 0x23,
{
}

} // verus!
