//! Block transfers over the SPMI debugfs interface: the files to write for
//! each operation, and the decisions of the register selection.
use vstd::prelude::*;
use crate::error::Error;
use crate::text::{hex_literal, hex_literal_bytes};

verus! {

/// Operation codes of the SPMI debugfs interface.
#[derive(Debug, Clone, Copy, PartialEq, Eq, Structural)]
pub enum SpmiOpc {
    ExtWrite,
    ExtRead,
    Read,
    ZeroWrite,
}

/// The numeric code of an operation.
pub open spec fn opc_code(o: SpmiOpc) -> u8 {
    match o {
        SpmiOpc::ExtWrite => 0x00,
        SpmiOpc::ExtRead => 0x20,
        SpmiOpc::Read => 0x60,
        SpmiOpc::ZeroWrite => 0x80,
    }
}

impl SpmiOpc {
    /// The numeric code of the operation.
    pub fn code(self) -> (r: u8)
        ensures
            r == opc_code(self),
    {
        match self {
            SpmiOpc::ExtWrite => 0x00,
            SpmiOpc::ExtRead => 0x20,
            SpmiOpc::Read => 0x60,
            SpmiOpc::ZeroWrite => 0x80,
        }
    }
}

/// The files of the debugfs directory.
#[derive(Debug, Clone, Copy, PartialEq, Eq, Structural)]
pub enum SpmiFile {
    Opc,
    Saddr,
    Sid,
    Data,
}

impl SpmiFile {
    /// The file's name in the debugfs directory.
    pub fn name(self) -> (r: &'static str)
        ensures
            r@ == (match self {
                SpmiFile::Opc => "opc"@,
                SpmiFile::Saddr => "saddr"@,
                SpmiFile::Sid => "sid"@,
                SpmiFile::Data => "data"@,
            }),
    {
        match self {
            SpmiFile::Opc => "opc",
            SpmiFile::Saddr => "saddr",
            SpmiFile::Sid => "sid",
            SpmiFile::Data => "data",
        }
    }
}

/// The files that the directory must hold, in the order they are checked.
pub open spec fn required_files() -> Seq<SpmiFile> {
    seq![SpmiFile::Opc, SpmiFile::Saddr, SpmiFile::Sid, SpmiFile::Data]
}

/// The files that the directory must hold: "opc", "saddr", "sid", "data".
pub fn spmi_required_files() -> (r: Vec<SpmiFile>)
    ensures
        r@ == required_files(),
{
    let mut v: Vec<SpmiFile> = Vec::new();
    v.push(SpmiFile::Opc);
    v.push(SpmiFile::Saddr);
    v.push(SpmiFile::Sid);
    v.push(SpmiFile::Data);
    assert(v@ =~= required_files());
    v
}

/// Writing `contents` to one file of the directory.
pub struct FileWrite {
    pub file: SpmiFile,
    pub contents: Vec<u8>,
}

/// A file write, with its contents as a sequence.
pub struct FileWriteView {
    pub file: SpmiFile,
    pub contents: Seq<u8>,
}

impl View for FileWrite {
    type V = FileWriteView;

    open spec fn view(&self) -> FileWriteView {
        FileWriteView { file: self.file, contents: self.contents@ }
    }
}

/// The writes as sequences.
pub open spec fn writes_view(w: Seq<FileWrite>) -> Seq<FileWriteView> {
    w.map_values(|x: FileWrite| x@)
}

/// What an operation writes before its data: the slave id, the operation
/// code and the address, each as "0x" and lowercase hexadecimal digits.
pub open spec fn op_setup(sid: u8, opc: SpmiOpc, saddr: u16) -> Seq<FileWriteView> {
    seq![
        FileWriteView { file: SpmiFile::Sid, contents: hex_literal(sid as nat) },
        FileWriteView { file: SpmiFile::Opc, contents: hex_literal(opc_code(opc) as nat) },
        FileWriteView { file: SpmiFile::Saddr, contents: hex_literal(saddr as nat) },
    ]
}

/// Address of the data of an extended write.
pub const EXT_WRITE_ADDR: u16 = 0xa0;
/// Address of the data of an extended read.
pub const EXT_READ_ADDR: u16 = 0x20;

/// What selecting a register has come to, after reading back a byte.
#[derive(Debug, Clone, Copy, PartialEq, Eq, Structural)]
pub enum RegSelect {
    /// The register is selected.
    Selected,
    /// The selection is still going on: read again.
    Pending,
    /// The controller answered something else: the selection failed.
    Failed,
}

/// The controller of a debugfs directory and a slave id.
pub struct SpmiBusDevice {
    dbgfs_path: String,
    sid: u8,
}

/// The directory's path and the slave id.
pub struct SpmiBusView {
    pub path: Seq<char>,
    pub sid: u8,
}

impl View for SpmiBusDevice {
    type V = SpmiBusView;

    closed spec fn view(&self) -> SpmiBusView {
        SpmiBusView { path: self.dbgfs_path@, sid: self.sid }
    }
}

fn push_write(w: &mut Vec<FileWrite>, file: SpmiFile, contents: Vec<u8>)
    ensures
        writes_view(final(w)@) == writes_view(old(w)@).push(FileWriteView { file, contents: contents@ }),
{
    let x = FileWrite { file, contents };
    proof {
        assert(writes_view(old(w)@.push(x)) =~= writes_view(old(w)@).push(x@));
    }
    w.push(x);
}

impl SpmiBusDevice {
    /// Opens the controller at debugfs directory `bus` with the target
    /// address (its low byte is the slave id). `present[i]` tells whether
    /// the `i`-th of the required files exists; all must.
    pub fn open(bus: &str, target_address: u16, present: &[bool]) -> (r: Result<
        SpmiBusDevice,
        Error,
    >)
        requires
            present@.len() == 4,
        ensures
            match r {
                Ok(d) => (forall|i: int| 0 <= i < 4 ==> present@[i]) && d@.path == bus@ && d@.sid
                    == target_address as u8,
                Err(e) => (exists|i: int| 0 <= i < 4 && !present@[i]) && e == Error::Spmi,
            },
    {
        let mut i: usize = 0;
        while i < 4
            invariant
                i <= 4,
                present@.len() == 4,
                forall|j: int| 0 <= j < i ==> present@[j],
            decreases 4 - i,
        {
            if !present[i] {
                return Err(Error::Spmi);
            }
            i = i + 1;
        }
        Ok(SpmiBusDevice { dbgfs_path: bus.to_owned(), sid: target_address as u8 })
    }

    /// The debugfs directory.
    pub fn dbgfs_path(&self) -> (r: &str)
        ensures
            r@ == self@.path,
    {
        self.dbgfs_path.as_str()
    }

    /// The slave id.
    pub fn sid(&self) -> (r: u8)
        ensures
            r == self@.sid,
    {
        self.sid
    }

    /// The writes that set up an operation before its data is read from
    /// the "data" file.
    pub fn read_op(&self, opc: SpmiOpc, saddr: u16) -> (r: Vec<FileWrite>)
        ensures
            writes_view(r@) == op_setup(self@.sid, opc, saddr),
    {
        let mut w: Vec<FileWrite> = Vec::new();
        push_write(&mut w, SpmiFile::Sid, hex_literal_bytes(self.sid as u32));
        push_write(&mut w, SpmiFile::Opc, hex_literal_bytes(opc.code() as u32));
        push_write(&mut w, SpmiFile::Saddr, hex_literal_bytes(saddr as u32));
        assert(writes_view(w@) =~= op_setup(self@.sid, opc, saddr));
        w
    }

    /// The writes of an operation that sends `data`: the set-up, then the
    /// data to the "data" file.
    pub fn write_op(&self, opc: SpmiOpc, saddr: u16, data: &[u8]) -> (r: Vec<FileWrite>)
        ensures
            writes_view(r@) == op_setup(self@.sid, opc, saddr).push(
                FileWriteView { file: SpmiFile::Data, contents: data@ },
            ),
    {
        let mut w = self.read_op(opc, saddr);
        push_write(&mut w, SpmiFile::Data, vstd::slice::slice_to_vec(data));
        w
    }

    /// The writes that start selecting register `reg`.
    pub fn select_request(&self, reg: u8) -> (r: Vec<FileWrite>)
        ensures
            writes_view(r@) == op_setup(self@.sid, SpmiOpc::ZeroWrite, 0).push(
                FileWriteView { file: SpmiFile::Data, contents: seq![reg] },
            ),
    {
        let one: [u8; 1] = [reg];
        assert(one@ =~= seq![reg]);
        self.write_op(SpmiOpc::ZeroWrite, 0, one.as_slice())
    }

    /// The writes before each read-back of the selection (one byte from
    /// "data").
    pub fn select_poll(&self) -> (r: Vec<FileWrite>)
        ensures
            writes_view(r@) == op_setup(self@.sid, SpmiOpc::Read, 0),
    {
        self.read_op(SpmiOpc::Read, 0)
    }

    /// Decides on the byte read back while selecting `reg`: the register
    /// itself means selected; the register with bit 7 set means still
    /// going on; anything else is a failure.
    pub fn select_reg(&self, reg: u8, seen: u8) -> (r: RegSelect)
        ensures
            r == (if seen == reg {
                RegSelect::Selected
            } else if seen == (reg | 0x80u8) {
                RegSelect::Pending
            } else {
                RegSelect::Failed
            }),
    {
        if seen == reg {
            RegSelect::Selected
        } else if seen == (reg | 0x80u8) {
            RegSelect::Pending
        } else {
            RegSelect::Failed
        }
    }

    /// The writes of a block write of `data`, once the register is selected.
    pub fn block_write_ops(&self, data: &[u8]) -> (r: Vec<FileWrite>)
        ensures
            writes_view(r@) == op_setup(self@.sid, SpmiOpc::ExtWrite, EXT_WRITE_ADDR).push(
                FileWriteView { file: SpmiFile::Data, contents: data@ },
            ),
    {
        self.write_op(SpmiOpc::ExtWrite, EXT_WRITE_ADDR, data)
    }

    /// The writes before a block read, once the register is selected; the
    /// data is then read from "data".
    pub fn block_read_ops(&self) -> (r: Vec<FileWrite>)
        ensures
            writes_view(r@) == op_setup(self@.sid, SpmiOpc::ExtRead, EXT_READ_ADDR),
    {
        self.read_op(SpmiOpc::ExtRead, EXT_READ_ADDR)
    }
}

} // verus!
