use vstd::prelude::*;

use crate::device::{Device, DeviceError, DeviceHeader, DeviceType};

verus! {

/// Size of a ram device in bytes: the whole 16-bit address space.
pub const RAM_SIZE: usize = 65536;

/// Start of the word that holds `addr`: addresses round down to even.
pub open spec fn aligned(addr: u16) -> int {
    addr as int - addr as int % 2
}

/// The word at `addr`, high byte at the lower address.
pub open spec fn word_at(mem: Seq<u8>, addr: u16) -> u16 {
    (mem[aligned(addr)] as int * 256 + mem[aligned(addr) + 1] as int) as u16
}

/// `mem` with `value` stored big-endian in the word that holds `addr`.
pub open spec fn store_word(mem: Seq<u8>, value: u16, addr: u16) -> Seq<u8> {
    mem.update(aligned(addr), (value / 256) as u8).update(aligned(addr) + 1, (value % 256) as u8)
}

/// What a ram device holds: its id and its bytes.
pub struct RamView {
    pub id: u16,
    pub mem: Seq<u8>,
}

/// A word-addressed ram device over 65536 bytes.
pub struct Ram {
    hdr: DeviceHeader,
    mem: [u8; 65536],
}

impl View for Ram {
    type V = RamView;

    closed spec fn view(&self) -> RamView {
        RamView { id: self.hdr@.id, mem: self.mem@ }
    }
}

/// A request of the generalised work interface.
#[derive(Clone, Copy, Debug, PartialEq, Eq, Structural)]
pub enum RamWorkAction {
    Invalid,
    Read,
    Write,
}

/// The action a work code selects: 1 reads, 2 writes, anything else is
/// invalid.
pub open spec fn work_action_of(u: u32) -> RamWorkAction {
    if u == 1 {
        RamWorkAction::Read
    } else if u == 2 {
        RamWorkAction::Write
    } else {
        RamWorkAction::Invalid
    }
}

impl From<u32> for RamWorkAction {
    fn from(u: u32) -> (r: Self)
        ensures
            r == work_action_of(u),
    {
        match u {
            1 => RamWorkAction::Read,
            2 => RamWorkAction::Write,
            _ => RamWorkAction::Invalid,
        }
    }
}

impl vstd::std_specs::convert::FromSpecImpl<u32> for RamWorkAction {
    open spec fn obeys_from_spec() -> bool {
        true
    }

    open spec fn from_spec(v: u32) -> RamWorkAction {
        work_action_of(v)
    }
}

/// What `work` answers: `[1, addr]` reads the word at `addr`; `[2, addr,
/// word]` writes `word` there and answers `NoOutput`; addresses and words
/// must fit in 16 bits.
pub open spec fn work_result(mem: Seq<u8>, args: Seq<u32>) -> Result<Seq<u32>, DeviceError> {
    if args.len() == 0 {
        Err(DeviceError::WrongArgumentCount)
    } else {
        match work_action_of(args[0]) {
            RamWorkAction::Invalid => Err(DeviceError::InvalidInput),
            RamWorkAction::Read => if args.len() != 2 {
                Err(DeviceError::WrongArgumentCount)
            } else if args[1] > 0xffff {
                Err(DeviceError::InvalidInput)
            } else {
                Ok(seq![word_at(mem, args[1] as u16) as u32])
            },
            RamWorkAction::Write => if args.len() != 3 {
                Err(DeviceError::WrongArgumentCount)
            } else if args[1] > 0xffff || args[2] > 0xffff {
                Err(DeviceError::InvalidInput)
            } else {
                Err(DeviceError::NoOutput)
            },
        }
    }
}

/// The bytes after `work`: only an accepted write changes them.
pub open spec fn work_after(mem: Seq<u8>, args: Seq<u32>) -> Seq<u8> {
    if args.len() == 3 && work_action_of(args[0]) == RamWorkAction::Write && args[1] <= 0xffff
        && args[2] <= 0xffff {
        store_word(mem, args[2] as u16, args[1] as u16)
    } else {
        mem
    }
}

impl Ram {
    pub fn new(id: u16) -> (r: Self)
        ensures
            r@.id == id,
            r@.mem == Seq::new(RAM_SIZE as nat, |i: int| 0u8),
            r@.mem.len() == RAM_SIZE,
    {
        let info: [u32; 1] = [RAM_SIZE as u32];
        let hdr = DeviceHeader::new(DeviceType::Ram, id, info.as_slice());
        let mem: [u8; 65536] = [0u8; 65536];
        let r = Ram { hdr, mem };
        assert(r@.mem =~= Seq::new(RAM_SIZE as nat, |i: int| 0u8));
        r
    }

    /// The device's bytes.
    pub fn bytes(&self) -> (r: &[u8])
        ensures
            r@ == self@.mem,
    {
        self.mem.as_slice()
    }

    fn word_offset(addr: u16) -> (r: usize)
        ensures
            r == aligned(addr),
            r + 1 < RAM_SIZE,
    {
        (addr - addr % 2) as usize
    }

    /// The generalised work interface, over the same two actions.
    pub fn work(&mut self, args: &[u32]) -> (r: Result<Vec<u32>, DeviceError>)
        ensures
            r matches Ok(v) ==> work_result(old(self)@.mem, args@) == Ok::<Seq<u32>, DeviceError>(
                v@,
            ),
            r matches Err(e) ==> work_result(old(self)@.mem, args@) == Err::<Seq<u32>, DeviceError>(
                e,
            ),
            final(self)@.mem == work_after(old(self)@.mem, args@),
            final(self)@.id == old(self)@.id,
    {
        if args.len() == 0 {
            return Err(DeviceError::WrongArgumentCount);
        }
        match RamWorkAction::from(args[0]) {
            RamWorkAction::Invalid => Err(DeviceError::InvalidInput),
            RamWorkAction::Read => {
                if args.len() != 2 {
                    Err(DeviceError::WrongArgumentCount)
                } else if args[1] > 0xffff {
                    Err(DeviceError::InvalidInput)
                } else {
                    let word = self.act_primary(args[1] as u16)?;
                    let out: Vec<u32> = vec![word as u32];
                    assert(out@ =~= seq![word as u32]);
                    Ok(out)
                }
            },
            RamWorkAction::Write => {
                if args.len() != 3 {
                    Err(DeviceError::WrongArgumentCount)
                } else if args[1] > 0xffff || args[2] > 0xffff {
                    Err(DeviceError::InvalidInput)
                } else {
                    self.act_secondary(args[2] as u16, args[1] as u16)?;
                    Err(DeviceError::NoOutput)
                }
            },
        }
    }
}

/// Writing a word and reading it back at the same address gives the word;
/// an odd address reads the word at the even address below it.
pub proof fn lemma_write_then_read(ram: RamView, value: u16, addr: u16)
    requires
        ram.mem.len() == RAM_SIZE,
    ensures
        Ram::spec_primary(Ram::spec_after_secondary(ram, value, addr), addr) == Ok::<
            u16,
            DeviceError,
        >(value),
        addr % 2 == 1 ==> Ram::spec_primary(ram, addr) == Ram::spec_primary(
            ram,
            (addr - 1) as u16,
        ),
{
}

impl Device for Ram {
    open spec fn spec_id(v: RamView) -> u16 {
        v.id
    }

    open spec fn spec_primary(v: RamView, arg: u16) -> Result<u16, DeviceError> {
        Ok(word_at(v.mem, arg))
    }

    open spec fn spec_secondary(v: RamView, value: u16, arg: u16) -> Result<(), DeviceError> {
        Err(DeviceError::NoOutput)
    }

    open spec fn spec_after_secondary(v: RamView, value: u16, arg: u16) -> RamView {
        RamView { id: v.id, mem: store_word(v.mem, value, arg) }
    }

    fn header(&self) -> (r: &DeviceHeader) {
        &self.hdr
    }

    /// Reads the word at `arg` rounded down to even; always succeeds.
    fn act_primary(&self, arg: u16) -> (r: Result<u16, DeviceError>) {
        let a = Ram::word_offset(arg);
        let w: u16 = self.mem[a] as u16 * 256 + self.mem[a + 1] as u16;
        Ok(w)
    }

    /// Writes `value` big-endian at `arg` rounded down to even, and answers
    /// `NoOutput`: the write produces no data.
    fn act_secondary(&mut self, value: u16, arg: u16) -> (r: Result<(), DeviceError>) {
        let a = Ram::word_offset(arg);
        self.mem[a] = (value / 256) as u8;
        self.mem[a + 1] = (value % 256) as u8;
        Err(DeviceError::NoOutput)
    }
}

} // verus!
