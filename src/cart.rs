//! Cartridges: the header, and the memory-bank controllers that map the
//! ROM and RAM banks into 0000-7FFF and A000-BFFF.

use vstd::prelude::*;
use vstd::utf8::valid_utf8;

verus! {

/// Bytes in one ROM bank.
pub const ROM_BANK_LEN: u32 = 0x4000;

/// Bytes in one RAM bank.
pub const RAM_BANK_LEN: u32 = 0x2000;

/// The header ends before this offset.
pub const HEADER_END: usize = 0x150;

pub const TITLE_START: usize = 0x134;

pub const TITLE_END: usize = 0x144;

pub const MANUFACTURER_START: usize = 0x13F;

pub const SGB_FLAG: usize = 0x146;

pub const CART_TYPE: usize = 0x147;

pub const ROM_SIZE_CODE: usize = 0x148;

pub const RAM_SIZE_CODE: usize = 0x149;

/// The largest ROM-size code: 32 KiB << 8 is 8 MiB.
pub const MAX_ROM_SIZE_CODE: u8 = 8;

/// What is wrong with a cartridge image.
#[derive(Clone, Copy, Debug, PartialEq, Eq, Structural)]
pub enum CartError {
    /// The image is shorter than its header.
    HeaderTooShort,
    /// The ROM-size code is not one of 0 to 8.
    BadRomSize(u8),
    /// The RAM-size code is not one of 0, 2, 3, 4, 5.
    BadRamSize(u8),
    /// The cartridge type names no supported controller.
    UnknownCartType(u8),
    /// The image is not as long as its header says.
    RomSizeMismatch,
    /// Saved RAM is not as long as the header says.
    RamSizeMismatch,
    /// The image is larger than a small in-memory cartridge holds.
    RomTooLarge,
    /// A small in-memory cartridge holds no RAM.
    RamUnsupported,
}

/// The bytes of `s` up to the first zero.
pub open spec fn until_zero(s: Seq<u8>) -> Seq<u8>
    decreases s.len(),
{
    if s.len() == 0 || s[0] == 0 {
        seq![]
    } else {
        seq![s[0]] + until_zero(s.drop_first())
    }
}

/// A text field of the header: its bytes when they are UTF-8, else empty.
pub open spec fn text_field(bytes: Seq<u8>) -> Seq<u8> {
    if valid_utf8(bytes) {
        bytes
    } else {
        seq![]
    }
}

/// Relies on core::str::from_utf8 (which heapless::String::from_utf8
/// calls): it succeeds exactly when the bytes are valid UTF-8.
#[verifier::external_body]
fn is_utf8(bytes: &[u8]) -> (r: bool)
    ensures
        r == valid_utf8(bytes@),
{
    core::str::from_utf8(bytes).is_ok()
}

/// `bytes` when they are UTF-8, else nothing.
fn text_bytes(bytes: Vec<u8>) -> (r: Vec<u8>)
    ensures
        r@ == text_field(bytes@),
{
    if is_utf8(bytes.as_slice()) {
        bytes
    } else {
        Vec::new()
    }
}

/// RAM bytes for a RAM-size code, or `None` for an unknown code.
pub open spec fn ram_size_of(code: u8) -> Option<u32> {
    if code == 0 {
        Some(0)
    } else if code == 2 {
        Some(8192)
    } else if code == 3 {
        Some(32768)
    } else if code == 4 {
        Some(131072)
    } else if code == 5 {
        Some(65536)
    } else {
        None
    }
}

/// ROM bytes for a ROM-size code up to 8: 32 KiB doubled `code` times.
pub open spec fn rom_size_of(code: u8) -> int {
    if code == 0 {
        0x8000
    } else if code == 1 {
        0x10000
    } else if code == 2 {
        0x20000
    } else if code == 3 {
        0x40000
    } else if code == 4 {
        0x80000
    } else if code == 5 {
        0x100000
    } else if code == 6 {
        0x200000
    } else if code == 7 {
        0x400000
    } else {
        0x800000
    }
}

/// What the header fields hold.
pub struct CartridgeHeader {
    /// The title bytes, up to the first zero; empty when not UTF-8.
    pub title: Vec<u8>,
    pub manufacturer_code: Vec<u8>,
    pub is_sgb: bool,
    pub cart_type: u8,
    pub rom_size: u32,
    pub ram_size: u32,
    pub num_rom_banks: u16,
}

/// The header that `rom` holds, or why it holds none.
pub open spec fn header_spec(rom: Seq<u8>) -> Result<(Seq<u8>, Seq<u8>, bool, u8, int, u32), CartError> {
    if rom.len() < HEADER_END {
        Err(CartError::HeaderTooShort)
    } else if rom[ROM_SIZE_CODE as int] > MAX_ROM_SIZE_CODE {
        Err(CartError::BadRomSize(rom[ROM_SIZE_CODE as int]))
    } else if ram_size_of(rom[RAM_SIZE_CODE as int]) is None {
        Err(CartError::BadRamSize(rom[RAM_SIZE_CODE as int]))
    } else {
        Ok(
            (
                text_field(until_zero(rom.subrange(TITLE_START as int, TITLE_END as int))),
                text_field(until_zero(rom.subrange(MANUFACTURER_START as int, TITLE_END as int))),
                rom[SGB_FLAG as int] != 0x03,
                rom[CART_TYPE as int],
                rom_size_of(rom[ROM_SIZE_CODE as int]),
                ram_size_of(rom[RAM_SIZE_CODE as int])->Some_0,
            ),
        )
    }
}

impl CartridgeHeader {
    /// The fields, as `header_spec` lists them.
    pub open spec fn fields(&self) -> (Seq<u8>, Seq<u8>, bool, u8, int, u32) {
        (self.title@, self.manufacturer_code@, self.is_sgb, self.cart_type, self.rom_size as int, self.ram_size)
    }

    pub open spec fn wf(&self) -> bool {
        &&& self.rom_size as int == self.num_rom_banks * ROM_BANK_LEN
        &&& 2 <= self.num_rom_banks <= 512
        &&& self.ram_size <= 131072
    }
}

/// The bytes of `rom[start..end]` up to the first zero.
fn bytes_until_zero(rom: &[u8], start: usize, end: usize) -> (r: Vec<u8>)
    requires
        start <= end <= rom@.len(),
    ensures
        r@ == until_zero(rom@.subrange(start as int, end as int)),
{
    let mut out: Vec<u8> = Vec::new();
    let mut i: usize = start;
    while i < end && rom[i] != 0
        invariant
            start <= i <= end <= rom@.len(),
            until_zero(rom@.subrange(start as int, end as int)) == out@ + until_zero(
                rom@.subrange(i as int, end as int),
            ),
        decreases end - i,
    {
        let ghost rest = rom@.subrange(i as int, end as int);
        assert(rest.drop_first() =~= rom@.subrange(i + 1, end as int));
        out.push(rom[i]);
        i = i + 1;
    }
    let ghost rest = rom@.subrange(i as int, end as int);
    assert(until_zero(rest) =~= seq![]);
    assert(out@ + seq![] =~= out@);
    out
}

/// Reads the header of a cartridge image.
pub fn get_cart_header(rom: &[u8]) -> (r: Result<CartridgeHeader, CartError>)
    ensures
        match r {
            Ok(h) => header_spec(rom@) == Ok::<_, CartError>(h.fields()) && h.wf(),
            Err(e) => header_spec(rom@) == Err::<(Seq<u8>, Seq<u8>, bool, u8, int, u32), _>(e),
        },
{
    if rom.len() < HEADER_END {
        return Err(CartError::HeaderTooShort);
    }
    let code = rom[ROM_SIZE_CODE];
    if code > MAX_ROM_SIZE_CODE {
        return Err(CartError::BadRomSize(code));
    }
    let ram_code = rom[RAM_SIZE_CODE];
    let ram_size: u32 = if ram_code == 0 {
        0
    } else if ram_code == 2 {
        8192
    } else if ram_code == 3 {
        32768
    } else if ram_code == 4 {
        131072
    } else if ram_code == 5 {
        65536
    } else {
        return Err(CartError::BadRamSize(ram_code));
    };
    let rom_size: u32 = if code == 0 {
        0x8000
    } else if code == 1 {
        0x10000
    } else if code == 2 {
        0x20000
    } else if code == 3 {
        0x40000
    } else if code == 4 {
        0x80000
    } else if code == 5 {
        0x100000
    } else if code == 6 {
        0x200000
    } else if code == 7 {
        0x400000
    } else {
        0x800000
    };
    let title = text_bytes(bytes_until_zero(rom, TITLE_START, TITLE_END));
    let manufacturer_code = text_bytes(bytes_until_zero(rom, MANUFACTURER_START, TITLE_END));
    Ok(
        CartridgeHeader {
            title,
            manufacturer_code,
            is_sgb: rom[SGB_FLAG] != 0x03,
            cart_type: rom[CART_TYPE],
            rom_size,
            ram_size,
            num_rom_banks: (rom_size / ROM_BANK_LEN) as u16,
        },
    )
}

/// The banking scheme of a cartridge.
#[derive(Clone, Copy, Debug, PartialEq, Eq, Structural)]
pub enum MemoryBankController {
    MBC0,
    MBC1,
    MBC3,
    MBC5,
}

/// The controller that a cartridge-type byte names, if supported.
pub open spec fn controller_of(cart_type: u8) -> Option<MemoryBankController> {
    if cart_type == 0x00 {
        Some(MemoryBankController::MBC0)
    } else if 0x01 <= cart_type <= 0x03 {
        Some(MemoryBankController::MBC1)
    } else if 0x0F <= cart_type <= 0x13 {
        Some(MemoryBankController::MBC3)
    } else if 0x19 <= cart_type <= 0x1E {
        Some(MemoryBankController::MBC5)
    } else {
        None
    }
}

/// Whether `addr` is one the cartridge answers: 0000-7FFF or A000-BFFF.
pub open spec fn is_cart_addr(addr: u16) -> bool {
    addr <= 0x7FFF || (0xA000 <= addr <= 0xBFFF)
}

/// The primary ROM-bank register of an MBC1 after a write of `val`: five
/// bits, 0 read as 1, then masked to the banks the cartridge has.
pub open spec fn mbc1_bank(val: u8, num_rom_banks: u16) -> u16 {
    let five = (val & 0x1F) as u16;
    (if five == 0 {
        1u16
    } else {
        five
    }) & ((num_rom_banks - 1) as u16)
}

/// A cartridge: its ROM and RAM and the registers of its controller.
pub struct Cartridge {
    pub rom: Vec<u8>,
    pub ram: Vec<u8>,
    pub header: CartridgeHeader,
    pub mbc: MemoryBankController,
    pub ram_en: bool,
    /// The primary ROM-bank register.
    pub rom_bank: u16,
    /// The 2-bit secondary register of an MBC1, or the RAM bank of an MBC3
    /// or MBC5.
    pub secondary: u8,
    /// The MBC1 bank mode: advanced when set.
    pub adv_mode: bool,
    /// Whether an MBC3 maps a clock register, not RAM, at A000-BFFF.
    pub rtc_select: bool,
    /// The last value written to the MBC3 clock latch.
    pub latch: u8,
}

impl Cartridge {
    pub open spec fn wf(&self) -> bool {
        &&& self.header.wf()
        &&& self.rom@.len() == self.header.rom_size
        &&& self.ram@.len() == self.header.ram_size
        &&& self.rom_bank < 512
        &&& self.secondary < 16
        &&& self.mbc == MemoryBankController::MBC1 ==> self.rom_bank < 32 && self.secondary <= 3
        &&& controller_of(self.header.cart_type) == Some(self.mbc)
    }

    /// ROM byte at `offset`, taken modulo the ROM size.
    pub open spec fn rom_byte(&self, offset: int) -> u8 {
        self.rom@[offset % (self.rom@.len() as int)]
    }

    /// Offset into RAM, before the modulo, for an address in A000-BFFF.
    pub open spec fn ram_offset(&self, addr: u16) -> int {
        let bank = match self.mbc {
            MemoryBankController::MBC1 => if self.adv_mode {
                self.secondary as int
            } else {
                0
            },
            _ => self.secondary as int,
        };
        bank * RAM_BANK_LEN + (addr - 0xA000)
    }

    /// Whether A000-BFFF reads and writes reach RAM.
    pub open spec fn ram_mapped(&self) -> bool {
        &&& self.mbc != MemoryBankController::MBC0
        &&& self.ram_en
        &&& !(self.mbc == MemoryBankController::MBC3 && self.rtc_select)
        &&& self.ram@.len() > 0
    }

    /// What a read of `addr` returns.
    pub open spec fn peek(&self, addr: u16) -> u8 {
        if addr <= 0x3FFF {
            let bank = if self.mbc == MemoryBankController::MBC1 && self.adv_mode {
                self.secondary * 32
            } else {
                0
            };
            self.rom_byte(bank * ROM_BANK_LEN + addr)
        } else if addr <= 0x7FFF {
            let bank = match self.mbc {
                MemoryBankController::MBC0 => 1,
                MemoryBankController::MBC1 => self.rom_bank + self.secondary * 32,
                _ => self.rom_bank as int,
            };
            self.rom_byte(bank * ROM_BANK_LEN + (addr - 0x4000))
        } else if self.ram_mapped() {
            self.ram@[self.ram_offset(addr) % (self.ram@.len() as int)]
        } else if self.mbc == MemoryBankController::MBC3 && self.ram_en && self.rtc_select {
            0
        } else {
            0xFF
        }
    }

    /// The controller registers after a write of `val` to `addr` in
    /// 0000-7FFF, and RAM after a write to A000-BFFF.
    pub open spec fn write_spec(old: &Cartridge, new: &Cartridge, addr: u16, val: u8) -> bool {
        let kept_regs = new.ram_en == old.ram_en && new.rom_bank == old.rom_bank && new.secondary
            == old.secondary && new.adv_mode == old.adv_mode && new.rtc_select == old.rtc_select
            && new.latch == old.latch;
        &&& new.rom@ == old.rom@
        &&& new.header.fields() == old.header.fields()
        &&& new.header.num_rom_banks == old.header.num_rom_banks
        &&& new.mbc == old.mbc
        &&& if old.mbc == MemoryBankController::MBC0 {
            kept_regs && new.ram@ == old.ram@
        } else if addr <= 0x1FFF {
            &&& new.ram_en == ((val & 0xF) == 0xA)
            &&& new.rom_bank == old.rom_bank && new.secondary == old.secondary
            &&& new.adv_mode == old.adv_mode && new.rtc_select == old.rtc_select
            &&& new.latch == old.latch
            &&& new.ram@ == old.ram@
        } else if addr <= 0x3FFF {
            &&& new.rom_bank == match old.mbc {
                MemoryBankController::MBC1 => mbc1_bank(val, old.header.num_rom_banks),
                MemoryBankController::MBC3 => {
                    let seven = (val & 0x7F) as u16;
                    if seven == 0 {
                        1u16
                    } else {
                        seven
                    }
                },
                _ => if addr <= 0x2FFF {
                    ((old.rom_bank & 0x100) | val as u16) as u16
                } else {
                    ((old.rom_bank & 0xFF) | (((val & 1) as u16) << 8u16)) as u16
                },
            }
            &&& new.ram_en == old.ram_en && new.secondary == old.secondary
            &&& new.adv_mode == old.adv_mode && new.rtc_select == old.rtc_select
            &&& new.latch == old.latch
            &&& new.ram@ == old.ram@
        } else if addr <= 0x5FFF {
            &&& match old.mbc {
                MemoryBankController::MBC1 => {
                    &&& new.secondary == if old.header.num_rom_banks >= 64 || old.header.ram_size
                        >= 32768 {
                        val & 0x3
                    } else {
                        old.secondary
                    }
                    &&& new.rtc_select == old.rtc_select
                },
                MemoryBankController::MBC3 => if val <= 0x3 {
                    new.secondary == val && !new.rtc_select
                } else if 0x8 <= val <= 0xC {
                    new.secondary == old.secondary && new.rtc_select
                } else {
                    new.secondary == old.secondary && new.rtc_select == old.rtc_select
                },
                _ => new.secondary == val & 0xF && new.rtc_select == old.rtc_select,
            }
            &&& new.ram_en == old.ram_en && new.rom_bank == old.rom_bank
            &&& new.adv_mode == old.adv_mode && new.latch == old.latch
            &&& new.ram@ == old.ram@
        } else if addr <= 0x7FFF {
            &&& new.adv_mode == if old.mbc == MemoryBankController::MBC1 {
                val & 0x1 == 0x1
            } else {
                old.adv_mode
            }
            &&& new.latch == if old.mbc == MemoryBankController::MBC3 {
                val
            } else {
                old.latch
            }
            &&& new.ram_en == old.ram_en && new.rom_bank == old.rom_bank
            &&& new.secondary == old.secondary && new.rtc_select == old.rtc_select
            &&& new.ram@ == old.ram@
        } else {
            &&& kept_regs
            &&& new.ram@ == if old.ram_mapped() {
                old.ram@.update(old.ram_offset(addr) % (old.ram@.len() as int), val)
            } else {
                old.ram@
            }
        }
    }

    /// A cartridge with blank RAM.
    pub fn new(rom: Vec<u8>) -> (r: Result<Cartridge, CartError>)
        ensures
            match r {
                Ok(c) => {
                    &&& c.wf()
                    &&& c.rom@ == rom@
                    &&& header_spec(rom@) == Ok::<_, CartError>(c.header.fields())
                    &&& forall|i: int| 0 <= i < c.ram@.len() ==> c.ram@[i] == 0
                    &&& c.ram_en == false && c.rom_bank == 1 && c.secondary == 0
                    &&& !c.adv_mode && !c.rtc_select
                },
                Err(e) => match header_spec(rom@) {
                    Err(he) => e == he,
                    Ok(h) => if controller_of(h.3) is None {
                        e == CartError::UnknownCartType(h.3)
                    } else {
                        rom@.len() != h.4 && e == CartError::RomSizeMismatch
                    },
                },
            },
    {
        let header = match get_cart_header(rom.as_slice()) {
            Ok(h) => h,
            Err(e) => {
                return Err(e);
            },
        };
        let ram = vec![0u8; header.ram_size as usize];
        Self::with_ram(rom, ram, header)
    }

    /// A cartridge whose RAM is `ram`, as saved earlier.
    pub fn from_parts(rom: Vec<u8>, ram: Vec<u8>) -> (r: Result<Cartridge, CartError>)
        ensures
            match r {
                Ok(c) => {
                    &&& c.wf()
                    &&& c.rom@ == rom@
                    &&& c.ram@ == ram@
                    &&& header_spec(rom@) == Ok::<_, CartError>(c.header.fields())
                },
                Err(e) => match header_spec(rom@) {
                    Err(he) => e == he,
                    Ok(h) => if controller_of(h.3) is None {
                        e == CartError::UnknownCartType(h.3)
                    } else if rom@.len() != h.4 {
                        e == CartError::RomSizeMismatch
                    } else {
                        ram@.len() != h.5 && e == CartError::RamSizeMismatch
                    },
                },
            },
    {
        let header = match get_cart_header(rom.as_slice()) {
            Ok(h) => h,
            Err(e) => {
                return Err(e);
            },
        };
        if ram.len() != header.ram_size as usize {
            if header.cart_type == 0 || (0x01 <= header.cart_type && header.cart_type <= 0x03) || (
            0x0F <= header.cart_type && header.cart_type <= 0x13) || (0x19 <= header.cart_type
                && header.cart_type <= 0x1E) {
                if rom.len() == header.rom_size as usize {
                    return Err(CartError::RamSizeMismatch);
                }
            }
        }
        Self::with_ram(rom, ram, header)
    }

    fn with_ram(rom: Vec<u8>, ram: Vec<u8>, header: CartridgeHeader) -> (r: Result<Cartridge, CartError>)
        requires
            header.wf(),
            header_spec(rom@) == Ok::<_, CartError>(header.fields()),
        ensures
            match r {
                Ok(c) => {
                    &&& c.rom@ == rom@
                    &&& c.ram@ == ram@
                    &&& c.header.fields() == header.fields()
                    &&& c.ram_en == false && c.rom_bank == 1 && c.secondary == 0
                    &&& !c.adv_mode && !c.rtc_select
                    &&& (ram@.len() == header.ram_size ==> c.wf())
                    &&& controller_of(header.cart_type) is Some
                    &&& rom@.len() == header.rom_size
                },
                Err(e) => if controller_of(header.cart_type) is None {
                    e == CartError::UnknownCartType(header.cart_type)
                } else {
                    rom@.len() != header.rom_size && e == CartError::RomSizeMismatch
                },
            },
    {
        let t = header.cart_type;
        let mbc = if t == 0 {
            MemoryBankController::MBC0
        } else if 0x01 <= t && t <= 0x03 {
            MemoryBankController::MBC1
        } else if 0x0F <= t && t <= 0x13 {
            MemoryBankController::MBC3
        } else if 0x19 <= t && t <= 0x1E {
            MemoryBankController::MBC5
        } else {
            return Err(CartError::UnknownCartType(t));
        };
        if rom.len() != header.rom_size as usize {
            return Err(CartError::RomSizeMismatch);
        }
        Ok(
            Cartridge {
                rom,
                ram,
                header,
                mbc,
                ram_en: false,
                rom_bank: 1,
                secondary: 0,
                adv_mode: false,
                rtc_select: false,
                latch: 0,
            },
        )
    }

    /// The RAM, to be saved by the caller.
    pub fn ram(&self) -> (r: &Vec<u8>)
        ensures
            r@ == self.ram@,
    {
        &self.ram
    }

    pub fn get_header(&self) -> (r: &CartridgeHeader)
        ensures
            r.fields() == self.header.fields(),
    {
        &self.header
    }

    #[verifier::spinoff_prover]
    pub fn read(&self, addr: u16) -> (r: u8)
        requires
            self.wf(),
            is_cart_addr(addr),
        ensures
            r == self.peek(addr),
    {
        let rom_len = self.rom.len() as u32;
        if addr <= 0x3FFF {
            let bank: u32 = if self.mbc == MemoryBankController::MBC1 && self.adv_mode {
                self.secondary as u32 * 32
            } else {
                0
            };
            let offset = bank * ROM_BANK_LEN + addr as u32;
            self.rom[(offset % rom_len) as usize]
        } else if addr <= 0x7FFF {
            let bank: u32 = match self.mbc {
                MemoryBankController::MBC0 => 1,
                MemoryBankController::MBC1 => self.rom_bank as u32 + self.secondary as u32 * 32,
                _ => self.rom_bank as u32,
            };
            let offset = bank * ROM_BANK_LEN + (addr - 0x4000) as u32;
            self.rom[(offset % rom_len) as usize]
        } else if self.mbc != MemoryBankController::MBC0 && self.ram_en && !(self.mbc
            == MemoryBankController::MBC3 && self.rtc_select) && self.ram.len() > 0 {
            let offset = self.ram_offset_of(addr);
            self.ram[(offset % self.ram.len() as u32) as usize]
        } else if self.mbc == MemoryBankController::MBC3 && self.ram_en && self.rtc_select {
            0
        } else {
            0xFF
        }
    }

    fn ram_offset_of(&self, addr: u16) -> (r: u32)
        requires
            self.wf(),
            0xA000 <= addr <= 0xBFFF,
        ensures
            r == self.ram_offset(addr),
    {
        let bank: u32 = match self.mbc {
            MemoryBankController::MBC1 => if self.adv_mode {
                self.secondary as u32
            } else {
                0
            },
            _ => self.secondary as u32,
        };
        bank * RAM_BANK_LEN + (addr - 0xA000) as u32
    }

    #[verifier::spinoff_prover]
    pub fn write(&mut self, addr: u16, val: u8)
        requires
            old(self).wf(),
            is_cart_addr(addr),
        ensures
            final(self).wf(),
            Self::write_spec(old(self), final(self), addr, val),
    {
        if self.mbc == MemoryBankController::MBC0 {
            return;
        }
        if addr <= 0x1FFF {
            self.ram_en = (val & 0xF) == 0xA;
        } else if addr <= 0x3FFF {
            match self.mbc {
                MemoryBankController::MBC1 => {
                    let five = (val & 0x1F) as u16;
                    let bank: u16 = if five == 0 {
                        1
                    } else {
                        five
                    };
                    let mask: u16 = self.header.num_rom_banks - 1;
                    self.rom_bank = bank & mask;
                    assert(bank & mask <= mask && bank & mask <= bank) by (bit_vector);
                    assert(val & 0x1F <= 0x1F) by (bit_vector);
                },
                MemoryBankController::MBC3 => {
                    let seven = (val & 0x7F) as u16;
                    self.rom_bank = if seven == 0 {
                        1
                    } else {
                        seven
                    };
                    assert(val & 0x7F <= 0x7F) by (bit_vector);
                },
                _ => {
                    let b = self.rom_bank;
                    if addr <= 0x2FFF {
                        self.rom_bank = (b & 0x100) | val as u16;
                        assert(b < 512 ==> (b & 0x100) | (val as u16) < 512) by (bit_vector);
                    } else {
                        self.rom_bank = (b & 0xFF) | (((val & 1) as u16) << 8u16);
                        assert(b < 512 ==> (b & 0xFF) | (((val & 1) as u16) << 8u16) < 512) by (bit_vector);
                    }
                },
            }
        } else if addr <= 0x5FFF {
            match self.mbc {
                MemoryBankController::MBC1 => {
                    if self.header.num_rom_banks >= 64 || self.header.ram_size >= 32768 {
                        self.secondary = val & 0x3;
                        assert(val & 0x3 <= 3) by (bit_vector);
                    }
                },
                MemoryBankController::MBC3 => {
                    if val <= 0x3 {
                        self.secondary = val;
                        self.rtc_select = false;
                    } else if 0x8 <= val && val <= 0xC {
                        self.rtc_select = true;
                    }
                },
                _ => {
                    self.secondary = val & 0xF;
                    assert(val & 0xF < 16) by (bit_vector);
                },
            }
        } else if addr <= 0x7FFF {
            if self.mbc == MemoryBankController::MBC1 {
                self.adv_mode = val & 0x1 == 0x1;
            } else if self.mbc == MemoryBankController::MBC3 {
                self.latch = val;
            }
        } else if self.ram_en && !(self.mbc == MemoryBankController::MBC3 && self.rtc_select)
            && self.ram.len() > 0 {
            let offset = self.ram_offset_of(addr);
            let idx = (offset % self.ram.len() as u32) as usize;
            self.ram.set(idx, val);
        }
    }
}

/// On an MBC1 the bank that 4000-7FFF shows, `rom_bank + secondary * 32`,
/// is the primary register with the secondary one in bits 5 and 6.
pub proof fn lemma_mbc1_bank_bits(c: Cartridge)
    requires
        c.wf(),
        c.mbc == MemoryBankController::MBC1,
    ensures
        c.rom_bank + c.secondary * 32 == c.rom_bank | ((c.secondary as u16) << 5u16),
{
    let p = c.rom_bank;
    let s = c.secondary as u16;
    assert(p < 32 && s <= 3 ==> p + s * 32 == p | (s << 5u16)) by (bit_vector);
}

/// With a fresh MBC1 of any bank count from 2 to 128, writing bank `n` and
/// reading 0x4000 gives ROM byte `n_masked * 0x4000`, where `n_masked` is
/// `max(1, n & (banks - 1))`. The written value is cut to five bits and a
/// zero is read as one before the bank mask applies, so the law holds only
/// where that order makes no difference (`requires` below); it fails, for
/// one, for `n` = 0x10 on a 16-bank cartridge, which selects bank 0.
pub proof fn lemma_mbc1_bank_select(old: Cartridge, new: Cartridge, n: u8)
    requires
        old.wf(),
        old.mbc == MemoryBankController::MBC1,
        old.secondary == 0,
        old.header.num_rom_banks == 2 || old.header.num_rom_banks == 4 || old.header.num_rom_banks
            == 8 || old.header.num_rom_banks == 16 || old.header.num_rom_banks == 32
            || old.header.num_rom_banks == 64 || old.header.num_rom_banks == 128,
        Cartridge::write_spec(&old, &new, 0x2000, n),
        n & 0x1F == 0 || (n & 0x1F) as u16 & ((old.header.num_rom_banks - 1) as u16) != 0,
        (n as u16) & ((old.header.num_rom_banks - 1) as u16) < 32,
    ensures
        ({
            let masked = (n as u16) & ((old.header.num_rom_banks - 1) as u16);
            let n_masked = if masked == 0 {
                1
            } else {
                masked
            };
            new.peek(0x4000) == old.rom@[n_masked * 0x4000]
        }),
{
    let nb = old.header.num_rom_banks;
    let m = (nb - 1) as u16;
    assert((nb == 2 || nb == 4 || nb == 8 || nb == 16 || nb == 32 || nb == 64 || nb == 128) && m
        == nb - 1 && (n & 0x1F == 0 || (n & 0x1F) as u16 & m != 0) && (n as u16) & m < 32 ==> {
        let five = (n & 0x1F) as u16;
        let sel = (if five == 0 {
            1u16
        } else {
            five
        }) & m;
        let masked = (n as u16) & m;
        &&& sel == (if masked == 0 {
            1u16
        } else {
            masked
        })
        &&& sel < nb
    }) by (bit_vector);
    let bank = new.rom_bank;
    assert(new.secondary == 0);
    assert(bank * 0x4000 < old.rom@.len());
    assert((bank * 0x4000) % (old.rom@.len() as int) == bank * 0x4000) by (nonlinear_arith)
        requires
            bank * 0x4000 < old.rom@.len(),
            0 <= bank,
    ;
}

/// Bytes that a small in-memory cartridge holds.
pub const SMALL_ROM_LEN: u32 = 0x8000;

/// A cartridge image of at most 32 KiB and no RAM.
pub struct SmallInMemoryCartridge {
    pub rom: Vec<u8>,
}

impl SmallInMemoryCartridge {
    /// Copies `data`, refusing an image whose header asks for more than
    /// 32 KiB of ROM or for any RAM.
    pub fn from_slice(data: &[u8]) -> (r: Result<Self, CartError>)
        ensures
            match r {
                Ok(c) => c.rom@ == data@ && (header_spec(data@) matches Ok(h) && h.4 <= SMALL_ROM_LEN && h.5 == 0),
                Err(e) => match header_spec(data@) {
                    Err(he) => e == he,
                    Ok(h) => if h.4 > SMALL_ROM_LEN {
                        e == CartError::RomTooLarge
                    } else {
                        h.5 > 0 && e == CartError::RamUnsupported
                    },
                },
            },
    {
        let header = match get_cart_header(data) {
            Ok(h) => h,
            Err(e) => {
                return Err(e);
            },
        };
        if header.rom_size > SMALL_ROM_LEN {
            return Err(CartError::RomTooLarge);
        }
        if header.ram_size > 0 {
            return Err(CartError::RamUnsupported);
        }
        let mut rom: Vec<u8> = Vec::new();
        let mut i: usize = 0;
        while i < data.len()
            invariant
                i <= data@.len(),
                rom@ == data@.take(i as int),
            decreases data@.len() - i,
        {
            rom.push(data[i]);
            i = i + 1;
            assert(rom@ =~= data@.take(i as int));
        }
        assert(data@.take(data@.len() as int) =~= data@);
        Ok(SmallInMemoryCartridge { rom })
    }
}

} // verus!
