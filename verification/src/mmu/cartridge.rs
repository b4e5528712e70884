use vstd::prelude::*;
use crate::rtc::Rtc;

verus! {

/// The memory bank controller a cartridge carries.
#[derive(Clone, Copy, PartialEq, Eq, Structural, Debug)]
pub enum MbcType {
    RomOnly,
    Mbc1,
    Mbc2,
    Mbc3,
    Mbc5,
}

/// Why a ROM image cannot be loaded.
#[derive(Clone, Copy, PartialEq, Eq, Structural, Debug)]
pub enum CartridgeError {
    /// The cartridge-type byte names a controller that is not emulated.
    UnsupportedCartridgeType(u8),
    /// The RAM-size byte is not one of the known codes.
    UnknownRamBanks(u8),
}

/// The character of a hexadecimal digit (0..=15), with capital letters.
pub open spec fn hex_digit(n: int) -> char {
    if n < 10 {
        (48 + n) as char
    } else {
        (55 + n) as char
    }
}

/// `prefix` followed by `0x` and the two capital hexadecimal digits of `code`.
pub open spec fn with_hex_byte_spec(prefix: Seq<char>, code: u8) -> Seq<char> {
    prefix + seq!['0', 'x', hex_digit(code as int / 16), hex_digit(code as int % 16)]
}

/// The character of a hexadecimal digit, with capital letters.
fn hex_digit_char(n: u8) -> (r: char)
    requires
        n < 16,
    ensures
        r == hex_digit(n as int),
{
    if n < 10 {
        (48 + n) as char
    } else {
        (55 + n) as char
    }
}

/// `prefix` followed by `0x` and the two capital hexadecimal digits of `code`.
fn with_hex_byte(prefix: &str, code: u8) -> (r: String)
    ensures
        r@ == with_hex_byte_spec(prefix@, code),
{
    let mut r = prefix.to_owned();
    push_char(&mut r, '0');
    push_char(&mut r, 'x');
    push_char(&mut r, hex_digit_char(code / 16));
    push_char(&mut r, hex_digit_char(code % 16));
    assert(r@ =~= with_hex_byte_spec(prefix@, code));
    r
}

impl CartridgeError {
    /// The message the error is reported with.
    pub open spec fn message(self) -> Seq<char> {
        match self {
            CartridgeError::UnsupportedCartridgeType(code) => with_hex_byte_spec(
                "Unsupported cartridge type: "@,
                code,
            ),
            CartridgeError::UnknownRamBanks(code) => with_hex_byte_spec(
                "Unknown number of RAM banks: "@,
                code,
            ),
        }
    }

    /// The message the error is reported with, such as
    /// `Unsupported cartridge type: 0x04`.
    pub fn to_string(&self) -> (r: String)
        ensures
            r@ == self.message(),
    {
        match self {
            CartridgeError::UnsupportedCartridgeType(code) => with_hex_byte("Unsupported cartridge type: ", *code),
            CartridgeError::UnknownRamBanks(code) => with_hex_byte("Unknown number of RAM banks: ", *code),
        }
    }
}

/// What the library knows of a cartridge.
pub struct CartridgeView {
    pub rom_banks: usize,
    pub ram_banks: usize,
    pub ram_size: usize,
    pub has_rtc: bool,
    pub has_battery: bool,
    pub rom: Seq<u8>,
    pub ram: Seq<u8>,
    pub name: Seq<char>,
    pub mbc_type: MbcType,
    pub is_cgb: bool,
    pub rtc: Rtc,
    pub last_time: u64,
}

pub struct Cartridge {
    rom_banks: usize,
    ram_banks: usize,
    ram_size: usize,
    has_rtc: bool,
    has_battery: bool,
    rom: Vec<u8>,
    ram: Vec<u8>,
    name: String,
    mbc_type: MbcType,
    is_cgb: bool,
    rtc: Rtc,
    last_time: u64,
}

impl View for Cartridge {
    type V = CartridgeView;

    closed spec fn view(&self) -> CartridgeView {
        CartridgeView {
            rom_banks: self.rom_banks,
            ram_banks: self.ram_banks,
            ram_size: self.ram_size,
            has_rtc: self.has_rtc,
            has_battery: self.has_battery,
            rom: self.rom@,
            ram: self.ram@,
            name: self.name@,
            mbc_type: self.mbc_type,
            is_cgb: self.is_cgb,
            rtc: self.rtc,
            last_time: self.last_time,
        }
    }
}

impl CartridgeView {
    /// The ROM image holds every bank the header announces and the RAM-size code is a
    /// known one.
    pub open spec fn wf(self) -> bool {
        &&& self.rom_banks >= 2
        &&& self.rom.len() >= self.rom_banks * 0x4000
        &&& ram_banks_of(self.ram_size as u8) == Some(self.ram_banks)
        &&& self.ram_size <= 4
    }
}

/// The controller that a cartridge-type byte names, if it is one that is emulated.
pub open spec fn mbc_type_of(code: u8) -> Option<MbcType> {
    if code == 0x00 || code == 0x08 || code == 0x09 {
        Some(MbcType::RomOnly)
    } else if code == 0x01 || code == 0x02 || code == 0x03 || code == 0xEA || code == 0xFF {
        Some(MbcType::Mbc1)
    } else if code == 0x05 || code == 0x06 {
        Some(MbcType::Mbc2)
    } else if code == 0x0F || code == 0x10 || code == 0x11 || code == 0x12 || code == 0x13 || code
        == 0xFC {
        Some(MbcType::Mbc3)
    } else if 0x19 <= code <= 0x1E {
        Some(MbcType::Mbc5)
    } else {
        None
    }
}

/// The number of 8 KiB RAM banks that a RAM-size byte announces, if it is a known code.
pub open spec fn ram_banks_of(code: u8) -> Option<usize> {
    if code == 0 {
        Some(0usize)
    } else if code == 1 || code == 2 {
        Some(1usize)
    } else if code == 3 {
        Some(4usize)
    } else if code == 4 {
        Some(16usize)
    } else {
        None
    }
}

/// Cartridge types that carry a real-time clock.
pub open spec fn has_rtc_of(code: u8) -> bool {
    code == 0x0F || code == 0x10
}

/// Cartridge types that keep their RAM alive with a battery.
pub open spec fn has_battery_of(code: u8) -> bool {
    code == 0x03 || code == 0x06 || code == 0x09 || code == 0x0D || code == 0x0F || code == 0x10
        || code == 0x13 || code == 0x17 || code == 0x1E || code == 0x1B || code == 0x22 || code
        == 0xFD || code == 0xFF
}

/// The title stored in the header from `from` on: the bytes up to the first zero byte,
/// and never past 0x0142, each read as the character with that code.
pub open spec fn title_from(rom: Seq<u8>, from: int) -> Seq<char>
    decreases 0x0143 - from,
{
    if from >= 0x0143 || rom[from] == 0 {
        Seq::empty()
    } else {
        seq![rom[from] as char].add(title_from(rom, from + 1))
    }
}

/// `n` with every bit below its highest set bit also set, as far as 16 positions down.
pub open spec fn smear(n: usize) -> usize {
    let a = n | (n >> 1usize);
    let b = a | (a >> 2usize);
    let c = b | (b >> 4usize);
    c | (c >> 8usize)
}

/// The smallest power of two at least `n` (for `n` up to 2^16), as the bank count of
/// the ROM is rounded; where the rounding would pass the top of `usize` it wraps to zero.
pub open spec fn pow2ceil_spec(n: usize) -> usize {
    if n == 0 {
        0
    } else if smear((n - 1) as usize) == usize::MAX {
        0
    } else {
        (smear((n - 1) as usize) + 1) as usize
    }
}

/// The cartridge RAM a controller is given.
pub open spec fn initial_ram(mbc_type: MbcType) -> Seq<u8> {
    match mbc_type {
        MbcType::Mbc2 => Seq::new(0x200, |i: int| 0x0Fu8),
        MbcType::Mbc5 => Seq::new(0x20000, |i: int| 0xFFu8),
        _ => Seq::new(0x8000, |i: int| 0xFFu8),
    }
}

/// The cartridge that a ROM image describes, when its header names a supported
/// controller and a known RAM size.
pub open spec fn cartridge_of(rom: Seq<u8>, mbc_type: MbcType, ram_banks: usize) -> CartridgeView {
    let p = pow2ceil_spec((rom.len() / 0x4000) as usize);
    CartridgeView {
        rom_banks: if p > 2 { p } else { 2 },
        ram_banks,
        ram_size: rom[0x0149] as usize,
        has_rtc: has_rtc_of(rom[0x0147]),
        has_battery: has_battery_of(rom[0x0147]),
        rom,
        ram: initial_ram(mbc_type),
        name: title_from(rom, 0x0134),
        mbc_type,
        is_cgb: rom[0x0143] == 0xC0 || rom[0x0143] == 0x80,
        rtc: Rtc { seconds: 0, minutes: 0, hours: 0, days_low: 0, days_high: 0 },
        last_time: 0,
    }
}

/// Appends a character to a string.
#[verifier::external_body]
fn push_char(s: &mut String, c: char)
    ensures
        final(s)@ == old(s)@.push(c),
{
    s.push(c);
}

impl Cartridge {
    /// Reads the header of a ROM image.
    pub fn from_rom(rom: Vec<u8>) -> (r: Result<Cartridge, CartridgeError>)
        requires
            rom@.len() >= 0x014A,
        ensures
            mbc_type_of(rom@[0x0147]) is None ==> r == Err::<Cartridge, CartridgeError>(
                CartridgeError::UnsupportedCartridgeType(rom@[0x0147]),
            ),
            mbc_type_of(rom@[0x0147]) is Some && ram_banks_of(rom@[0x0149]) is None ==> r == Err::<
                Cartridge,
                CartridgeError,
            >(CartridgeError::UnknownRamBanks(rom@[0x0149])),
            mbc_type_of(rom@[0x0147]) is Some && ram_banks_of(rom@[0x0149]) is Some ==> r is Ok
                && r->Ok_0@ == cartridge_of(
                rom@,
                mbc_type_of(rom@[0x0147])->Some_0,
                ram_banks_of(rom@[0x0149])->Some_0,
            ),
    {
        let cartridge_type = rom[0x0147];
        let mbc_type = if cartridge_type == 0x00 || cartridge_type == 0x08 || cartridge_type == 0x09 {
            MbcType::RomOnly
        } else if cartridge_type == 0x01 || cartridge_type == 0x02 || cartridge_type == 0x03
            || cartridge_type == 0xEA || cartridge_type == 0xFF {
            MbcType::Mbc1
        } else if cartridge_type == 0x05 || cartridge_type == 0x06 {
            MbcType::Mbc2
        } else if cartridge_type == 0x0F || cartridge_type == 0x10 || cartridge_type == 0x11
            || cartridge_type == 0x12 || cartridge_type == 0x13 || cartridge_type == 0xFC {
            MbcType::Mbc3
        } else if 0x19 <= cartridge_type && cartridge_type <= 0x1E {
            MbcType::Mbc5
        } else {
            return Err(CartridgeError::UnsupportedCartridgeType(cartridge_type));
        };

        let p = Cartridge::pow2ceil(rom.len() / 0x4000);
        let rom_banks = if p > 2 { p } else { 2 };

        let ram_size_code = rom[0x0149];
        let ram_banks: usize = if ram_size_code == 0 {
            0
        } else if ram_size_code == 1 || ram_size_code == 2 {
            1
        } else if ram_size_code == 3 {
            4
        } else if ram_size_code == 4 {
            16
        } else {
            return Err(CartridgeError::UnknownRamBanks(ram_size_code));
        };

        let has_rtc = cartridge_type == 0x0F || cartridge_type == 0x10;
        let has_battery = cartridge_type == 0x03 || cartridge_type == 0x06 || cartridge_type == 0x09
            || cartridge_type == 0x0D || cartridge_type == 0x0F || cartridge_type == 0x10
            || cartridge_type == 0x13 || cartridge_type == 0x17 || cartridge_type == 0x1E
            || cartridge_type == 0x1B || cartridge_type == 0x22 || cartridge_type == 0xFD
            || cartridge_type == 0xFF;

        let mut name = String::new();
        let mut name_index: usize = 0x0134;
        while rom[name_index] != 0x00 && name_index < 0x0143
            invariant
                0x0134 <= name_index <= 0x0143,
                rom@.len() >= 0x014A,
                name@ + title_from(rom@, name_index as int) == title_from(rom@, 0x0134),
            decreases 0x0143 - name_index,
        {
            let c = rom[name_index] as char;
            push_char(&mut name, c);
            name_index += 1;
            assert(name@ + title_from(rom@, name_index as int) =~= title_from(rom@, 0x0134));
        }
        assert(name@ =~= title_from(rom@, 0x0134));

        let is_cgb = rom[0x0143] == 0xC0 || rom[0x0143] == 0x80;

        let ram = match mbc_type {
            MbcType::Mbc2 => vec![0x0Fu8; 0x200],
            MbcType::Mbc5 => vec![0xFFu8; 0x20000],
            _ => vec![0xFFu8; 0x8000],
        };
        assert(ram@ =~= initial_ram(mbc_type));

        Ok(Cartridge {
            rom_banks,
            ram_banks,
            ram_size: ram_size_code as usize,
            has_rtc,
            has_battery,
            rom,
            ram,
            name,
            mbc_type,
            is_cgb,
            rtc: Rtc::new(),
            last_time: 0,
        })
    }

    pub fn get_rom_banks(&self) -> (r: usize)
        ensures
            r == self@.rom_banks,
    {
        self.rom_banks
    }

    pub fn get_ram_banks(&self) -> (r: usize)
        ensures
            r == self@.ram_banks,
    {
        self.ram_banks
    }

    /// The RAM-size code of the header.
    pub fn get_ram_size(&self) -> (r: usize)
        ensures
            r == self@.ram_size,
    {
        self.ram_size
    }

    pub fn has_rtc(&self) -> (r: bool)
        ensures
            r == self@.has_rtc,
    {
        self.has_rtc
    }

    pub fn has_battery(&self) -> (r: bool)
        ensures
            r == self@.has_battery,
    {
        self.has_battery
    }

    pub fn get_rom(&self) -> (r: &[u8])
        ensures
            r@ == self@.rom,
    {
        self.rom.as_slice()
    }

    pub fn get_ram(&self) -> (r: &[u8])
        ensures
            r@ == self@.ram,
    {
        self.ram.as_slice()
    }

    /// Gives the cartridge RAM to be filled in place; its length cannot change.
    pub fn get_ram_mut(&mut self) -> (r: &mut [u8])
        ensures
            r@ == old(self)@.ram,
            final(self)@ == (CartridgeView { ram: final(r)@, ..old(self)@ }),
    {
        self.ram.as_mut_slice()
    }

    /// Replaces the cartridge RAM, as when a saved game is loaded.
    pub fn set_ram(&mut self, ram: Vec<u8>)
        ensures
            final(self)@ == (CartridgeView { ram: ram@, ..old(self)@ }),
    {
        self.ram = ram;
    }

    pub fn get_mbc_type(&self) -> (r: MbcType)
        ensures
            r == self@.mbc_type,
    {
        self.mbc_type
    }

    /// The title from the header.
    pub fn get_name(&self) -> (r: &str)
        ensures
            r@ == self@.name,
    {
        self.name.as_str()
    }

    pub fn is_cgb(&self) -> (r: bool)
        ensures
            r == self@.is_cgb,
    {
        self.is_cgb
    }

    /// The clock registers and the time at which they were last brought up to date.
    pub fn get_last_timestamp(&self) -> (r: (Rtc, u64))
        ensures
            r == (self@.rtc, self@.last_time),
    {
        (self.rtc, self.last_time)
    }

    pub fn set_last_timestamp(&mut self, rtc: Rtc, last_time: u64)
        ensures
            final(self)@ == (CartridgeView { rtc, last_time, ..old(self)@ }),
    {
        self.rtc.seconds = rtc.seconds;
        self.rtc.minutes = rtc.minutes;
        self.rtc.hours = rtc.hours;
        self.rtc.days_low = rtc.days_low;
        self.rtc.days_high = rtc.days_high;
        self.last_time = last_time;
    }

    /// One byte of the ROM image.
    pub fn read_rom(&self, address: usize) -> (r: u8)
        requires
            address < self@.rom.len(),
        ensures
            r == self@.rom[address as int],
    {
        self.rom[address]
    }

    /// One byte of the cartridge RAM.
    pub fn read_ram(&self, address: usize) -> (r: u8)
        requires
            address < self@.ram.len(),
        ensures
            r == self@.ram[address as int],
    {
        self.ram[address]
    }

    /// Stores one byte of the cartridge RAM.
    pub fn write_ram(&mut self, address: usize, value: u8)
        requires
            address < old(self)@.ram.len(),
        ensures
            final(self)@ == (CartridgeView { ram: old(self)@.ram.update(address as int, value), ..old(self)@ }),
    {
        self.ram.set(address, value);
    }

    /// Rounds up to a power of two (see `pow2ceil_spec`).
    fn pow2ceil(i: usize) -> (r: usize)
        ensures
            r == pow2ceil_spec(i),
    {
        if i == 0 {
            return 0;
        }
        let mut i = i - 1;
        i |= i >> 1usize;
        i |= i >> 2usize;
        i |= i >> 4usize;
        i |= i >> 8usize;
        if i == usize::MAX {
            0
        } else {
            i + 1
        }
    }
}

/// A ROM image of two banks announces two banks.
pub proof fn lemma_smear_one()
    by (bit_vector)
    ensures
        smear(1usize) == 1usize,
{
}


/// What the header of a loaded ROM image says, by the cartridge-type byte (0x0147),
/// the RAM-size byte (0x0149) and the color flag (0x0143):
/// - battery-backed RAM: the types whose name carries BATTERY (MBC1 0x03, MBC2 0x06,
///   ROM+RAM 0x09, MMM01 0x0D, MBC3+TIMER 0x0F and 0x10, MBC3 0x13, MBC4 0x17,
///   MBC5 0x1B and 0x1E, MBC7 0x22, HuC3 0xFD, HuC1 0xFF), and no other;
/// - a clock: MBC3+TIMER+BATTERY (0x0F) and MBC3+TIMER+RAM+BATTERY (0x10), and no other;
/// - RAM size codes 0, 1, 2, 3, 4 give 0, 1, 1, 4, 16 banks of 8 KiB;
/// - a color game: flag 0x80 (color features) or 0xC0 (color only).
pub proof fn lemma_header_fields(rom: Seq<u8>, mbc_type: MbcType, ram_banks: usize)
    ensures
        ({
            let c = cartridge_of(rom, mbc_type, ram_banks);
            let t = rom[0x0147];
            &&& c.has_battery <==> (t == 0x03 || t == 0x06 || t == 0x09 || t == 0x0D || t == 0x0F || t == 0x10
                || t == 0x13 || t == 0x17 || t == 0x1B || t == 0x1E || t == 0x22 || t == 0xFD || t == 0xFF)
            &&& c.has_rtc <==> (t == 0x0F || t == 0x10)
            &&& c.is_cgb <==> (rom[0x0143] == 0x80 || rom[0x0143] == 0xC0)
        }),
        ram_banks_of(0) == Some(0usize),
        ram_banks_of(1) == Some(1usize),
        ram_banks_of(2) == Some(1usize),
        ram_banks_of(3) == Some(4usize),
        ram_banks_of(4) == Some(16usize),
        forall|code: u8| code > 4 ==> ram_banks_of(code) is None,
{
}

/// The controller each cartridge-type byte names: ROM only (0x00, with RAM 0x08,
/// with RAM and battery 0x09), MBC1 (0x01..=0x03, and 0xEA, 0xFF), MBC2 (0x05, 0x06),
/// MBC3 (0x0F..=0x13, and 0xFC), MBC5 (0x19..=0x1E); every other byte is refused.
pub proof fn lemma_cartridge_types(t: u8)
    ensures
        mbc_type_of(t) == if t == 0x00 || t == 0x08 || t == 0x09 {
            Some(MbcType::RomOnly)
        } else if 0x01 <= t <= 0x03 || t == 0xEA || t == 0xFF {
            Some(MbcType::Mbc1)
        } else if t == 0x05 || t == 0x06 {
            Some(MbcType::Mbc2)
        } else if 0x0F <= t <= 0x13 || t == 0xFC {
            Some(MbcType::Mbc3)
        } else if 0x19 <= t <= 0x1E {
            Some(MbcType::Mbc5)
        } else {
            None
        },
{
}

} // verus!
