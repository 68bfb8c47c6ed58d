//! The cartridge: a read-only ROM image, an optional 8 KiB RAM window at
//! 0xA000..=0xBFFF, and the header at 0x0100..=0x014F.

use vstd::prelude::*;

verus! {

/// `String::push` appends one character to the end of the string and leaves
/// the rest as it was.
pub assume_specification[ String::push ](s: &mut String, ch: char)
    ensures
        final(s)@ == old(s)@.push(ch),
;

/// The smallest image: two 16 KiB banks, which fill 0x0000..=0x7FFF.
pub const MIN_ROM_LEN: usize = 0x8000;

/// Images come in whole 16 KiB banks.
pub const BANK_LEN: usize = 0x4000;

/// Cartridge RAM is seen through a window of 8 KiB.
pub const RAM_WINDOW_LEN: usize = 0x2000;

/// One past the last byte of the header.
pub const HEADER_END: usize = 0x150;

/// Why an image was not accepted.
#[derive(Clone, Copy, Debug, PartialEq, Eq, Structural)]
pub enum CartridgeError {
    /// The image is too short, or is not a whole number of banks.
    Length,
    /// The ROM-size code in the header is above 8.
    RomSize,
    /// The header checksum does not match the byte at 0x014D.
    Checksum,
}

/// Sum of the bytes of a sequence.
pub open spec fn byte_sum(bytes: Seq<u8>) -> int
    decreases bytes.len(),
{
    if bytes.len() == 0 {
        0
    } else {
        byte_sum(bytes.drop_last()) + bytes.last()
    }
}

/// The header checksum of `bytes`: starting from zero, each byte and one more
/// are taken away; the low eight bits of the outcome are the checksum.
pub open spec fn checksum_of(bytes: Seq<u8>) -> u8 {
    ((-(byte_sum(bytes) + bytes.len())) % 256) as u8
}

/// ROM size in KiB for a ROM-size code: 32 KiB doubled `code` times.
pub open spec fn rom_kib(code: u16) -> nat {
    32 * vstd::arithmetic::power2::pow2(code as nat)
}

/// RAM size in KiB for a RAM-size code; codes above 5 mean no RAM.
pub open spec fn ram_kib(code: u8) -> u8 {
    match code {
        2 => 8,
        3 => 32,
        4 => 128,
        5 => 64,
        _ => 0,
    }
}

/// Each byte read as the character with that code point.
pub open spec fn chars_of(bytes: Seq<u8>) -> Seq<char> {
    Seq::new(bytes.len(), |i: int| bytes[i] as char)
}

/// The publisher of a cartridge. The old code 0x33 defers to the new code,
/// which must be two characters long to name anybody.
pub open spec fn licence_name(old_lic_code: u8, new_lic_code: Seq<u8>) -> Seq<char> {
    if old_lic_code == 0x33 {
        if new_lic_code.len() == 2 {
            new_licence_name(new_lic_code[0], new_lic_code[1])
        } else {
            "None"@
        }
    } else {
        old_licence_name(old_lic_code)
    }
}

/// Why the header of `rom` is not accepted, if it is not.
pub open spec fn header_error(rom: Seq<u8>) -> Option<CartridgeError> {
    if rom.len() < HEADER_END {
        Some(CartridgeError::Length)
    } else if rom[0x148] > 8 {
        Some(CartridgeError::RomSize)
    } else if checksum_of(rom.subrange(0x134, 0x14D)) != rom[0x14D] {
        Some(CartridgeError::Checksum)
    } else {
        None
    }
}

/// Why the image `rom` is not accepted, if it is not.
pub open spec fn load_error(rom: Seq<u8>) -> Option<CartridgeError> {
    if rom.len() < MIN_ROM_LEN || rom.len() % (BANK_LEN as nat) != 0 {
        Some(CartridgeError::Length)
    } else {
        header_error(rom)
    }
}

/// Number of RAM bytes a cartridge with the image `rom` is given: the 8 KiB
/// window if its header announces any RAM, nothing otherwise.
pub open spec fn ram_len(rom: Seq<u8>) -> nat
    recommends
        rom.len() >= HEADER_END,
{
    if ram_kib(rom[0x149]) > 0 {
        RAM_WINDOW_LEN as nat
    } else {
        0
    }
}

/// ROM size in KiB for a ROM-size code of 0..=8.
pub fn rom_size(value: u16) -> (kib: u16)
    requires
        value <= 8,
    ensures
        kib == rom_kib(value),
{
    proof {
        vstd::arithmetic::power2::lemma2_to64();
    }
    match value {
        0 => 32,
        1 => 64,
        2 => 128,
        3 => 256,
        4 => 512,
        5 => 1024,
        6 => 2048,
        7 => 4096,
        _ => 8192,
    }
}

/// The text whose characters have the given bytes as code points.
pub fn to_string(slice: &[u8]) -> (text: String)
    ensures
        text@ == chars_of(slice@),
{
    let mut text = String::new();
    let mut i: usize = 0;
    while i < slice.len()
        invariant
            i <= slice@.len(),
            text@ == chars_of(slice@.take(i as int)),
        decreases slice@.len() - i,
    {
        text.push(slice[i] as char);
        i = i + 1;
        assert(text@ =~= chars_of(slice@.take(i as int)));
    }
    assert(slice@.take(i as int) =~= slice@);
    text
}

/// The bytes of `data` from `from` up to, not including, `to`.
fn copy_range(data: &Vec<u8>, from: usize, to: usize) -> (part: Vec<u8>)
    requires
        from <= to <= data@.len(),
    ensures
        part@ == data@.subrange(from as int, to as int),
{
    let mut part: Vec<u8> = Vec::new();
    let mut i: usize = from;
    while i < to
        invariant
            from <= i <= to <= data@.len(),
            part@ == data@.subrange(from as int, i as int),
        decreases to - i,
    {
        part.push(data[i]);
        i = i + 1;
        assert(part@ =~= data@.subrange(from as int, i as int));
    }
    part
}

/// `len` zero bytes.
pub(crate) fn zeroed(len: usize) -> (bytes: Vec<u8>)
    ensures
        bytes@ == Seq::new(len as nat, |i: int| 0u8),
{
    let mut bytes: Vec<u8> = Vec::new();
    let mut i: usize = 0;
    while i < len
        invariant
            i <= len,
            bytes@ == Seq::new(i as nat, |i: int| 0u8),
        decreases len - i,
    {
        bytes.push(0);
        i = i + 1;
        assert(bytes@ =~= Seq::new(i as nat, |i: int| 0u8));
    }
    bytes
}

/// What the header says of the cartridge.
pub struct Header {
    pub entry: Vec<u8>,
    pub logo: Vec<u8>,
    pub title: String,
    pub licence: &'static str,
    pub sgb_flag: u8,
    pub cart_type: &'static str,
    /// ROM size in KiB.
    pub rom_size: u16,
    /// RAM size in KiB.
    pub ram_size: u8,
    pub dest_code: u8,
    pub version: u8,
}

impl Header {
    /// Every field holds what the image `rom` has at its place in the header.
    pub open spec fn describes(&self, rom: Seq<u8>) -> bool
        recommends
            rom.len() >= HEADER_END,
    {
        &&& self.entry@ == rom.subrange(0x100, 0x104)
        &&& self.logo@ == rom.subrange(0x104, 0x134)
        &&& self.title@ == chars_of(rom.subrange(0x134, 0x144))
        &&& self.licence@ == licence_name(rom[0x14B], rom.subrange(0x144, 0x146))
        &&& self.sgb_flag == rom[0x146]
        &&& self.cart_type@ == cart_type_name(rom[0x147])
        &&& self.rom_size == rom_kib(rom[0x148] as u16)
        &&& self.ram_size == ram_kib(rom[0x149])
        &&& self.dest_code == rom[0x14A]
        &&& self.version == rom[0x14C]
    }

    /// Reads the header out of an image. It fails exactly when
    /// `header_error` names a reason, and with that reason.
    pub fn from(rom_data: &Vec<u8>) -> (result: Result<Header, CartridgeError>)
        ensures
            match result {
                Ok(header) => header_error(rom_data@) is None && header.describes(rom_data@),
                Err(error) => header_error(rom_data@) == Some(error),
            },
    {
        if rom_data.len() < HEADER_END {
            return Err(CartridgeError::Length);
        }
        let rom_code = rom_data[0x148];
        if rom_code > 8 {
            return Err(CartridgeError::RomSize);
        }
        if !Header::checksum(copy_range(rom_data, 0x134, 0x14D), rom_data[0x14D]) {
            return Err(CartridgeError::Checksum);
        }
        let title_bytes = copy_range(rom_data, 0x134, 0x144);
        let new_lic_code = copy_range(rom_data, 0x144, 0x146);
        Ok(
            Header {
                entry: copy_range(rom_data, 0x100, 0x104),
                logo: copy_range(rom_data, 0x104, 0x134),
                title: to_string(title_bytes.as_slice()),
                licence: Header::get_licence(rom_data[0x14B], new_lic_code),
                sgb_flag: rom_data[0x146],
                cart_type: Header::get_type(rom_data[0x147]),
                rom_size: rom_size(rom_code as u16),
                ram_size: Header::get_ram_size(rom_data[0x149]),
                dest_code: rom_data[0x14A],
                version: rom_data[0x14C],
            },
        )
    }

    /// RAM size in KiB for a RAM-size code.
    pub fn get_ram_size(code: u8) -> (kib: u8)
        ensures
            kib == ram_kib(code),
    {
        match code {
            2 => 8,
            3 => 32,
            4 => 128,
            5 => 64,
            _ => 0,
        }
    }

    /// The name of the hardware for a cartridge type code.
    pub fn get_type(code: u8) -> (name: &'static str)
        ensures
            name@ == cart_type_name(code),
    {
        match code {
            0x00 => "ROM ONLY",
            0x01 => "MBC1",
            0x02 => "MBC1+RAM",
            0x03 => "MBC1+RAM+BATTERY",
            0x05 => "MBC2",
            0x06 => "MBC2+BATTERY",
            0x08 => "ROM+RAM",
            0x09 => "ROM+RAM+BATTERY",
            0x0B => "MMM01",
            0x0C => "MMM01+RAM",
            0x0D => "MMM01+RAM+BATTERY",
            0x0F => "MBC3+TIMER+BATTERY",
            0x10 => "MBC3+TIMER+RAM+BATTERY",
            0x11 => "MBC3",
            0x12 => "MBC3+RAM",
            0x13 => "MBC3+RAM+BATTERY",
            0x19 => "MBC5",
            0x1A => "MBC5+RAM",
            0x1B => "MBC5+RAM+BATTERY",
            0x1C => "MBC5+RUMBLE",
            0x1D => "MBC5+RUMBLE+RAM",
            0x1E => "MBC5+RUMBLE+RAM+BATTERY",
            0x20 => "MBC6",
            0x22 => "MBC7+SENSOR+RUMBLE+RAM+BATTERY",
            0xFC => "POCKET CAMERA",
            0xFD => "BANDAI TAMA5",
            0xFE => "HuC3",
            0xFF => "HuC1+RAM+BATTERY",
            _ => "None",
        }
    }

    /// The name of the publisher for the two licensee codes of a header.
    pub fn get_licence(old_lic_code: u8, new_lic_code: Vec<u8>) -> (name: &'static str)
        ensures
            name@ == licence_name(old_lic_code, new_lic_code@),
    {
        if old_lic_code == 0x33 {
            if new_lic_code.len() == 2 {
                new_licence(new_lic_code[0], new_lic_code[1])
            } else {
                "None"
            }
        } else {
            old_licence(old_lic_code)
        }
    }

    /// Says whether `assert_checksum` is the header checksum of
    /// `checksum_vec`.
    pub fn checksum(checksum_vec: Vec<u8>, assert_checksum: u8) -> (matches: bool)
        ensures
            matches == (checksum_of(checksum_vec@) == assert_checksum),
    {
        let mut checksum: u8 = 0;
        let mut i: usize = 0;
        while i < checksum_vec.len()
            invariant
                i <= checksum_vec@.len(),
                checksum == checksum_of(checksum_vec@.take(i as int)),
            decreases checksum_vec@.len() - i,
        {
            let num = checksum_vec[i];
            proof {
                let before = checksum_vec@.take(i as int);
                let after = checksum_vec@.take(i + 1);
                assert(after.drop_last() =~= before);
                assert(byte_sum(after) == byte_sum(before) + num);
            }
            checksum = checksum.wrapping_sub(num).wrapping_sub(1);
            i = i + 1;
        }
        assert(checksum_vec@.take(i as int) =~= checksum_vec@);
        checksum == assert_checksum
    }
}

/// The model of a cartridge: its ROM image and its RAM.
pub struct CartridgeView {
    pub rom: Seq<u8>,
    pub ram: Seq<u8>,
}

impl CartridgeView {
    /// The ROM covers 0x0000..=0x7FFF, and the RAM is the whole window or
    /// absent.
    pub open spec fn wf(self) -> bool {
        &&& self.rom.len() >= MIN_ROM_LEN
        &&& (self.ram.len() == 0 || self.ram.len() == RAM_WINDOW_LEN)
    }

    /// The address lies in the RAM window and the cartridge has RAM.
    pub open spec fn in_ram(self, address: u16) -> bool {
        0xA000 <= address < 0xC000 && self.ram.len() == RAM_WINDOW_LEN
    }

    /// What the cartridge answers at `address`: the ROM byte below 0x8000,
    /// the RAM byte in the window, 0xFF anywhere else.
    pub open spec fn read(self, address: u16) -> u8 {
        if address < 0x8000 {
            self.rom[address as int]
        } else if self.in_ram(address) {
            self.ram[address - 0xA000]
        } else {
            0xFF
        }
    }

    /// The cartridge after a write: RAM takes the byte, ROM and everything
    /// else ignores it.
    pub open spec fn write(self, address: u16, value: u8) -> CartridgeView {
        if self.in_ram(address) {
            CartridgeView { ram: self.ram.update(address - 0xA000, value), ..self }
        } else {
            self
        }
    }
}

/// A loaded cartridge.
pub struct Cartridge {
    filename: String,
    rom_size: usize,
    rom_data: Vec<u8>,
    ram_data: Vec<u8>,
    header: Header,
}

impl View for Cartridge {
    type V = CartridgeView;

    closed spec fn view(&self) -> CartridgeView {
        CartridgeView { rom: self.rom_data@, ram: self.ram_data@ }
    }
}

impl Cartridge {
    /// The model is well formed, and the header and the recorded size are
    /// those of the image.
    pub closed spec fn wf(&self) -> bool {
        &&& self@.wf()
        &&& self.rom_size == self.rom_data@.len()
        &&& self.header.describes(self.rom_data@)
    }

    /// A well-formed cartridge has a well-formed model.
    pub proof fn lemma_wf(&self)
        requires
            self.wf(),
        ensures
            self@.wf(),
    {
    }

    /// The name the image was loaded under.
    pub closed spec fn name(&self) -> Seq<char> {
        self.filename@
    }

    /// The header read from the image.
    pub closed spec fn header_spec(&self) -> Header {
        self.header
    }

    /// Builds a cartridge from the bytes of the image in `rom_file`. It fails
    /// exactly when `load_error` names a reason, and with that reason. The
    /// RAM, if the header announces any, starts out as zeros.
    pub fn from(rom_file: &str, rom_data: Vec<u8>) -> (result: Result<Cartridge, CartridgeError>)
        ensures
            match result {
                Ok(cartridge) => {
                    &&& load_error(rom_data@) is None
                    &&& cartridge.wf()
                    &&& cartridge.name() == rom_file@
                    &&& cartridge@.rom == rom_data@
                    &&& cartridge@.ram == Seq::new(ram_len(rom_data@), |i: int| 0u8)
                    &&& cartridge.header_spec().describes(rom_data@)
                },
                Err(error) => load_error(rom_data@) == Some(error),
            },
    {
        let rom_size = rom_data.len();
        if rom_size < MIN_ROM_LEN || rom_size % BANK_LEN != 0 {
            return Err(CartridgeError::Length);
        }
        match Header::from(&rom_data) {
            Err(error) => Err(error),
            Ok(header) => {
                let ram_data = if header.ram_size > 0 {
                    zeroed(RAM_WINDOW_LEN)
                } else {
                    zeroed(0)
                };
                Ok(
                    Cartridge {
                        filename: String::from_str(rom_file),
                        rom_size,
                        rom_data,
                        ram_data,
                        header,
                    },
                )
            },
        }
    }

    /// Reads the cartridge at `address`.
    pub fn read(&self, address: u16) -> (value: u8)
        requires
            self.wf(),
        ensures
            value == self@.read(address),
    {
        if address < 0x8000 {
            self.rom_data[address as usize]
        } else if 0xA000 <= address && address < 0xC000 && self.ram_data.len() == RAM_WINDOW_LEN {
            self.ram_data[(address - 0xA000) as usize]
        } else {
            0xFF
        }
    }

    /// Writes to the cartridge: its RAM takes the byte, its ROM ignores it.
    pub fn write(&mut self, address: u16, value: u8)
        requires
            old(self).wf(),
        ensures
            final(self).wf(),
            final(self)@ == old(self)@.write(address, value),
            final(self).name() == old(self).name(),
            final(self).header_spec() == old(self).header_spec(),
    {
        if 0xA000 <= address && address < 0xC000 && self.ram_data.len() == RAM_WINDOW_LEN {
            self.ram_data.set((address - 0xA000) as usize, value);
        }
    }

    /// The header read from the image.
    pub fn header(&self) -> (header: &Header)
        ensures
            *header == self.header_spec(),
    {
        &self.header
    }

    /// The name the image was loaded under.
    pub fn filename(&self) -> (name: &str)
        ensures
            name@ == self.name(),
    {
        self.filename.as_str()
    }

    /// Length of the image in bytes.
    pub fn rom_len(&self) -> (len: usize)
        requires
            self.wf(),
        ensures
            len == self@.rom.len(),
    {
        self.rom_size
    }
}

/// The publisher named by a new licensee code: two ASCII characters, given
/// as their bytes. A code that is not listed names nobody.
pub open spec fn new_licence_name(first: u8, second: u8) -> Seq<char> {
    match (first, second) {
        (0x30, 0x30) => "None"@,
        (0x30, 0x31) => "Nintendo R&D"@,
        (0x30, 0x38) => "Capcom"@,
        (0x31, 0x33) => "Electronic Arts"@,
        (0x31, 0x38) => "Hudson Soft"@,
        (0x31, 0x39) => "b-ai"@,
        (0x32, 0x30) => "kss"@,
        (0x32, 0x32) => "pow"@,
        (0x32, 0x34) => "PCM Complete"@,
        (0x32, 0x35) => "san-x"@,
        (0x32, 0x38) => "Kemco Japan"@,
        (0x32, 0x39) => "seta"@,
        (0x33, 0x30) => "Viacom"@,
        (0x33, 0x31) => "Nintendo"@,
        (0x33, 0x32) => "Bandai"@,
        (0x33, 0x33) => "Ocean/Acclaim"@,
        (0x33, 0x34) => "Konami"@,
        (0x33, 0x35) => "Hector"@,
        (0x33, 0x37) => "Taito"@,
        (0x33, 0x38) => "Hudson"@,
        (0x33, 0x39) => "Banpresto"@,
        (0x34, 0x31) => "Ubi Soft"@,
        (0x34, 0x32) => "Atlus"@,
        (0x34, 0x34) => "Malibu"@,
        (0x34, 0x36) => "angel"@,
        (0x34, 0x37) => "Bullet-Proof"@,
        (0x34, 0x39) => "irem"@,
        (0x35, 0x30) => "Absolute"@,
        (0x35, 0x31) => "Acclaim"@,
        (0x35, 0x32) => "Activision"@,
        (0x35, 0x33) => "American sammy"@,
        (0x35, 0x34) => "Konami"@,
        (0x35, 0x35) => "Hi tech entertainment"@,
        (0x35, 0x36) => "LJN"@,
        (0x35, 0x37) => "Matchbox"@,
        (0x35, 0x38) => "Mattel"@,
        (0x35, 0x39) => "Milton Bradley"@,
        (0x36, 0x30) => "Titus"@,
        (0x36, 0x31) => "Virgin"@,
        (0x36, 0x34) => "LucasArts"@,
        (0x36, 0x37) => "Ocean"@,
        (0x36, 0x39) => "Electronic Arts"@,
        (0x37, 0x30) => "Infogrames"@,
        (0x37, 0x31) => "Interplay"@,
        (0x37, 0x32) => "Broderbund"@,
        (0x37, 0x33) => "sculptured"@,
        (0x37, 0x35) => "sci"@,
        (0x37, 0x38) => "THQ"@,
        (0x37, 0x39) => "Accolade"@,
        (0x38, 0x30) => "misawa"@,
        (0x38, 0x33) => "lozc"@,
        (0x38, 0x36) => "Tokuma Shoten Intermedia"@,
        (0x38, 0x37) => "Tsukuda Original"@,
        (0x39, 0x31) => "Chunsoft"@,
        (0x39, 0x32) => "Video system"@,
        (0x39, 0x33) => "Ocean/Acclaim"@,
        (0x39, 0x35) => "Varie"@,
        (0x39, 0x36) => "Yonezawa/s’pal"@,
        (0x39, 0x37) => "Kaneko"@,
        (0x39, 0x39) => "Pack in soft"@,
        (0x39, 0x48) => "Bottom Up"@,
        (0x41, 0x34) => "Konami (Yu-Gi-Oh!)"@,
        _ => "None"@,
    }
}

/// The publisher named by an old licensee code. A code that is not listed
/// names nobody.
pub open spec fn old_licence_name(code: u8) -> Seq<char> {
    match code {
        0x00 => "None"@,
        0x01 => "Nintendo"@,
        0x08 => "Capcom"@,
        0x09 => "Hot-B"@,
        0x0A => "Jaleco"@,
        0x0B => "Coconuts Japan"@,
        0x0C => "Elite Systems"@,
        0x13 => "EA (Electronic Arts)"@,
        0x18 => "Hudsonsoft"@,
        0x19 => "ITC Entertainment"@,
        0x1A => "Yanoman"@,
        0x1D => "Japan Clary"@,
        0x1F => "Virgin Interactive"@,
        0x24 => "PCM Complete"@,
        0x25 => "San-X"@,
        0x28 => "Kotobuki Systems"@,
        0x29 => "Seta"@,
        0x30 => "Infogrames"@,
        0x31 => "Nintendo"@,
        0x32 => "Bandai"@,
        0x34 => "Konami"@,
        0x35 => "HectorSoft"@,
        0x38 => "Capcom"@,
        0x39 => "Banpresto"@,
        0x3C => ".Entertainment i"@,
        0x3E => "Gremlin"@,
        0x41 => "Ubisoft"@,
        0x42 => "Atlus"@,
        0x44 => "Malibu"@,
        0x46 => "Angel"@,
        0x47 => "Spectrum Holoby"@,
        0x49 => "Irem"@,
        0x4A => "Virgin Interactive"@,
        0x4D => "Malibu"@,
        0x4F => "U.S. Gold"@,
        0x50 => "Absolute"@,
        0x51 => "Acclaim"@,
        0x52 => "Activision"@,
        0x53 => "American Sammy"@,
        0x54 => "GameTek"@,
        0x55 => "Park Place"@,
        0x56 => "LJN"@,
        0x57 => "Matchbox"@,
        0x59 => "Milton Bradley"@,
        0x5A => "Mindscape"@,
        0x5B => "Romstar"@,
        0x5C => "Naxat Soft"@,
        0x5D => "Tradewest"@,
        0x60 => "Titus"@,
        0x61 => "Virgin Interactive"@,
        0x67 => "Ocean Interactive"@,
        0x69 => "EA (Electronic Arts)"@,
        0x6E => "Elite Systems"@,
        0x6F => "Electro Brain"@,
        0x70 => "Infogrames"@,
        0x71 => "Interplay"@,
        0x72 => "Broderbund"@,
        0x73 => "Sculptered Soft"@,
        0x75 => "The Sales Curve"@,
        0x78 => "t.hq"@,
        0x79 => "Accolade"@,
        0x7A => "Triffix Entertainment"@,
        0x7C => "Microprose"@,
        0x7F => "Kemco"@,
        0x80 => "Misawa Entertainment"@,
        0x83 => "Lozc"@,
        0x86 => "Tokuma Shoten Intermedia"@,
        0x8B => "Bullet-Proof Software"@,
        0x8C => "Vic Tokai"@,
        0x8E => "Ape"@,
        0x8F => "I’Max"@,
        0x91 => "Chunsoft Co."@,
        0x92 => "Video System"@,
        0x93 => "Tsubaraya Productions Co."@,
        0x95 => "Varie Corporation"@,
        0x96 => "Yonezawa/S’Pal"@,
        0x97 => "Kaneko"@,
        0x99 => "Arc"@,
        0x9A => "Nihon Bussan"@,
        0x9B => "Tecmo"@,
        0x9C => "Imagineer"@,
        0x9D => "Banpresto"@,
        0x9F => "Nova"@,
        0xA1 => "Hori Electric"@,
        0xA2 => "Bandai"@,
        0xA4 => "Konami"@,
        0xA6 => "Kawada"@,
        0xA7 => "Takara"@,
        0xA9 => "Technos Japan"@,
        0xAA => "Broderbund"@,
        0xAC => "Toei Animation"@,
        0xAD => "Toho"@,
        0xAF => "Namco"@,
        0xB0 => "acclaim"@,
        0xB1 => "ASCII or Nexsoft"@,
        0xB2 => "Bandai"@,
        0xB4 => "Square Enix"@,
        0xB6 => "HAL Laboratory"@,
        0xB7 => "SNK"@,
        0xB9 => "Pony Canyon"@,
        0xBA => "Culture Brain"@,
        0xBB => "Sunsoft"@,
        0xBD => "Sony Imagesoft"@,
        0xBF => "Sammy"@,
        0xC0 => "Taito"@,
        0xC2 => "Kemco"@,
        0xC3 => "Squaresoft"@,
        0xC4 => "Tokuma Shoten Intermedia"@,
        0xC5 => "Data East"@,
        0xC6 => "Tonkinhouse"@,
        0xC8 => "Koei"@,
        0xC9 => "UFL"@,
        0xCA => "Ultra"@,
        0xCB => "Vap"@,
        0xCC => "Use Corporation"@,
        0xCD => "Meldac"@,
        0xCE => ".Pony Canyon or"@,
        0xCF => "Angel"@,
        0xD0 => "Taito"@,
        0xD1 => "Sofel"@,
        0xD2 => "Quest"@,
        0xD3 => "Sigma Enterprises"@,
        0xD4 => "ASK Kodansha Co."@,
        0xD6 => "Naxat Soft"@,
        0xD7 => "Copya System"@,
        0xD9 => "Banpresto"@,
        0xDA => "Tomy"@,
        0xDB => "LJN"@,
        0xDD => "NCS"@,
        0xDE => "Human"@,
        0xDF => "Altron"@,
        0xE0 => "Jaleco"@,
        0xE1 => "Towa Chiki"@,
        0xE2 => "Yutaka"@,
        0xE3 => "Varie"@,
        0xE5 => "Epcoh"@,
        0xE7 => "Athena"@,
        0xE8 => "Asmik ACE Entertainment"@,
        0xE9 => "Natsume"@,
        0xEA => "King Records"@,
        0xEB => "Atlus"@,
        0xEC => "Epic/Sony Records"@,
        0xEE => "IGS"@,
        0xF0 => "A Wave"@,
        0xF3 => "Extreme Entertainment"@,
        0xFF => "LJN"@,
        _ => "None"@,
    }
}

/// The hardware named by a cartridge type code. A code that is not listed
/// names none.
pub open spec fn cart_type_name(code: u8) -> Seq<char> {
    match code {
        0x00 => "ROM ONLY"@,
        0x01 => "MBC1"@,
        0x02 => "MBC1+RAM"@,
        0x03 => "MBC1+RAM+BATTERY"@,
        0x05 => "MBC2"@,
        0x06 => "MBC2+BATTERY"@,
        0x08 => "ROM+RAM"@,
        0x09 => "ROM+RAM+BATTERY"@,
        0x0B => "MMM01"@,
        0x0C => "MMM01+RAM"@,
        0x0D => "MMM01+RAM+BATTERY"@,
        0x0F => "MBC3+TIMER+BATTERY"@,
        0x10 => "MBC3+TIMER+RAM+BATTERY"@,
        0x11 => "MBC3"@,
        0x12 => "MBC3+RAM"@,
        0x13 => "MBC3+RAM+BATTERY"@,
        0x19 => "MBC5"@,
        0x1A => "MBC5+RAM"@,
        0x1B => "MBC5+RAM+BATTERY"@,
        0x1C => "MBC5+RUMBLE"@,
        0x1D => "MBC5+RUMBLE+RAM"@,
        0x1E => "MBC5+RUMBLE+RAM+BATTERY"@,
        0x20 => "MBC6"@,
        0x22 => "MBC7+SENSOR+RUMBLE+RAM+BATTERY"@,
        0xFC => "POCKET CAMERA"@,
        0xFD => "BANDAI TAMA5"@,
        0xFE => "HuC3"@,
        0xFF => "HuC1+RAM+BATTERY"@,
        _ => "None"@,
    }
}

fn new_licence(first: u8, second: u8) -> (name: &'static str)
    ensures
        name@ == new_licence_name(first, second),
{
    match (first, second) {
        (0x30, 0x30) => "None",
        (0x30, 0x31) => "Nintendo R&D",
        (0x30, 0x38) => "Capcom",
        (0x31, 0x33) => "Electronic Arts",
        (0x31, 0x38) => "Hudson Soft",
        (0x31, 0x39) => "b-ai",
        (0x32, 0x30) => "kss",
        (0x32, 0x32) => "pow",
        (0x32, 0x34) => "PCM Complete",
        (0x32, 0x35) => "san-x",
        (0x32, 0x38) => "Kemco Japan",
        (0x32, 0x39) => "seta",
        (0x33, 0x30) => "Viacom",
        (0x33, 0x31) => "Nintendo",
        (0x33, 0x32) => "Bandai",
        (0x33, 0x33) => "Ocean/Acclaim",
        (0x33, 0x34) => "Konami",
        (0x33, 0x35) => "Hector",
        (0x33, 0x37) => "Taito",
        (0x33, 0x38) => "Hudson",
        (0x33, 0x39) => "Banpresto",
        (0x34, 0x31) => "Ubi Soft",
        (0x34, 0x32) => "Atlus",
        (0x34, 0x34) => "Malibu",
        (0x34, 0x36) => "angel",
        (0x34, 0x37) => "Bullet-Proof",
        (0x34, 0x39) => "irem",
        (0x35, 0x30) => "Absolute",
        (0x35, 0x31) => "Acclaim",
        (0x35, 0x32) => "Activision",
        (0x35, 0x33) => "American sammy",
        (0x35, 0x34) => "Konami",
        (0x35, 0x35) => "Hi tech entertainment",
        (0x35, 0x36) => "LJN",
        (0x35, 0x37) => "Matchbox",
        (0x35, 0x38) => "Mattel",
        (0x35, 0x39) => "Milton Bradley",
        (0x36, 0x30) => "Titus",
        (0x36, 0x31) => "Virgin",
        (0x36, 0x34) => "LucasArts",
        (0x36, 0x37) => "Ocean",
        (0x36, 0x39) => "Electronic Arts",
        (0x37, 0x30) => "Infogrames",
        (0x37, 0x31) => "Interplay",
        (0x37, 0x32) => "Broderbund",
        (0x37, 0x33) => "sculptured",
        (0x37, 0x35) => "sci",
        (0x37, 0x38) => "THQ",
        (0x37, 0x39) => "Accolade",
        (0x38, 0x30) => "misawa",
        (0x38, 0x33) => "lozc",
        (0x38, 0x36) => "Tokuma Shoten Intermedia",
        (0x38, 0x37) => "Tsukuda Original",
        (0x39, 0x31) => "Chunsoft",
        (0x39, 0x32) => "Video system",
        (0x39, 0x33) => "Ocean/Acclaim",
        (0x39, 0x35) => "Varie",
        (0x39, 0x36) => "Yonezawa/s’pal",
        (0x39, 0x37) => "Kaneko",
        (0x39, 0x39) => "Pack in soft",
        (0x39, 0x48) => "Bottom Up",
        (0x41, 0x34) => "Konami (Yu-Gi-Oh!)",
        _ => "None",
    }
}

fn old_licence(code: u8) -> (name: &'static str)
    ensures
        name@ == old_licence_name(code),
{
    match code {
        0x00 => "None",
        0x01 => "Nintendo",
        0x08 => "Capcom",
        0x09 => "Hot-B",
        0x0A => "Jaleco",
        0x0B => "Coconuts Japan",
        0x0C => "Elite Systems",
        0x13 => "EA (Electronic Arts)",
        0x18 => "Hudsonsoft",
        0x19 => "ITC Entertainment",
        0x1A => "Yanoman",
        0x1D => "Japan Clary",
        0x1F => "Virgin Interactive",
        0x24 => "PCM Complete",
        0x25 => "San-X",
        0x28 => "Kotobuki Systems",
        0x29 => "Seta",
        0x30 => "Infogrames",
        0x31 => "Nintendo",
        0x32 => "Bandai",
        0x34 => "Konami",
        0x35 => "HectorSoft",
        0x38 => "Capcom",
        0x39 => "Banpresto",
        0x3C => ".Entertainment i",
        0x3E => "Gremlin",
        0x41 => "Ubisoft",
        0x42 => "Atlus",
        0x44 => "Malibu",
        0x46 => "Angel",
        0x47 => "Spectrum Holoby",
        0x49 => "Irem",
        0x4A => "Virgin Interactive",
        0x4D => "Malibu",
        0x4F => "U.S. Gold",
        0x50 => "Absolute",
        0x51 => "Acclaim",
        0x52 => "Activision",
        0x53 => "American Sammy",
        0x54 => "GameTek",
        0x55 => "Park Place",
        0x56 => "LJN",
        0x57 => "Matchbox",
        0x59 => "Milton Bradley",
        0x5A => "Mindscape",
        0x5B => "Romstar",
        0x5C => "Naxat Soft",
        0x5D => "Tradewest",
        0x60 => "Titus",
        0x61 => "Virgin Interactive",
        0x67 => "Ocean Interactive",
        0x69 => "EA (Electronic Arts)",
        0x6E => "Elite Systems",
        0x6F => "Electro Brain",
        0x70 => "Infogrames",
        0x71 => "Interplay",
        0x72 => "Broderbund",
        0x73 => "Sculptered Soft",
        0x75 => "The Sales Curve",
        0x78 => "t.hq",
        0x79 => "Accolade",
        0x7A => "Triffix Entertainment",
        0x7C => "Microprose",
        0x7F => "Kemco",
        0x80 => "Misawa Entertainment",
        0x83 => "Lozc",
        0x86 => "Tokuma Shoten Intermedia",
        0x8B => "Bullet-Proof Software",
        0x8C => "Vic Tokai",
        0x8E => "Ape",
        0x8F => "I’Max",
        0x91 => "Chunsoft Co.",
        0x92 => "Video System",
        0x93 => "Tsubaraya Productions Co.",
        0x95 => "Varie Corporation",
        0x96 => "Yonezawa/S’Pal",
        0x97 => "Kaneko",
        0x99 => "Arc",
        0x9A => "Nihon Bussan",
        0x9B => "Tecmo",
        0x9C => "Imagineer",
        0x9D => "Banpresto",
        0x9F => "Nova",
        0xA1 => "Hori Electric",
        0xA2 => "Bandai",
        0xA4 => "Konami",
        0xA6 => "Kawada",
        0xA7 => "Takara",
        0xA9 => "Technos Japan",
        0xAA => "Broderbund",
        0xAC => "Toei Animation",
        0xAD => "Toho",
        0xAF => "Namco",
        0xB0 => "acclaim",
        0xB1 => "ASCII or Nexsoft",
        0xB2 => "Bandai",
        0xB4 => "Square Enix",
        0xB6 => "HAL Laboratory",
        0xB7 => "SNK",
        0xB9 => "Pony Canyon",
        0xBA => "Culture Brain",
        0xBB => "Sunsoft",
        0xBD => "Sony Imagesoft",
        0xBF => "Sammy",
        0xC0 => "Taito",
        0xC2 => "Kemco",
        0xC3 => "Squaresoft",
        0xC4 => "Tokuma Shoten Intermedia",
        0xC5 => "Data East",
        0xC6 => "Tonkinhouse",
        0xC8 => "Koei",
        0xC9 => "UFL",
        0xCA => "Ultra",
        0xCB => "Vap",
        0xCC => "Use Corporation",
        0xCD => "Meldac",
        0xCE => ".Pony Canyon or",
        0xCF => "Angel",
        0xD0 => "Taito",
        0xD1 => "Sofel",
        0xD2 => "Quest",
        0xD3 => "Sigma Enterprises",
        0xD4 => "ASK Kodansha Co.",
        0xD6 => "Naxat Soft",
        0xD7 => "Copya System",
        0xD9 => "Banpresto",
        0xDA => "Tomy",
        0xDB => "LJN",
        0xDD => "NCS",
        0xDE => "Human",
        0xDF => "Altron",
        0xE0 => "Jaleco",
        0xE1 => "Towa Chiki",
        0xE2 => "Yutaka",
        0xE3 => "Varie",
        0xE5 => "Epcoh",
        0xE7 => "Athena",
        0xE8 => "Asmik ACE Entertainment",
        0xE9 => "Natsume",
        0xEA => "King Records",
        0xEB => "Atlus",
        0xEC => "Epic/Sony Records",
        0xEE => "IGS",
        0xF0 => "A Wave",
        0xF3 => "Extreme Entertainment",
        0xFF => "LJN",
        _ => "None",
    }
}

} // verus!
