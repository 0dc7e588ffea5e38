use vstd::prelude::*;
use crate::cartridge::{Cartridge, Mirroring};

verus! {

/// How long the header of a ROM image is.
pub const HEADER_SIZE: usize = 16;

/// How long the trainer is that may stand between the header and the program.
pub const TRAINER_SIZE: usize = 512;

/// The size of a page of program ROM.
pub const PRG_PAGE: usize = 0x4000;

/// The size of a page of pattern ROM.
pub const CHR_PAGE: usize = 0x2000;

/// Why a ROM image cannot be loaded.
#[derive(Clone, Copy, Debug, PartialEq, Eq, Structural)]
pub enum RomError {
    /// The image is shorter than a header.
    NoHeader,
    /// The image does not start with `NES` and the byte `$1A`.
    BadMagic,
    /// The image asks for a mapper other than mapper 0.
    UnsupportedMapper(u8),
    /// The image has no program, or more program or patterns than a
    /// cartridge without a mapper can hold.
    BadSize,
    /// The image is shorter than its header says.
    Truncated,
}

/// The header of a ROM image: what its first 16 bytes say.
#[derive(Clone, Copy, Debug, PartialEq, Eq, Structural)]
pub struct Header {
    /// How many pages of 16 KiB the program has.
    pub prg_pages: u8,
    /// How many pages of 8 KiB the patterns have; 0 for pattern RAM.
    pub chr_pages: u8,
    pub mapper: u8,
    pub mirroring: Mirroring,
    /// A trainer of 512 bytes stands before the program.
    pub trainer: bool,
}

/// Whether the image starts with the four bytes that mark a ROM image.
pub open spec fn has_magic(image: Seq<u8>) -> bool {
    image.len() >= 4 && image[0] == 0x4e && image[1] == 0x45 && image[2] == 0x53 && image[3]
        == 0x1a
}

/// What the header of an image says. The mapper's number has its low
/// four bits in the high half of byte 6 and its high four bits in the high
/// half of byte 7; bit 0 of byte 6 is the mirroring and bit 2 the trainer.
pub open spec fn header_of(image: Seq<u8>) -> Header {
    Header {
        prg_pages: image[4],
        chr_pages: image[5],
        mapper: ((image[7] / 16) * 16 + image[6] / 16) as u8,
        mirroring: if image[6] % 2 == 1 {
            Mirroring::Vertical
        } else {
            Mirroring::Horizontal
        },
        trainer: (image[6] / 4) % 2 == 1,
    }
}

impl Header {
    /// Where the program starts in the image.
    pub open spec fn prg_start(self) -> int {
        if self.trainer {
            HEADER_SIZE + TRAINER_SIZE
        } else {
            HEADER_SIZE as int
        }
    }

    /// How long the program is.
    pub open spec fn prg_size(self) -> int {
        self.prg_pages * PRG_PAGE
    }

    /// Where the patterns start in the image.
    pub open spec fn chr_start(self) -> int {
        self.prg_start() + self.prg_size()
    }

    /// How long the image is at least.
    pub open spec fn image_size(self) -> int {
        self.chr_start() + self.chr_pages * CHR_PAGE
    }
}

/// Why the image cannot be loaded, or `None` where it can. The checks are
/// made in this order: the length of the header, the magic, the mapper, the
/// sizes, the length of the image.
pub open spec fn rom_error(image: Seq<u8>) -> Option<RomError> {
    let header = header_of(image);
    if image.len() < HEADER_SIZE {
        Some(RomError::NoHeader)
    } else if !has_magic(image) {
        Some(RomError::BadMagic)
    } else if header.mapper != 0 {
        Some(RomError::UnsupportedMapper(header.mapper))
    } else if header.prg_pages == 0 || header.prg_pages > 2 || header.chr_pages > 1 {
        Some(RomError::BadSize)
    } else if image.len() < header.image_size() {
        Some(RomError::Truncated)
    } else {
        None
    }
}

/// Whether `cart` is the cartridge that the image describes: the program
/// fills the ROM, twice where it has one page; the patterns are ROM where
/// the image holds a page of them and empty RAM where it holds none; the
/// work RAM and the video RAM are empty.
pub open spec fn is_cartridge_of(cart: Cartridge, image: Seq<u8>) -> bool {
    let header = header_of(image);
    &&& cart.mirroring == header.mirroring
    &&& cart.chr_ram == (header.chr_pages == 0)
    &&& forall|i: int|
        0 <= i < 0x8000 ==> cart.prg_rom[i] == image[header.prg_start() + i % header.prg_size()]
    &&& forall|i: int|
        0 <= i < 0x2000 ==> cart.chr[i] == if header.chr_pages == 0 {
            0
        } else {
            image[header.chr_start() + i]
        }
    &&& forall|i: int| 0 <= i < 0x2000 ==> cart.prg_ram[i] == 0
    &&& forall|i: int| 0 <= i < 0x800 ==> cart.vram[i] == 0
}

/// Reads the header of a ROM image.
pub fn parse_header(image: &[u8]) -> (parsed: Result<Header, RomError>)
    ensures
        parsed is Ok <==> image@.len() >= HEADER_SIZE && has_magic(image@),
        parsed matches Ok(header) ==> header == header_of(image@),
        parsed matches Err(error) ==> error == if image@.len() < HEADER_SIZE {
            RomError::NoHeader
        } else {
            RomError::BadMagic
        },
{
    if image.len() < HEADER_SIZE {
        return Err(RomError::NoHeader);
    }
    if image[0] != 0x4e || image[1] != 0x45 || image[2] != 0x53 || image[3] != 0x1a {
        return Err(RomError::BadMagic);
    }
    let flags: u8 = image[6];
    Ok(
        Header {
            prg_pages: image[4],
            chr_pages: image[5],
            mapper: (image[7] / 16) * 16 + flags / 16,
            mirroring: if flags % 2 == 1 {
                Mirroring::Vertical
            } else {
                Mirroring::Horizontal
            },
            trainer: (flags / 4) % 2 == 1,
        },
    )
}

/// Makes the cartridge that a ROM image describes, or says why the image
/// cannot be loaded.
pub fn load_image(image: &[u8]) -> (loaded: Result<Cartridge, RomError>)
    ensures
        loaded is Ok <==> rom_error(image@) is None,
        loaded matches Ok(cart) ==> is_cartridge_of(cart, image@),
        loaded matches Err(error) ==> rom_error(image@) == Some(error),
{
    let header: Header = match parse_header(image) {
        Ok(header) => header,
        Err(error) => {
            return Err(error);
        },
    };
    if header.mapper != 0 {
        return Err(RomError::UnsupportedMapper(header.mapper));
    }
    if header.prg_pages == 0 || header.prg_pages > 2 || header.chr_pages > 1 {
        return Err(RomError::BadSize);
    }
    let prg_start: usize = if header.trainer {
        HEADER_SIZE + TRAINER_SIZE
    } else {
        HEADER_SIZE
    };
    let prg_size: usize = header.prg_pages as usize * PRG_PAGE;
    let chr_start: usize = prg_start + prg_size;
    let chr_size: usize = header.chr_pages as usize * CHR_PAGE;
    if image.len() < chr_start + chr_size {
        return Err(RomError::Truncated);
    }
    let mut cart: Cartridge = Cartridge::new(header.mirroring);
    let mut i: usize = 0;
    while i < 0x8000
        invariant
            i <= 0x8000,
            prg_size == header.prg_size(),
            prg_start == header.prg_start(),
            0 < prg_size,
            prg_start + prg_size <= image@.len(),
            cart.mirroring == header.mirroring,
            cart.chr_ram,
            forall|j: int| 0 <= j < i ==> cart.prg_rom[j] == image@[prg_start + j % (prg_size as int)],
            forall|j: int| 0 <= j < 0x2000 ==> cart.chr[j] == 0,
            forall|j: int| 0 <= j < 0x2000 ==> cart.prg_ram[j] == 0,
            forall|j: int| 0 <= j < 0x800 ==> cart.vram[j] == 0,
        decreases 0x8000 - i,
    {
        cart.prg_rom[i] = image[prg_start + i % prg_size];
        i = i + 1;
    }
    if header.chr_pages == 1 {
        let mut k: usize = 0;
        while k < 0x2000
            invariant
                k <= 0x2000,
                chr_start == header.chr_start(),
                prg_size == header.prg_size(),
                prg_start == header.prg_start(),
                chr_start + 0x2000 <= image@.len(),
                cart.mirroring == header.mirroring,
                cart.chr_ram,
                forall|j: int|
                    0 <= j < 0x8000 ==> cart.prg_rom[j] == image@[prg_start + j % (
                    prg_size as int)],
                forall|j: int| 0 <= j < k ==> cart.chr[j] == image@[chr_start + j],
                forall|j: int| 0 <= j < 0x2000 ==> cart.prg_ram[j] == 0,
                forall|j: int| 0 <= j < 0x800 ==> cart.vram[j] == 0,
            decreases 0x2000 - k,
        {
            cart.chr[k] = image[chr_start + k];
            k = k + 1;
        }
        cart.chr_ram = false;
    }
    Ok(cart)
}

} // verus!
